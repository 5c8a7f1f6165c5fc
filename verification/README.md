# lux_aurumque

A transient path tracer and a budget-guarded multimodal vision pipeline.

- `src/` is the library, verified with Verus: token weights and budget
  bookkeeping, the mock synthesiser, prompt construction and reply reading
  for the vision and video clients, image payload capping, prompt-shape
  presets, and the renderer's tiling and time-bin arithmetic.
- `app/` is the program around it: the floating-point spectral budget, the
  path tracer's geometry and radiance, the asynchronous HTTP clients, file
  loading, and the renderer's `main`.
- `tests/` exercises the library.
