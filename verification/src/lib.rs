//! Verified core of a transient path tracer and a budget-guarded,
//! multimodal vision pipeline.
//!
//! - `process`: occasions, the append-only public world, and the refusal
//!   of a spectral budget.
//! - `tokens`, `caption`, `text`: token weights, the mock synthesiser's
//!   caption, and the string facilities they rest on.
//! - `vision` and `pipeline`: the two faces of the vision layer (antecedents
//!   concresced into a unified scene; inputs synthesised into a scene).
//! - `media`: image decoding and capping, base64 `data:` URIs, MIME types.
//! - `anthropic` and `runway`: the decisions of the two network clients.
//! - `shape`: the prompt-shape presets.
//! - `render`, `material`, `transient`: the renderer's tiling, seeding and
//!   time-bin bookkeeping, and its plain-data types.

pub mod anthropic;
pub mod caption;
pub mod material;
pub mod media;
pub mod pipeline;
pub mod process;
pub mod render;
pub mod runway;
pub mod shape;
pub mod text;
pub mod tokens;
pub mod transient;
pub mod vision;
