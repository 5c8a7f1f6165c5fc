use glam::Vec3;

use lux_aurumque::material::{DiffuseLight, Lambertian};
use lux_aurumque::render::{bin_window, pixel_seed, tiles};
use lux_aurumque::transient::Deposit;

#[test]
fn frame_is_cut_into_tiles_row_by_row() {
    let ts = tiles(640, 480, 64);
    assert_eq!(ts.len(), 10 * 8);
    assert_eq!(ts[0], (0, 0, 64, 64));
    assert_eq!(ts[9], (576, 0, 64, 64));
    assert_eq!(ts[10], (0, 64, 64, 64));
    let edge = tiles(130, 70, 64);
    assert_eq!(
        edge,
        vec![
            (0, 0, 64, 64),
            (64, 0, 64, 64),
            (128, 0, 2, 64),
            (0, 64, 64, 6),
            (64, 64, 64, 6),
            (128, 64, 2, 6),
        ]
    );
    assert!(tiles(0, 10, 4).is_empty());
}

#[test]
fn tiles_cover_every_pixel_exactly_once() {
    let (w, h) = (37usize, 23usize);
    let ts = tiles(w, h, 8);
    let mut count = vec![0u32; w * h];
    for (x0, y0, tw, th) in ts {
        for y in y0..y0 + th {
            for x in x0..x0 + tw {
                count[y * w + x] += 1;
            }
        }
    }
    assert!(count.iter().all(|&c| c == 1));
}

#[test]
fn pixel_seeds_mix_the_index() {
    assert_eq!(pixel_seed(0), 0xCAFEBABE_DEADBEEF);
    assert_eq!(pixel_seed(1), 0xCAFEBABE_DEADBEEF ^ 0x9E3779B97F4A7C15);
    assert_eq!(pixel_seed(2), 0xCAFEBABE_DEADBEEF ^ 0x9E3779B97F4A7C15u64.wrapping_mul(2));
    assert_ne!(pixel_seed(640 * 480 - 1), pixel_seed(640 * 480 - 2));
}

#[test]
fn bin_window_is_clipped_to_the_frame() {
    assert_eq!(bin_window(10, 3, 100), (7, 14));
    assert_eq!(bin_window(1, 3, 100), (0, 5));
    assert_eq!(bin_window(98, 3, 100), (95, 100));
    assert_eq!(bin_window(-20, 3, 100), (0, 0));
    assert_eq!(bin_window(500, 3, 100), (497, 100));
}

#[test]
fn materials_keep_their_colours() {
    let l = Lambertian::new(Vec3::new(0.82, 0.76, 0.62));
    assert_eq!(l.albedo, Vec3::new(0.82, 0.76, 0.62));
    let e = DiffuseLight::new(Vec3::new(50.0, 38.0, 18.0));
    assert_eq!(e.intensity, Vec3::new(50.0, 38.0, 18.0));
    let d = Deposit { pixel: (3, 4), bin: 7, color: Vec3::ONE };
    let copy = d;
    assert_eq!(copy.bin, 7);
    assert_eq!(copy.pixel, (3, 4));
}
