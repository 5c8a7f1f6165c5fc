//! One contribution to the time-resolved framebuffer.

use glam::Vec3;

use vstd::prelude::*;

verus! {

/// A path's satisfaction, addressed by pixel and time bin.
#[derive(Clone, Copy, Debug)]
pub struct Deposit {
    /// `(x, y)` pixel coordinate.
    pub pixel: (usize, usize),
    /// Time bin to credit.
    pub bin: usize,
    /// Linear-RGB radiance to add, already scaled by the path's throughput
    /// and the pulse weight.
    pub color: Vec3,
}

} // verus!
