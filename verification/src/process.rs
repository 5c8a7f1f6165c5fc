//! The process vocabulary shared by the renderer and the vision pipeline:
//! occasions that prehend data and perish into a satisfaction, and the
//! append-only public world into which satisfied occasions are deposited.
//! Also the structured refusal of a spectral budget.

use vstd::prelude::*;

verus! {

/// An actual occasion of becoming. Prehends antecedent data, concresces,
/// and perishes into a determinate satisfaction.
pub trait Occasion {
    /// What the occasion takes account of: the prehended data.
    type Datum;
    /// What the occasion perishes into: its objectified contribution.
    type Satisfaction;

    fn datum(&self) -> &Self::Datum;

    fn is_satisfied(&self) -> bool;

    fn satisfaction(&self) -> Option<&Self::Satisfaction>;
}

/// The public world: append-only objectification of perished occasions.
/// New occasions prehend from it rather than reconstructing the past.
pub trait PublicWorld {
    type Inhabitant;

    fn deposit(&mut self, x: Self::Inhabitant);
}

/// A refused admission: a candidate diameter above the ceiling
/// `ring_down_factor · principal_period` of a spectral budget.
///
/// The budget itself computes in double precision; each field here holds
/// the IEEE-754 bit pattern of the corresponding double, so that the value
/// travels through the library exactly as it was computed.
#[derive(Clone, Copy, Debug, PartialEq, Eq, Structural)]
pub enum BudgetError {
    Exceeded {
        /// Bit pattern of the diameter that was rejected.
        diameter: u64,
        /// Bit pattern of the admission ceiling at the time of the call.
        bound: u64,
        /// Bit pattern of `T_1`, the principal period of the bounded domain.
        principal_period: u64,
        /// Bit pattern of the multiplier applied to `T_1` to compute `bound`.
        ring_down_factor: u64,
    },
}

} // verus!
