//! Forward-error-correction stripe geometry.

use vstd::prelude::*;

use crate::num::{sat_usize, saturating_mul_usize};

verus! {

/// Symbols of one stripe: the code works over bytes, so data and parity
/// together stay below 256.
pub const MAX_STRIPE_CELLS: usize = 255;

/// Shape of one protected stripe.
#[derive(Clone, Copy, Debug, PartialEq, Eq, Structural)]
pub struct FecGeometryV2 {
    pub data_cells: usize,
    pub parity_cells: usize,
}

impl FecGeometryV2 {
    /// A stripe has at least one data and one parity Cell and fits the code.
    pub open spec fn spec_is_valid(&self) -> bool {
        &&& self.data_cells >= 1
        &&& self.parity_cells >= 1
        &&& self.data_cells + self.parity_cells <= MAX_STRIPE_CELLS
    }

    /// A stripe has at least one data and one parity Cell and fits the code.
    #[verifier::when_used_as_spec(spec_is_valid)]
    pub fn is_valid(&self) -> (r: bool)
        ensures
            r == self.spec_is_valid(),
    {
        self.data_cells >= 1 && self.parity_cells >= 1 && self.data_cells <= MAX_STRIPE_CELLS
            && self.parity_cells <= MAX_STRIPE_CELLS && self.data_cells + self.parity_cells
            <= MAX_STRIPE_CELLS
    }

    /// Parity costs at most half of the data it protects.
    pub open spec fn spec_within_half_overhead(&self) -> bool {
        sat_usize(self.parity_cells * 1_000) <= sat_usize(self.data_cells * 500)
    }

    /// Parity costs at most half of the data it protects.
    #[verifier::when_used_as_spec(spec_within_half_overhead)]
    pub fn within_half_overhead(&self) -> (r: bool)
        ensures
            r == self.spec_within_half_overhead(),
    {
        saturating_mul_usize(self.parity_cells, 1_000) <= saturating_mul_usize(
            self.data_cells,
            500,
        )
    }
}

/// On a valid stripe the overhead guard is the plain ratio: twice the parity
/// fits into the data.
pub proof fn lemma_half_overhead_of_valid_stripe(geometry: FecGeometryV2)
    requires
        geometry.is_valid(),
    ensures
        geometry.within_half_overhead() == (2 * geometry.parity_cells <= geometry.data_cells),
{
}

} // verus!
