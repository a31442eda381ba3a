//! The soil under a cell.

use vstd::prelude::*;

verus! {

/// How many counted parts make one unit of energy. All energies of the world, in soil and
/// in organisms, are whole numbers of these parts.
pub const ENERGY_UNIT: u64 = 1_000_000;

/// More organics than this in the soil kills whoever lives on it (roots excepted).
pub const MAX_ORGANIC_LIFE: u8 = 16;

/// More soil energy than this kills whoever lives on it (reactors excepted): 32 units.
pub const MAX_ENERGY_LIFE: u64 = 32_000_000;

/// The soil layer: decomposable matter and the energy stored in the ground.
#[derive(Debug, Clone, Copy, PartialEq, Eq, Structural)]
pub struct SoilCell {
    pub organics: u8,
    /// In parts of [`ENERGY_UNIT`].
    pub energy: u64,
}

impl Default for SoilCell {
    fn default() -> (cell: SoilCell)
        ensures
            cell.organics == 0,
            cell.energy == 0,
    {
        SoilCell { organics: 0, energy: 0 }
    }
}

} // verus!
