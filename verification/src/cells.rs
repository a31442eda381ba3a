//! The three layers of one cell of the world.

use vstd::prelude::*;

pub mod air_cell;
pub mod life_cell;
pub mod soil_cell;

use crate::grid::{Area, Slot};
use air_cell::AirCell;
use life_cell::LifeCell;
use soil_cell::SoilCell;

verus! {

/// One cell of the world: who lives there, the soil under it and the air above it.
#[derive(Debug, Clone, Copy, PartialEq, Eq)]
pub struct WorldCell {
    pub life: LifeCell,
    pub soil: SoilCell,
    pub air: AirCell,
}

impl WorldCell {
    /// The cell every world starts from: nobody lives there, the soil is bare and the air
    /// is clean.
    pub open spec fn empty() -> WorldCell {
        WorldCell {
            life: LifeCell::Dead,
            soil: SoilCell { organics: 0, energy: 0 },
            air: AirCell { pollution: 0 },
        }
    }

    /// The cell with `life` as its life layer.
    pub open spec fn with_life(self, life: LifeCell) -> WorldCell {
        WorldCell { life, ..self }
    }

    /// The cell with `energy` in its soil.
    pub open spec fn with_soil_energy(self, energy: u64) -> WorldCell {
        WorldCell { soil: SoilCell { energy, ..self.soil }, ..self }
    }

    /// The cell with `organics` in its soil.
    pub open spec fn with_organics(self, organics: u8) -> WorldCell {
        WorldCell { soil: SoilCell { organics, ..self.soil }, ..self }
    }

    /// The cell with `pollution` in its air.
    pub open spec fn with_pollution(self, pollution: u8) -> WorldCell {
        WorldCell { air: AirCell { pollution }, ..self }
    }

    /// Every gene index that the cell's organism holds points into its gene table, and its
    /// mutation rate is a percentage.
    pub open spec fn wf(&self) -> bool {
        self.life.wf()
    }

    /// Tests [`WorldCell::wf`] at run time.
    pub fn is_well_formed(&self) -> (ok: bool)
        ensures
            ok == self.wf(),
    {
        self.life.is_well_formed()
    }
}

impl Default for WorldCell {
    fn default() -> (cell: WorldCell)
        ensures
            cell == WorldCell::empty(),
            cell.wf(),
    {
        WorldCell {
            life: LifeCell::Dead,
            soil: SoilCell { organics: 0, energy: 0 },
            air: AirCell { pollution: 0 },
        }
    }
}

/// Every one of the nine cells of the area is well formed.
pub open spec fn area_wf(area: Area<WorldCell>) -> bool {
    &&& area.up.wf()
    &&& area.down.wf()
    &&& area.left.wf()
    &&& area.right.wf()
    &&& area.up_left.wf()
    &&& area.up_right.wf()
    &&& area.down_left.wf()
    &&& area.down_right.wf()
    &&& area.center.wf()
}

/// Tests [`area_wf`] at run time.
pub fn area_is_well_formed(area: &Area<WorldCell>) -> (ok: bool)
    ensures
        ok == area_wf(*area),
{
    area.up.is_well_formed() && area.down.is_well_formed() && area.left.is_well_formed()
        && area.right.is_well_formed() && area.up_left.is_well_formed()
        && area.up_right.is_well_formed() && area.down_left.is_well_formed()
        && area.down_right.is_well_formed() && area.center.is_well_formed()
}

/// Whether the area `after` lies where the area `before` lies, on a grid of the same
/// size.
pub open spec fn lies_as(after: Area<WorldCell>, before: Area<WorldCell>) -> bool {
    &&& after.x == before.x
    &&& after.y == before.y
    &&& after.columns == before.columns
    &&& after.rows == before.rows
}

/// A write moves no area, keeps a coherent area coherent, and keeps a well-formed area
/// well formed if what is written is well formed.
pub proof fn lemma_with(area: Area<WorldCell>, slot: Slot, cell: WorldCell)
    ensures
        lies_as(area.with(slot, cell), area),
        area.coherent() ==> area.with(slot, cell).coherent(),
        area_wf(area) && cell.wf() ==> area_wf(area.with(slot, cell)),
        area_wf(area) ==> area.spec_at(slot).wf(),
{
}

} // verus!
