//! The diffusion of the energy in the soil.

use crate::cells::WorldCell;
use crate::grid::Area;
use vstd::prelude::*;

verus! {

/// All the soil energy of the nine cells of the area.
pub open spec fn soil_energy_sum(area: Area<WorldCell>) -> int {
    area.up_left.soil.energy + area.up.soil.energy + area.up_right.soil.energy
        + area.left.soil.energy + area.center.soil.energy + area.right.soil.energy
        + area.down_left.soil.energy + area.down.soil.energy + area.down_right.soil.energy
}

/// The area with `energy` in the soil of each of its nine cells.
pub open spec fn with_soil_energy_everywhere(area: Area<WorldCell>, energy: u64) -> Area<
    WorldCell,
> {
    Area {
        up: area.up.with_soil_energy(energy),
        down: area.down.with_soil_energy(energy),
        left: area.left.with_soil_energy(energy),
        right: area.right.with_soil_energy(energy),
        up_left: area.up_left.with_soil_energy(energy),
        up_right: area.up_right.with_soil_energy(energy),
        down_left: area.down_left.with_soil_energy(energy),
        down_right: area.down_right.with_soil_energy(energy),
        center: area.center.with_soil_energy(energy),
        ..area
    }
}

/// The area after its soil energy has spread evenly: each cell holds a ninth of the sum,
/// rounded down to a whole part.
pub open spec fn soil_diffused(area: Area<WorldCell>) -> Area<WorldCell> {
    with_soil_energy_everywhere(area, (soil_energy_sum(area) / 9) as u64)
}

/// Spreads the soil energy of the nine cells evenly over them.
pub fn update_soil(area: &mut Area<WorldCell>)
    ensures
        *final(area) == soil_diffused(*old(area)),
{
    let mut total: u128 = 0;
    total += area.up_left.soil.energy as u128;
    total += area.up.soil.energy as u128;
    total += area.up_right.soil.energy as u128;
    total += area.left.soil.energy as u128;
    total += area.center.soil.energy as u128;
    total += area.right.soil.energy as u128;
    total += area.down_left.soil.energy as u128;
    total += area.down.soil.energy as u128;
    total += area.down_right.soil.energy as u128;
    let foreach: u64 = (total / 9) as u64;
    area.up_left.soil.energy = foreach;
    area.up.soil.energy = foreach;
    area.up_right.soil.energy = foreach;
    area.left.soil.energy = foreach;
    area.center.soil.energy = foreach;
    area.right.soil.energy = foreach;
    area.down_left.soil.energy = foreach;
    area.down.soil.energy = foreach;
    area.down_right.soil.energy = foreach;
}

/// Diffusion keeps the energy of the soil: the sum over the nine cells after it is the
/// sum before it, less the remainder of the division by nine, which is at most eight
/// parts (eight millionths of a unit).
pub proof fn lemma_soil_diffusion_conserves(area: Area<WorldCell>)
    ensures
        soil_energy_sum(soil_diffused(area)) == soil_energy_sum(area) - soil_energy_sum(area) % 9,
        0 <= soil_energy_sum(area) - soil_energy_sum(soil_diffused(area)) <= 8,
{
    let sum = soil_energy_sum(area);
    vstd::arithmetic::div_mod::lemma_fundamental_div_mod(sum, 9);
}

} // verus!
