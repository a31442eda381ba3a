//! The diffusion of the pollution in the air.

use crate::cells::{area_wf, lemma_with, lies_as, WorldCell};
use crate::grid::{Area, Slot};
use crate::utils::all_foreach_left;
use vstd::prelude::*;

verus! {

/// All the pollution of the nine cells of the area.
pub open spec fn pollution_sum(area: Area<WorldCell>) -> int {
    area.up_left.air.pollution + area.up.air.pollution + area.up_right.air.pollution
        + area.left.air.pollution + area.center.air.pollution + area.right.air.pollution
        + area.down_left.air.pollution + area.down.air.pollution + area.down_right.air.pollution
}

/// Whether the pollution of the area spreads this tick: only where it can be shared out
/// in nine equal parts with nothing left over, each part more than 0 and less than 255.
pub open spec fn pollution_spreads(area: Area<WorldCell>) -> bool {
    &&& pollution_sum(area) % 9 == 0
    &&& 0 < pollution_sum(area) / 9 < 255
}

/// The area after its pollution has diffused. Where it spreads, the three cells up and
/// to the left get one less than the equal share, the three cells down and to the right
/// one more, the other three the share itself; else nothing changes.
///
/// The nine writes are made one after the other, from the upper left to the lower
/// right ([`Area::with`]). Where the grid is so narrow that several places are one cell,
/// the cell ends with what the last of them got.
pub open spec fn air_diffused(area: Area<WorldCell>) -> Area<WorldCell> {
    if pollution_spreads(area) {
        let less = (pollution_sum(area) / 9 - 1) as u8;
        let even = (pollution_sum(area) / 9) as u8;
        let more = (pollution_sum(area) / 9 + 1) as u8;
        let a1 = area.with(Slot::UpLeft, area.up_left.with_pollution(less));
        let a2 = a1.with(Slot::Up, a1.up.with_pollution(less));
        let a3 = a2.with(Slot::UpRight, a2.up_right.with_pollution(even));
        let a4 = a3.with(Slot::Left, a3.left.with_pollution(less));
        let a5 = a4.with(Slot::Center, a4.center.with_pollution(even));
        let a6 = a5.with(Slot::Right, a5.right.with_pollution(more));
        let a7 = a6.with(Slot::DownLeft, a6.down_left.with_pollution(even));
        let a8 = a7.with(Slot::Down, a7.down.with_pollution(more));
        a8.with(Slot::DownRight, a8.down_right.with_pollution(more))
    } else {
        area
    }
}

/// Lets the pollution of the nine cells diffuse.
pub fn update_air(area: &mut Area<WorldCell>)
    ensures
        *final(area) == air_diffused(*old(area)),
{
    let (foreach, left) = all_foreach_left(
        area.up_left.air.pollution,
        area.up.air.pollution,
        area.up_right.air.pollution,
        area.left.air.pollution,
        area.center.air.pollution,
        area.right.air.pollution,
        area.down_left.air.pollution,
        area.down.air.pollution,
        area.down_right.air.pollution,
    );
    if left == 0 && foreach != 0 && foreach != 255 {
        area.up_left.air.pollution = foreach - 1;
        area.echo(Slot::UpLeft);
        area.up.air.pollution = foreach - 1;
        area.echo(Slot::Up);
        area.up_right.air.pollution = foreach;
        area.echo(Slot::UpRight);
        area.left.air.pollution = foreach - 1;
        area.echo(Slot::Left);
        area.center.air.pollution = foreach;
        area.echo(Slot::Center);
        area.right.air.pollution = foreach + 1;
        area.echo(Slot::Right);
        area.down_left.air.pollution = foreach;
        area.echo(Slot::DownLeft);
        area.down.air.pollution = foreach + 1;
        area.echo(Slot::Down);
        area.down_right.air.pollution = foreach + 1;
        area.echo(Slot::DownRight);
    }
}

/// Diffusion neither makes nor loses pollution: where the nine places of the area are
/// nine different cells, the sum over them stays what it was, whether the pollution
/// spreads or not.
pub proof fn lemma_air_diffusion_conserves(area: Area<WorldCell>)
    requires
        area.roomy(),
    ensures
        pollution_sum(air_diffused(area)) == pollution_sum(area),
        !pollution_spreads(area) ==> air_diffused(area) == area,
{
    if pollution_spreads(area) {
        vstd::arithmetic::div_mod::lemma_fundamental_div_mod(pollution_sum(area), 9);
    }
}

/// Diffusion of the pollution moves no area and keeps it coherent and well formed; in a
/// coherent area it changes no organism.
pub proof fn lemma_air_diffused(area: Area<WorldCell>)
    ensures
        lies_as(air_diffused(area), area),
        area.coherent() ==> air_diffused(area).coherent(),
        area_wf(area) ==> area_wf(air_diffused(area)),
        area.coherent() ==> air_diffused(area).center.life == area.center.life,
{
    if pollution_spreads(area) {
        let less = (pollution_sum(area) / 9 - 1) as u8;
        let even = (pollution_sum(area) / 9) as u8;
        let more = (pollution_sum(area) / 9 + 1) as u8;
        let a1 = area.with(Slot::UpLeft, area.up_left.with_pollution(less));
        lemma_with(area, Slot::UpLeft, area.up_left.with_pollution(less));
        let a2 = a1.with(Slot::Up, a1.up.with_pollution(less));
        lemma_with(a1, Slot::Up, a1.up.with_pollution(less));
        let a3 = a2.with(Slot::UpRight, a2.up_right.with_pollution(even));
        lemma_with(a2, Slot::UpRight, a2.up_right.with_pollution(even));
        let a4 = a3.with(Slot::Left, a3.left.with_pollution(less));
        lemma_with(a3, Slot::Left, a3.left.with_pollution(less));
        let a5 = a4.with(Slot::Center, a4.center.with_pollution(even));
        lemma_with(a4, Slot::Center, a4.center.with_pollution(even));
        let a6 = a5.with(Slot::Right, a5.right.with_pollution(more));
        lemma_with(a5, Slot::Right, a5.right.with_pollution(more));
        let a7 = a6.with(Slot::DownLeft, a6.down_left.with_pollution(even));
        lemma_with(a6, Slot::DownLeft, a6.down_left.with_pollution(even));
        let a8 = a7.with(Slot::Down, a7.down.with_pollution(more));
        lemma_with(a7, Slot::Down, a7.down.with_pollution(more));
        lemma_with(a8, Slot::DownRight, a8.down_right.with_pollution(more));
        if area.coherent() {
            assert(a1.center.life == area.center.life);
            assert(a2.center.life == area.center.life);
            assert(a3.center.life == area.center.life);
            assert(a4.center.life == area.center.life);
            assert(a5.center.life == area.center.life);
            assert(a6.center.life == area.center.life);
            assert(a7.center.life == area.center.life);
            assert(a8.center.life == area.center.life);
        }
    }
}

} // verus!
