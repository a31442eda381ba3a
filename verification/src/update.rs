//! One step of the world on one neighbourhood: the soil diffuses, the air diffuses, the
//! organism at the centre lives one tick.

use crate::cells::{area_wf, lies_as, WorldCell};
use crate::grid::Area;
use crate::types::State;
use vstd::prelude::*;

pub mod air;
pub mod interpreter;
pub mod life;
pub mod soil;

use air::{air_diffused, lemma_air_diffused, update_air};
use interpreter::{ConditionRolls, Offspring};
use crate::cells::life_cell::LifeCell;
use life::{
    chance_free, killed, life_outcome, may_come_of_life, no_offspring, no_rolls, update_life,
    update_life_with,
};
use soil::{soil_diffused, update_soil};

verus! {

/// The area after the soil energy and the pollution have diffused.
pub open spec fn diffused(area: Area<WorldCell>) -> Area<WorldCell> {
    air_diffused(soil_diffused(area))
}

/// Diffusion moves no area and keeps it coherent and well formed; in a coherent area it
/// changes no organism.
pub proof fn lemma_diffused(area: Area<WorldCell>)
    ensures
        lies_as(diffused(area), area),
        area.coherent() ==> diffused(area).coherent(),
        area_wf(area) ==> area_wf(diffused(area)),
        area.coherent() ==> diffused(area).center.life == area.center.life,
{
    lemma_air_diffused(soil_diffused(area));
}

/// One step of the world on the area: the soil energy diffuses, then the pollution, then
/// the organism at the centre lives one tick. What the tick makes of the organism hangs
/// on random draws (see [`may_come_of_life`]).
///
/// An organism that cannot pay its upkeep dies, whatever its role.
pub fn update_world(state: &State, area: &mut Area<WorldCell>)
    requires
        area_wf(*old(area)),
    ensures
        may_come_of_life(state, diffused(*old(area)), *final(area)),
        area_wf(*final(area)),
        lies_as(*final(area), *old(area)),
        old(area).coherent() ==> final(area).coherent(),
        diffused(*old(area)).center.life matches LifeCell::Alive(life) && life.energy
            < life.ty.spec_consumption() ==> *final(area) == killed(diffused(*old(area))),
        chance_free(diffused(*old(area))) ==> *final(area) == life_outcome(
            state,
            diffused(*old(area)),
            no_rolls(),
            no_offspring(diffused(*old(area))),
        ),
{
    proof {
        lemma_diffused(*area);
    }
    update_soil(area);
    update_air(area);
    update_life(state, area);
}

/// One step of the world on the area, with the random draws given: `rolls` for the
/// conditions of the gene of a stem cell at the centre, `offspring` for the genomes of
/// its stem children.
pub fn update_world_with(
    state: &State,
    area: &mut Area<WorldCell>,
    rolls: ConditionRolls,
    offspring: &Offspring,
)
    requires
        area_wf(*old(area)),
    ensures
        *final(area) == life_outcome(state, diffused(*old(area)), rolls, *offspring),
        offspring.wf() ==> area_wf(*final(area)),
        lies_as(*final(area), *old(area)),
        old(area).coherent() ==> final(area).coherent(),
{
    proof {
        lemma_diffused(*area);
        crate::update::life::lemma_life_outcome_keeps_place(
            state,
            diffused(*area),
            rolls,
            *offspring,
        );
    }
    update_soil(area);
    update_air(area);
    update_life_with(state, area, rolls, offspring);
}

} // verus!
