//! The execution of the active gene of a stem cell.
//!
//! What a gene does is a function of the neighbourhood, of the cell, of its genome and of
//! a few random draws: [`gene_outcome`]. [`execute_gene`] computes that function for
//! given draws; [`process_genome`] makes the draws.

use crate::cells::life_cell::genome::{
    Gene, GeneAction, GeneCondition, GeneDirectionAction, GeneLocation, Genome,
};
use crate::cells::life_cell::{AliveCell, LifeCell, LifeType};
use crate::cells::{area_wf, lemma_with, lies_as, WorldCell};
use crate::grid::{Area, Slot};
use crate::random::random_byte;
use crate::types::{CellDir, State};
use crate::update::life::{check_gene_condition, condition_holds, no_rolls};
use rand::rngs::ThreadRng;
use vstd::prelude::*;

verus! {

/// The random bytes for the five conditions of a gene. A byte counts only where its
/// condition is [`GeneCondition::RandomMT`].
#[derive(Debug, Clone, Copy, PartialEq, Eq, Structural)]
pub struct ConditionRolls {
    pub main_action: u8,
    pub additional_action1: u8,
    pub additional_action2: u8,
    pub branch1: u8,
    pub branch2: u8,
}

/// For each direction the genome that a stem cell born there starts from, before its
/// active gene is set. A genome counts only where the gene bears a stem cell.
#[derive(Debug, Clone, Copy, PartialEq, Eq)]
pub struct Offspring {
    pub up: Genome,
    pub down: Genome,
    pub left: Genome,
    pub right: Genome,
}

impl Offspring {
    pub open spec fn wf(&self) -> bool {
        self.up.wf() && self.down.wf() && self.left.wf() && self.right.wf()
    }

    /// Each of the four genomes is what one mutation roll can make of `parent`.
    pub open spec fn bred_from(&self, parent: Genome) -> bool {
        &&& self.wf()
        &&& self.up.mutation_of(parent)
        &&& self.down.mutation_of(parent)
        &&& self.left.mutation_of(parent)
        &&& self.right.mutation_of(parent)
    }

    /// Four copies of `parent` that no mutation has touched.
    pub open spec fn spec_copies(parent: &Genome) -> Offspring {
        Offspring { up: *parent, down: *parent, left: *parent, right: *parent }
    }

    #[verifier::when_used_as_spec(spec_copies)]
    pub fn copies(parent: &Genome) -> (offspring: Offspring)
        ensures
            offspring == Self::spec_copies(parent),
    {
        Offspring { up: *parent, down: *parent, left: *parent, right: *parent }
    }

    /// The genome for the direction `dir`.
    pub open spec fn spec_direction(&self, dir: CellDir) -> Genome {
        match dir {
            CellDir::Up => self.up,
            CellDir::Down => self.down,
            CellDir::Left => self.left,
            CellDir::Right => self.right,
        }
    }
}

/// How much organic matter moves from the soil of `from` to the soil of `to`: all that
/// there is, as far as `to` can still hold it.
pub open spec fn organics_moving(from: WorldCell, to: WorldCell) -> u8 {
    if 255 - to.soil.organics < from.soil.organics {
        (255 - to.soil.organics) as u8
    } else {
        from.soil.organics
    }
}

/// The area after organic matter has moved from the soil at the place `from` to the soil
/// at the place `to` ([`organics_moving`]): first it is taken from the one, then it is
/// given to the other.
pub open spec fn organics_moved(area: Area<WorldCell>, from: Slot, to: Slot) -> Area<WorldCell> {
    let amount = organics_moving(area.spec_at(from), area.spec_at(to));
    let taken = area.with(
        from,
        area.spec_at(from).with_organics((area.spec_at(from).soil.organics - amount) as u8),
    );
    taken.with(to, taken.spec_at(to).with_organics((taken.spec_at(to).soil.organics + amount) as u8))
}

/// The cell `victim` and the organism `life` after `life` has preyed on what lives in
/// `victim`: the energy of the prey goes to `life`, and the prey is left without energy
/// and without a step to live. Where nothing lives, nothing changes.
pub open spec fn preyed(victim: WorldCell, life: AliveCell) -> (WorldCell, AliveCell) {
    match victim.life {
        LifeCell::Alive(prey) => (
            victim.with_life(LifeCell::Alive(AliveCell { steps_to_death: 0, energy: 0, ..prey })),
            AliveCell { energy: life.energy.saturating_add(prey.energy), ..life },
        ),
        LifeCell::Dead => (victim, life),
    }
}

/// The area and the organism `life` at its centre after the action `action` of a gene of
/// `genome`. Moving organics shifts matter between the soil of the centre and of a
/// neighbour ([`organics_moved`]); a jump makes another gene of `genome` the active one;
/// a kill preys on a diagonal neighbour ([`preyed`]).
#[verifier::opaque]
pub open spec fn acted(
    action: GeneAction,
    area: Area<WorldCell>,
    life: AliveCell,
    genome: Genome,
) -> (Area<WorldCell>, AliveCell) {
    match action {
        GeneAction::MoveOrganicUp => (organics_moved(area, Slot::Center, Slot::Up), life),
        GeneAction::MoveOrganicDown => (organics_moved(area, Slot::Center, Slot::Down), life),
        GeneAction::MoveOrganicLeft => (organics_moved(area, Slot::Center, Slot::Left), life),
        GeneAction::MoveOrganicRight => (organics_moved(area, Slot::Center, Slot::Right), life),
        GeneAction::MoveOrganicFromUp => (organics_moved(area, Slot::Up, Slot::Center), life),
        GeneAction::MoveOrganicFromDown => (organics_moved(area, Slot::Down, Slot::Center), life),
        GeneAction::MoveOrganicFromLeft => (organics_moved(area, Slot::Left, Slot::Center), life),
        GeneAction::MoveOrganicFromRight => (
            organics_moved(area, Slot::Right, Slot::Center),
            life,
        ),
        GeneAction::DoNothing => (area, life),
        GeneAction::ChangeActiveGene(target) => (
            area,
            AliveCell { ty: LifeType::Stem(genome.with_active_gene(target)), ..life },
        ),
        GeneAction::KillUpLeft => hunted(area, Slot::UpLeft, life),
        GeneAction::KillUpRight => hunted(area, Slot::UpRight, life),
        GeneAction::KillDownLeft => hunted(area, Slot::DownLeft, life),
        GeneAction::KillDownRight => hunted(area, Slot::DownRight, life),
    }
}

/// The area and the organism `life` after `life` has preyed on what lives at the place
/// `slot` ([`preyed`]).
pub open spec fn hunted(area: Area<WorldCell>, slot: Slot, life: AliveCell) -> (
    Area<WorldCell>,
    AliveCell,
) {
    let (victim, hunter) = preyed(area.spec_at(slot), life);
    (area.with(slot, victim), hunter)
}

fn move_organic(area: &mut Area<WorldCell>, from: Slot, to: Slot)
    ensures
        *final(area) == organics_moved(*old(area), from, to),
{
    let mut source = area.at(from);
    let target = area.at(to);
    let room: u8 = 255 - target.soil.organics;
    let to_move: u8 = if room < source.soil.organics {
        room
    } else {
        source.soil.organics
    };
    source.soil.organics -= to_move;
    area.put(from, source);
    let mut target = area.at(to);
    target.soil.organics += to_move;
    area.put(to, target);
}

fn kill_cell(area: &mut Area<WorldCell>, slot: Slot, life: &mut AliveCell)
    ensures
        (*final(area), *final(life)) == hunted(*old(area), slot, *old(life)),
{
    let mut victim = area.at(slot);
    if let LifeCell::Alive(mut prey) = victim.life {
        life.energy = life.energy.saturating_add(prey.energy);
        prey.steps_to_death = 0;
        prey.energy = 0;
        victim.life = LifeCell::Alive(prey);
    }
    area.put(slot, victim);
}

/// Carries out one action of a gene of `genome` for the organism `life` at the centre of
/// `area`.
pub fn make_action(
    action: GeneAction,
    area: &mut Area<WorldCell>,
    life: &mut AliveCell,
    genome: &Genome,
)
    ensures
        (*final(area), *final(life)) == acted(action, *old(area), *old(life), *genome),
{
    reveal(acted);
    match action {
        GeneAction::MoveOrganicUp => move_organic(area, Slot::Center, Slot::Up),
        GeneAction::MoveOrganicDown => move_organic(area, Slot::Center, Slot::Down),
        GeneAction::MoveOrganicLeft => move_organic(area, Slot::Center, Slot::Left),
        GeneAction::MoveOrganicRight => move_organic(area, Slot::Center, Slot::Right),
        GeneAction::MoveOrganicFromUp => move_organic(area, Slot::Up, Slot::Center),
        GeneAction::MoveOrganicFromDown => move_organic(area, Slot::Down, Slot::Center),
        GeneAction::MoveOrganicFromLeft => move_organic(area, Slot::Left, Slot::Center),
        GeneAction::MoveOrganicFromRight => move_organic(area, Slot::Right, Slot::Center),
        GeneAction::DoNothing => {},
        GeneAction::ChangeActiveGene(gene_location) => {
            let mut jumped = *genome;
            jumped.active_gene = gene_location;
            life.ty = LifeType::Stem(jumped);
        },
        GeneAction::KillUpLeft => kill_cell(area, Slot::UpLeft, life),
        GeneAction::KillUpRight => kill_cell(area, Slot::UpRight, life),
        GeneAction::KillDownLeft => kill_cell(area, Slot::DownLeft, life),
        GeneAction::KillDownRight => kill_cell(area, Slot::DownRight, life),
    }
}

/// What the action `action` brings forth, where it bears a newborn at all. The genome of
/// a stem child is `child` with its active gene set: to the gene that the action names,
/// or, for a seed, to the seed gene of `child`.
pub open spec fn newborn_type(action: GeneDirectionAction, child: Genome) -> LifeType {
    match action {
        GeneDirectionAction::MakeLeaf(_) => LifeType::Leaf,
        GeneDirectionAction::MakeRoot(_) => LifeType::Root,
        GeneDirectionAction::MakeReactor(_) => LifeType::Reactor,
        GeneDirectionAction::MakeFilter(_) => LifeType::Filter,
        GeneDirectionAction::MultiplySelf(_, next_gene) => LifeType::Stem(
            child.with_active_gene(next_gene),
        ),
        GeneDirectionAction::CreateSeed(_) => LifeType::Stem(
            child.with_active_gene(child.seed_gene),
        ),
        _ => LifeType::Pipe,
    }
}

/// The life span that the action gives to its newborn.
pub open spec fn newborn_span(action: GeneDirectionAction) -> u16 {
    match action {
        GeneDirectionAction::MakeLeaf(span) => span.0,
        GeneDirectionAction::MakeRoot(span) => span.0,
        GeneDirectionAction::MakeReactor(span) => span.0,
        GeneDirectionAction::MakeFilter(span) => span.0,
        GeneDirectionAction::MultiplySelf(span, _) => span.0,
        GeneDirectionAction::CreateSeed(span) => span.0,
        _ => 0,
    }
}

/// The area, the organism `life` at its centre, and whether a birth took place, after
/// `life` has tried to bear a newborn of the role `ty` in the direction `dir`.
///
/// Where nothing lives there, the newborn is put there, with `energy` and `span` steps to
/// live and its parent in the direction it came from; the parent forwards energy to a
/// newborn stem cell from now on. Where something lives there, there is no birth: the
/// one who lives there loses 250 of its steps instead (as far as it has them).
pub open spec fn born(
    dir: CellDir,
    ty: LifeType,
    energy: u64,
    span: u16,
    area: Area<WorldCell>,
    life: AliveCell,
) -> (Area<WorldCell>, AliveCell, bool) {
    let target = area.spec_direction(dir);
    match target.life {
        LifeCell::Alive(occupant) => (
            area.with_direction(
                dir,
                target.with_life(
                    LifeCell::Alive(
                        AliveCell {
                            steps_to_death: occupant.steps_to_death.saturating_sub(250),
                            ..occupant
                        },
                    ),
                ),
            ),
            life,
            false,
        ),
        LifeCell::Dead => (
            area.with_direction(
                dir,
                target.with_life(ty.spec_make_newborn_cell(dir.spec_opposite(), energy, span)),
            ),
            AliveCell {
                energy_to: if ty.spec_is_fertile() {
                    life.energy_to.with(dir, true)
                } else {
                    life.energy_to
                },
                ..life
            },
            true,
        ),
    }
}

/// The area, the organism `life` at its centre, and whether a birth took place, after
/// the action `action` of a gene towards `dir`. A birth is described by [`born`]; the
/// newborn starts with eight tenths of the energy that the action reserves. A kill preys
/// on the neighbour ([`preyed`]). `child` is the genome that a newborn stem cell starts
/// from.
#[verifier::opaque]
pub open spec fn directed(
    dir: CellDir,
    action: GeneDirectionAction,
    area: Area<WorldCell>,
    life: AliveCell,
    child: Genome,
) -> (Area<WorldCell>, AliveCell, bool) {
    match action {
        GeneDirectionAction::KillCell => {
            let (hunting_ground, hunter) = hunted(area, Slot::spec_of(dir), life);
            (hunting_ground, hunter, false)
        },
        GeneDirectionAction::Nothing => (area, life, false),
        _ => born(
            dir,
            newborn_type(action, child),
            action.spec_newborn_energy(),
            newborn_span(action),
            area,
            life,
        ),
    }
}

/// Tries to bear a newborn of the role `ty` in the direction `dir`; returns whether a
/// birth took place.
fn try_birth(
    dir: CellDir,
    ty: LifeType,
    energy: u64,
    span: u16,
    area: &mut Area<WorldCell>,
    life: &mut AliveCell,
) -> (birth: bool)
    ensures
        (*final(area), *final(life), birth) == born(dir, ty, energy, span, *old(area), *old(life)),
{
    let mut target = area.direction(dir);
    if let LifeCell::Alive(mut occupant) = target.life {
        occupant.steps_to_death = occupant.steps_to_death.saturating_sub(250);
        target.life = LifeCell::Alive(occupant);
        area.set_direction(dir, target);
        false
    } else {
        if ty.is_fertile() {
            life.energy_to.set(dir, true);
        }
        target.life = ty.make_newborn_cell(dir.opposite(), energy, span);
        area.set_direction(dir, target);
        true
    }
}

/// Carries out the action of a gene towards `dir`; returns whether a birth took place.
/// `child` is the genome that a newborn stem cell starts from.
pub fn direction_action(
    dir: CellDir,
    action: GeneDirectionAction,
    area: &mut Area<WorldCell>,
    life: &mut AliveCell,
    child: &Genome,
) -> (birth: bool)
    ensures
        (*final(area), *final(life), birth) == directed(
            dir,
            action,
            *old(area),
            *old(life),
            *child,
        ),
{
    reveal(directed);
    let energy: u64 = action.newborn_energy();
    match action {
        GeneDirectionAction::MakeLeaf(lifespan) => try_birth(
            dir,
            LifeType::Leaf,
            energy,
            lifespan.0,
            area,
            life,
        ),
        GeneDirectionAction::MakeRoot(lifespan) => try_birth(
            dir,
            LifeType::Root,
            energy,
            lifespan.0,
            area,
            life,
        ),
        GeneDirectionAction::MakeReactor(lifespan) => try_birth(
            dir,
            LifeType::Reactor,
            energy,
            lifespan.0,
            area,
            life,
        ),
        GeneDirectionAction::MakeFilter(lifespan) => try_birth(
            dir,
            LifeType::Filter,
            energy,
            lifespan.0,
            area,
            life,
        ),
        GeneDirectionAction::MultiplySelf(lifespan, next_gene) => {
            let mut genome = *child;
            genome.active_gene = next_gene;
            try_birth(dir, LifeType::Stem(genome), energy, lifespan.0, area, life)
        },
        GeneDirectionAction::CreateSeed(lifespan) => {
            let mut genome = *child;
            genome.active_gene = genome.seed_gene;
            try_birth(dir, LifeType::Stem(genome), energy, lifespan.0, area, life)
        },
        GeneDirectionAction::KillCell => {
            kill_cell(area, Slot::of(dir), life);
            false
        },
        GeneDirectionAction::Nothing => false,
    }
}

/// The area and the organism after the main action of `gene`, which is carried out
/// where its condition holds.
pub open spec fn primary_done(
    state: &State,
    area: Area<WorldCell>,
    life: AliveCell,
    genome: Genome,
    gene: Gene,
    rolls: ConditionRolls,
) -> (Area<WorldCell>, AliveCell) {
    if condition_holds(
        state,
        &area,
        &life,
        gene.main_action_condition,
        gene.main_action_param,
        rolls.main_action,
    ) {
        acted(gene.main_action, area, life, genome)
    } else {
        (area, life)
    }
}

/// The additional action that the two conditions of `gene` pick: the first where both
/// hold, the second where only the first holds, the third where only the second holds,
/// and none where neither holds.
pub open spec fn chosen_action(
    state: &State,
    area: Area<WorldCell>,
    life: AliveCell,
    gene: Gene,
    rolls: ConditionRolls,
) -> Option<GeneAction> {
    let first = condition_holds(
        state,
        &area,
        &life,
        gene.additional_action_condition1,
        gene.additional_action_param1,
        rolls.additional_action1,
    );
    let second = condition_holds(
        state,
        &area,
        &life,
        gene.additional_action_condition2,
        gene.additional_action_param2,
        rolls.additional_action2,
    );
    if first && second {
        Some(gene.additional_action1)
    } else if first {
        Some(gene.additional_action2)
    } else if second {
        Some(gene.additional_action3)
    } else {
        None
    }
}

/// The area and the organism after the additional action that the conditions pick.
pub open spec fn secondary_done(
    state: &State,
    area: Area<WorldCell>,
    life: AliveCell,
    genome: Genome,
    gene: Gene,
    rolls: ConditionRolls,
) -> (Area<WorldCell>, AliveCell) {
    match chosen_action(state, area, life, gene, rolls) {
        Some(action) => acted(action, area, life, genome),
        None => (area, life),
    }
}

/// The gene that the two branch conditions of `gene` jump to: the first alternative
/// where both hold, the second where only the first holds, the third where only the
/// second holds. Where neither holds there is no jump, and the four directions get their
/// turn.
pub open spec fn branch_target(
    state: &State,
    area: Area<WorldCell>,
    life: AliveCell,
    gene: Gene,
    rolls: ConditionRolls,
) -> Option<GeneLocation> {
    let first = condition_holds(
        state,
        &area,
        &life,
        gene.condition_1,
        gene.param_1,
        rolls.branch1,
    );
    let second = condition_holds(
        state,
        &area,
        &life,
        gene.condition_2,
        gene.param_2,
        rolls.branch2,
    );
    if first && second {
        Some(gene.alt_gene1)
    } else if first {
        Some(gene.alt_gene2)
    } else if second {
        Some(gene.alt_gene3)
    } else {
        None
    }
}

/// The area, the organism, and whether any birth took place, after the four directions
/// of `gene` had their turn: up, down, left, right.
pub open spec fn directions_done(
    area: Area<WorldCell>,
    life: AliveCell,
    gene: Gene,
    offspring: Offspring,
) -> (Area<WorldCell>, AliveCell, bool) {
    let up = directed(CellDir::Up, gene.up, area, life, offspring.up);
    let down = directed(CellDir::Down, gene.down, up.0, up.1, offspring.down);
    let left = directed(CellDir::Left, gene.left, down.0, down.1, offspring.left);
    let right = directed(CellDir::Right, gene.right, left.0, left.1, offspring.right);
    (right.0, right.1, up.2 || down.2 || left.2 || right.2)
}

/// What the active gene of `genome` does for the organism `life` at the centre of
/// `area`, apart from what it costs. In this order:
///
/// 1. the main action, where its condition holds ([`primary_done`]);
/// 2. the additional action that two conditions pick ([`secondary_done`]);
/// 3. either a jump to another gene ([`branch_target`]), or the four directions
///    ([`directions_done`]). After a birth the organism is a pipe, with as many steps to
///    live as the gene says.
///
/// The gene is the one that is active at the start, whatever jumps take place.
pub open spec fn gene_effects(
    state: &State,
    area: Area<WorldCell>,
    life: AliveCell,
    genome: Genome,
    rolls: ConditionRolls,
    offspring: Offspring,
) -> (Area<WorldCell>, AliveCell) {
    let gene = genome.spec_active_gene();
    let first = primary_done(state, area, life, genome, gene, rolls);
    let second = secondary_done(state, first.0, first.1, genome, gene, rolls);
    match branch_target(state, second.0, second.1, gene, rolls) {
        Some(target) => (
            second.0,
            AliveCell { ty: LifeType::Stem(genome.with_active_gene(target)), ..second.1 },
        ),
        None => {
            let done = directions_done(second.0, second.1, gene, offspring);
            (
                done.0,
                if done.2 {
                    AliveCell {
                        ty: LifeType::Pipe,
                        steps_to_death: gene.self_lifespan.0,
                        ..done.1
                    }
                } else {
                    done.1
                },
            )
        },
    }
}

/// What the execution of the active gene of `genome` makes of the organism `life` at
/// the centre of `area`. The organism must have more energy than the four directions of
/// the gene reserve together; else nothing happens. After [`gene_effects`] it pays that
/// sum.
#[verifier::opaque]
pub open spec fn gene_outcome(
    state: &State,
    area: Area<WorldCell>,
    life: AliveCell,
    genome: Genome,
    rolls: ConditionRolls,
    offspring: Offspring,
) -> (Area<WorldCell>, AliveCell) {
    let cost = genome.spec_active_gene().spec_energy_capacity();
    if life.energy > cost {
        let (after, parent) = gene_effects(state, area, life, genome, rolls, offspring);
        (after, AliveCell { energy: (parent.energy - cost) as u64, ..parent })
    } else {
        (area, life)
    }
}

fn run_primary(
    state: &State,
    area: &mut Area<WorldCell>,
    life: &mut AliveCell,
    genome: &Genome,
    gene: &Gene,
    rolls: ConditionRolls,
)
    ensures
        (*final(area), *final(life)) == primary_done(
            state,
            *old(area),
            *old(life),
            *genome,
            *gene,
            rolls,
        ),
{
    if check_gene_condition(
        state,
        area,
        life,
        gene.main_action_condition,
        gene.main_action_param,
        rolls.main_action,
    ) {
        make_action(gene.main_action, area, life, genome);
    }
}

fn run_secondary(
    state: &State,
    area: &mut Area<WorldCell>,
    life: &mut AliveCell,
    genome: &Genome,
    gene: &Gene,
    rolls: ConditionRolls,
)
    ensures
        (*final(area), *final(life)) == secondary_done(
            state,
            *old(area),
            *old(life),
            *genome,
            *gene,
            rolls,
        ),
{
    let condition_1 = check_gene_condition(
        state,
        area,
        life,
        gene.additional_action_condition1,
        gene.additional_action_param1,
        rolls.additional_action1,
    );
    let condition_2 = check_gene_condition(
        state,
        area,
        life,
        gene.additional_action_condition2,
        gene.additional_action_param2,
        rolls.additional_action2,
    );
    match (condition_1, condition_2) {
        (true, true) => make_action(gene.additional_action1, area, life, genome),
        (true, false) => make_action(gene.additional_action2, area, life, genome),
        (false, true) => make_action(gene.additional_action3, area, life, genome),
        (false, false) => {},
    }
}

fn pick_branch(
    state: &State,
    area: &Area<WorldCell>,
    life: &AliveCell,
    gene: &Gene,
    rolls: ConditionRolls,
) -> (target: Option<GeneLocation>)
    ensures
        target == branch_target(state, *area, *life, *gene, rolls),
{
    let condition_1 = check_gene_condition(
        state,
        area,
        life,
        gene.condition_1,
        gene.param_1,
        rolls.branch1,
    );
    let condition_2 = check_gene_condition(
        state,
        area,
        life,
        gene.condition_2,
        gene.param_2,
        rolls.branch2,
    );
    match (condition_1, condition_2) {
        (true, true) => Some(gene.alt_gene1),
        (true, false) => Some(gene.alt_gene2),
        (false, true) => Some(gene.alt_gene3),
        (false, false) => None,
    }
}

fn run_directions(
    area: &mut Area<WorldCell>,
    life: &mut AliveCell,
    gene: &Gene,
    offspring: &Offspring,
) -> (birth_once: bool)
    ensures
        (*final(area), *final(life), birth_once) == directions_done(
            *old(area),
            *old(life),
            *gene,
            *offspring,
        ),
{
    let up = direction_action(CellDir::Up, gene.up, area, life, &offspring.up);
    let down = direction_action(CellDir::Down, gene.down, area, life, &offspring.down);
    let left = direction_action(CellDir::Left, gene.left, area, life, &offspring.left);
    let right = direction_action(CellDir::Right, gene.right, area, life, &offspring.right);
    up || down || left || right
}

proof fn lemma_organics_moved(area: Area<WorldCell>, from: Slot, to: Slot)
    ensures
        lies_as(organics_moved(area, from, to), area),
        area.coherent() ==> organics_moved(area, from, to).coherent(),
        area_wf(area) ==> area_wf(organics_moved(area, from, to)),
        area.roomy() ==> forall|dir: CellDir|
            (#[trigger] organics_moved(area, from, to).spec_direction(dir)).life
                == area.spec_direction(dir).life,
{
    let amount = organics_moving(area.spec_at(from), area.spec_at(to));
    let first = area.spec_at(from).with_organics((area.spec_at(from).soil.organics - amount) as u8);
    let taken = area.with(from, first);
    lemma_with(area, from, first);
    let second = taken.spec_at(to).with_organics((taken.spec_at(to).soil.organics + amount) as u8);
    lemma_with(taken, to, second);
    lemma_with(taken, to, taken.spec_at(to));
}

proof fn lemma_hunted(area: Area<WorldCell>, slot: Slot, life: AliveCell)
    ensures
        lies_as(hunted(area, slot, life).0, area),
        area.coherent() ==> hunted(area, slot, life).0.coherent(),
        area_wf(area) ==> area_wf(hunted(area, slot, life).0),
        hunted(area, slot, life).1.energy >= life.energy,
        hunted(area, slot, life).1 == (AliveCell {
            energy: hunted(area, slot, life).1.energy,
            ..life
        }),
        area.roomy() ==> forall|other: Slot|
            other != slot ==> #[trigger] hunted(area, slot, life).0.spec_at(other) == area.spec_at(
                other,
            ),
{
    lemma_with(area, slot, preyed(area.spec_at(slot), life).0);
}

proof fn lemma_acted(action: GeneAction, area: Area<WorldCell>, life: AliveCell, genome: Genome)
    ensures
        lies_as(acted(action, area, life, genome).0, area),
        area.coherent() ==> acted(action, area, life, genome).0.coherent(),
        acted(action, area, life, genome).1.energy >= life.energy,
        !kills(action) ==> acted(action, area, life, genome).1.energy == life.energy,
        area.roomy() ==> forall|dir: CellDir|
            (#[trigger] acted(action, area, life, genome).0.spec_direction(dir)).life
                == area.spec_direction(dir).life,
        area_wf(area) && life.wf() && genome.wf() && action.wf() ==> area_wf(
            acted(action, area, life, genome).0,
        ) && acted(action, area, life, genome).1.wf(),
{
    reveal(acted);
    match action {
        GeneAction::MoveOrganicUp => lemma_organics_moved(area, Slot::Center, Slot::Up),
        GeneAction::MoveOrganicDown => lemma_organics_moved(area, Slot::Center, Slot::Down),
        GeneAction::MoveOrganicLeft => lemma_organics_moved(area, Slot::Center, Slot::Left),
        GeneAction::MoveOrganicRight => lemma_organics_moved(area, Slot::Center, Slot::Right),
        GeneAction::MoveOrganicFromUp => lemma_organics_moved(area, Slot::Up, Slot::Center),
        GeneAction::MoveOrganicFromDown => lemma_organics_moved(area, Slot::Down, Slot::Center),
        GeneAction::MoveOrganicFromLeft => lemma_organics_moved(area, Slot::Left, Slot::Center),
        GeneAction::MoveOrganicFromRight => lemma_organics_moved(area, Slot::Right, Slot::Center),
        GeneAction::DoNothing => {},
        GeneAction::ChangeActiveGene(target) => {
            let jumped = genome.with_active_gene(target);
            assert(forall|i: int| 0 <= i < 32 ==> jumped.genes[i] == genome.genes[i]);
        },
        GeneAction::KillUpLeft => {
            lemma_hunted(area, Slot::UpLeft, life);
            lemma_hunted_off_the_cross(area, Slot::UpLeft, life);
        },
        GeneAction::KillUpRight => {
            lemma_hunted(area, Slot::UpRight, life);
            lemma_hunted_off_the_cross(area, Slot::UpRight, life);
        },
        GeneAction::KillDownLeft => {
            lemma_hunted(area, Slot::DownLeft, life);
            lemma_hunted_off_the_cross(area, Slot::DownLeft, life);
        },
        GeneAction::KillDownRight => {
            lemma_hunted(area, Slot::DownRight, life);
            lemma_hunted_off_the_cross(area, Slot::DownRight, life);
        },
    }
}

proof fn lemma_hunted_off_the_cross(area: Area<WorldCell>, slot: Slot, life: AliveCell)
    requires
        slot == Slot::UpLeft || slot == Slot::UpRight || slot == Slot::DownLeft || slot
            == Slot::DownRight,
    ensures
        area.roomy() ==> forall|dir: CellDir|
            (#[trigger] hunted(area, slot, life).0.spec_direction(dir)) == area.spec_direction(dir),
{
}

proof fn lemma_directed(
    dir: CellDir,
    action: GeneDirectionAction,
    area: Area<WorldCell>,
    life: AliveCell,
    child: Genome,
)
    ensures
        lies_as(directed(dir, action, area, life, child).0, area),
        area.coherent() ==> directed(dir, action, area, life, child).0.coherent(),
        directed(dir, action, area, life, child).1.energy >= life.energy,
        action != GeneDirectionAction::KillCell ==> directed(
            dir,
            action,
            area,
            life,
            child,
        ).1.energy == life.energy,
        area.roomy() ==> forall|other: CellDir|
            other != dir ==> #[trigger] directed(dir, action, area, life, child).0.spec_direction(
                other,
            ) == area.spec_direction(other),
        area_wf(area) && life.wf() && child.wf() && action.wf() ==> area_wf(
            directed(dir, action, area, life, child).0,
        ) && directed(dir, action, area, life, child).1.wf(),
{
    reveal(directed);
    match action {
        GeneDirectionAction::MultiplySelf(_, next_gene) => {
            let genome = child.with_active_gene(next_gene);
            assert(forall|i: int| 0 <= i < 32 ==> genome.genes[i] == child.genes[i]);
        },
        GeneDirectionAction::CreateSeed(_) => {
            let genome = child.with_active_gene(child.seed_gene);
            assert(forall|i: int| 0 <= i < 32 ==> genome.genes[i] == child.genes[i]);
        },
        _ => {},
    }
}

proof fn lemma_directed_bears(
    dir: CellDir,
    action: GeneDirectionAction,
    area: Area<WorldCell>,
    life: AliveCell,
    child: Genome,
)
    requires
        action.is_birth(),
        area.spec_direction(dir).life == LifeCell::Dead,
    ensures
        directed(dir, action, area, life, child).0.spec_direction(dir).life == newborn_type(
            action,
            child,
        ).spec_make_newborn_cell(
            dir.spec_opposite(),
            action.spec_newborn_energy(),
            newborn_span(action),
        ),
        directed(dir, action, area, life, child).2,
{
    reveal(directed);
}

proof fn lemma_directions(area: Area<WorldCell>, life: AliveCell, gene: Gene, offspring: Offspring)
    ensures
        lies_as(directions_done(area, life, gene, offspring).0, area),
        area.coherent() ==> directions_done(area, life, gene, offspring).0.coherent(),
        directions_done(area, life, gene, offspring).1.energy >= life.energy,
        area_wf(area) && life.wf() && gene.wf() && offspring.wf() ==> area_wf(
            directions_done(area, life, gene, offspring).0,
        ) && directions_done(area, life, gene, offspring).1.wf(),
{
    let up = directed(CellDir::Up, gene.up, area, life, offspring.up);
    lemma_directed(CellDir::Up, gene.up, area, life, offspring.up);
    let down = directed(CellDir::Down, gene.down, up.0, up.1, offspring.down);
    lemma_directed(CellDir::Down, gene.down, up.0, up.1, offspring.down);
    let left = directed(CellDir::Left, gene.left, down.0, down.1, offspring.left);
    lemma_directed(CellDir::Left, gene.left, down.0, down.1, offspring.left);
    lemma_directed(CellDir::Right, gene.right, left.0, left.1, offspring.right);
}

/// No action of a gene takes energy from the organism that carries it out.
pub proof fn lemma_actions_keep_energy(
    state: &State,
    area: Area<WorldCell>,
    life: AliveCell,
    genome: Genome,
    rolls: ConditionRolls,
    offspring: Offspring,
)
    ensures
        gene_effects(state, area, life, genome, rolls, offspring).1.energy >= life.energy,
{
    let gene = genome.spec_active_gene();
    let first = primary_done(state, area, life, genome, gene, rolls);
    lemma_acted(gene.main_action, area, life, genome);
    let second = secondary_done(state, first.0, first.1, genome, gene, rolls);
    lemma_acted(gene.additional_action1, first.0, first.1, genome);
    lemma_acted(gene.additional_action2, first.0, first.1, genome);
    lemma_acted(gene.additional_action3, first.0, first.1, genome);
    lemma_directions(second.0, second.1, gene, offspring);
}

/// The execution of a gene keeps the area and the organism well formed.
pub proof fn lemma_gene_outcome_wf(
    state: &State,
    area: Area<WorldCell>,
    life: AliveCell,
    genome: Genome,
    rolls: ConditionRolls,
    offspring: Offspring,
)
    requires
        area_wf(area),
        life.wf(),
        genome.wf(),
        offspring.wf(),
    ensures
        area_wf(gene_outcome(state, area, life, genome, rolls, offspring).0),
        gene_outcome(state, area, life, genome, rolls, offspring).1.wf(),
{
    reveal(gene_outcome);
    let gene = genome.spec_active_gene();
    let first = primary_done(state, area, life, genome, gene, rolls);
    lemma_acted(gene.main_action, area, life, genome);
    let second = secondary_done(state, first.0, first.1, genome, gene, rolls);
    lemma_acted(gene.additional_action1, first.0, first.1, genome);
    lemma_acted(gene.additional_action2, first.0, first.1, genome);
    lemma_acted(gene.additional_action3, first.0, first.1, genome);
    lemma_directions(second.0, second.1, gene, offspring);
    if let Some(target) = branch_target(state, second.0, second.1, gene, rolls) {
        let jumped = genome.with_active_gene(target);
        assert(forall|i: int| 0 <= i < 32 ==> jumped.genes[i] == genome.genes[i]);
    }
}

/// The execution of a gene moves no neighbourhood, and keeps a coherent area coherent.
pub proof fn lemma_gene_outcome_keeps_place(
    state: &State,
    area: Area<WorldCell>,
    life: AliveCell,
    genome: Genome,
    rolls: ConditionRolls,
    offspring: Offspring,
)
    ensures
        lies_as(gene_outcome(state, area, life, genome, rolls, offspring).0, area),
        area.coherent() ==> gene_outcome(state, area, life, genome, rolls, offspring).0.coherent(),
{
    reveal(gene_outcome);
    let gene = genome.spec_active_gene();
    let first = primary_done(state, area, life, genome, gene, rolls);
    lemma_acted(gene.main_action, area, life, genome);
    let second = secondary_done(state, first.0, first.1, genome, gene, rolls);
    lemma_acted(gene.additional_action1, first.0, first.1, genome);
    lemma_acted(gene.additional_action2, first.0, first.1, genome);
    lemma_acted(gene.additional_action3, first.0, first.1, genome);
    lemma_directions(second.0, second.1, gene, offspring);
}

/// Executes the active gene of `genome` for the organism `life` at the centre of `area`,
/// with the random draws given: `rolls` for the conditions, `offspring` for the genomes
/// of stem children.
pub fn execute_gene(
    state: &State,
    area: &mut Area<WorldCell>,
    life: &mut AliveCell,
    genome: &Genome,
    rolls: ConditionRolls,
    offspring: &Offspring,
)
    requires
        genome.active_gene.wf(),
    ensures
        (*final(area), *final(life)) == gene_outcome(
            state,
            *old(area),
            *old(life),
            *genome,
            rolls,
            *offspring,
        ),
        area_wf(*old(area)) && old(life).wf() && genome.wf() && offspring.wf() ==> area_wf(
            *final(area),
        ) && final(life).wf(),
{
    reveal(gene_outcome);
    let gene = genome.active_gene();
    let total_energy: u64 = gene.energy_capacity();
    proof {
        if area_wf(*area) && life.wf() && genome.wf() && offspring.wf() {
            lemma_gene_outcome_wf(state, *area, *life, *genome, rolls, *offspring);
        }
    }
    if life.energy > total_energy {
        proof {
            lemma_actions_keep_energy(state, *area, *life, *genome, rolls, *offspring);
        }
        run_primary(state, area, life, genome, &gene, rolls);
        run_secondary(state, area, life, genome, &gene, rolls);
        match pick_branch(state, area, life, &gene, rolls) {
            Some(target) => {
                let mut jumped = *genome;
                jumped.active_gene = target;
                life.ty = LifeType::Stem(jumped);
            },
            None => {
                let birth_once = run_directions(area, life, &gene, offspring);
                if birth_once {
                    life.ty = LifeType::Pipe;
                    life.steps_to_death = gene.self_lifespan.0;
                }
            },
        }
        life.energy -= total_energy;
    }
}

/// Whether `after` is what the execution of the active gene of `genome` can make of the
/// organism `life` at the centre of `area`: the outcome for some draws of the random
/// bytes and some mutations of the genomes of the children.
pub open spec fn may_come_of_gene(
    state: &State,
    area: Area<WorldCell>,
    life: AliveCell,
    genome: Genome,
    after: (Area<WorldCell>, AliveCell),
) -> bool {
    exists|rolls: ConditionRolls, offspring: Offspring|
        offspring.bred_from(genome) && #[trigger] gene_outcome(
            state,
            area,
            life,
            genome,
            rolls,
            offspring,
        ) == after
}

/// The byte that goes with a condition of a gene: a random byte where the condition
/// compares one, and 0 where it does not, in which case nothing is drawn.
fn roll_for(rng: &mut ThreadRng, condition: GeneCondition) -> (roll: u8)
    ensures
        !condition.spec_needs_roll() ==> roll == 0,
{
    if condition.needs_roll() {
        random_byte(rng)
    } else {
        0
    }
}

/// The genome that a stem child of the action starts from: a copy of `genome` after one
/// mutation roll. Where the action bears no stem cell there is no roll.
fn breed(genome: &Genome, action: &GeneDirectionAction) -> (child: Genome)
    requires
        genome.wf(),
    ensures
        child.wf(),
        child.mutation_of(*genome),
        !action.breeds_stem() ==> child == *genome,
{
    let mut child = *genome;
    match action {
        GeneDirectionAction::MultiplySelf(_, _) | GeneDirectionAction::CreateSeed(_) => {
            child.mutate();
        },
        _ => {},
    }
    child
}

/// Executes the active gene of `genome` for the organism `life` at the centre of `area`.
/// Where a condition compares a random byte, the byte is drawn; where the gene bears a
/// stem cell, the genome of the child is a copy of `genome` after one mutation roll.
pub fn process_genome(
    state: &State,
    area: &mut Area<WorldCell>,
    life: &mut AliveCell,
    genome: Genome,
)
    requires
        genome.wf(),
    ensures
        may_come_of_gene(state, *old(area), *old(life), genome, (*final(area), *final(life))),
        area_wf(*old(area)) && old(life).wf() ==> area_wf(*final(area)) && final(life).wf(),
        without_chance(genome.spec_active_gene(), genome.mutation_rate.0) ==> (
            *final(area),
            *final(life),
        ) == gene_outcome(
            state,
            *old(area),
            *old(life),
            genome,
            no_rolls(),
            Offspring::spec_copies(&genome),
        ),
{
    let gene = genome.active_gene();
    if life.energy > gene.energy_capacity() {
        let mut rng = rand::thread_rng();
        let rolls = ConditionRolls {
            main_action: roll_for(&mut rng, gene.main_action_condition),
            additional_action1: roll_for(&mut rng, gene.additional_action_condition1),
            additional_action2: roll_for(&mut rng, gene.additional_action_condition2),
            branch1: roll_for(&mut rng, gene.condition_1),
            branch2: roll_for(&mut rng, gene.condition_2),
        };
        let offspring = Offspring {
            up: breed(&genome, &gene.up),
            down: breed(&genome, &gene.down),
            left: breed(&genome, &gene.left),
            right: breed(&genome, &gene.right),
        };
        proof {
            if without_chance(gene, genome.mutation_rate.0) {
                // no byte was drawn and no child was mutated
                assert(rolls == no_rolls());
                assert(offspring == Offspring::spec_copies(&genome));
            }
        }
        execute_gene(state, area, life, &genome, rolls, &offspring);
    } else {
        proof {
            reveal(gene_outcome);
            assert(Offspring::spec_copies(&genome).bred_from(genome));
            assert(gene_outcome(
                state,
                *area,
                *life,
                genome,
                no_rolls(),
                Offspring::spec_copies(&genome),
            ) == (*area, *life));
        }
    }
}

/// Whether the gene preys on nobody: none of its directions kills, and none of its
/// actions kills a diagonal neighbour.
pub open spec fn peaceful(gene: Gene) -> bool {
    &&& gene.up != GeneDirectionAction::KillCell
    &&& gene.down != GeneDirectionAction::KillCell
    &&& gene.left != GeneDirectionAction::KillCell
    &&& gene.right != GeneDirectionAction::KillCell
    &&& !kills(gene.main_action)
    &&& !kills(gene.additional_action1)
    &&& !kills(gene.additional_action2)
    &&& !kills(gene.additional_action3)
}

/// Whether the action kills a diagonal neighbour.
pub open spec fn kills(action: GeneAction) -> bool {
    action is KillUpLeft || action is KillUpRight || action is KillDownLeft
        || action is KillDownRight
}

/// Whether the execution of the active gene of `genome` comes to the four directions:
/// the organism has more energy than the directions reserve, and after the actions of
/// the gene neither branch condition holds.
pub open spec fn comes_to_directions(
    state: &State,
    area: Area<WorldCell>,
    life: AliveCell,
    genome: Genome,
    rolls: ConditionRolls,
) -> bool {
    let gene = genome.spec_active_gene();
    let first = primary_done(state, area, life, genome, gene, rolls);
    let second = secondary_done(state, first.0, first.1, genome, gene, rolls);
    &&& life.energy > gene.spec_energy_capacity()
    &&& branch_target(state, second.0, second.1, gene, rolls) is None
}

/// The accounts of a birth. Let the nine places of the area be nine different cells, let
/// the execution of the active gene come to the four directions, let the action of the
/// gene towards `dir` be a birth, and let nothing live in that direction. Then:
///
/// - the parent pays exactly what the four directions of the gene reserve together; where
///   the gene preys on nobody, that is all that happens to the energy of the parent;
/// - the newborn lies in the direction `dir`, with exactly eight tenths of what the action
///   towards `dir` reserves, with the life span that the action names, and with its
///   parent in the direction it came from;
/// - a newborn stem cell carries the genome that was bred for that direction, with the
///   active gene that the action names (for a seed: the seed gene);
/// - the parent is a pipe from now on, with as many steps to live as the gene says.
pub proof fn lemma_birth_accounts(
    state: &State,
    area: Area<WorldCell>,
    life: AliveCell,
    genome: Genome,
    rolls: ConditionRolls,
    offspring: Offspring,
    dir: CellDir,
)
    requires
        area.roomy(),
        comes_to_directions(state, area, life, genome, rolls),
        genome.spec_active_gene().spec_direction(dir).is_birth(),
        area.spec_direction(dir).life == LifeCell::Dead,
    ensures
        ({
            let gene = genome.spec_active_gene();
            let action = gene.spec_direction(dir);
            let (after, parent) = gene_outcome(state, area, life, genome, rolls, offspring);
            &&& parent.energy == gene_effects(state, area, life, genome, rolls, offspring).1.energy
                - gene.spec_energy_capacity()
            &&& peaceful(gene) ==> parent.energy == life.energy - gene.spec_energy_capacity()
            &&& parent.ty == LifeType::Pipe
            &&& parent.steps_to_death == gene.self_lifespan.0
            &&& after.spec_direction(dir).life matches LifeCell::Alive(newborn)
            &&& 10 * newborn.energy == 8 * action.spec_energy_capacity()
            &&& newborn.steps_to_death == newborn_span(action)
            &&& newborn.parent_dir == Some(dir.spec_opposite())
            &&& newborn.ty == newborn_type(action, offspring.spec_direction(dir))
        }),
{
    reveal(gene_outcome);
    let gene = genome.spec_active_gene();
    let first = primary_done(state, area, life, genome, gene, rolls);
    lemma_acted(gene.main_action, area, life, genome);
    let second = secondary_done(state, first.0, first.1, genome, gene, rolls);
    lemma_acted(gene.additional_action1, first.0, first.1, genome);
    lemma_acted(gene.additional_action2, first.0, first.1, genome);
    lemma_acted(gene.additional_action3, first.0, first.1, genome);
    let up = directed(CellDir::Up, gene.up, second.0, second.1, offspring.up);
    let down = directed(CellDir::Down, gene.down, up.0, up.1, offspring.down);
    let left = directed(CellDir::Left, gene.left, down.0, down.1, offspring.left);
    lemma_directed(CellDir::Up, gene.up, second.0, second.1, offspring.up);
    lemma_directed(CellDir::Down, gene.down, up.0, up.1, offspring.down);
    lemma_directed(CellDir::Left, gene.left, down.0, down.1, offspring.left);
    lemma_directed(CellDir::Right, gene.right, left.0, left.1, offspring.right);
    match dir {
        CellDir::Up => {
            lemma_directed_bears(CellDir::Up, gene.up, second.0, second.1, offspring.up);
        },
        CellDir::Down => {
            lemma_directed_bears(CellDir::Down, gene.down, up.0, up.1, offspring.down);
        },
        CellDir::Left => {
            lemma_directed_bears(CellDir::Left, gene.left, down.0, down.1, offspring.left);
        },
        CellDir::Right => {
            lemma_directed_bears(CellDir::Right, gene.right, left.0, left.1, offspring.right);
        },
    }
    lemma_actions_keep_energy(state, area, life, genome, rolls, offspring);
}

/// Whether chance has no part in the execution of the gene for a stem cell with the
/// mutation rate `rate`: none of the five conditions compares a random byte, and no stem
/// cell is born, or the genome never mutates.
pub open spec fn without_chance(gene: Gene, rate: u8) -> bool {
    &&& !gene.main_action_condition.spec_needs_roll()
    &&& !gene.additional_action_condition1.spec_needs_roll()
    &&& !gene.additional_action_condition2.spec_needs_roll()
    &&& !gene.condition_1.spec_needs_roll()
    &&& !gene.condition_2.spec_needs_roll()
    &&& rate == 0 || (!gene.up.breeds_stem() && !gene.down.breeds_stem()
        && !gene.left.breeds_stem() && !gene.right.breeds_stem())
}

proof fn lemma_condition_without_roll(
    state: &State,
    area: Area<WorldCell>,
    life: AliveCell,
    condition: GeneCondition,
    param: u8,
    roll: u8,
    other_roll: u8,
)
    requires
        !condition.spec_needs_roll(),
    ensures
        condition_holds(state, &area, &life, condition, param, roll) == condition_holds(
            state,
            &area,
            &life,
            condition,
            param,
            other_roll,
        ),
{
}

proof fn lemma_directed_without_stem(
    dir: CellDir,
    action: GeneDirectionAction,
    area: Area<WorldCell>,
    life: AliveCell,
    child: Genome,
    other: Genome,
)
    requires
        !action.breeds_stem() || child == other,
    ensures
        directed(dir, action, area, life, child) == directed(dir, action, area, life, other),
{
    reveal(directed);
}

/// Where chance has no part in the execution of a gene, the outcome is the same for all
/// random bytes and for every offspring that was bred from the genome.
pub proof fn lemma_gene_without_chance(
    state: &State,
    area: Area<WorldCell>,
    life: AliveCell,
    genome: Genome,
    rolls: ConditionRolls,
    offspring: Offspring,
    other_rolls: ConditionRolls,
    other_offspring: Offspring,
)
    requires
        without_chance(genome.spec_active_gene(), genome.mutation_rate.0),
        offspring.bred_from(genome),
        other_offspring.bred_from(genome),
    ensures
        gene_outcome(state, area, life, genome, rolls, offspring) == gene_outcome(
            state,
            area,
            life,
            genome,
            other_rolls,
            other_offspring,
        ),
{
    reveal(gene_outcome);
    let gene = genome.spec_active_gene();
    let first = primary_done(state, area, life, genome, gene, rolls);
    assert(first == primary_done(state, area, life, genome, gene, other_rolls)) by {
        lemma_condition_without_roll(
            state,
            area,
            life,
            gene.main_action_condition,
            gene.main_action_param,
            rolls.main_action,
            other_rolls.main_action,
        );
    }
    let second = secondary_done(state, first.0, first.1, genome, gene, rolls);
    assert(second == secondary_done(state, first.0, first.1, genome, gene, other_rolls)) by {
        lemma_condition_without_roll(
            state,
            first.0,
            first.1,
            gene.additional_action_condition1,
            gene.additional_action_param1,
            rolls.additional_action1,
            other_rolls.additional_action1,
        );
        lemma_condition_without_roll(
            state,
            first.0,
            first.1,
            gene.additional_action_condition2,
            gene.additional_action_param2,
            rolls.additional_action2,
            other_rolls.additional_action2,
        );
    }
    assert(branch_target(state, second.0, second.1, gene, rolls) == branch_target(
        state,
        second.0,
        second.1,
        gene,
        other_rolls,
    )) by {
        lemma_condition_without_roll(
            state,
            second.0,
            second.1,
            gene.condition_1,
            gene.param_1,
            rolls.branch1,
            other_rolls.branch1,
        );
        lemma_condition_without_roll(
            state,
            second.0,
            second.1,
            gene.condition_2,
            gene.param_2,
            rolls.branch2,
            other_rolls.branch2,
        );
    }
    let up = directed(CellDir::Up, gene.up, second.0, second.1, offspring.up);
    lemma_directed_without_stem(
        CellDir::Up,
        gene.up,
        second.0,
        second.1,
        offspring.up,
        other_offspring.up,
    );
    let down = directed(CellDir::Down, gene.down, up.0, up.1, offspring.down);
    lemma_directed_without_stem(
        CellDir::Down,
        gene.down,
        up.0,
        up.1,
        offspring.down,
        other_offspring.down,
    );
    let left = directed(CellDir::Left, gene.left, down.0, down.1, offspring.left);
    lemma_directed_without_stem(
        CellDir::Left,
        gene.left,
        down.0,
        down.1,
        offspring.left,
        other_offspring.left,
    );
    lemma_directed_without_stem(
        CellDir::Right,
        gene.right,
        left.0,
        left.1,
        offspring.right,
        other_offspring.right,
    );
    assert(directions_done(second.0, second.1, gene, offspring) == directions_done(
        second.0,
        second.1,
        gene,
        other_offspring,
    ));
}

} // verus!
