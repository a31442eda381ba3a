//! One tick in the life of the organism at the centre of a neighbourhood.

use crate::cells::air_cell::AirCell;
use crate::cells::life_cell::genome::{GeneCondition, Genome};
use crate::cells::life_cell::{AliveCell, EnergyDirections, LifeCell, LifeType};
use crate::cells::soil_cell::{SoilCell, ENERGY_UNIT, MAX_ENERGY_LIFE, MAX_ORGANIC_LIFE};
use crate::cells::{area_wf, lemma_with, lies_as, WorldCell};
use crate::grid::{Area, Slot};
use crate::types::{CellDir, State};
use crate::update::interpreter::{
    execute_gene, gene_outcome, lemma_gene_without_chance, may_come_of_gene, process_genome,
    without_chance, ConditionRolls, Offspring,
};
use vstd::prelude::*;

verus! {

/// The pollution that the decay of `organics` of organic matter gives off: half of it,
/// but at least 1 where there is any matter at all.
pub open spec fn decay_pollution(organics: u8) -> u8 {
    if organics == 0 {
        0
    } else if organics / 2 < 1 {
        1
    } else {
        organics / 2
    }
}

/// What a cell holds once its organism has died: the organic matter of the organism and
/// half of its energy have gone into the soil, and the decay has fouled the air. Every
/// addition stops at the largest number that the layer can hold.
pub open spec fn remains(cell: WorldCell) -> WorldCell {
    WorldCell {
        life: LifeCell::Dead,
        soil: SoilCell {
            organics: cell.soil.organics.saturating_add(cell.life.spec_organics()),
            energy: cell.soil.energy.saturating_add(cell.life.spec_energy() / 2),
        },
        air: AirCell {
            pollution: cell.air.pollution.saturating_add(
                decay_pollution(cell.life.spec_organics()),
            ),
        },
    }
}

/// A neighbour after the cell that lies in the direction `toward` of it has died: it
/// forwards no more energy there, and where the dead cell was its parent it has no parent
/// any more.
pub open spec fn bereaved(life: LifeCell, toward: CellDir) -> LifeCell {
    match life {
        LifeCell::Alive(neighbour) => LifeCell::Alive(
            AliveCell {
                energy_to: neighbour.energy_to.with(toward, false),
                parent_dir: if neighbour.parent_dir == Some(toward) {
                    None
                } else {
                    neighbour.parent_dir
                },
                ..neighbour
            },
        ),
        LifeCell::Dead => LifeCell::Dead,
    }
}

/// The area after the organism at its centre was killed: the centre holds the remains,
/// and then, one after the other, the neighbours above, below, left and right of it are
/// bereaved. The diagonal neighbours do not change.
///
/// Each of the five writes goes to its cell ([`Area::with`]): where the grid is so narrow
/// that a neighbour is the centre itself, or two neighbours are one cell, each write
/// finds what the writes before it have left.
pub open spec fn killed(area: Area<WorldCell>) -> Area<WorldCell> {
    let a1 = area.with(Slot::Center, remains(area.center));
    let a2 = a1.with(Slot::Up, a1.up.with_life(bereaved(a1.up.life, CellDir::Down)));
    let a3 = a2.with(Slot::Down, a2.down.with_life(bereaved(a2.down.life, CellDir::Up)));
    let a4 = a3.with(Slot::Left, a3.left.with_life(bereaved(a3.left.life, CellDir::Right)));
    a4.with(Slot::Right, a4.right.with_life(bereaved(a4.right.life, CellDir::Left)))
}

fn bereave(life: &mut LifeCell, toward: CellDir)
    ensures
        *final(life) == bereaved(*old(life), toward),
{
    if let LifeCell::Alive(mut neighbour) = *life {
        neighbour.energy_to.set(toward, false);
        if let Some(parent_dir) = neighbour.parent_dir {
            if parent_dir == toward {
                neighbour.parent_dir = None;
            }
        }
        *life = LifeCell::Alive(neighbour);
    }
}

/// Kills the organism at the centre and reroutes the energy paths round it.
pub fn kill(area: &mut Area<WorldCell>)
    ensures
        *final(area) == killed(*old(area)),
        area_wf(*old(area)) ==> area_wf(*final(area)),
{
    let organics: u8 = area.center.life.organics();
    area.center.soil.organics = area.center.soil.organics.saturating_add(organics);
    area.center.soil.energy = area.center.soil.energy.saturating_add(
        area.center.life.energy() / 2,
    );
    let fumes: u8 = if organics == 0 {
        0
    } else if organics / 2 < 1 {
        1
    } else {
        organics / 2
    };
    area.center.air.pollution = area.center.air.pollution.saturating_add(fumes);
    area.center.life = LifeCell::Dead;
    area.echo(Slot::Center);
    bereave(&mut area.up.life, CellDir::Down);
    area.echo(Slot::Up);
    bereave(&mut area.down.life, CellDir::Up);
    area.echo(Slot::Down);
    bereave(&mut area.left.life, CellDir::Right);
    area.echo(Slot::Left);
    bereave(&mut area.right.life, CellDir::Left);
    area.echo(Slot::Right);
}

/// Once the organism at the centre of an area was killed, none of the four neighbours
/// next to it forwards energy to the centre, and none has the centre as its parent.
pub proof fn lemma_kill_cleans_routing(area: Area<WorldCell>, dir: CellDir)
    ensures
        killed(area).center.life == LifeCell::Dead,
        killed(area).spec_direction(dir).life matches LifeCell::Alive(neighbour) ==> {
            &&& !neighbour.energy_to.spec_get(dir.spec_opposite())
            &&& neighbour.parent_dir != Some(dir.spec_opposite())
        },
{
}

/// What the pipe `life` and the area round it become when the pipe turns to its parent in
/// the direction `parent_dir`: where the parent lives, the pipe forwards energy to it from
/// now on, and the parent no longer forwards energy to the pipe. Where nothing lives
/// there, nothing changes.
pub open spec fn rerouted(area: Area<WorldCell>, life: AliveCell, parent_dir: CellDir) -> (
    Area<WorldCell>,
    AliveCell,
) {
    match area.spec_direction(parent_dir).life {
        LifeCell::Alive(parent) => (
            area.with_direction(
                parent_dir,
                area.spec_direction(parent_dir).with_life(
                    LifeCell::Alive(
                        AliveCell {
                            energy_to: parent.energy_to.with(parent_dir.spec_opposite(), false),
                            ..parent
                        },
                    ),
                ),
            ),
            AliveCell { energy_to: life.energy_to.with(parent_dir, true), ..life },
        ),
        LifeCell::Dead => (area, life),
    }
}

/// Turns the energy path of a pipe towards its parent.
pub fn reroute_energy_paths(area: &mut Area<WorldCell>, life: &mut AliveCell, parent_dir: CellDir)
    ensures
        (*final(area), *final(life)) == rerouted(*old(area), *old(life), parent_dir),
        area_wf(*old(area)) ==> area_wf(*final(area)),
{
    let mut cell = area.direction(parent_dir);
    if let LifeCell::Alive(mut parent) = cell.life {
        life.energy_to.set(parent_dir, true);
        parent.energy_to.set(parent_dir.opposite(), false);
        cell.life = LifeCell::Alive(parent);
        area.set_direction(parent_dir, cell);
    }
}

/// The energy, in parts of the unit, that a leaf makes in one tick under `pollution`:
/// 1.8 units in air that holds up to 4 of pollution, and 7.2 units divided by the
/// pollution in fouler air.
pub open spec fn leaf_yield(pollution: u8) -> u64 {
    if pollution <= 4 {
        1_800_000
    } else {
        (7_200_000int / (pollution as int)) as u64
    }
}

/// What a root or a filter takes in one tick from a stock of `stock`: all of a stock of 0,
/// one from a stock of up to 8, and 16 hundredths, rounded down, from a larger one.
pub open spec fn drain_of(stock: u8) -> u8 {
    if 0 < stock <= 8 {
        1
    } else {
        (stock * 16 / 100) as u8
    }
}

/// The energy, in parts of the unit, that a filter wins from the pollution `pollution` of
/// one cell, before it is halved: one unit from a stock of up to 8, and 0.16 units for
/// each item of a larger stock.
pub open spec fn filter_yield(pollution: u8) -> u64 {
    if 0 < pollution <= 8 {
        1_000_000
    } else {
        (pollution * 160_000) as u64
    }
}

/// What a reactor takes in one tick from soil that holds `energy`: 16 hundredths of it,
/// rounded down to a whole part.
pub open spec fn reactor_drain(energy: u64) -> u64 {
    (energy * 16 / 100) as u64
}

/// A cell after a root has drained its organics.
pub open spec fn rooted(cell: WorldCell) -> WorldCell {
    cell.with_organics((cell.soil.organics - drain_of(cell.soil.organics)) as u8)
}

/// A cell after a reactor has drained its soil energy.
pub open spec fn reacted(cell: WorldCell) -> WorldCell {
    cell.with_soil_energy((cell.soil.energy - reactor_drain(cell.soil.energy)) as u64)
}

/// A cell after a filter has drained its pollution.
pub open spec fn filtered(cell: WorldCell) -> WorldCell {
    cell.with_pollution((cell.air.pollution - drain_of(cell.air.pollution)) as u8)
}

/// What an organism harvests from the cells round it: a root the organics, a reactor the
/// energy of the soil, a filter the pollution.
#[derive(Debug, Clone, Copy, PartialEq, Eq, Structural)]
pub enum Harvest {
    Organics,
    SoilEnergy,
    Pollution,
}

/// A cell after the harvest has drained it.
pub open spec fn drained(kind: Harvest, cell: WorldCell) -> WorldCell {
    match kind {
        Harvest::Organics => rooted(cell),
        Harvest::SoilEnergy => reacted(cell),
        Harvest::Pollution => filtered(cell),
    }
}

/// What the harvest wins from a cell: the organics that a root takes ([`drain_of`]), the
/// soil energy that a reactor takes ([`reactor_drain`]), or the energy that a filter wins
/// from the pollution ([`filter_yield`]).
pub open spec fn won_from(kind: Harvest, cell: WorldCell) -> int {
    match kind {
        Harvest::Organics => drain_of(cell.soil.organics) as int,
        Harvest::SoilEnergy => reactor_drain(cell.soil.energy) as int,
        Harvest::Pollution => filter_yield(cell.air.pollution) as int,
    }
}

/// The area and the sum of the harvest after the harvest has come to the place `slot`:
/// the cell there is drained, as it stands at that time, and what it yields is added.
pub open spec fn harvest_step(kind: Harvest, so_far: (Area<WorldCell>, int), slot: Slot) -> (
    Area<WorldCell>,
    int,
) {
    (
        so_far.0.with(slot, drained(kind, so_far.0.spec_at(slot))),
        so_far.1 + won_from(kind, so_far.0.spec_at(slot)),
    )
}

/// The area after a harvest, and what was harvested in all. The harvest goes from cell to
/// cell: the centre, then up, down, left and right, then the four corners. Where the grid
/// is so narrow that several places are one cell, that cell is drained once for each of
/// them, each time as the time before has left it.
#[verifier::opaque]
pub open spec fn harvested(kind: Harvest, area: Area<WorldCell>) -> (Area<WorldCell>, int) {
    let s1 = harvest_step(kind, (area, 0int), Slot::Center);
    let s2 = harvest_step(kind, s1, Slot::Up);
    let s3 = harvest_step(kind, s2, Slot::Down);
    let s4 = harvest_step(kind, s3, Slot::Left);
    let s5 = harvest_step(kind, s4, Slot::Right);
    let s6 = harvest_step(kind, s5, Slot::UpLeft);
    let s7 = harvest_step(kind, s6, Slot::UpRight);
    let s8 = harvest_step(kind, s7, Slot::DownLeft);
    harvest_step(kind, s8, Slot::DownRight)
}

/// `amount` more than `energy`, as far as the number can hold it.
pub open spec fn raised(energy: u64, amount: int) -> u64 {
    if energy + amount > u64::MAX {
        u64::MAX
    } else {
        (energy + amount) as u64
    }
}

/// `amount` more than `stock`, as far as a byte can hold it.
pub open spec fn raised_u8(stock: u8, amount: int) -> u8 {
    if stock + amount > u8::MAX {
        u8::MAX
    } else {
        (stock + amount) as u8
    }
}

/// A leaf and the area round it after the leaf has made its energy: [`leaf_yield`] of the
/// pollution over it for itself, and half as much for the soil under it.
pub open spec fn leaf_fed(area: Area<WorldCell>, life: AliveCell) -> (Area<WorldCell>, AliveCell) {
    let total = leaf_yield(area.center.air.pollution);
    (
        area.with(
            Slot::Center,
            area.center.with_soil_energy(raised(area.center.soil.energy, total as int / 2)),
        ),
        AliveCell { energy: raised(life.energy, total as int), ..life },
    )
}

/// A root and the area round it after the root has made its energy: it harvests the
/// organics of the nine cells ([`harvested`]). For each item it gains 0.6 units and the
/// soil under it 0.2 units, and for every two items the air over it gets one of
/// pollution.
pub open spec fn root_fed(area: Area<WorldCell>, life: AliveCell) -> (Area<WorldCell>, AliveCell) {
    let (drained, total) = harvested(Harvest::Organics, area);
    (
        drained.with(
            Slot::Center,
            drained.center.with_soil_energy(
                raised(drained.center.soil.energy, total * 200_000),
            ).with_pollution(raised_u8(drained.center.air.pollution, total / 2)),
        ),
        AliveCell { energy: raised(life.energy, total * 600_000), ..life },
    )
}

/// A reactor and the area round it after the reactor has made its energy: it harvests the
/// soil energy of the nine cells ([`harvested`]) and gains four tenths of it.
pub open spec fn reactor_fed(area: Area<WorldCell>, life: AliveCell) -> (
    Area<WorldCell>,
    AliveCell,
) {
    let (drained, total) = harvested(Harvest::SoilEnergy, area);
    (drained, AliveCell { energy: raised(life.energy, total * 4 / 10), ..life })
}

/// A filter and the area round it after the filter has made its energy: it harvests the
/// pollution of the nine cells ([`harvested`]) and gains half of what that yields.
pub open spec fn filter_fed(area: Area<WorldCell>, life: AliveCell) -> (
    Area<WorldCell>,
    AliveCell,
) {
    let (drained, total) = harvested(Harvest::Pollution, area);
    (drained, AliveCell { energy: raised(life.energy, total / 2), ..life })
}

/// The organism `life` at the centre of `area` and the area after the organism has made
/// its energy for the tick, each role in its own way ([`leaf_fed`], [`root_fed`],
/// [`reactor_fed`], [`filter_fed`]). Pipes and stem cells make nothing.
pub open spec fn generated(area: Area<WorldCell>, life: AliveCell) -> (Area<WorldCell>, AliveCell) {
    match life.ty {
        LifeType::Leaf => leaf_fed(area, life),
        LifeType::Root => root_fed(area, life),
        LifeType::Reactor => reactor_fed(area, life),
        LifeType::Filter => filter_fed(area, life),
        _ => (area, life),
    }
}

fn drain(stock: u8) -> (taken: u8)
    ensures
        taken == drain_of(stock),
        taken <= stock,
        taken <= 40,
{
    if stock <= 8 && stock > 0 {
        1
    } else {
        ((stock as u16) * 16 / 100) as u8
    }
}

/// Drains the cell at the place `slot`; returns what that yields.
fn harvest_at(kind: Harvest, area: &mut Area<WorldCell>, slot: Slot) -> (won: u128)
    ensures
        *final(area) == old(area).with(slot, drained(kind, old(area).spec_at(slot))),
        won == won_from(kind, old(area).spec_at(slot)),
        won <= u64::MAX,
        kind == Harvest::Organics ==> won <= 40,
        kind == Harvest::Pollution ==> won <= 40_800_000,
{
    let mut cell = area.at(slot);
    let won: u128 = match kind {
        Harvest::Organics => {
            let taken: u8 = drain(cell.soil.organics);
            cell.soil.organics -= taken;
            taken as u128
        },
        Harvest::SoilEnergy => {
            let taken: u64 = ((cell.soil.energy as u128) * 16 / 100) as u64;
            cell.soil.energy -= taken;
            taken as u128
        },
        Harvest::Pollution => {
            let pollution: u8 = cell.air.pollution;
            cell.air.pollution -= drain(pollution);
            if pollution <= 8 && pollution > 0 {
                1_000_000
            } else {
                (pollution as u128) * 160_000
            }
        },
    };
    area.put(slot, cell);
    won
}

/// Harvests the nine cells of the area, one after the other.
fn harvest(kind: Harvest, area: &mut Area<WorldCell>) -> (total: u128)
    ensures
        (*final(area), total as int) == harvested(kind, *old(area)),
        total <= 9 * u64::MAX,
        kind == Harvest::Organics ==> total <= 360,
        kind == Harvest::Pollution ==> total <= 367_200_000,
{
    reveal(harvested);
    let mut total: u128 = 0;
    total += harvest_at(kind, area, Slot::Center);
    total += harvest_at(kind, area, Slot::Up);
    total += harvest_at(kind, area, Slot::Down);
    total += harvest_at(kind, area, Slot::Left);
    total += harvest_at(kind, area, Slot::Right);
    total += harvest_at(kind, area, Slot::UpLeft);
    total += harvest_at(kind, area, Slot::UpRight);
    total += harvest_at(kind, area, Slot::DownLeft);
    total += harvest_at(kind, area, Slot::DownRight);
    total
}

fn feed_leaf(area: &mut Area<WorldCell>, life: &mut AliveCell)
    ensures
        (*final(area), *final(life)) == leaf_fed(*old(area), *old(life)),
{
    let pollution: u8 = area.center.air.pollution;
    let total: u64 = if pollution <= 4 {
        1_800_000
    } else {
        7_200_000 / (pollution as u64)
    };
    life.energy = life.energy.saturating_add(total);
    area.center.soil.energy = area.center.soil.energy.saturating_add(total / 2);
    area.echo(Slot::Center);
}

fn feed_root(area: &mut Area<WorldCell>, life: &mut AliveCell)
    ensures
        (*final(area), *final(life)) == root_fed(*old(area), *old(life)),
{
    let total: u64 = harvest(Harvest::Organics, area) as u64;
    life.energy = life.energy.saturating_add(total * 600_000);
    area.center.soil.energy = area.center.soil.energy.saturating_add(total * 200_000);
    area.center.air.pollution = area.center.air.pollution.saturating_add((total / 2) as u8);
    area.echo(Slot::Center);
}

fn feed_reactor(area: &mut Area<WorldCell>, life: &mut AliveCell)
    ensures
        (*final(area), *final(life)) == reactor_fed(*old(area), *old(life)),
{
    let total: u128 = harvest(Harvest::SoilEnergy, area);
    let gain: u128 = total * 4 / 10;
    life.energy = if gain > (u64::MAX - life.energy) as u128 {
        u64::MAX
    } else {
        life.energy + (gain as u64)
    };
}

fn feed_filter(area: &mut Area<WorldCell>, life: &mut AliveCell)
    ensures
        (*final(area), *final(life)) == filter_fed(*old(area), *old(life)),
{
    let total: u64 = harvest(Harvest::Pollution, area) as u64;
    life.energy = life.energy.saturating_add(total / 2);
}

/// Lets the organism at the centre make its energy for the tick.
pub fn generate_energy(area: &mut Area<WorldCell>, life: &mut AliveCell)
    ensures
        (*final(area), *final(life)) == generated(*old(area), *old(life)),
{
    match life.ty {
        LifeType::Leaf => feed_leaf(area, life),
        LifeType::Root => feed_root(area, life),
        LifeType::Reactor => feed_reactor(area, life),
        LifeType::Filter => feed_filter(area, life),
        _ => {},
    }
}

/// What an organism keeps for itself when it passes energy on: its upkeep and a tenth
/// more.
pub open spec fn reserve(life: AliveCell) -> u64 {
    (life.ty.spec_consumption() * 11 / 10) as u64
}

/// What an organism passes on in a tick: all it has in the tick in which one step is
/// left to it, else what it has above its [`reserve`].
pub open spec fn surplus(life: AliveCell) -> u64 {
    if life.steps_to_death == 1 {
        life.energy
    } else if life.energy > reserve(life) {
        (life.energy - reserve(life)) as u64
    } else {
        0
    }
}

/// Whether the organism passes energy on this tick: it must be of a role that does, and
/// forward to some neighbour.
pub open spec fn transfers(life: AliveCell) -> bool {
    life.ty.spec_can_transfer() && life.energy_to != EnergyDirections::none()
}

/// A neighbour after `amount` of energy was offered to it: a pipe or a stem cell takes
/// it, as far as its number can hold it; nothing else changes.
pub open spec fn fed(neighbour: WorldCell, amount: u64) -> WorldCell {
    match neighbour.life {
        LifeCell::Alive(taker) if taker.ty.spec_is_pipe_recipient() => neighbour.with_life(
            LifeCell::Alive(AliveCell { energy: taker.energy.saturating_add(amount), ..taker }),
        ),
        _ => neighbour,
    }
}

/// The area after the share `share` was offered to the cell at the place `slot`, and
/// whether the organism goes on forwarding there: it does where a pipe or a stem cell
/// took the share. Where the organism does not forward to that place (`flag` is not
/// set), nothing is offered.
pub open spec fn offered(area: Area<WorldCell>, slot: Slot, flag: bool, share: u64) -> (
    Area<WorldCell>,
    bool,
) {
    if flag {
        (
            area.with(slot, fed(area.spec_at(slot), share)),
            area.spec_at(slot).life.spec_is_pipe_recipient(),
        )
    } else {
        (area, false)
    }
}

/// The organism `life` at the centre of `area` and the area after the organism has
/// passed its energy on. Its [`surplus`] leaves it and is split in equal shares (rounded
/// down to a whole part) over the directions it forwards to. The shares are offered one
/// after the other, up, down, left and right ([`offered`]). A neighbour that is a pipe or
/// a stem cell takes its share; towards any other neighbour the share is lost, and the
/// organism stops forwarding there.
#[verifier::opaque]
pub open spec fn transferred(area: Area<WorldCell>, life: AliveCell) -> (
    Area<WorldCell>,
    AliveCell,
) {
    if transfers(life) {
        let share = ((surplus(life) as int) / (life.energy_to.spec_branches_amount() as int)) as u64;
        let up = offered(area, Slot::Up, life.energy_to.up, share);
        let down = offered(up.0, Slot::Down, life.energy_to.down, share);
        let left = offered(down.0, Slot::Left, life.energy_to.left, share);
        let right = offered(left.0, Slot::Right, life.energy_to.right, share);
        (
            right.0,
            AliveCell {
                energy: (life.energy - surplus(life)) as u64,
                energy_to: EnergyDirections { up: up.1, down: down.1, left: left.1, right: right.1 },
                ..life
            },
        )
    } else {
        (area, life)
    }
}

/// Offers `amount` of energy to the cell at the place `slot`, where `flag` is set;
/// returns whether the organism goes on forwarding there.
fn offer(area: &mut Area<WorldCell>, slot: Slot, flag: bool, amount: u64) -> (kept: bool)
    ensures
        (*final(area), kept) == offered(*old(area), slot, flag, amount),
{
    if flag {
        let mut neighbour = area.at(slot);
        if let LifeCell::Alive(mut taker) = neighbour.life {
            if taker.is_pipe_recipient() {
                taker.energy = taker.energy.saturating_add(amount);
                neighbour.life = LifeCell::Alive(taker);
                area.put(slot, neighbour);
                return true;
            }
        }
        area.put(slot, neighbour);
        false
    } else {
        false
    }
}

/// Passes the surplus of the organism at the centre on to the neighbours that it
/// forwards to.
pub fn transfer_energy(area: &mut Area<WorldCell>, life: &mut AliveCell)
    ensures
        (*final(area), *final(life)) == transferred(*old(area), *old(life)),
{
    reveal(transferred);
    let branches: u8 = life.energy_to.branches_amount();
    if !life.can_transfer() || branches == 0 {
        return ;
    }
    let keep: u64 = life.consumption() * 11 / 10;
    let to_flow: u64 = if life.steps_to_death == 1 {
        life.energy
    } else if life.energy > keep {
        life.energy - keep
    } else {
        0
    };
    life.energy -= to_flow;
    let flow_each: u64 = to_flow / (branches as u64);
    life.energy_to.up = offer(area, Slot::Up, life.energy_to.up, flow_each);
    life.energy_to.down = offer(area, Slot::Down, life.energy_to.down, flow_each);
    life.energy_to.left = offer(area, Slot::Left, life.energy_to.left, flow_each);
    life.energy_to.right = offer(area, Slot::Right, life.energy_to.right, flow_each);
}

/// Whether the condition `condition` with the parameter `param` holds for the organism
/// `life` at the centre of `area`. `roll` is the random byte that
/// [`GeneCondition::RandomMT`] compares with the parameter; no other condition looks at
/// it.
///
/// The conditions named `Life..` ask whether a neighbour lives; `LethalOrganic..` and
/// `LethalEnergy..` whether the soil of a neighbour holds more than an organism bears;
/// those that end in `MT` whether something is more than `param` (energies are compared
/// with `param` whole units); `StepsDividesP` whether the number of the tick is a
/// multiple of `param` (of 1 where `param` is 0).
pub open spec fn condition_holds(
    state: &State,
    area: &Area<WorldCell>,
    life: &AliveCell,
    condition: GeneCondition,
    param: u8,
    roll: u8,
) -> bool {
    match condition {
        GeneCondition::LifeUp => area.up.life is Alive,
        GeneCondition::LifeDown => area.down.life is Alive,
        GeneCondition::LifeLeft => area.left.life is Alive,
        GeneCondition::LifeRight => area.right.life is Alive,
        GeneCondition::LethalOrganicUp => area.up.soil.organics > MAX_ORGANIC_LIFE,
        GeneCondition::LethalOrganicDown => area.down.soil.organics > MAX_ORGANIC_LIFE,
        GeneCondition::LethalOrganicLeft => area.left.soil.organics > MAX_ORGANIC_LIFE,
        GeneCondition::LethalOrganicRight => area.right.soil.organics > MAX_ORGANIC_LIFE,
        GeneCondition::LethalEnergyUp => area.up.soil.energy > MAX_ENERGY_LIFE,
        GeneCondition::LethalEnergyDown => area.down.soil.energy > MAX_ENERGY_LIFE,
        GeneCondition::LethalEnergyLeft => area.left.soil.energy > MAX_ENERGY_LIFE,
        GeneCondition::LethalEnergyRight => area.right.soil.energy > MAX_ENERGY_LIFE,
        GeneCondition::RandomMT => roll > param,
        GeneCondition::LifeEnergyMT => life.energy > param * ENERGY_UNIT,
        GeneCondition::OrganicCenterMT => area.center.soil.organics > param,
        GeneCondition::OrganicUpMT => area.up.soil.organics > param,
        GeneCondition::OrganicDownMT => area.down.soil.organics > param,
        GeneCondition::OrganicLeftMT => area.left.soil.organics > param,
        GeneCondition::OrganicRightMT => area.right.soil.organics > param,
        GeneCondition::SoilEnergyCenterMT => area.center.soil.energy > param * ENERGY_UNIT,
        GeneCondition::SoilEnergyUpMT => area.up.soil.energy > param * ENERGY_UNIT,
        GeneCondition::SoilEnergyDownMT => area.down.soil.energy > param * ENERGY_UNIT,
        GeneCondition::SoilEnergyLeftMT => area.left.soil.energy > param * ENERGY_UNIT,
        GeneCondition::SoilEnergyRightMT => area.right.soil.energy > param * ENERGY_UNIT,
        GeneCondition::AirPollutionCenterMT => area.center.air.pollution > param,
        GeneCondition::AirPollutionUpMT => area.up.air.pollution > param,
        GeneCondition::AirPollutionDownMT => area.down.air.pollution > param,
        GeneCondition::AirPollutionLeftMT => area.left.air.pollution > param,
        GeneCondition::AirPollutionRightMT => area.right.air.pollution > param,
        GeneCondition::Always => true,
        GeneCondition::Never => false,
        GeneCondition::StepsDividesP => (state.simulation_step as int) % (if param == 0 {
            1int
        } else {
            param as int
        }) == 0,
    }
}

/// Tests a condition of a gene. `roll` is the random byte that
/// [`GeneCondition::RandomMT`] compares with the parameter.
pub fn check_gene_condition(
    state: &State,
    area: &Area<WorldCell>,
    life: &AliveCell,
    condition: GeneCondition,
    param: u8,
    roll: u8,
) -> (holds: bool)
    ensures
        holds == condition_holds(state, area, life, condition, param, roll),
{
    let level: u64 = (param as u64) * ENERGY_UNIT;
    match condition {
        GeneCondition::LifeUp => area.up.life.is_alive(),
        GeneCondition::LifeDown => area.down.life.is_alive(),
        GeneCondition::LifeLeft => area.left.life.is_alive(),
        GeneCondition::LifeRight => area.right.life.is_alive(),
        GeneCondition::LethalOrganicUp => area.up.soil.organics > MAX_ORGANIC_LIFE,
        GeneCondition::LethalOrganicDown => area.down.soil.organics > MAX_ORGANIC_LIFE,
        GeneCondition::LethalOrganicLeft => area.left.soil.organics > MAX_ORGANIC_LIFE,
        GeneCondition::LethalOrganicRight => area.right.soil.organics > MAX_ORGANIC_LIFE,
        GeneCondition::LethalEnergyUp => area.up.soil.energy > MAX_ENERGY_LIFE,
        GeneCondition::LethalEnergyDown => area.down.soil.energy > MAX_ENERGY_LIFE,
        GeneCondition::LethalEnergyLeft => area.left.soil.energy > MAX_ENERGY_LIFE,
        GeneCondition::LethalEnergyRight => area.right.soil.energy > MAX_ENERGY_LIFE,
        GeneCondition::RandomMT => roll > param,
        GeneCondition::LifeEnergyMT => life.energy > level,
        GeneCondition::OrganicCenterMT => area.center.soil.organics > param,
        GeneCondition::OrganicUpMT => area.up.soil.organics > param,
        GeneCondition::OrganicDownMT => area.down.soil.organics > param,
        GeneCondition::OrganicLeftMT => area.left.soil.organics > param,
        GeneCondition::OrganicRightMT => area.right.soil.organics > param,
        GeneCondition::SoilEnergyCenterMT => area.center.soil.energy > level,
        GeneCondition::SoilEnergyUpMT => area.up.soil.energy > level,
        GeneCondition::SoilEnergyDownMT => area.down.soil.energy > level,
        GeneCondition::SoilEnergyLeftMT => area.left.soil.energy > level,
        GeneCondition::SoilEnergyRightMT => area.right.soil.energy > level,
        GeneCondition::AirPollutionCenterMT => area.center.air.pollution > param,
        GeneCondition::AirPollutionUpMT => area.up.air.pollution > param,
        GeneCondition::AirPollutionDownMT => area.down.air.pollution > param,
        GeneCondition::AirPollutionLeftMT => area.left.air.pollution > param,
        GeneCondition::AirPollutionRightMT => area.right.air.pollution > param,
        GeneCondition::Always => true,
        GeneCondition::Never => false,
        GeneCondition::StepsDividesP => {
            let period: usize = if param == 0 {
                1
            } else {
                param as usize
            };
            state.simulation_step % period == 0
        },
    }
}

/// Whether the soil of `cell` holds more than an organism of the role `ty` bears: more
/// than [`MAX_ORGANIC_LIFE`] of organics, which only a root stands, or more than
/// [`MAX_ENERGY_LIFE`] of energy, which only a reactor stands.
pub open spec fn overloaded(cell: WorldCell, ty: LifeType) -> bool {
    ||| cell.soil.organics > MAX_ORGANIC_LIFE && !(ty is Root)
    ||| cell.soil.energy > MAX_ENERGY_LIFE && !(ty is Reactor)
}

/// Whether the organism forwards to nobody and has no way to start: it is no stem cell,
/// and no pipe that remembers its parent.
pub open spec fn stranded(life: AliveCell) -> bool {
    &&& life.energy_to == EnergyDirections::none()
    &&& !(life.ty is Stem)
    &&& !(life.ty is Pipe && life.parent_dir is Some)
}

/// Whether the organism `life` in the cell `cell` dies this tick: it has no step left to
/// live, or the soil is too rich for it, or it cannot pay its upkeep, or it is stranded.
pub open spec fn dies(cell: WorldCell, life: AliveCell) -> bool {
    ||| life.steps_to_death == 0
    ||| overloaded(cell, life.ty)
    ||| life.energy < life.ty.spec_consumption()
    ||| stranded(life)
}

/// The organism after it has paid for the tick: one step and its upkeep.
pub open spec fn upkept(life: AliveCell) -> AliveCell {
    AliveCell {
        steps_to_death: (life.steps_to_death - 1) as u16,
        energy: (life.energy - life.ty.spec_consumption()) as u64,
        ..life
    }
}

/// What a tick makes of an organism `life` that does not die, and of the area round it,
/// before any gene is executed: the organism pays ([`upkept`]); a pipe that forwards to
/// nobody turns to its parent ([`rerouted`]); the organism makes energy ([`generated`])
/// and passes its surplus on ([`transferred`]).
#[verifier::opaque]
pub open spec fn metabolized(area: Area<WorldCell>, life: AliveCell) -> (
    Area<WorldCell>,
    AliveCell,
) {
    let paid = upkept(life);
    let routed = if paid.energy_to == EnergyDirections::none() && paid.ty is Pipe
        && paid.parent_dir is Some {
        rerouted(area, paid, paid.parent_dir->0)
    } else {
        (area, paid)
    };
    let nourished = generated(routed.0, routed.1);
    transferred(nourished.0, nourished.1)
}

/// What a tick makes of the area, seen from the organism at its centre.
///
/// - Where nothing lives at the centre, nothing happens.
/// - An organism that [`dies`] is killed ([`killed`]).
/// - Any other organism lives through the tick ([`metabolized`]); a stem cell then
///   executes its active gene ([`gene_outcome`]), with `rolls` and `offspring` as the
///   random draws.
pub open spec fn life_outcome(
    state: &State,
    area: Area<WorldCell>,
    rolls: ConditionRolls,
    offspring: Offspring,
) -> Area<WorldCell> {
    match area.center.life {
        LifeCell::Dead => area,
        LifeCell::Alive(life) => if dies(area.center, life) {
            killed(area)
        } else {
            let (fed, survivor) = metabolized(area, life);
            let (after, grown) = match survivor.ty {
                LifeType::Stem(genome) => gene_outcome(
                    state,
                    fed,
                    survivor,
                    genome,
                    rolls,
                    offspring,
                ),
                _ => (fed, survivor),
            };
            settled(after, grown)
        },
    }
}

/// The genome of the stem cell at the centre of the area, if there is one.
pub open spec fn stem_genome(area: Area<WorldCell>) -> Option<Genome> {
    match area.center.life {
        LifeCell::Alive(life) => match life.ty {
            LifeType::Stem(genome) => Some(genome),
            _ => None,
        },
        LifeCell::Dead => None,
    }
}

/// Whether `after` is what a tick can make of `area`: [`life_outcome`] for some draws of
/// the random bytes and some mutations of the genome of the stem cell at the centre.
pub open spec fn may_come_of_life(state: &State, area: Area<WorldCell>, after: Area<WorldCell>)
    -> bool {
    exists|rolls: ConditionRolls, offspring: Offspring|
        (stem_genome(area) matches Some(genome) ==> offspring.bred_from(genome))
            && #[trigger] life_outcome(state, area, rolls, offspring) == after
}

proof fn lemma_harvest_step(kind: Harvest, so_far: (Area<WorldCell>, int), slot: Slot)
    ensures
        lies_as(harvest_step(kind, so_far, slot).0, so_far.0),
        so_far.0.coherent() ==> harvest_step(kind, so_far, slot).0.coherent(),
        area_wf(so_far.0) ==> area_wf(harvest_step(kind, so_far, slot).0),
        harvest_step(kind, so_far, slot).1 >= so_far.1,
{
    lemma_with(so_far.0, slot, drained(kind, so_far.0.spec_at(slot)));
}

/// A harvest moves no area, keeps it coherent and well formed, and wins nothing less
/// than nothing.
pub proof fn lemma_harvested(kind: Harvest, area: Area<WorldCell>)
    ensures
        lies_as(harvested(kind, area).0, area),
        area.coherent() ==> harvested(kind, area).0.coherent(),
        area_wf(area) ==> area_wf(harvested(kind, area).0),
        harvested(kind, area).1 >= 0,
{
    reveal(harvested);
    let s0 = (area, 0int);
    let s1 = harvest_step(kind, s0, Slot::Center);
    lemma_harvest_step(kind, s0, Slot::Center);
    let s2 = harvest_step(kind, s1, Slot::Up);
    lemma_harvest_step(kind, s1, Slot::Up);
    let s3 = harvest_step(kind, s2, Slot::Down);
    lemma_harvest_step(kind, s2, Slot::Down);
    let s4 = harvest_step(kind, s3, Slot::Left);
    lemma_harvest_step(kind, s3, Slot::Left);
    let s5 = harvest_step(kind, s4, Slot::Right);
    lemma_harvest_step(kind, s4, Slot::Right);
    let s6 = harvest_step(kind, s5, Slot::UpLeft);
    lemma_harvest_step(kind, s5, Slot::UpLeft);
    let s7 = harvest_step(kind, s6, Slot::UpRight);
    lemma_harvest_step(kind, s6, Slot::UpRight);
    let s8 = harvest_step(kind, s7, Slot::DownLeft);
    lemma_harvest_step(kind, s7, Slot::DownLeft);
    lemma_harvest_step(kind, s8, Slot::DownRight);
}

/// Making energy changes neither the role of the organism nor where the area lies, and
/// keeps the area coherent and well formed.
pub proof fn lemma_generated(area: Area<WorldCell>, life: AliveCell)
    ensures
        generated(area, life).1.ty == life.ty,
        lies_as(generated(area, life).0, area),
        area.coherent() ==> generated(area, life).0.coherent(),
        area_wf(area) ==> area_wf(generated(area, life).0),
{
    match life.ty {
        LifeType::Leaf => {
            lemma_with(area, Slot::Center, leaf_fed(area, life).0.center);
        },
        LifeType::Root => {
            lemma_harvested(Harvest::Organics, area);
            let drained = harvested(Harvest::Organics, area).0;
            lemma_with(drained, Slot::Center, root_fed(area, life).0.center);
        },
        LifeType::Reactor => {
            lemma_harvested(Harvest::SoilEnergy, area);
        },
        LifeType::Filter => {
            lemma_harvested(Harvest::Pollution, area);
        },
        _ => {},
    }
}

proof fn lemma_offered(area: Area<WorldCell>, slot: Slot, flag: bool, share: u64)
    ensures
        lies_as(offered(area, slot, flag, share).0, area),
        area.coherent() ==> offered(area, slot, flag, share).0.coherent(),
        area_wf(area) ==> area_wf(offered(area, slot, flag, share).0),
{
    lemma_with(area, slot, fed(area.spec_at(slot), share));
}

/// Passing energy on changes neither the role of the organism nor where the area lies,
/// and keeps the area coherent and well formed.
pub proof fn lemma_transferred(area: Area<WorldCell>, life: AliveCell)
    ensures
        transferred(area, life).1.ty == life.ty,
        lies_as(transferred(area, life).0, area),
        area.coherent() ==> transferred(area, life).0.coherent(),
        area_wf(area) ==> area_wf(transferred(area, life).0),
{
    reveal(transferred);
    if transfers(life) {
        let share = ((surplus(life) as int) / (life.energy_to.spec_branches_amount() as int)) as u64;
        let up = offered(area, Slot::Up, life.energy_to.up, share);
        lemma_offered(area, Slot::Up, life.energy_to.up, share);
        let down = offered(up.0, Slot::Down, life.energy_to.down, share);
        lemma_offered(up.0, Slot::Down, life.energy_to.down, share);
        let left = offered(down.0, Slot::Left, life.energy_to.left, share);
        lemma_offered(down.0, Slot::Left, life.energy_to.left, share);
        lemma_offered(left.0, Slot::Right, life.energy_to.right, share);
    }
}

/// Turning to the parent changes neither the role of the pipe nor where the area lies,
/// and keeps the area coherent and well formed.
pub proof fn lemma_rerouted(area: Area<WorldCell>, life: AliveCell, parent_dir: CellDir)
    ensures
        rerouted(area, life, parent_dir).1.ty == life.ty,
        lies_as(rerouted(area, life, parent_dir).0, area),
        area.coherent() ==> rerouted(area, life, parent_dir).0.coherent(),
        area_wf(area) ==> area_wf(rerouted(area, life, parent_dir).0),
{
    lemma_with(
        area,
        Slot::spec_of(parent_dir),
        rerouted(area, life, parent_dir).0.spec_direction(parent_dir),
    );
}

/// Metabolism changes neither the role of the organism nor where the area lies, and
/// keeps the area coherent and well formed.
pub proof fn lemma_metabolized(area: Area<WorldCell>, life: AliveCell)
    ensures
        metabolized(area, life).1.ty == life.ty,
        metabolized(area, life).0.x == area.x,
        metabolized(area, life).0.y == area.y,
        lies_as(metabolized(area, life).0, area),
        area.coherent() ==> metabolized(area, life).0.coherent(),
        area_wf(area) ==> area_wf(metabolized(area, life).0),
{
    reveal(metabolized);
    let paid = upkept(life);
    let routed = if paid.energy_to == EnergyDirections::none() && paid.ty is Pipe
        && paid.parent_dir is Some {
        rerouted(area, paid, paid.parent_dir->0)
    } else {
        (area, paid)
    };
    if paid.parent_dir is Some {
        lemma_rerouted(area, paid, paid.parent_dir->0);
    }
    let nourished = generated(routed.0, routed.1);
    lemma_generated(routed.0, routed.1);
    lemma_transferred(nourished.0, nourished.1);
}

/// The first part of a tick: the organism at the centre dies, or lives through the tick
/// up to the execution of its gene. Returns the organism if it lives; it is not yet put
/// back into the area.
fn metabolize(area: &mut Area<WorldCell>) -> (survivor: Option<AliveCell>)
    ensures
        match old(area).center.life {
            LifeCell::Dead => survivor is None && *final(area) == *old(area),
            LifeCell::Alive(life) => if dies(old(area).center, life) {
                survivor is None && *final(area) == killed(*old(area))
            } else {
                survivor matches Some(alive) && (*final(area), alive) == metabolized(
                    *old(area),
                    life,
                )
            },
        },
{
    reveal(metabolized);
    if let LifeCell::Alive(mut life) = area.center.life {
        if life.steps_to_death == 0 {
            kill(area);
            return None;
        } else {
            life.steps_to_death -= 1;
        }
        if ((area.center.soil.organics > MAX_ORGANIC_LIFE) && !life.ty.is_root()) || ((
        area.center.soil.energy > MAX_ENERGY_LIFE) && !life.ty.is_reactor()) {
            kill(area);
            return None;
        }
        let consumption: u64 = life.consumption();
        if life.energy < consumption {
            kill(area);
            return None;
        }
        life.energy -= consumption;
        if (life.energy_to.branches_amount() == 0) && !life.is_fertile() {
            if life.is_pipe() {
                if let Some(parent_dir) = life.parent_dir {
                    reroute_energy_paths(area, &mut life, parent_dir);
                } else {
                    kill(area);
                    return None;
                }
            } else {
                kill(area);
                return None;
            }
        }
        generate_energy(area, &mut life);
        transfer_energy(area, &mut life);
        Some(life)
    } else {
        None
    }
}

/// Lets the organism at the centre of the area live one tick, with the random draws
/// given: `rolls` for the conditions of its gene, `offspring` for the genomes of its stem
/// children.
pub fn update_life_with(
    state: &State,
    area: &mut Area<WorldCell>,
    rolls: ConditionRolls,
    offspring: &Offspring,
)
    requires
        old(area).center.wf(),
    ensures
        *final(area) == life_outcome(state, *old(area), rolls, *offspring),
        area_wf(*old(area)) && offspring.wf() ==> area_wf(*final(area)),
        lies_as(*final(area), *old(area)),
        old(area).coherent() ==> final(area).coherent(),
{
    proof {
        lemma_life_outcome_keeps_place(state, *area, rolls, *offspring);
    }
    proof {
        if let LifeCell::Alive(life) = area.center.life {
            lemma_metabolized(*area, life);
        }
    }
    if let Some(mut life) = metabolize(area) {
        match life.ty {
            LifeType::Stem(genome) => {
                execute_gene(state, area, &mut life, &genome, rolls, offspring);
            },
            _ => {},
        };
        area.center.life = LifeCell::Alive(life);
                area.echo(Slot::Center);
    }
}

/// Five bytes for a gene that compares none.
pub open spec fn no_rolls() -> ConditionRolls {
    ConditionRolls {
        main_action: 0,
        additional_action1: 0,
        additional_action2: 0,
        branch1: 0,
        branch2: 0,
    }
}

/// Four copies of the genome at the centre of the area, for a tick in which nothing is
/// born.
pub open spec fn no_offspring(area: Area<WorldCell>) -> Offspring {
    match stem_genome(area) {
        Some(genome) => Offspring::spec_copies(&genome),
        None => arbitrary(),
    }
}

/// Whether chance has no part in the tick of the area: no stem cell lives at its centre,
/// or one whose gene runs without chance ([`without_chance`]).
pub open spec fn chance_free(area: Area<WorldCell>) -> bool {
    stem_genome(area) matches Some(genome) ==> without_chance(
        genome.spec_active_gene(),
        genome.mutation_rate.0,
    )
}

/// Where chance has no part in a tick, [`life_outcome`] is the same for all random bytes
/// and for every offspring that was bred from the genome at the centre.
pub proof fn lemma_tick_without_chance(
    state: &State,
    area: Area<WorldCell>,
    rolls: ConditionRolls,
    offspring: Offspring,
)
    requires
        chance_free(area),
        area.center.wf(),
        stem_genome(area) matches Some(genome) ==> offspring.bred_from(genome),
    ensures
        life_outcome(state, area, rolls, offspring) == life_outcome(
            state,
            area,
            no_rolls(),
            no_offspring(area),
        ),
{
    if let LifeCell::Alive(life) = area.center.life {
        if !dies(area.center, life) {
            lemma_metabolized(area, life);
            let (fed, survivor) = metabolized(area, life);
            if let LifeType::Stem(genome) = survivor.ty {
                lemma_gene_without_chance(
                    state,
                    fed,
                    survivor,
                    genome,
                    rolls,
                    offspring,
                    no_rolls(),
                    no_offspring(area),
                );
            }
        }
    }
}

/// The area with the organism `life` put at its centre.
pub open spec fn settled(area: Area<WorldCell>, life: AliveCell) -> Area<WorldCell> {
    area.with(Slot::Center, area.center.with_life(LifeCell::Alive(life)))
}

proof fn lemma_tick_of_stem(
    state: &State,
    before: Area<WorldCell>,
    life: AliveCell,
    genome: Genome,
    after: (Area<WorldCell>, AliveCell),
)
    requires
        before.center.life == LifeCell::Alive(life),
        !dies(before.center, life),
        life.ty == LifeType::Stem(genome),
        may_come_of_gene(
            state,
            metabolized(before, life).0,
            metabolized(before, life).1,
            genome,
            after,
        ),
    ensures
        may_come_of_life(state, before, settled(after.0, after.1)),
{
    lemma_metabolized(before, life);
    let fed = metabolized(before, life).0;
    let survivor = metabolized(before, life).1;
    let (rolls, offspring) = choose|rolls: ConditionRolls, offspring: Offspring|
        offspring.bred_from(genome) && #[trigger] gene_outcome(
            state,
            fed,
            survivor,
            genome,
            rolls,
            offspring,
        ) == after;
    assert(life_outcome(state, before, rolls, offspring) == settled(after.0, after.1));
}

proof fn lemma_tick_without_gene(state: &State, before: Area<WorldCell>)
    requires
        before.center.wf(),
    ensures
        may_come_of_life(
            state,
            before,
            life_outcome(state, before, no_rolls(), no_offspring(before)),
        ),
{
    if let Some(genome) = stem_genome(before) {
        assert(no_offspring(before).bred_from(genome));
    }
}

/// Lets the organism at the centre of the area live one tick.
///
/// An organism that cannot pay its upkeep dies, whatever its role.
pub fn update_life(state: &State, area: &mut Area<WorldCell>)
    requires
        old(area).center.wf(),
    ensures
        may_come_of_life(state, *old(area), *final(area)),
        area_wf(*old(area)) ==> area_wf(*final(area)),
        lies_as(*final(area), *old(area)),
        old(area).coherent() ==> final(area).coherent(),
        old(area).center.life matches LifeCell::Alive(life) && life.energy
            < life.ty.spec_consumption() ==> *final(area) == killed(*old(area)),
        old(area).center.life matches LifeCell::Alive(life) && dies(old(area).center, life)
            ==> *final(area) == killed(*old(area)),
        old(area).center.life == LifeCell::Dead ==> *final(area) == *old(area),
        chance_free(*old(area)) ==> *final(area) == life_outcome(
            state,
            *old(area),
            no_rolls(),
            no_offspring(*old(area)),
        ),
{
    let ghost before = *area;
    proof {
        if let LifeCell::Alive(life) = area.center.life {
            lemma_metabolized(*area, life);
        }
    }
    if let Some(mut life) = metabolize(area) {
        match life.ty {
            LifeType::Stem(genome) => {
                process_genome(state, area, &mut life, genome);
                proof {
                    lemma_tick_of_stem(
                        state,
                        before,
                        before.center.life->Alive_0,
                        genome,
                        (*area, life),
                    );
                }
                area.center.life = LifeCell::Alive(life);
                area.echo(Slot::Center);
            },
            _ => {
                area.center.life = LifeCell::Alive(life);
                area.echo(Slot::Center);
                proof {
                    lemma_tick_without_gene(state, before);
                }
            },
        };
    } else {
        proof {
            lemma_tick_without_gene(state, before);
        }
    }
    proof {
        lemma_tick_keeps_place(state, before, *area);
        if chance_free(before) {
            let (rolls, offspring) = choose|rolls: ConditionRolls, offspring: Offspring|
                (stem_genome(before) matches Some(genome) ==> offspring.bred_from(genome))
                    && #[trigger] life_outcome(state, before, rolls, offspring) == *area;
            lemma_tick_without_chance(state, before, rolls, offspring);
        }
    }
}

/// An organism whose energy does not cover its upkeep is dead after the tick, whatever
/// its role and whatever the draws.
pub proof fn lemma_starving_dies(
    state: &State,
    area: Area<WorldCell>,
    life: AliveCell,
    rolls: ConditionRolls,
    offspring: Offspring,
)
    requires
        area.center.life == LifeCell::Alive(life),
        life.energy < life.ty.spec_consumption(),
    ensures
        life_outcome(state, area, rolls, offspring) == killed(area),
        life_outcome(state, area, rolls, offspring).center.life == LifeCell::Dead,
{
}

/// The kill of an organism moves no area and keeps it coherent and well formed.
pub proof fn lemma_killed(area: Area<WorldCell>)
    ensures
        lies_as(killed(area), area),
        area.coherent() ==> killed(area).coherent(),
        area_wf(area) ==> area_wf(killed(area)),
{
    let a1 = area.with(Slot::Center, remains(area.center));
    lemma_with(area, Slot::Center, remains(area.center));
    let a2 = a1.with(Slot::Up, a1.up.with_life(bereaved(a1.up.life, CellDir::Down)));
    lemma_with(a1, Slot::Up, a1.up.with_life(bereaved(a1.up.life, CellDir::Down)));
    let a3 = a2.with(Slot::Down, a2.down.with_life(bereaved(a2.down.life, CellDir::Up)));
    lemma_with(a2, Slot::Down, a2.down.with_life(bereaved(a2.down.life, CellDir::Up)));
    let a4 = a3.with(Slot::Left, a3.left.with_life(bereaved(a3.left.life, CellDir::Right)));
    lemma_with(a3, Slot::Left, a3.left.with_life(bereaved(a3.left.life, CellDir::Right)));
    lemma_with(a4, Slot::Right, a4.right.with_life(bereaved(a4.right.life, CellDir::Left)));
}

/// A tick moves no neighbourhood, and keeps a coherent area coherent.
pub proof fn lemma_tick_keeps_place(state: &State, area: Area<WorldCell>, after: Area<WorldCell>)
    requires
        may_come_of_life(state, area, after),
    ensures
        after.x == area.x,
        after.y == area.y,
        lies_as(after, area),
        area.coherent() ==> after.coherent(),
{
    let (rolls, offspring) = choose|rolls: ConditionRolls, offspring: Offspring|
        (stem_genome(area) matches Some(genome) ==> offspring.bred_from(genome))
            && #[trigger] life_outcome(state, area, rolls, offspring) == after;
    lemma_life_outcome_keeps_place(state, area, rolls, offspring);
}

/// A tick moves no neighbourhood and keeps a coherent area coherent, whatever the draws.
pub proof fn lemma_life_outcome_keeps_place(
    state: &State,
    area: Area<WorldCell>,
    rolls: ConditionRolls,
    offspring: Offspring,
)
    ensures
        lies_as(life_outcome(state, area, rolls, offspring), area),
        area.coherent() ==> life_outcome(state, area, rolls, offspring).coherent(),
{
    if let LifeCell::Alive(life) = area.center.life {
        if dies(area.center, life) {
            lemma_killed(area);
        } else {
            lemma_metabolized(area, life);
            let (fed, survivor) = metabolized(area, life);
            let (after, grown) = match survivor.ty {
                LifeType::Stem(genome) => gene_outcome(
                    state,
                    fed,
                    survivor,
                    genome,
                    rolls,
                    offspring,
                ),
                _ => (fed, survivor),
            };
            if let LifeType::Stem(genome) = survivor.ty {
                crate::update::interpreter::lemma_gene_outcome_keeps_place(
                    state,
                    fed,
                    survivor,
                    genome,
                    rolls,
                    offspring,
                );
            }
            lemma_with(after, Slot::Center, after.center.with_life(LifeCell::Alive(grown)));
        }
    }
}

} // verus!
