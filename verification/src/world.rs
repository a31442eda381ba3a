//! The world as a whole: seeding it, and the tick that visits every cell.

use crate::cells::life_cell::genome::Genome;
use crate::cells::life_cell::{AliveCell, EnergyDirections, LifeCell, LifeType};
use crate::cells::soil_cell::MAX_ENERGY_LIFE;
use crate::cells::{area_wf, WorldCell};
use crate::grid::{cells_with, shifted, Area, Grid};
use crate::random::shuffle;
use crate::types::State;
use crate::update::life::{chance_free, life_outcome, may_come_of_life, no_offspring, no_rolls};
use crate::update::{diffused, update_world};
use vstd::prelude::*;

verus! {

/// The column in which a world is seeded.
pub const SEED_X: u32 = 127;

/// The row in which a world is seeded.
pub const SEED_Y: u32 = 127;

/// The energy that the first stem cell starts with: 8 units.
pub const SEED_ENERGY: u64 = 8_000_000;

/// The steps that the first stem cell has to live.
pub const SEED_STEPS_TO_DEATH: u16 = 1000;

/// The grid has its shape, and every cell of it is well formed.
pub open spec fn world_wf(world: Grid<WorldCell>) -> bool {
    &&& world.wf()
    &&& forall|x: int, y: int|
        0 <= x < world.spec_width() && 0 <= y < world.spec_height() ==> (#[trigger] world@[y][x]).wf()
}

/// The first stem cell of a world: it carries `genome`, has no parent and forwards to
/// nobody.
pub open spec fn seed_cell(genome: Genome) -> WorldCell {
    WorldCell::empty().with_life(
        LifeCell::Alive(
            AliveCell {
                ty: LifeType::Stem(genome),
                energy: SEED_ENERGY,
                energy_to: EnergyDirections::none(),
                parent_dir: None,
                steps_to_death: SEED_STEPS_TO_DEATH,
            },
        ),
    )
}

/// Whether `world` is a freshly seeded world: empty everywhere but in column [`SEED_X`] of
/// row [`SEED_Y`], where the first stem cell sits. (A world too small to have that cell
/// is empty everywhere.)
pub open spec fn seeded(world: Grid<WorldCell>, genome: Genome) -> bool {
    &&& world.wf()
    &&& forall|x: int, y: int|
        0 <= x < world.spec_width() && 0 <= y < world.spec_height() ==> #[trigger] world@[y][x] == if x
            == SEED_X && y == SEED_Y {
            seed_cell(genome)
        } else {
            WorldCell::empty()
        }
}

/// Empties the world and puts one stem cell with the genome `genome` into it.
pub fn seed_world(world: &mut Grid<WorldCell>, genome: Genome)
    requires
        old(world).wf(),
    ensures
        final(world).width() == old(world).width(),
        final(world).height() == old(world).height(),
        seeded(*final(world), genome),
        genome.wf() ==> world_wf(*final(world)),
{
    let width: u32 = world.width();
    let height: u32 = world.height();
    let mut x: u32 = 0;
    while x < width
        invariant
            x <= width,
            world.wf(),
            world.width() == width,
            world.height() == height,
            forall|cx: int, cy: int|
                0 <= cx < x && 0 <= cy < height ==> #[trigger] world@[cy][cx] == if cx == SEED_X
                    && cy == SEED_Y {
                    seed_cell(genome)
                } else {
                    WorldCell::empty()
                },
        decreases width - x,
    {
        let mut y: u32 = 0;
        while y < height
            invariant
                x < width,
                y <= height,
                world.wf(),
                world.width() == width,
                world.height() == height,
                forall|cx: int, cy: int|
                    0 <= cx < x && 0 <= cy < height ==> #[trigger] world@[cy][cx] == if cx
                        == SEED_X && cy == SEED_Y {
                        seed_cell(genome)
                    } else {
                        WorldCell::empty()
                    },
                forall|cy: int|
                    0 <= cy < y ==> #[trigger] world@[cy][x as int] == if x == SEED_X && cy
                        == SEED_Y {
                        seed_cell(genome)
                    } else {
                        WorldCell::empty()
                    },
            decreases height - y,
        {
            let mut cell = WorldCell::default();
            if x == SEED_X && y == SEED_Y {
                let life_cell = AliveCell::new(
                    LifeType::Stem(genome),
                    SEED_ENERGY,
                    EnergyDirections::default(),
                    None,
                    SEED_STEPS_TO_DEATH,
                );
                cell.life = LifeCell::Alive(life_cell);
            }
            world.uset(x, y, cell);
            y += 1;
        }
        x += 1;
    }
}

/// Seeds the world anew, with a stem cell whose genome is drawn at random, and marks the
/// world as seeded.
pub fn initialize(world: &mut Grid<WorldCell>, state: &mut State)
    requires
        old(world).wf(),
    ensures
        final(world).width() == old(world).width(),
        final(world).height() == old(world).height(),
        world_wf(*final(world)),
        exists|genome: Genome| genome.fresh() && #[trigger] seeded(*final(world), genome),
        *final(state) == (State { initialized: true, ..*old(state) }),
{
    let mut rng = rand::thread_rng();
    let genome = Genome::sample(&mut rng);
    seed_world(world, genome);
    state.initialized = true;
}

/// Whether `after` is what one step on the cell in column `x` of row `y` can make of the
/// world `before`: the neighbourhood of the cell has lived one step where it lies
/// (diffusion, then what [`may_come_of_life`] allows), and no cell outside the
/// neighbourhood has changed.
///
/// That holds on a world of any size. On a world of fewer than three columns or rows
/// several places of the neighbourhood are one cell; what the step writes to one of them
/// it finds at the others ([`Area::with`]).
pub open spec fn cell_stepped(
    state: &State,
    before: Grid<WorldCell>,
    x: u32,
    y: u32,
    after: Grid<WorldCell>,
) -> bool {
    &&& after.wf()
    &&& after.spec_width() == before.spec_width()
    &&& after.spec_height() == before.spec_height()
    &&& may_come_of_life(
        state,
        diffused(Area::taken_from(before, x, y)),
        Area::taken_from(after, x, y),
    )
    &&& forall|cx: int, cy: int|
        0 <= cx < before.spec_width() && 0 <= cy < before.spec_height() && !Area::taken_from(
            before,
            x,
            y,
        ).covers(before.spec_width(), before.spec_height(), cx, cy) ==> #[trigger] after@[cy][cx]
            == before@[cy][cx]
}

/// The neighbourhood that is taken from a grid is coherent: places that are one cell
/// hold one value.
pub proof fn lemma_taken_area_coherent(world: Grid<WorldCell>, x: u32, y: u32)
    requires
        world.wf(),
        x < world.spec_width(),
        y < world.spec_height(),
    ensures
        Area::taken_from(world, x, y).coherent(),
{
    crate::grid::lemma_shifted(x, world.spec_width());
    crate::grid::lemma_shifted(y, world.spec_height());
}

/// A neighbourhood taken from a well-formed world is well formed.
pub proof fn lemma_taken_area_wf(world: Grid<WorldCell>, x: u32, y: u32)
    requires
        world_wf(world),
        x < world.spec_width(),
        y < world.spec_height(),
    ensures
        area_wf(Area::taken_from(world, x, y)),
{
    let w = world.spec_width() as int;
    let h = world.spec_height() as int;
    vstd::arithmetic::div_mod::lemma_mod_bound(x - 1, w);
    vstd::arithmetic::div_mod::lemma_mod_bound(x as int, w);
    vstd::arithmetic::div_mod::lemma_mod_bound(x + 1, w);
    vstd::arithmetic::div_mod::lemma_mod_bound(y - 1, h);
    vstd::arithmetic::div_mod::lemma_mod_bound(y as int, h);
    vstd::arithmetic::div_mod::lemma_mod_bound(y + 1, h);
}

/// The rows `cells` of a grid keep their shape when a cell is replaced, and stay well
/// formed when the new cell is well formed.
proof fn lemma_cells_with_wf(
    cells: Seq<Seq<WorldCell>>,
    w: int,
    h: int,
    x: int,
    y: int,
    item: WorldCell,
)
    requires
        rows_wf(cells, w, h),
        0 <= x < w,
        0 <= y < h,
        item.wf(),
    ensures
        rows_wf(cells_with(cells, x, y, item), w, h),
{
    let after = cells_with(cells, x, y, item);
    assert forall|r: int| 0 <= r < h implies (#[trigger] after[r]).len() == w by {
        assert(cells[r].len() == w);
    }
    assert forall|c: int, r: int| 0 <= c < w && 0 <= r < h implies (#[trigger] after[r][c]).wf() by {
        assert(cells[r][c].wf());
    }
}

/// There are `h` rows of `w` cells each, and every cell is well formed.
pub open spec fn rows_wf(cells: Seq<Seq<WorldCell>>, w: int, h: int) -> bool {
    &&& cells.len() == h
    &&& forall|r: int| 0 <= r < h ==> (#[trigger] cells[r]).len() == w
    &&& forall|c: int, r: int| 0 <= c < w && 0 <= r < h ==> (#[trigger] cells[r][c]).wf()
}

/// A well-formed world stays well formed when a well-formed neighbourhood is written
/// into it.
pub proof fn lemma_stored_area_wf(
    before: Grid<WorldCell>,
    area: Area<WorldCell>,
    after: Grid<WorldCell>,
)
    requires
        world_wf(before),
        area_wf(area),
        area.x < before.spec_width(),
        area.y < before.spec_height(),
        after.spec_width() == before.spec_width(),
        after.spec_height() == before.spec_height(),
        after@ == area.stored(before@, before.spec_width(), before.spec_height()),
    ensures
        world_wf(after),
{
    let w = before.spec_width() as int;
    let h = before.spec_height() as int;
    let x = area.x as int;
    let y = area.y as int;
    vstd::arithmetic::div_mod::lemma_mod_bound(x - 1, w);
    vstd::arithmetic::div_mod::lemma_mod_bound(x + 1, w);
    vstd::arithmetic::div_mod::lemma_mod_bound(y - 1, h);
    vstd::arithmetic::div_mod::lemma_mod_bound(y + 1, h);
    let left = shifted(area.x, -1, before.spec_width());
    let right = shifted(area.x, 1, before.spec_width());
    let up = shifted(area.y, -1, before.spec_height());
    let down = shifted(area.y, 1, before.spec_height());
    let step0 = before@;
    let step1 = cells_with(step0, left, up, area.up_left);
    lemma_cells_with_wf(step0, w, h, left, up, area.up_left);
    let step2 = cells_with(step1, x, up, area.up);
    lemma_cells_with_wf(step1, w, h, x, up, area.up);
    let step3 = cells_with(step2, right, up, area.up_right);
    lemma_cells_with_wf(step2, w, h, right, up, area.up_right);
    let step4 = cells_with(step3, left, y, area.left);
    lemma_cells_with_wf(step3, w, h, left, y, area.left);
    let step5 = cells_with(step4, right, y, area.right);
    lemma_cells_with_wf(step4, w, h, right, y, area.right);
    let step6 = cells_with(step5, left, down, area.down_left);
    lemma_cells_with_wf(step5, w, h, left, down, area.down_left);
    let step7 = cells_with(step6, x, down, area.down);
    lemma_cells_with_wf(step6, w, h, x, down, area.down);
    let step8 = cells_with(step7, right, down, area.down_right);
    lemma_cells_with_wf(step7, w, h, right, down, area.down_right);
    lemma_cells_with_wf(step8, w, h, x, y, area.center);
}

/// One step of the world on the cell in column `x` of row `y`: its neighbourhood is
/// taken out of the grid, updated, and written back. What the update makes of the
/// neighbourhood is what stands in the grid afterwards, and no cell outside the
/// neighbourhood changes, on a world of any size.
pub fn step_cell(world: &mut Grid<WorldCell>, state: &State, x: u32, y: u32)
    requires
        world_wf(*old(world)),
        x < old(world).width(),
        y < old(world).height(),
    ensures
        cell_stepped(state, *old(world), x, y, *final(world)),
        world_wf(*final(world)),
        chance_free(Area::taken_from(*old(world), x, y)) ==> Area::taken_from(
            *final(world),
            x,
            y,
        ) == life_outcome(
            state,
            diffused(Area::taken_from(*old(world), x, y)),
            no_rolls(),
            no_offspring(diffused(Area::taken_from(*old(world), x, y))),
        ),
{
    let ghost taken = Area::taken_from(*world, x, y);
    proof {
        lemma_taken_area_wf(*world, x, y);
        lemma_taken_area_coherent(*world, x, y);
        crate::update::lemma_diffused(taken);
    }
    let mut area = Area::new(world, x, y);
    update_world(state, &mut area);
    area.store(world);
    proof {
        lemma_stored_area_wf(*old(world), area, *world);
    }
}

/// The cell that a tick visits as its `k`-th (counted from 0): the tick goes through the
/// columns in the order `order_x`, and in each column through the rows in the order
/// `order_y`.
pub open spec fn visit_at(order_x: Seq<u32>, order_y: Seq<u32>, k: int) -> (u32, u32) {
    (order_x[k / (order_y.len() as int)], order_y[k % (order_y.len() as int)])
}

/// Whether `after` is what the first `count` visits of a tick can make of the world
/// `before`: one step on each visited cell, in the order of the visits
/// ([`cell_stepped`]). Each step sees what the steps before it have left.
pub open spec fn visited(
    state: &State,
    before: Grid<WorldCell>,
    order_x: Seq<u32>,
    order_y: Seq<u32>,
    count: nat,
    after: Grid<WorldCell>,
) -> bool
    decreases count,
{
    if count == 0 {
        after == before
    } else {
        exists|halfway: Grid<WorldCell>|
            {
                &&& visited(state, before, order_x, order_y, (count - 1) as nat, halfway)
                &&& #[trigger] cell_stepped(
                    state,
                    halfway,
                    visit_at(order_x, order_y, count - 1).0,
                    visit_at(order_x, order_y, count - 1).1,
                    after,
                )
            }
    }
}

proof fn lemma_one_more_visit(
    state: &State,
    before: Grid<WorldCell>,
    order_x: Seq<u32>,
    order_y: Seq<u32>,
    count: nat,
    halfway: Grid<WorldCell>,
    after: Grid<WorldCell>,
)
    requires
        visited(state, before, order_x, order_y, count, halfway),
        cell_stepped(
            state,
            halfway,
            visit_at(order_x, order_y, count as int).0,
            visit_at(order_x, order_y, count as int).1,
            after,
        ),
    ensures
        visited(state, before, order_x, order_y, (count + 1) as nat, after),
{
    let more: nat = (count + 1) as nat;
    assert(cell_stepped(
        state,
        halfway,
        visit_at(order_x, order_y, more - 1).0,
        visit_at(order_x, order_y, more - 1).1,
        after,
    ));
}

/// Every column of the order `order_x` and every row of the order `order_y` lies on the
/// world.
pub open spec fn orders_fit(order_x: Seq<u32>, order_y: Seq<u32>, world: Grid<WorldCell>) -> bool {
    &&& forall|i: int| 0 <= i < order_x.len() ==> #[trigger] order_x[i] < world.spec_width()
    &&& forall|j: int| 0 <= j < order_y.len() ==> #[trigger] order_y[j] < world.spec_height()
}

/// The state while the tick that started in `before` visits the cells: the visiting
/// orders are `order_x` and `order_y`, everything else is as it was.
pub open spec fn during_tick(before: State, order_x: Seq<u32>, order_y: Seq<u32>, now: State)
    -> bool {
    &&& now.cursor_position == before.cursor_position
    &&& now.paused == before.paused
    &&& now.initialized == before.initialized
    &&& now.organic_visible == before.organic_visible
    &&& now.life_visible == before.life_visible
    &&& now.pollution_visible == before.pollution_visible
    &&& now.simulation_step == before.simulation_step
    &&& now.cell_order_x@ == order_x
    &&& now.cell_order_y@ == order_y
}

proof fn lemma_shuffled_order_fits(before: Seq<u32>, after: Seq<u32>, size: u32)
    requires
        after.to_multiset() == before.to_multiset(),
        forall|i: int| 0 <= i < before.len() ==> #[trigger] before[i] < size,
    ensures
        forall|i: int| 0 <= i < after.len() ==> #[trigger] after[i] < size,
{
    assert forall|i: int| 0 <= i < after.len() implies #[trigger] after[i] < size by {
        let item = after[i];
        vstd::seq_lib::to_multiset_contains(after, item);
        vstd::seq_lib::to_multiset_contains(before, item);
        assert(after.contains(item));
    }
}

/// One tick of the world. Both visiting orders are shuffled; then every cell that the
/// orders name is visited, column by column, and lives one step ([`step_cell`]); at the
/// end the tick is counted.
///
/// The steps work on the world in place: each sees what the steps before it have left.
pub fn next_step(world: &mut Grid<WorldCell>, state: &mut State)
    requires
        world_wf(*old(world)),
        orders_fit(old(state).cell_order_x@, old(state).cell_order_y@, *old(world)),
    ensures
        world_wf(*final(world)),
        final(world).width() == old(world).width(),
        final(world).height() == old(world).height(),
        final(state).cell_order_x@.to_multiset() == old(state).cell_order_x@.to_multiset(),
        final(state).cell_order_y@.to_multiset() == old(state).cell_order_y@.to_multiset(),
        orders_fit(final(state).cell_order_x@, final(state).cell_order_y@, *final(world)),
        *final(state) == (State {
            simulation_step: old(state).simulation_step.wrapping_add(1),
            cell_order_x: final(state).cell_order_x,
            cell_order_y: final(state).cell_order_y,
            ..*old(state)
        }),
        exists|during: State|
            {
                &&& during_tick(
                    *old(state),
                    final(state).cell_order_x@,
                    final(state).cell_order_y@,
                    during,
                )
                &&& #[trigger] visited(
                    &during,
                    *old(world),
                    final(state).cell_order_x@,
                    final(state).cell_order_y@,
                    final(state).cell_order_x@.len() * final(state).cell_order_y@.len(),
                    *final(world),
                )
            },
{
    let mut rng = rand::thread_rng();
    shuffle(&mut rng, &mut state.cell_order_x);
    shuffle(&mut rng, &mut state.cell_order_y);
    proof {
        lemma_shuffled_order_fits(
            old(state).cell_order_x@,
            state.cell_order_x@,
            world.spec_width(),
        );
        lemma_shuffled_order_fits(
            old(state).cell_order_y@,
            state.cell_order_y@,
            world.spec_height(),
        );
    }
    let ghost during = *state;
    visit_all(world, state);
    state.simulation_step = state.simulation_step.wrapping_add(1);
}

/// Visits every cell that the orders of `state` name, column by column.
fn visit_all(world: &mut Grid<WorldCell>, state: &State)
    requires
        world_wf(*old(world)),
        orders_fit(state.cell_order_x@, state.cell_order_y@, *old(world)),
    ensures
        world_wf(*final(world)),
        final(world).width() == old(world).width(),
        final(world).height() == old(world).height(),
        visited(
            state,
            *old(world),
            state.cell_order_x@,
            state.cell_order_y@,
            state.cell_order_x@.len() * state.cell_order_y@.len(),
            *final(world),
        ),
{
    let columns: usize = state.cell_order_x.len();
    let rows: usize = state.cell_order_y.len();
    let ghost order_x = state.cell_order_x@;
    let ghost order_y = state.cell_order_y@;
    let ghost mut done: nat = 0;
    let mut i: usize = 0;
    while i < columns
        invariant
            i <= columns,
            columns == order_x.len(),
            rows == order_y.len(),
            order_x == state.cell_order_x@,
            order_y == state.cell_order_y@,
            done == i * rows,
            world_wf(*world),
            world.width() == old(world).width(),
            world.height() == old(world).height(),
            orders_fit(order_x, order_y, *world),
            visited(state, *old(world), order_x, order_y, done, *world),
        decreases columns - i,
    {
        let x: u32 = state.cell_order_x[i];
        let mut j: usize = 0;
        while j < rows
            invariant
                i < columns,
                j <= rows,
                columns == order_x.len(),
                rows == order_y.len(),
                order_x == state.cell_order_x@,
                order_y == state.cell_order_y@,
                x == order_x[i as int],
                done == i * rows + j,
                world_wf(*world),
                world.width() == old(world).width(),
                world.height() == old(world).height(),
                orders_fit(order_x, order_y, *world),
                visited(state, *old(world), order_x, order_y, done, *world),
            decreases rows - j,
        {
            let y: u32 = state.cell_order_y[j];
            let ghost halfway = *world;
            step_cell(world, state, x, y);
            proof {
                vstd::arithmetic::div_mod::lemma_fundamental_div_mod_converse(
                    done as int,
                    rows as int,
                    i as int,
                    j as int,
                );
                lemma_one_more_visit(state, *old(world), order_x, order_y, done, halfway, *world);
                done = done + 1;
            }
            j += 1;
        }
        proof {
            assert((i + 1) * rows == i * rows + rows) by (nonlinear_arith);
        }
        i += 1;
    }
}

/// The pictures that show one cell, one for each layer of the display.
#[derive(Debug, Clone, Copy, PartialEq, Eq, Structural)]
pub struct CellTextures {
    pub organics: u32,
    pub life: u32,
    pub pollution: u32,
    pub soil_energy: u32,
    pub energy_directions: u32,
}

/// The picture of soil that holds `energy`: 255 shades from no energy to
/// [`MAX_ENERGY_LIFE`], and the last shade for everything above.
pub open spec fn soil_energy_texture(energy: u64) -> u32 {
    if energy >= MAX_ENERGY_LIFE {
        255
    } else {
        (energy * 255 / (MAX_ENERGY_LIFE as int)) as u32
    }
}

/// The pictures of the cell at the centre of `area`: the organics and the pollution as
/// they are, the soil energy in 255 shades, the organism by its role and its routing.
pub fn cell_textures(area: &Area<WorldCell>) -> (textures: CellTextures)
    ensures
        textures.organics == area.center.soil.organics,
        textures.pollution == area.center.air.pollution,
        textures.soil_energy == soil_energy_texture(area.center.soil.energy),
        textures.life == match area.center.life {
            LifeCell::Alive(alive_cell) => alive_cell.spec_texture_id(area),
            LifeCell::Dead => 16,
        },
        textures.energy_directions == match area.center.life {
            LifeCell::Alive(alive_cell) => crate::cells::life_cell::directions_texture(
                alive_cell.energy_to.spec_to_tuple(),
            ),
            LifeCell::Dead => 0,
        },
{
    let energy: u64 = area.center.soil.energy;
    let soil_energy: u32 = if energy >= MAX_ENERGY_LIFE {
        255
    } else {
        (energy * 255 / MAX_ENERGY_LIFE) as u32
    };
    CellTextures {
        organics: area.center.soil.organics as u32,
        life: area.center.life.texture_id(area),
        pollution: area.center.air.pollution as u32,
        soil_energy,
        energy_directions: area.center.life.energy_directions_texture_id(),
    }
}

/// Tests at run time whether every cell of the world is well formed.
pub fn world_is_well_formed(world: &Grid<WorldCell>) -> (ok: bool)
    requires
        world.wf(),
    ensures
        ok == world_wf(*world),
{
    let width: u32 = world.width();
    let height: u32 = world.height();
    let mut y: u32 = 0;
    while y < height
        invariant
            y <= height,
            world.wf(),
            world.width() == width,
            world.height() == height,
            forall|cx: int, cy: int|
                0 <= cx < width && 0 <= cy < y ==> (#[trigger] world@[cy][cx]).wf(),
        decreases height - y,
    {
        let mut x: u32 = 0;
        while x < width
            invariant
                y < height,
                x <= width,
                world.wf(),
                world.width() == width,
                world.height() == height,
                forall|cx: int, cy: int|
                    0 <= cx < width && 0 <= cy < y ==> (#[trigger] world@[cy][cx]).wf(),
                forall|cx: int| 0 <= cx < x ==> (#[trigger] world@[y as int][cx]).wf(),
            decreases width - x,
        {
            if !world.uget(x, y).is_well_formed() {
                return false;
            }
            x += 1;
        }
        y += 1;
    }
    true
}

/// Tests at run time whether the visiting orders of `state` name only cells of the
/// world.
pub fn orders_are_fit(state: &State, world: &Grid<WorldCell>) -> (ok: bool)
    ensures
        ok == orders_fit(state.cell_order_x@, state.cell_order_y@, *world),
{
    all_below(&state.cell_order_x, world.width()) && all_below(&state.cell_order_y, world.height())
}

fn all_below(numbers: &Vec<u32>, limit: u32) -> (ok: bool)
    ensures
        ok == forall|i: int| 0 <= i < numbers@.len() ==> #[trigger] numbers@[i] < limit,
{
    let mut i: usize = 0;
    while i < numbers.len()
        invariant
            i <= numbers@.len(),
            forall|k: int| 0 <= k < i ==> #[trigger] numbers@[k] < limit,
        decreases numbers@.len() - i,
    {
        if numbers[i] >= limit {
            return false;
        }
        i += 1;
    }
    true
}

} // verus!
