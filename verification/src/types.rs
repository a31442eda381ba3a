//! Directions, coordinates and the simulation-wide settings and state.

use crate::random::random_in_range;
use rand::rngs::ThreadRng;
use vstd::prelude::*;

verus! {

/// One of the four cardinal directions of the grid.
#[derive(Debug, Clone, Copy, PartialEq, Eq, Structural)]
pub enum CellDir {
    Up,
    Down,
    Left,
    Right,
}

impl CellDir {
    /// The direction that points back: up and down swap, left and right swap.
    pub open spec fn spec_opposite(&self) -> CellDir {
        match self {
            CellDir::Up => CellDir::Down,
            CellDir::Down => CellDir::Up,
            CellDir::Left => CellDir::Right,
            CellDir::Right => CellDir::Left,
        }
    }

    #[verifier::when_used_as_spec(spec_opposite)]
    pub fn opposite(&self) -> (back: CellDir)
        ensures
            back == self.spec_opposite(),
    {
        match self {
            CellDir::Up => CellDir::Down,
            CellDir::Down => CellDir::Up,
            CellDir::Left => CellDir::Right,
            CellDir::Right => CellDir::Left,
        }
    }

    /// The direction that the roll `roll` of a five-sided die stands for: 0 up, 1 down,
    /// 2 left, and right for every other roll.
    pub open spec fn spec_from_roll(roll: u8) -> CellDir {
        if roll == 0 {
            CellDir::Up
        } else if roll == 1 {
            CellDir::Down
        } else if roll == 2 {
            CellDir::Left
        } else {
            CellDir::Right
        }
    }

    #[verifier::when_used_as_spec(spec_from_roll)]
    pub fn from_roll(roll: u8) -> (dir: CellDir)
        ensures
            dir == Self::spec_from_roll(roll),
    {
        match roll {
            0 => CellDir::Up,
            1 => CellDir::Down,
            2 => CellDir::Left,
            _ => CellDir::Right,
        }
    }

    /// Draws a direction by the roll of a five-sided die, so that right comes up twice as
    /// often as each of the others.
    pub fn sample(rng: &mut ThreadRng) -> (dir: CellDir)
    {
        let roll: u16 = random_in_range(rng, 0, 4);
        Self::from_roll(roll as u8)
    }

    /// Turning round twice gives the direction one started with.
    pub proof fn lemma_opposite_involution(dir: CellDir)
        ensures
            dir.opposite().opposite() == dir,
            dir.opposite() != dir,
    {
    }
}

/// A position on the grid, column `x` and row `y`.
#[derive(Debug, Clone, Copy, PartialEq, Eq, Structural)]
pub struct Coord {
    pub x: u32,
    pub y: u32,
}

impl Coord {
    pub fn new(x: u32, y: u32) -> (coord: Coord)
        ensures
            coord.x == x,
            coord.y == y,
    {
        Self { x, y }
    }
}

impl Default for Coord {
    fn default() -> (coord: Coord)
        ensures
            coord == (Coord { x: 0, y: 0 }),
    {
        Coord { x: 0, y: 0 }
    }
}

/// The size of the world: `w` columns and `h` rows.
#[derive(Debug, Clone, Copy, PartialEq, Eq, Structural)]
pub struct Settings {
    pub w: u32,
    pub h: u32,
}

/// One of the three layers that can be shown or hidden.
#[derive(Debug, Clone, Copy, PartialEq, Eq, Structural)]
pub enum Layer {
    Organics,
    Life,
    Pollution,
}

/// What the simulation keeps apart from the world itself.
#[derive(Debug, Clone)]
pub struct State {
    pub cursor_position: Coord,
    /// While this is set the world stands still.
    pub paused: bool,
    /// As long as this is not set the world waits to be seeded.
    pub initialized: bool,
    pub organic_visible: bool,
    pub life_visible: bool,
    pub pollution_visible: bool,
    /// The number of ticks so far.
    pub simulation_step: usize,
    /// The order in which a tick visits the columns; shuffled before every tick.
    pub cell_order_x: Vec<u32>,
    /// The order in which a tick visits the rows of each column; shuffled before every
    /// tick.
    pub cell_order_y: Vec<u32>,
}

/// The numbers from 0 up to `n`, in order.
pub open spec fn counting(n: u32) -> Seq<u32> {
    Seq::new(n as nat, |i: int| i as u32)
}

impl State {
    /// The state before the first tick: running, not yet seeded, all layers shown, the
    /// cursor in the corner, and visiting orders `order_x` and `order_y`.
    pub open spec fn is_initial(&self, order_x: Seq<u32>, order_y: Seq<u32>) -> bool {
        &&& self.cursor_position == (Coord { x: 0, y: 0 })
        &&& !self.paused
        &&& !self.initialized
        &&& self.organic_visible
        &&& self.life_visible
        &&& self.pollution_visible
        &&& self.simulation_step == 0
        &&& self.cell_order_x@ == order_x
        &&& self.cell_order_y@ == order_y
    }

    /// Whether the layer `layer` is shown.
    pub open spec fn spec_visible(&self, layer: Layer) -> bool {
        match layer {
            Layer::Organics => self.organic_visible,
            Layer::Life => self.life_visible,
            Layer::Pollution => self.pollution_visible,
        }
    }

    /// The initial state for a world of the size `settings`: every column and every row
    /// is visited, in rising order.
    pub fn from_settings(settings: &Settings) -> (state: State)
        ensures
            state.is_initial(counting(settings.w), counting(settings.h)),
    {
        State {
            initialized: false,
            paused: false,
            cursor_position: Coord { x: 0, y: 0 },
            organic_visible: true,
            life_visible: true,
            pollution_visible: true,
            simulation_step: 0,
            cell_order_x: count_up(settings.w),
            cell_order_y: count_up(settings.h),
        }
    }

    /// Halts a running world, and sets a halted one going.
    pub fn toggle_pause(&mut self)
        ensures
            *final(self) == (State { paused: !old(self).paused, ..*old(self) }),
    {
        self.paused = !self.paused;
    }

    /// Asks for the world to be seeded anew.
    pub fn request_restart(&mut self)
        ensures
            *final(self) == (State { initialized: false, ..*old(self) }),
    {
        self.initialized = false;
    }

    /// Hides the layer if it is shown and shows it if it is hidden; returns whether it is
    /// shown now.
    pub fn toggle_layer(&mut self, layer: Layer) -> (shown: bool)
        ensures
            shown == !old(self).spec_visible(layer),
            *final(self) == match layer {
                Layer::Organics => State { organic_visible: shown, ..*old(self) },
                Layer::Life => State { life_visible: shown, ..*old(self) },
                Layer::Pollution => State { pollution_visible: shown, ..*old(self) },
            },
    {
        match layer {
            Layer::Organics => {
                self.organic_visible = !self.organic_visible;
                self.organic_visible
            },
            Layer::Life => {
                self.life_visible = !self.life_visible;
                self.life_visible
            },
            Layer::Pollution => {
                self.pollution_visible = !self.pollution_visible;
                self.pollution_visible
            },
        }
    }
}

impl Default for State {
    /// The initial state of a world without cells.
    fn default() -> (state: State)
        ensures
            state.is_initial(Seq::empty(), Seq::empty()),
    {
        State {
            initialized: false,
            paused: false,
            cursor_position: Coord { x: 0, y: 0 },
            organic_visible: true,
            life_visible: true,
            pollution_visible: true,
            simulation_step: 0,
            cell_order_x: Vec::new(),
            cell_order_y: Vec::new(),
        }
    }
}

/// The numbers from 0 up to `n`, in order.
fn count_up(n: u32) -> (numbers: Vec<u32>)
    ensures
        numbers@ == counting(n),
{
    let mut numbers: Vec<u32> = Vec::new();
    let mut i: u32 = 0;
    while i < n
        invariant
            i <= n,
            numbers@ == counting(i),
        decreases n - i,
    {
        numbers.push(i);
        i += 1;
    }
    numbers
}

} // verus!
