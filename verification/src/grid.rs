//! The world as a grid without edges, and the neighbourhood of one cell.

use crate::types::{CellDir, Coord, Settings};
use crate::utils::get_continual_coord;
use vstd::prelude::*;

verus! {

/// A rectangle of cells whose opposite edges are joined: every coordinate, however far
/// out, names a cell.
#[derive(Debug)]
pub struct Grid<T> {
    grid: Vec<Vec<T>>,
    width: u32,
    height: u32,
}

/// The rows `cells` with the cell in column `x` of row `y` replaced by `item`.
pub open spec fn cells_with<T>(cells: Seq<Seq<T>>, x: int, y: int, item: T) -> Seq<Seq<T>> {
    cells.update(y, cells[y].update(x, item))
}

impl<T> View for Grid<T> {
    type V = Seq<Seq<T>>;

    /// The cells, row by row: `grid@[y][x]` is the cell in column `x` of row `y`.
    closed spec fn view(&self) -> Seq<Seq<T>> {
        Seq::new(self.grid@.len(), |y: int| self.grid@[y]@)
    }
}

impl<T> Grid<T> {
    /// The number of columns.
    pub closed spec fn spec_width(&self) -> u32 {
        self.width
    }

    /// The number of rows.
    pub closed spec fn spec_height(&self) -> u32 {
        self.height
    }

    /// There are as many rows as the height says, each as long as the width says.
    pub open spec fn wf(&self) -> bool {
        &&& self@.len() == self.spec_height()
        &&& forall|y: int| 0 <= y < self@.len() ==> (#[trigger] self@[y]).len() == self.spec_width()
    }

    /// The cell that the coordinate `(x, y)` names, wherever it lies.
    pub open spec fn cell(&self, x: int, y: int) -> T {
        self@[y % (self.spec_height() as int)][x % (self.spec_width() as int)]
    }

    /// `after` is `self` with nothing changed but the cell in column `x` of row `y`.
    closed spec fn one_cell_apart(&self, after: Grid<T>, x: int, y: int) -> bool {
        &&& after.width == self.width
        &&& after.height == self.height
        &&& after.grid@.len() == self.grid@.len()
        &&& after.grid@ == self.grid@.update(y, after.grid@[y])
        &&& after.grid@[y]@ == self.grid@[y]@.update(x, after.grid@[y]@[x])
    }

    proof fn lemma_one_cell_apart(before: Grid<T>, after: Grid<T>, x: int, y: int)
        requires
            before.wf(),
            0 <= x < before.width,
            0 <= y < before.height,
            before.one_cell_apart(after, x, y),
        ensures
            after.wf(),
            after@ == cells_with(before@, x, y, after.grid@[y]@[x]),
    {
        let expected = cells_with(before@, x, y, after.grid@[y]@[x]);
        assert forall|r: int| 0 <= r < after@.len() implies after@[r] =~= expected[r] && after@[r].len()
            == after.width by {
            assert(before@[r].len() == before.width);
        }
        assert(after@ =~= expected);
    }

    #[verifier::when_used_as_spec(spec_width)]
    pub fn width(&self) -> (w: u32)
        ensures
            w == self.spec_width(),
    {
        self.width
    }

    #[verifier::when_used_as_spec(spec_height)]
    pub fn height(&self) -> (h: u32)
        ensures
            h == self.spec_height(),
    {
        self.height
    }

    /// Tests [`Grid::wf`] at run time.
    pub fn is_well_formed(&self) -> (ok: bool)
        ensures
            ok == self.wf(),
    {
        if self.grid.len() != self.height as usize {
            return false;
        }
        let mut y: usize = 0;
        while y < self.grid.len()
            invariant
                y <= self.grid@.len(),
                self@.len() == self.height,
                forall|r: int| 0 <= r < y ==> (#[trigger] self@[r]).len() == self.width,
            decreases self.grid@.len() - y,
        {
            if self.grid[y].len() != self.width as usize {
                assert(self@[y as int].len() != self.width);
                return false;
            }
            y += 1;
        }
        true
    }

    /// The cell in column `x` of row `y`; both must lie on the grid.
    pub fn uget(&self, x: u32, y: u32) -> (cell: &T)
        requires
            self.wf(),
            x < self.width(),
            y < self.height(),
        ensures
            *cell == self@[y as int][x as int],
    {
        assert(self@[y as int].len() == self.width);
        &self.grid[y as usize][x as usize]
    }

    /// The cell that `(x, y)` names after wrapping.
    pub fn get(&self, x: i64, y: i64) -> (cell: &T)
        requires
            self.wf(),
            self.width() > 0,
            self.height() > 0,
        ensures
            *cell == self.cell(x as int, y as int),
    {
        let row: u32 = get_continual_coord(y, self.height);
        let column: u32 = get_continual_coord(x, self.width);
        assert(self@[row as int].len() == self.width);
        &self.grid[row as usize][column as usize]
    }

    /// Puts `item` into column `x` of row `y`; both must lie on the grid.
    pub fn uset(&mut self, x: u32, y: u32, item: T)
        requires
            old(self).wf(),
            x < old(self).width(),
            y < old(self).height(),
        ensures
            final(self).wf(),
            final(self).width() == old(self).width(),
            final(self).height() == old(self).height(),
            final(self)@ == cells_with(old(self)@, x as int, y as int, item),
    {
        let cell = self.uget_mut(x, y);
        *cell = item;
    }

    /// Puts `item` into the cell that `(x, y)` names after wrapping.
    pub fn set(&mut self, x: i64, y: i64, item: T)
        requires
            old(self).wf(),
            old(self).width() > 0,
            old(self).height() > 0,
        ensures
            final(self).wf(),
            final(self).width() == old(self).width(),
            final(self).height() == old(self).height(),
            final(self)@ == cells_with(
                old(self)@,
                (x as int) % (old(self).width() as int),
                (y as int) % (old(self).height() as int),
                item,
            ),
    {
        let cell = self.get_mut(x, y);
        *cell = item;
    }

    /// Lends the cell in column `x` of row `y` for writing; both must lie on the grid.
    pub fn uget_mut(&mut self, x: u32, y: u32) -> (cell: &mut T)
        requires
            old(self).wf(),
            x < old(self).width(),
            y < old(self).height(),
        ensures
            *cell == old(self)@[y as int][x as int],
            final(self).wf(),
            final(self).width() == old(self).width(),
            final(self).height() == old(self).height(),
            final(self)@ == cells_with(old(self)@, x as int, y as int, *final(cell)),
    {
        proof {
            assert(self@[y as int].len() == self.width);
            let before = *self;
            assert forall|after: Grid<T>|
                #![trigger after.wf()]
                #![trigger after@]
                before.one_cell_apart(after, x as int, y as int) implies after.wf() && after@
                == cells_with(before@, x as int, y as int, after.grid@[y as int]@[x as int]) by {
                Self::lemma_one_cell_apart(before, after, x as int, y as int);
            }
        }
        let cell = &mut self.grid[y as usize][x as usize];
        cell
    }

    /// Lends the cell that `(x, y)` names after wrapping for writing.
    pub fn get_mut(&mut self, x: i64, y: i64) -> (cell: &mut T)
        requires
            old(self).wf(),
            old(self).width() > 0,
            old(self).height() > 0,
        ensures
            *cell == old(self).cell(x as int, y as int),
            final(self).wf(),
            final(self).width() == old(self).width(),
            final(self).height() == old(self).height(),
            final(self)@ == cells_with(
                old(self)@,
                (x as int) % (old(self).width() as int),
                (y as int) % (old(self).height() as int),
                *final(cell),
            ),
    {
        let row: u32 = get_continual_coord(y, self.height);
        let column: u32 = get_continual_coord(x, self.width);
        self.uget_mut(column, row)
    }
}

impl<T: Default + Clone> Grid<T> {
    /// A grid of `width` columns and `height` rows, every cell of it a default cell.
    pub fn new(width: u32, height: u32) -> (grid: Self)
        ensures
            grid.wf(),
            grid.width() == width,
            grid.height() == height,
            forall|x: int, y: int|
                0 <= x < width && 0 <= y < height ==> call_ensures(
                    T::default,
                    (),
                    #[trigger] grid@[y][x],
                ),
    {
        let mut rows: Vec<Vec<T>> = Vec::new();
        let mut y: u32 = 0;
        while y < height
            invariant
                y <= height,
                rows@.len() == y,
                forall|r: int| 0 <= r < y ==> (#[trigger] rows@[r])@.len() == width,
                forall|r: int, c: int|
                    0 <= r < y && 0 <= c < width ==> call_ensures(
                        T::default,
                        (),
                        #[trigger] rows@[r]@[c],
                    ),
            decreases height - y,
        {
            let mut row: Vec<T> = Vec::new();
            let mut x: u32 = 0;
            while x < width
                invariant
                    x <= width,
                    row@.len() == x,
                    forall|c: int| 0 <= c < x ==> call_ensures(T::default, (), #[trigger] row@[c]),
                decreases width - x,
            {
                row.push(T::default());
                x += 1;
            }
            rows.push(row);
            y += 1;
        }
        Self { grid: rows, width, height }
    }
}

impl<T> Default for Grid<T> {
    /// The grid without any cell.
    fn default() -> (grid: Self)
        ensures
            grid.wf(),
            grid.width() == 0,
            grid.height() == 0,
    {
        Self { grid: Vec::new(), width: 0, height: 0 }
    }
}

/// A cell together with its eight neighbours, taken out of the grid: the unit that one
/// step of the world works on. `x` and `y` say where the centre lies. "Up" is the row
/// before, "left" the column before; beyond the first row or column comes the last.
///
/// An area holds copies of the cells; what is written into it reaches the grid when the
/// area is stored ([`Area::store`]).
///
/// On a grid of at least three columns and three rows the nine places are nine different
/// cells. On a narrower grid the wrap-around makes several places one and the same cell
/// ([`Area::same_cell`]). An area is *coherent* if places that are one cell hold one
/// value ([`Area::coherent`]). An area that is taken from a grid is coherent, and it
/// stays so as long as it is written through [`Area::put`], which writes to every place
/// that is the cell: so a write to one place is found at the others, as if the places
/// were windows into the grid.
#[derive(Debug, Clone, Copy, PartialEq, Eq)]
pub struct Area<T> {
    pub up: T,
    pub down: T,
    pub left: T,
    pub right: T,
    pub up_left: T,
    pub up_right: T,
    pub down_left: T,
    pub down_right: T,
    pub center: T,
    pub x: u32,
    pub y: u32,
    /// The number of columns of the grid that the area lies on.
    pub columns: u32,
    /// The number of rows of the grid that the area lies on.
    pub rows: u32,
}

/// One of the nine places of an area.
#[derive(Debug, Clone, Copy, PartialEq, Eq, Structural)]
pub enum Slot {
    UpLeft,
    Up,
    UpRight,
    Left,
    Center,
    Right,
    DownLeft,
    Down,
    DownRight,
}

impl Slot {
    /// How many columns the place lies to the right of the centre: -1, 0 or 1.
    pub open spec fn spec_dx(&self) -> i8 {
        match self {
            Slot::UpLeft | Slot::Left | Slot::DownLeft => -1i8,
            Slot::Up | Slot::Center | Slot::Down => 0,
            Slot::UpRight | Slot::Right | Slot::DownRight => 1,
        }
    }

    #[verifier::when_used_as_spec(spec_dx)]
    pub fn dx(&self) -> (step: i8)
        ensures
            step == self.spec_dx(),
    {
        match self {
            Slot::UpLeft | Slot::Left | Slot::DownLeft => -1,
            Slot::Up | Slot::Center | Slot::Down => 0,
            Slot::UpRight | Slot::Right | Slot::DownRight => 1,
        }
    }

    /// How many rows the place lies below the centre: -1, 0 or 1.
    pub open spec fn spec_dy(&self) -> i8 {
        match self {
            Slot::UpLeft | Slot::Up | Slot::UpRight => -1i8,
            Slot::Left | Slot::Center | Slot::Right => 0,
            Slot::DownLeft | Slot::Down | Slot::DownRight => 1,
        }
    }

    #[verifier::when_used_as_spec(spec_dy)]
    pub fn dy(&self) -> (step: i8)
        ensures
            step == self.spec_dy(),
    {
        match self {
            Slot::UpLeft | Slot::Up | Slot::UpRight => -1,
            Slot::Left | Slot::Center | Slot::Right => 0,
            Slot::DownLeft | Slot::Down | Slot::DownRight => 1,
        }
    }

    /// The place of the neighbour in the direction `dir`.
    pub open spec fn spec_of(dir: CellDir) -> Slot {
        match dir {
            CellDir::Up => Slot::Up,
            CellDir::Down => Slot::Down,
            CellDir::Left => Slot::Left,
            CellDir::Right => Slot::Right,
        }
    }

    #[verifier::when_used_as_spec(spec_of)]
    pub fn of(dir: CellDir) -> (slot: Slot)
        ensures
            slot == Self::spec_of(dir),
    {
        match dir {
            CellDir::Up => Slot::Up,
            CellDir::Down => Slot::Down,
            CellDir::Left => Slot::Left,
            CellDir::Right => Slot::Right,
        }
    }
}

/// Whether the steps `a` and `b`, each of them -1, 0 or 1, lead from one coordinate to
/// the same coordinate on an axis of `size` cells that is joined at its ends. On one cell
/// every step leads back to it; on two cells the step back and the step on lead to the
/// same cell; on more cells different steps lead to different cells.
pub open spec fn spec_meets(a: i8, b: i8, size: u32) -> bool {
    a == b || size == 1 || (size == 2 && a != 0 && b != 0)
}

#[verifier::when_used_as_spec(spec_meets)]
pub fn meets(a: i8, b: i8, size: u32) -> (same: bool)
    ensures
        same == spec_meets(a, b, size),
{
    a == b || size == 1 || (size == 2 && a != 0 && b != 0)
}

/// The coordinate `n` moved by `step` on an axis of `size` cells, wrapped.
pub open spec fn shifted(n: u32, step: int, size: u32) -> int {
    (n + step) % (size as int)
}

impl<T: Copy> Area<T> {
    /// Whether the places `a` and `b` are one and the same cell of the grid. On a grid of
    /// at least three columns and three rows that holds of no two places.
    pub open spec fn spec_same_cell(&self, a: Slot, b: Slot) -> bool {
        spec_meets(a.spec_dx(), b.spec_dx(), self.columns) && spec_meets(
            a.spec_dy(),
            b.spec_dy(),
            self.rows,
        )
    }

    #[verifier::when_used_as_spec(spec_same_cell)]
    pub fn same_cell(&self, a: Slot, b: Slot) -> (same: bool)
        ensures
            same == self.spec_same_cell(a, b),
    {
        meets(a.dx(), b.dx(), self.columns) && meets(a.dy(), b.dy(), self.rows)
    }

    /// Whether the nine places of the area are nine different cells: the grid has neither
    /// one nor two columns, and neither one nor two rows.
    pub open spec fn roomy(&self) -> bool {
        self.columns != 1 && self.columns != 2 && self.rows != 1 && self.rows != 2
    }

    /// Whether places that are one cell hold one value: the fields of the area agree
    /// wherever the wrap-around makes them the same cell.
    pub open spec fn coherent(&self) -> bool {
        &&& self.columns == 1 ==> self.up_left == self.up && self.up == self.up_right
            && self.left == self.center && self.center == self.right && self.down_left
            == self.down && self.down == self.down_right
        &&& self.columns == 2 ==> self.up_left == self.up_right && self.left == self.right
            && self.down_left == self.down_right
        &&& self.rows == 1 ==> self.up_left == self.left && self.left == self.down_left
            && self.up == self.center && self.center == self.down && self.up_right
            == self.right && self.right == self.down_right
        &&& self.rows == 2 ==> self.up_left == self.down_left && self.up == self.down
            && self.up_right == self.down_right
    }

    /// The cell at the place `slot`.
    pub open spec fn spec_at(&self, slot: Slot) -> T {
        match slot {
            Slot::UpLeft => self.up_left,
            Slot::Up => self.up,
            Slot::UpRight => self.up_right,
            Slot::Left => self.left,
            Slot::Center => self.center,
            Slot::Right => self.right,
            Slot::DownLeft => self.down_left,
            Slot::Down => self.down,
            Slot::DownRight => self.down_right,
        }
    }

    #[verifier::when_used_as_spec(spec_at)]
    pub fn at(&self, slot: Slot) -> (cell: T)
        ensures
            cell == self.spec_at(slot),
    {
        match slot {
            Slot::UpLeft => self.up_left,
            Slot::Up => self.up,
            Slot::UpRight => self.up_right,
            Slot::Left => self.left,
            Slot::Center => self.center,
            Slot::Right => self.right,
            Slot::DownLeft => self.down_left,
            Slot::Down => self.down,
            Slot::DownRight => self.down_right,
        }
    }

    /// The area after `cell` was written to the place `slot`: the place holds `cell`, and
    /// so does every place that is the same cell of the grid. On a grid of at least three
    /// columns and three rows no other place changes.
    pub open spec fn with(self, slot: Slot, cell: T) -> Area<T> {
        Area {
            up_left: if self.spec_same_cell(slot, Slot::UpLeft) { cell } else { self.up_left },
            up: if self.spec_same_cell(slot, Slot::Up) { cell } else { self.up },
            up_right: if self.spec_same_cell(slot, Slot::UpRight) { cell } else { self.up_right },
            left: if self.spec_same_cell(slot, Slot::Left) { cell } else { self.left },
            center: if self.spec_same_cell(slot, Slot::Center) { cell } else { self.center },
            right: if self.spec_same_cell(slot, Slot::Right) { cell } else { self.right },
            down_left: if self.spec_same_cell(slot, Slot::DownLeft) {
                cell
            } else {
                self.down_left
            },
            down: if self.spec_same_cell(slot, Slot::Down) { cell } else { self.down },
            down_right: if self.spec_same_cell(slot, Slot::DownRight) {
                cell
            } else {
                self.down_right
            },
            ..self
        }
    }

    /// Writes `cell` to the place `slot`, and with it to every place that is the same
    /// cell of the grid.
    pub fn put(&mut self, slot: Slot, cell: T)
        ensures
            *final(self) == old(self).with(slot, cell),
            final(self).spec_at(slot) == cell,
            old(self).coherent() ==> final(self).coherent(),
    {
        if self.same_cell(slot, Slot::UpLeft) {
            self.up_left = cell;
        }
        if self.same_cell(slot, Slot::Up) {
            self.up = cell;
        }
        if self.same_cell(slot, Slot::UpRight) {
            self.up_right = cell;
        }
        if self.same_cell(slot, Slot::Left) {
            self.left = cell;
        }
        if self.same_cell(slot, Slot::Center) {
            self.center = cell;
        }
        if self.same_cell(slot, Slot::Right) {
            self.right = cell;
        }
        if self.same_cell(slot, Slot::DownLeft) {
            self.down_left = cell;
        }
        if self.same_cell(slot, Slot::Down) {
            self.down = cell;
        }
        if self.same_cell(slot, Slot::DownRight) {
            self.down_right = cell;
        }
    }

    /// Makes what stands at the place `slot` stand at every place that is the same cell
    /// of the grid: what was written to the field of `slot` is then written to the cell.
    pub fn echo(&mut self, slot: Slot)
        ensures
            *final(self) == old(self).with(slot, old(self).spec_at(slot)),
            old(self).coherent() ==> final(self).coherent(),
    {
        let cell = self.at(slot);
        self.put(slot, cell);
    }

    /// A write keeps an area coherent.
    pub proof fn lemma_with_coherent(self, slot: Slot, cell: T)
        requires
            self.coherent(),
        ensures
            self.with(slot, cell).coherent(),
            self.with(slot, cell).spec_at(slot) == cell,
    {
    }

    /// The neighbour in the direction `dir`.
    pub open spec fn spec_direction(&self, dir: CellDir) -> T {
        match dir {
            CellDir::Up => self.up,
            CellDir::Down => self.down,
            CellDir::Left => self.left,
            CellDir::Right => self.right,
        }
    }

    #[verifier::when_used_as_spec(spec_direction)]
    pub fn direction(&self, dir: CellDir) -> (cell: T)
        ensures
            cell == self.spec_direction(dir),
    {
        match dir {
            CellDir::Up => self.up,
            CellDir::Down => self.down,
            CellDir::Left => self.left,
            CellDir::Right => self.right,
        }
    }

    /// The area after `cell` was written to the neighbour in the direction `dir`
    /// ([`Area::with`]).
    pub open spec fn with_direction(self, dir: CellDir, cell: T) -> Area<T> {
        self.with(Slot::spec_of(dir), cell)
    }

    /// Writes `cell` to the neighbour in the direction `dir` ([`Area::put`]).
    pub fn set_direction(&mut self, dir: CellDir, cell: T)
        ensures
            *final(self) == old(self).with_direction(dir, cell),
    {
        self.put(Slot::of(dir), cell);
    }

    /// Where the neighbour above the centre lies on a world of the size `settings`.
    pub fn get_up_coord(&self, settings: &Settings) -> (coord: Coord)
        requires
            settings.h > 0,
        ensures
            coord.x == self.x,
            coord.y == shifted(self.y, -1, settings.h),
    {
        Coord { x: self.x, y: get_continual_coord(self.y as i64 - 1, settings.h) }
    }

    /// Where the neighbour below the centre lies.
    pub fn get_down_coord(&self, settings: &Settings) -> (coord: Coord)
        requires
            settings.h > 0,
        ensures
            coord.x == self.x,
            coord.y == shifted(self.y, 1, settings.h),
    {
        Coord { x: self.x, y: get_continual_coord(self.y as i64 + 1, settings.h) }
    }

    /// Where the neighbour left of the centre lies.
    pub fn get_left_coord(&self, settings: &Settings) -> (coord: Coord)
        requires
            settings.w > 0,
        ensures
            coord.x == shifted(self.x, -1, settings.w),
            coord.y == self.y,
    {
        Coord { x: get_continual_coord(self.x as i64 - 1, settings.w), y: self.y }
    }

    /// Where the neighbour right of the centre lies.
    pub fn get_right_coord(&self, settings: &Settings) -> (coord: Coord)
        requires
            settings.w > 0,
        ensures
            coord.x == shifted(self.x, 1, settings.w),
            coord.y == self.y,
    {
        Coord { x: get_continual_coord(self.x as i64 + 1, settings.w), y: self.y }
    }

    /// Where the centre lies.
    pub fn get_center_coord(&self, _settings: &Settings) -> (coord: Coord)
        ensures
            coord.x == self.x,
            coord.y == self.y,
    {
        Coord { x: self.x, y: self.y }
    }

    /// Where the neighbour in the direction `dir` lies.
    pub open spec fn spec_coord_from_dir(&self, dir: CellDir, settings: Settings) -> Coord {
        match dir {
            CellDir::Up => Coord { x: self.x, y: shifted(self.y, -1, settings.h) as u32 },
            CellDir::Down => Coord { x: self.x, y: shifted(self.y, 1, settings.h) as u32 },
            CellDir::Left => Coord { x: shifted(self.x, -1, settings.w) as u32, y: self.y },
            CellDir::Right => Coord { x: shifted(self.x, 1, settings.w) as u32, y: self.y },
        }
    }

    pub fn coord_from_dir(&self, dir: &CellDir, settings: &Settings) -> (coord: Coord)
        requires
            settings.w > 0,
            settings.h > 0,
        ensures
            coord == self.spec_coord_from_dir(*dir, *settings),
    {
        match dir {
            CellDir::Up => self.get_up_coord(settings),
            CellDir::Down => self.get_down_coord(settings),
            CellDir::Left => self.get_left_coord(settings),
            CellDir::Right => self.get_right_coord(settings),
        }
    }
}

impl<T: Copy> Area<T> {
    /// The area round the cell in column `x` of row `y` of `grid`.
    pub open spec fn taken_from(grid: Grid<T>, x: u32, y: u32) -> Area<T> {
        Area {
            up: grid.cell(x as int, y - 1),
            down: grid.cell(x as int, y + 1),
            left: grid.cell(x - 1, y as int),
            right: grid.cell(x + 1, y as int),
            up_left: grid.cell(x - 1, y - 1),
            up_right: grid.cell(x + 1, y - 1),
            down_left: grid.cell(x - 1, y + 1),
            down_right: grid.cell(x + 1, y + 1),
            center: grid.cell(x as int, y as int),
            x,
            y,
            columns: grid.spec_width(),
            rows: grid.spec_height(),
        }
    }

    /// Takes the cell in column `x` of row `y` and its eight neighbours out of the grid,
    /// each neighbour from where the wrap-around puts it. On a grid of fewer than three
    /// columns or rows several of the nine places are one cell, and hold the same.
    pub fn new(grid: &Grid<T>, x: u32, y: u32) -> (area: Self)
        requires
            grid.wf(),
            x < grid.width(),
            y < grid.height(),
        ensures
            area == Self::taken_from(*grid, x, y),
            area.coherent(),
    {
        proof {
            lemma_shifted(x, grid.spec_width());
            lemma_shifted(y, grid.spec_height());
        }
        let column: i64 = x as i64;
        let row: i64 = y as i64;
        Area {
            up: *grid.get(column, row - 1),
            down: *grid.get(column, row + 1),
            left: *grid.get(column - 1, row),
            right: *grid.get(column + 1, row),
            up_left: *grid.get(column - 1, row - 1),
            up_right: *grid.get(column + 1, row - 1),
            down_left: *grid.get(column - 1, row + 1),
            down_right: *grid.get(column + 1, row + 1),
            center: *grid.get(column, row),
            x,
            y,
            columns: grid.width(),
            rows: grid.height(),
        }
    }

    /// The rows `cells` of a grid of `width` columns and `height` rows after the nine
    /// cells of the area were written to their places. (For a coherent area the order of
    /// the writes is of no account.)
    pub open spec fn stored(self, cells: Seq<Seq<T>>, width: u32, height: u32) -> Seq<Seq<T>> {
        let x = self.x as int;
        let y = self.y as int;
        let left = shifted(self.x, -1, width);
        let right = shifted(self.x, 1, width);
        let up = shifted(self.y, -1, height);
        let down = shifted(self.y, 1, height);
        let step1 = cells_with(cells, left, up, self.up_left);
        let step2 = cells_with(step1, x, up, self.up);
        let step3 = cells_with(step2, right, up, self.up_right);
        let step4 = cells_with(step3, left, y, self.left);
        let step5 = cells_with(step4, right, y, self.right);
        let step6 = cells_with(step5, left, down, self.down_left);
        let step7 = cells_with(step6, x, down, self.down);
        let step8 = cells_with(step7, right, down, self.down_right);
        cells_with(step8, x, y, self.center)
    }

    /// Whether the area is one of `grid`: its centre lies on the grid, it knows the size
    /// of the grid, and it is coherent.
    pub open spec fn lies_on(&self, grid: Grid<T>) -> bool {
        &&& self.x < grid.spec_width()
        &&& self.y < grid.spec_height()
        &&& self.columns == grid.spec_width()
        &&& self.rows == grid.spec_height()
        &&& self.coherent()
    }

    /// Writes the nine cells of the area to their places in the grid. Each place lands in
    /// the cell that it names and in no other: the area that is taken from the grid
    /// afterwards is this area, and no cell outside it changes. That holds on a grid of
    /// any size.
    ///
    /// The area must be one of the grid, and coherent ([`Area::lies_on`]): an area that
    /// was taken from the grid and written through [`Area::put`] is.
    pub fn store(&self, grid: &mut Grid<T>)
        requires
            old(grid).wf(),
            self.lies_on(*old(grid)),
        ensures
            final(grid).wf(),
            final(grid).width() == old(grid).width(),
            final(grid).height() == old(grid).height(),
            final(grid)@ == self.stored(old(grid)@, old(grid).width(), old(grid).height()),
            Area::taken_from(*final(grid), self.x, self.y) == *self,
            forall|x: int, y: int|
                0 <= x < old(grid).width() && 0 <= y < old(grid).height() && !self.covers(
                    old(grid).width(),
                    old(grid).height(),
                    x,
                    y,
                ) ==> #[trigger] final(grid)@[y][x] == old(grid)@[y][x],
    {
        let column: i64 = self.x as i64;
        let row: i64 = self.y as i64;
        let ghost before = *grid;
        proof {
            vstd::arithmetic::div_mod::lemma_small_mod(self.x as nat, grid.width() as nat);
            vstd::arithmetic::div_mod::lemma_small_mod(self.y as nat, grid.height() as nat);
        }
        grid.set(column - 1, row - 1, self.up_left);
        grid.set(column, row - 1, self.up);
        grid.set(column + 1, row - 1, self.up_right);
        grid.set(column - 1, row, self.left);
        grid.set(column + 1, row, self.right);
        grid.set(column - 1, row + 1, self.down_left);
        grid.set(column, row + 1, self.down);
        grid.set(column + 1, row + 1, self.down_right);
        grid.set(column, row, self.center);
        proof {
            self.lemma_stored(before, *grid);
            self.lemma_store_then_take(before, *grid);
        }
    }
}

/// One step along an axis leads to the next coordinate, and from the last to the first;
/// one step back leads to the coordinate before, and from the first to the last.
pub proof fn lemma_shifted(n: u32, size: u32)
    requires
        n < size,
    ensures
        shifted(n, 1, size) == if n + 1 == size {
            0
        } else {
            n + 1
        },
        shifted(n, -1, size) == if n == 0 {
            size - 1
        } else {
            n - 1
        },
        shifted(n, 0, size) == n,
{
    let m = size as int;
    vstd::arithmetic::div_mod::lemma_small_mod(n as nat, size as nat);
    if n + 1 == size {
        vstd::arithmetic::div_mod::lemma_fundamental_div_mod_converse(n + 1, m, 1, 0);
    } else {
        vstd::arithmetic::div_mod::lemma_small_mod((n + 1) as nat, size as nat);
    }
    if n == 0 {
        vstd::arithmetic::div_mod::lemma_fundamental_div_mod_converse(n - 1, m, -1, m - 1);
    } else {
        vstd::arithmetic::div_mod::lemma_small_mod((n - 1) as nat, size as nat);
    }
}

impl<T: Copy> Area<T> {
    /// Whether the cell in column `x` of row `y` is one of the nine cells of the area, on
    /// a grid of `width` columns and `height` rows.
    pub open spec fn covers(self, width: u32, height: u32, x: int, y: int) -> bool {
        &&& x == shifted(self.x, -1, width) || x == self.x || x == shifted(self.x, 1, width)
        &&& y == shifted(self.y, -1, height) || y == self.y || y == shifted(self.y, 1, height)
    }

    /// Storing changes no cell outside the area, keeps the shape of the grid, and leaves
    /// the centre of the area in its place, on a grid of any size.
    pub proof fn lemma_stored(self, before: Grid<T>, after: Grid<T>)
        requires
            before.wf(),
            self.x < before.spec_width(),
            self.y < before.spec_height(),
            after.spec_width() == before.spec_width(),
            after.spec_height() == before.spec_height(),
            after@ == self.stored(before@, before.spec_width(), before.spec_height()),
        ensures
            after.wf(),
            after.cell(self.x as int, self.y as int) == self.center,
            forall|x: int, y: int|
                0 <= x < before.spec_width() && 0 <= y < before.spec_height() && !self.covers(
                    before.spec_width(),
                    before.spec_height(),
                    x,
                    y,
                ) ==> #[trigger] after@[y][x] == before@[y][x],
    {
        let w = before.spec_width() as int;
        let h = before.spec_height() as int;
        vstd::arithmetic::div_mod::lemma_mod_bound(self.x - 1, w);
        vstd::arithmetic::div_mod::lemma_mod_bound(self.x + 1, w);
        vstd::arithmetic::div_mod::lemma_mod_bound(self.y - 1, h);
        vstd::arithmetic::div_mod::lemma_mod_bound(self.y + 1, h);
        vstd::arithmetic::div_mod::lemma_small_mod(self.x as nat, w as nat);
        vstd::arithmetic::div_mod::lemma_small_mod(self.y as nat, h as nat);
        assert forall|r: int| 0 <= r < after@.len() implies (#[trigger] after@[r]).len() == w by {
            assert(before@[r].len() == w);
        }
    }

    /// What is stored can be taken again as it was, on a grid of any size, if the area is
    /// coherent: then places that are one cell hold one value, and it is of no account
    /// which of them is written last.
    pub proof fn lemma_store_then_take(self, before: Grid<T>, after: Grid<T>)
        requires
            before.wf(),
            self.coherent(),
            self.columns == before.spec_width(),
            self.rows == before.spec_height(),
            self.x < before.spec_width(),
            self.y < before.spec_height(),
            after.spec_width() == before.spec_width(),
            after.spec_height() == before.spec_height(),
            after@ == self.stored(before@, before.spec_width(), before.spec_height()),
        ensures
            Area::taken_from(after, self.x, self.y) == self,
    {
        lemma_shifted(self.x, before.spec_width());
        lemma_shifted(self.y, before.spec_height());
        assert forall|r: int| 0 <= r < after@.len() implies (#[trigger] after@[r]).len()
            == before.spec_width() by {
            assert(before@[r].len() == before.spec_width());
        }
    }
}

} // verus!
