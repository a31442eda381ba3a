//! The organism of a cell.

use crate::cells::WorldCell;
use crate::grid::Area;
use crate::types::CellDir;
use crate::utils::merge_energy;
use vstd::prelude::*;

pub mod genome;

use genome::Genome;

verus! {

/// To which of its four neighbours a cell forwards its surplus of energy.
#[derive(Debug, Clone, Copy, PartialEq, Eq, Structural)]
pub struct EnergyDirections {
    pub up: bool,
    pub down: bool,
    pub left: bool,
    pub right: bool,
}

impl EnergyDirections {
    /// No direction at all.
    pub open spec fn none() -> EnergyDirections {
        EnergyDirections { up: false, down: false, left: false, right: false }
    }

    /// Whether `dir` is among the directions.
    pub open spec fn spec_get(&self, dir: CellDir) -> bool {
        match dir {
            CellDir::Up => self.up,
            CellDir::Down => self.down,
            CellDir::Left => self.left,
            CellDir::Right => self.right,
        }
    }

    #[verifier::when_used_as_spec(spec_get)]
    pub fn get(&self, dir: CellDir) -> (flag: bool)
        ensures
            flag == self.spec_get(dir),
    {
        match dir {
            CellDir::Up => self.up,
            CellDir::Down => self.down,
            CellDir::Left => self.left,
            CellDir::Right => self.right,
        }
    }

    /// The directions with `dir` among them or not, as `flag` says, and the other three
    /// as they are.
    pub open spec fn with(self, dir: CellDir, flag: bool) -> EnergyDirections {
        match dir {
            CellDir::Up => EnergyDirections { up: flag, ..self },
            CellDir::Down => EnergyDirections { down: flag, ..self },
            CellDir::Left => EnergyDirections { left: flag, ..self },
            CellDir::Right => EnergyDirections { right: flag, ..self },
        }
    }

    /// Puts `dir` among the directions or takes it out, as `flag` says.
    pub fn set(&mut self, dir: CellDir, flag: bool)
        ensures
            *final(self) == old(self).with(dir, flag),
    {
        match dir {
            CellDir::Up => self.up = flag,
            CellDir::Down => self.down = flag,
            CellDir::Left => self.left = flag,
            CellDir::Right => self.right = flag,
        }
    }

    /// The one direction `dir`.
    pub open spec fn spec_from_direction(dir: &CellDir) -> EnergyDirections {
        Self::none().with(*dir, true)
    }

    #[verifier::when_used_as_spec(spec_from_direction)]
    pub fn from_direction(dir: &CellDir) -> (directions: EnergyDirections)
        ensures
            directions == Self::spec_from_direction(dir),
    {
        match dir {
            CellDir::Up => EnergyDirections { up: true, down: false, left: false, right: false },
            CellDir::Down => EnergyDirections { up: false, down: true, left: false, right: false },
            CellDir::Left => EnergyDirections { up: false, down: false, left: true, right: false },
            CellDir::Right => EnergyDirections { up: false, down: false, left: false, right: true },
        }
    }

    /// How many directions there are.
    pub open spec fn spec_branches_amount(&self) -> u8 {
        ((if self.up { 1int } else { 0 }) + (if self.down { 1int } else { 0 })
            + (if self.left { 1int } else { 0 }) + (if self.right { 1int } else { 0 })) as u8
    }

    #[verifier::when_used_as_spec(spec_branches_amount)]
    pub fn branches_amount(&self) -> (total: u8)
        ensures
            total == self.spec_branches_amount(),
            total <= 4,
            total == 0 <==> *self == Self::none(),
    {
        let mut total: u8 = 0;
        if self.up {
            total += 1
        };
        if self.down {
            total += 1
        };
        if self.left {
            total += 1
        };
        if self.right {
            total += 1
        };
        total
    }

    /// The four flags in the order up, down, left, right.
    pub open spec fn spec_to_tuple(&self) -> (bool, bool, bool, bool) {
        (self.up, self.down, self.left, self.right)
    }

    #[verifier::when_used_as_spec(spec_to_tuple)]
    pub fn to_tuple(&self) -> (flags: (bool, bool, bool, bool))
        ensures
            flags == self.spec_to_tuple(),
    {
        (self.up, self.down, self.left, self.right)
    }
}

impl Default for EnergyDirections {
    fn default() -> (directions: EnergyDirections)
        ensures
            directions == EnergyDirections::none(),
    {
        EnergyDirections { up: false, down: false, left: false, right: false }
    }
}

/// The role of an organism. Only a stem cell carries data: its genome.
#[derive(Debug, Clone, Copy, PartialEq, Eq)]
pub enum LifeType {
    Pipe,
    Leaf,
    Root,
    Reactor,
    Filter,
    Stem(Genome),
}

impl LifeType {
    /// The genome of a stem cell is well formed.
    pub open spec fn wf(&self) -> bool {
        match self {
            LifeType::Stem(genome) => genome.wf(),
            _ => true,
        }
    }

    /// Tests [`LifeType::wf`] at run time.
    pub fn is_well_formed(&self) -> (ok: bool)
        ensures
            ok == self.wf(),
    {
        match self {
            LifeType::Stem(genome) => genome.is_well_formed(),
            _ => true,
        }
    }

    /// Whether the role makes energy: leaves, roots, reactors and filters do.
    pub open spec fn spec_is_energy_generator(&self) -> bool {
        *self is Leaf || *self is Root || *self is Reactor || *self is Filter
    }

    #[verifier::when_used_as_spec(spec_is_energy_generator)]
    pub fn is_energy_generator(&self) -> (yes: bool)
        ensures
            yes == self.spec_is_energy_generator(),
    {
        match self {
            LifeType::Leaf | LifeType::Root | LifeType::Reactor | LifeType::Filter => true,
            _ => false,
        }
    }

    pub open spec fn spec_is_pipe(&self) -> bool {
        *self is Pipe
    }

    #[verifier::when_used_as_spec(spec_is_pipe)]
    pub fn is_pipe(&self) -> (yes: bool)
        ensures
            yes == self.spec_is_pipe(),
    {
        match self {
            LifeType::Pipe => true,
            _ => false,
        }
    }

    pub open spec fn spec_is_root(&self) -> bool {
        *self is Root
    }

    #[verifier::when_used_as_spec(spec_is_root)]
    pub fn is_root(&self) -> (yes: bool)
        ensures
            yes == self.spec_is_root(),
    {
        match self {
            LifeType::Root => true,
            _ => false,
        }
    }

    pub open spec fn spec_is_reactor(&self) -> bool {
        *self is Reactor
    }

    #[verifier::when_used_as_spec(spec_is_reactor)]
    pub fn is_reactor(&self) -> (yes: bool)
        ensures
            yes == self.spec_is_reactor(),
    {
        match self {
            LifeType::Reactor => true,
            _ => false,
        }
    }

    /// Whether the role passes energy on: those that make energy do, and pipes.
    pub open spec fn spec_can_transfer(&self) -> bool {
        self.spec_is_energy_generator() || self.spec_is_pipe()
    }

    #[verifier::when_used_as_spec(spec_can_transfer)]
    pub fn can_transfer(&self) -> (yes: bool)
        ensures
            yes == self.spec_can_transfer(),
    {
        self.is_energy_generator() || self.is_pipe()
    }

    /// Whether the role takes energy that is passed to it: pipes and stem cells do.
    pub open spec fn spec_is_pipe_recipient(&self) -> bool {
        *self is Pipe || *self is Stem
    }

    #[verifier::when_used_as_spec(spec_is_pipe_recipient)]
    pub fn is_pipe_recipient(&self) -> (yes: bool)
        ensures
            yes == self.spec_is_pipe_recipient(),
    {
        match self {
            LifeType::Pipe | LifeType::Stem(_) => true,
            _ => false,
        }
    }

    /// Whether the role can bring forth new organisms: only stem cells can.
    pub open spec fn spec_is_fertile(&self) -> bool {
        *self is Stem
    }

    #[verifier::when_used_as_spec(spec_is_fertile)]
    pub fn is_fertile(&self) -> (yes: bool)
        ensures
            yes == self.spec_is_fertile(),
    {
        match self {
            LifeType::Stem(_) => true,
            _ => false,
        }
    }

    /// The upkeep per tick, in parts of the energy unit: 0.1 units for a pipe or a stem
    /// cell, 0.2 for a leaf or a filter, 0.5 for a root, 0.7 for a reactor.
    pub open spec fn spec_consumption(&self) -> u64 {
        match self {
            LifeType::Pipe => 100_000,
            LifeType::Leaf => 200_000,
            LifeType::Stem(_) => 100_000,
            LifeType::Root => 500_000,
            LifeType::Reactor => 700_000,
            LifeType::Filter => 200_000,
        }
    }

    #[verifier::when_used_as_spec(spec_consumption)]
    pub fn consumption(&self) -> (cost: u64)
        ensures
            cost == self.spec_consumption(),
            100_000 <= cost <= 700_000,
    {
        match self {
            LifeType::Pipe => 100_000,
            LifeType::Leaf => 200_000,
            LifeType::Stem(_) => 100_000,
            LifeType::Root => 500_000,
            LifeType::Reactor => 700_000,
            LifeType::Filter => 200_000,
        }
    }

    /// The organic matter that an organism of the role is made of.
    pub open spec fn spec_organics(&self) -> u8 {
        match self {
            LifeType::Pipe => 1,
            LifeType::Leaf => 2,
            LifeType::Stem(_) => 2,
            LifeType::Root => 2,
            LifeType::Reactor => 1,
            LifeType::Filter => 3,
        }
    }

    #[verifier::when_used_as_spec(spec_organics)]
    pub fn organics(&self) -> (matter: u8)
        ensures
            matter == self.spec_organics(),
            1 <= matter <= 3,
    {
        match self {
            LifeType::Pipe => 1,
            LifeType::Leaf => 2,
            LifeType::Stem(_) => 2,
            LifeType::Root => 2,
            LifeType::Reactor => 1,
            LifeType::Filter => 3,
        }
    }

    /// A newborn of the role whose parent lies in the direction `parent_dir`. One that
    /// makes energy forwards it to the parent from the start; the others forward nothing.
    pub open spec fn spec_make_newborn_cell(
        self,
        parent_dir: CellDir,
        new_cell_energy: u64,
        steps_to_death: u16,
    ) -> LifeCell {
        LifeCell::Alive(
            AliveCell {
                ty: self,
                energy: new_cell_energy,
                energy_to: if self.spec_is_energy_generator() {
                    EnergyDirections::spec_from_direction(&parent_dir)
                } else {
                    EnergyDirections::none()
                },
                parent_dir: Some(parent_dir),
                steps_to_death,
            },
        )
    }

    #[verifier::when_used_as_spec(spec_make_newborn_cell)]
    pub fn make_newborn_cell(self, parent_dir: CellDir, new_cell_energy: u64, steps_to_death: u16)
        -> (cell: LifeCell)
        ensures
            cell == self.spec_make_newborn_cell(parent_dir, new_cell_energy, steps_to_death),
            self.wf() ==> cell.wf(),
    {
        let new_cell_energy_directions = if self.is_energy_generator() {
            EnergyDirections::from_direction(&parent_dir)
        } else {
            EnergyDirections { up: false, down: false, left: false, right: false }
        };
        LifeCell::Alive(
            AliveCell::new(
                self,
                new_cell_energy,
                new_cell_energy_directions,
                Some(parent_dir),
                steps_to_death,
            ),
        )
    }
}

/// A living organism.
#[derive(Debug, Clone, Copy, PartialEq, Eq)]
pub struct AliveCell {
    pub ty: LifeType,
    /// In parts of the energy unit.
    pub energy: u64,
    pub energy_to: EnergyDirections,
    /// Where the organism was born from, as long as that parent lives.
    pub parent_dir: Option<CellDir>,
    /// The ticks left to live. At 0 the organism dies before anything else.
    pub steps_to_death: u16,
}

/// The picture of a set of directions, numbered as the pictures of pipes are.
pub open spec fn directions_texture(flags: (bool, bool, bool, bool)) -> u32 {
    let (up, down, left, right) = flags;
    if !up && !down && !left && !right {
        0
    } else if up && down && !left && !right {
        1
    } else if !up && !down && left && right {
        2
    } else if up && down && left && right {
        3
    } else if !up && down && left && !right {
        4
    } else if up && !down && left && !right {
        5
    } else if up && !down && !left && right {
        6
    } else if !up && down && !left && right {
        7
    } else if !up && down && left && right {
        8
    } else if up && down && left && !right {
        9
    } else if up && !down && left && right {
        10
    } else if up && down && !left && right {
        11
    } else if !up && down && !left && !right {
        12
    } else if !up && !down && left && !right {
        13
    } else if up && !down && !left && !right {
        14
    } else {
        15
    }
}

/// The picture of an organism that shows where its parent lies: `first` for a parent
/// above, then below, left and right; `orphan` where there is no parent.
pub open spec fn parent_texture(parent_dir: Option<CellDir>, first: u32, orphan: u32) -> int {
    match parent_dir {
        Some(CellDir::Up) => first as int,
        Some(CellDir::Down) => first + 1,
        Some(CellDir::Left) => first + 2,
        Some(CellDir::Right) => first + 3,
        None => orphan as int,
    }
}

fn directions_texture_id(flags: (bool, bool, bool, bool)) -> (id: u32)
    ensures
        id == directions_texture(flags),
        id <= 15,
{
    match flags {
        (false, false, false, false) => 0,
        (true, true, false, false) => 1,
        (false, false, true, true) => 2,
        (true, true, true, true) => 3,
        (false, true, true, false) => 4,
        (true, false, true, false) => 5,
        (true, false, false, true) => 6,
        (false, true, false, true) => 7,
        (false, true, true, true) => 8,
        (true, true, true, false) => 9,
        (true, false, true, true) => 10,
        (true, true, false, true) => 11,
        (false, true, false, false) => 12,
        (false, false, true, false) => 13,
        (true, false, false, false) => 14,
        (false, false, false, true) => 15,
    }
}

fn parent_texture_id(parent_dir: Option<CellDir>, first: u32, orphan: u32) -> (id: u32)
    requires
        first <= 100,
    ensures
        id == parent_texture(parent_dir, first, orphan),
{
    match parent_dir {
        Some(CellDir::Up) => first,
        Some(CellDir::Down) => first + 1,
        Some(CellDir::Left) => first + 2,
        Some(CellDir::Right) => first + 3,
        None => orphan,
    }
}

impl AliveCell {
    pub open spec fn wf(&self) -> bool {
        self.ty.wf()
    }

    pub fn new(
        ty: LifeType,
        energy: u64,
        energy_to: EnergyDirections,
        parent_dir: Option<CellDir>,
        steps_to_death: u16,
    ) -> (cell: AliveCell)
        ensures
            cell == (AliveCell { ty, energy, energy_to, parent_dir, steps_to_death }),
    {
        Self { ty, energy, energy_to, parent_dir, steps_to_death }
    }

    /// The picture of the directions that the organism forwards energy to.
    pub fn energy_directions_texture_id(&self) -> (id: u32)
        ensures
            id == directions_texture(self.energy_to.to_tuple()),
    {
        directions_texture_id(self.energy_to.to_tuple())
    }

    /// The picture of the organism at the centre of `area`. A pipe shows every direction
    /// that energy flows through it, in or out; the other roles show where the parent lies.
    pub open spec fn spec_texture_id(&self, area: &Area<WorldCell>) -> u32 {
        match self.ty {
            LifeType::Pipe => directions_texture(merge_energy(area, self.energy_to).to_tuple()),
            LifeType::Leaf => parent_texture(self.parent_dir, 22, 16) as u32,
            LifeType::Stem(_) => parent_texture(self.parent_dir, 18, 17) as u32,
            LifeType::Root => parent_texture(self.parent_dir, 26, 16) as u32,
            LifeType::Reactor => parent_texture(self.parent_dir, 30, 16) as u32,
            LifeType::Filter => parent_texture(self.parent_dir, 34, 16) as u32,
        }
    }

    #[verifier::when_used_as_spec(spec_texture_id)]
    pub fn texture_id(&self, area: &Area<WorldCell>) -> (id: u32)
        ensures
            id == self.spec_texture_id(area),
            id <= 37,
    {
        match self.ty {
            LifeType::Pipe => directions_texture_id(merge_energy(area, self.energy_to).to_tuple()),
            LifeType::Leaf => parent_texture_id(self.parent_dir, 22, 16),
            LifeType::Stem(_) => parent_texture_id(self.parent_dir, 18, 17),
            LifeType::Root => parent_texture_id(self.parent_dir, 26, 16),
            LifeType::Reactor => parent_texture_id(self.parent_dir, 30, 16),
            LifeType::Filter => parent_texture_id(self.parent_dir, 34, 16),
        }
    }

    pub fn can_transfer(&self) -> (yes: bool)
        ensures
            yes == self.ty.can_transfer(),
    {
        self.ty.can_transfer()
    }

    pub fn is_pipe_recipient(&self) -> (yes: bool)
        ensures
            yes == self.ty.is_pipe_recipient(),
    {
        self.ty.is_pipe_recipient()
    }

    pub fn is_pipe(&self) -> (yes: bool)
        ensures
            yes == self.ty.is_pipe(),
    {
        self.ty.is_pipe()
    }

    pub fn is_energy_generator(&self) -> (yes: bool)
        ensures
            yes == self.ty.is_energy_generator(),
    {
        self.ty.is_energy_generator()
    }

    pub fn is_fertile(&self) -> (yes: bool)
        ensures
            yes == self.ty.is_fertile(),
    {
        self.ty.is_fertile()
    }

    pub fn consumption(&self) -> (cost: u64)
        ensures
            cost == self.ty.consumption(),
    {
        self.ty.consumption()
    }

    pub fn organics(&self) -> (matter: u8)
        ensures
            matter == self.ty.organics(),
    {
        self.ty.organics()
    }
}

/// The life layer of a cell: an organism, or nothing.
#[derive(Debug, Clone, Copy, PartialEq, Eq)]
pub enum LifeCell {
    Alive(AliveCell),
    Dead,
}

impl LifeCell {
    pub open spec fn wf(&self) -> bool {
        match self {
            LifeCell::Alive(alive_cell) => alive_cell.wf(),
            LifeCell::Dead => true,
        }
    }

    /// Tests [`LifeCell::wf`] at run time.
    pub fn is_well_formed(&self) -> (ok: bool)
        ensures
            ok == self.wf(),
    {
        match self {
            LifeCell::Alive(alive_cell) => alive_cell.ty.is_well_formed(),
            LifeCell::Dead => true,
        }
    }

    /// The picture of the life layer at the centre of `area`; 16 where nothing lives.
    pub fn texture_id(&self, area: &Area<WorldCell>) -> (id: u32)
        ensures
            id == match *self {
                LifeCell::Alive(alive_cell) => alive_cell.texture_id(area),
                LifeCell::Dead => 16,
            },
    {
        match self {
            Self::Alive(alive_life_cell) => alive_life_cell.texture_id(area),
            Self::Dead => 16,
        }
    }

    /// The picture of the directions that energy is forwarded to; 0 where nothing lives.
    pub fn energy_directions_texture_id(&self) -> (id: u32)
        ensures
            id == match *self {
                LifeCell::Alive(alive_cell) => directions_texture(alive_cell.energy_to.to_tuple()),
                LifeCell::Dead => 0,
            },
    {
        match self {
            Self::Alive(alive_life_cell) => alive_life_cell.energy_directions_texture_id(),
            Self::Dead => 0,
        }
    }

    pub open spec fn spec_is_fertile(&self) -> bool {
        *self matches LifeCell::Alive(alive_cell) && alive_cell.ty.is_fertile()
    }

    #[verifier::when_used_as_spec(spec_is_fertile)]
    pub fn is_fertile(&self) -> (yes: bool)
        ensures
            yes == self.spec_is_fertile(),
    {
        match self {
            Self::Alive(alive_cell) => alive_cell.is_fertile(),
            Self::Dead => false,
        }
    }

    pub open spec fn spec_can_transfer(&self) -> bool {
        *self matches LifeCell::Alive(alive_cell) && alive_cell.ty.can_transfer()
    }

    #[verifier::when_used_as_spec(spec_can_transfer)]
    pub fn can_transfer(&self) -> (yes: bool)
        ensures
            yes == self.spec_can_transfer(),
    {
        match self {
            Self::Alive(alive_cell) => alive_cell.can_transfer(),
            Self::Dead => false,
        }
    }

    pub open spec fn spec_is_pipe_recipient(&self) -> bool {
        *self matches LifeCell::Alive(alive_cell) && alive_cell.ty.is_pipe_recipient()
    }

    #[verifier::when_used_as_spec(spec_is_pipe_recipient)]
    pub fn is_pipe_recipient(&self) -> (yes: bool)
        ensures
            yes == self.spec_is_pipe_recipient(),
    {
        match self {
            Self::Alive(alive_cell) => alive_cell.is_pipe_recipient(),
            Self::Dead => false,
        }
    }

    pub open spec fn spec_is_pipe(&self) -> bool {
        *self matches LifeCell::Alive(alive_cell) && alive_cell.ty.is_pipe()
    }

    #[verifier::when_used_as_spec(spec_is_pipe)]
    pub fn is_pipe(&self) -> (yes: bool)
        ensures
            yes == self.spec_is_pipe(),
    {
        match self {
            Self::Alive(alive_cell) => alive_cell.is_pipe(),
            Self::Dead => false,
        }
    }

    pub open spec fn spec_is_energy_generator(&self) -> bool {
        *self matches LifeCell::Alive(alive_cell) && alive_cell.ty.is_energy_generator()
    }

    #[verifier::when_used_as_spec(spec_is_energy_generator)]
    pub fn is_energy_generator(&self) -> (yes: bool)
        ensures
            yes == self.spec_is_energy_generator(),
    {
        match self {
            Self::Alive(alive_cell) => alive_cell.is_energy_generator(),
            Self::Dead => false,
        }
    }

    pub open spec fn spec_is_alive(&self) -> bool {
        *self is Alive
    }

    #[verifier::when_used_as_spec(spec_is_alive)]
    pub fn is_alive(&self) -> (yes: bool)
        ensures
            yes == self.spec_is_alive(),
    {
        match self {
            Self::Alive(_) => true,
            Self::Dead => false,
        }
    }

    /// The energy of the organism; 0 where nothing lives.
    pub open spec fn spec_energy(&self) -> u64 {
        match *self {
            LifeCell::Alive(alive_cell) => alive_cell.energy,
            LifeCell::Dead => 0,
        }
    }

    #[verifier::when_used_as_spec(spec_energy)]
    pub fn energy(&self) -> (energy: u64)
        ensures
            energy == self.spec_energy(),
    {
        match self {
            Self::Alive(alive_cell) => alive_cell.energy,
            Self::Dead => 0,
        }
    }

    /// The organic matter of the organism; 0 where nothing lives.
    pub open spec fn spec_organics(&self) -> u8 {
        match *self {
            LifeCell::Alive(alive_cell) => alive_cell.ty.organics(),
            LifeCell::Dead => 0,
        }
    }

    #[verifier::when_used_as_spec(spec_organics)]
    pub fn organics(&self) -> (matter: u8)
        ensures
            matter == self.spec_organics(),
    {
        match self {
            Self::Alive(alive_cell) => alive_cell.organics(),
            Self::Dead => 0,
        }
    }
}

impl Default for LifeCell {
    fn default() -> (cell: LifeCell)
        ensures
            cell == LifeCell::Dead,
    {
        LifeCell::Dead
    }
}

} // verus!
