//! The genome of a stem cell: a table of 32 genes, of which one is active.

use crate::random::{random_byte, random_in_range, random_ratio};
use crate::types::CellDir;
use rand::rngs::ThreadRng;
use vstd::prelude::*;

verus! {

/// The number of genes in every genome.
pub const MAX_GENES: u8 = 32;

/// The number of sides of the die that decides what a mutation changes: the sides 0 to 11.
pub const MUTATION_KINDS: u8 = 12;

/// The chance, in percent, that a mutation roll changes the genome.
#[derive(Debug, Clone, Copy, PartialEq, Eq, Structural)]
pub struct MutationRate(pub u8);

impl MutationRate {
    /// A rate is a percentage.
    pub open spec fn wf(&self) -> bool {
        self.0 <= 100
    }

    /// A freshly drawn rate lies between 5 and 100.
    pub open spec fn fresh(&self) -> bool {
        5 <= self.0 <= 100
    }

    /// The chance that the rate stands for, as a ratio: the rate out of 100.
    pub open spec fn spec_chance(&self) -> (u32, u32) {
        (self.0 as u32, 100u32)
    }

    #[verifier::when_used_as_spec(spec_chance)]
    pub fn chance(&self) -> (ratio: (u32, u32))
        ensures
            ratio == self.spec_chance(),
            ratio.0 == self.0,
            ratio.1 == 100,
    {
        (self.0 as u32, 100)
    }

    /// Draws a rate between 5 and 100 percent.
    pub fn sample(rng: &mut ThreadRng) -> (rate: MutationRate)
        ensures
            rate.fresh(),
    {
        let n: u16 = random_in_range(rng, 5, 100);
        MutationRate(n as u8)
    }
}

/// The index of a gene in the table of a genome.
#[derive(Debug, Clone, Copy, PartialEq, Eq, Structural)]
pub struct GeneLocation(pub u8);

impl GeneLocation {
    /// The index points into the table.
    pub open spec fn wf(&self) -> bool {
        self.0 < MAX_GENES
    }

    /// Draws the index of one of the genes.
    pub fn sample(rng: &mut ThreadRng) -> (loc: GeneLocation)
        ensures
            loc.wf(),
    {
        let n: u16 = random_in_range(rng, 0, 31);
        GeneLocation(n as u8)
    }
}

/// The number of ticks a newborn has to live.
#[derive(Debug, Clone, Copy, PartialEq, Eq, Structural)]
pub struct LifeSpan(pub u16);

impl LifeSpan {
    /// A freshly drawn life span is at most 1000 ticks.
    pub open spec fn fresh(&self) -> bool {
        self.0 <= 1000
    }

    /// Draws a life span of at most 1000 ticks.
    pub fn sample(rng: &mut ThreadRng) -> (span: LifeSpan)
        ensures
            span.fresh(),
    {
        LifeSpan(random_in_range(rng, 0, 1000))
    }
}

/// What a gene does towards one of the four neighbours.
#[derive(Debug, Clone, Copy, PartialEq, Eq, Structural)]
pub enum GeneDirectionAction {
    MakeLeaf(LifeSpan),
    MakeRoot(LifeSpan),
    MakeReactor(LifeSpan),
    MakeFilter(LifeSpan),
    MultiplySelf(LifeSpan, GeneLocation),
    KillCell,
    CreateSeed(LifeSpan),
    Nothing,
}

impl GeneDirectionAction {
    /// The gene that a stem child starts with exists.
    pub open spec fn wf(&self) -> bool {
        match self {
            GeneDirectionAction::MultiplySelf(_, next_gene) => next_gene.wf(),
            _ => true,
        }
    }

    /// What holds of every action that was drawn: the gene of a stem child exists, and a
    /// life span is at most 1000 ticks.
    pub open spec fn fresh(&self) -> bool {
        match self {
            GeneDirectionAction::MakeLeaf(span) => span.fresh(),
            GeneDirectionAction::MakeRoot(span) => span.fresh(),
            GeneDirectionAction::MakeReactor(span) => span.fresh(),
            GeneDirectionAction::MakeFilter(span) => span.fresh(),
            GeneDirectionAction::MultiplySelf(span, next_gene) => span.fresh() && next_gene.wf(),
            GeneDirectionAction::CreateSeed(span) => span.fresh(),
            _ => true,
        }
    }

    /// Whether the action puts a new organism next to the cell.
    pub open spec fn is_birth(&self) -> bool {
        match self {
            GeneDirectionAction::KillCell | GeneDirectionAction::Nothing => false,
            _ => true,
        }
    }

    /// Whether the newborn of the action is a stem cell, which gets a genome of its own.
    pub open spec fn breeds_stem(&self) -> bool {
        match self {
            GeneDirectionAction::MultiplySelf(_, _) | GeneDirectionAction::CreateSeed(_) => true,
            _ => false,
        }
    }

    /// The energy, in parts of the energy unit, that the action reserves: 1.2 units for a
    /// leaf, 0.4 for a root, 0.8 for a reactor, a copy of oneself or a seed, 0.6 for a
    /// filter, and nothing otherwise.
    pub open spec fn spec_energy_capacity(&self) -> u64 {
        match self {
            GeneDirectionAction::MakeLeaf(_) => 1_200_000,
            GeneDirectionAction::MakeRoot(_) => 400_000,
            GeneDirectionAction::MakeReactor(_) => 800_000,
            GeneDirectionAction::MultiplySelf(_, _) => 800_000,
            GeneDirectionAction::CreateSeed(_) => 800_000,
            GeneDirectionAction::MakeFilter(_) => 600_000,
            GeneDirectionAction::Nothing => 0,
            GeneDirectionAction::KillCell => 0,
        }
    }

    #[verifier::when_used_as_spec(spec_energy_capacity)]
    pub fn energy_capacity(&self) -> (cost: u64)
        ensures
            cost == self.spec_energy_capacity(),
            cost <= 1_200_000,
    {
        match self {
            GeneDirectionAction::MakeLeaf(_) => 1_200_000,
            GeneDirectionAction::MakeRoot(_) => 400_000,
            GeneDirectionAction::MakeReactor(_) => 800_000,
            GeneDirectionAction::MultiplySelf(_, _) => 800_000,
            GeneDirectionAction::CreateSeed(_) => 800_000,
            GeneDirectionAction::MakeFilter(_) => 600_000,
            GeneDirectionAction::Nothing => 0,
            GeneDirectionAction::KillCell => 0,
        }
    }

    /// The energy a newborn of this action starts with: eight tenths of what the action
    /// reserves.
    pub open spec fn spec_newborn_energy(&self) -> u64 {
        (self.spec_energy_capacity() * 8 / 10) as u64
    }

    #[verifier::when_used_as_spec(spec_newborn_energy)]
    pub fn newborn_energy(&self) -> (energy: u64)
        ensures
            energy == self.spec_newborn_energy(),
            10 * energy == 8 * self.energy_capacity(),
    {
        self.energy_capacity() * 8 / 10
    }

    /// The action that the roll `roll` of a ten-sided die stands for: 0 a copy of oneself,
    /// 1 to 4 a leaf, a root, a reactor, a filter, 5 to 7 a kill, 8 a seed, and nothing
    /// for every other roll. `span` and `next_gene` fill the places of the actions that
    /// have them.
    pub open spec fn spec_from_roll(roll: u8, span: LifeSpan, next_gene: GeneLocation)
        -> GeneDirectionAction {
        if roll == 0 {
            GeneDirectionAction::MultiplySelf(span, next_gene)
        } else if roll == 1 {
            GeneDirectionAction::MakeLeaf(span)
        } else if roll == 2 {
            GeneDirectionAction::MakeRoot(span)
        } else if roll == 3 {
            GeneDirectionAction::MakeReactor(span)
        } else if roll == 4 {
            GeneDirectionAction::MakeFilter(span)
        } else if 5 <= roll <= 7 {
            GeneDirectionAction::KillCell
        } else if roll == 8 {
            GeneDirectionAction::CreateSeed(span)
        } else {
            GeneDirectionAction::Nothing
        }
    }

    #[verifier::when_used_as_spec(spec_from_roll)]
    pub fn from_roll(roll: u8, span: LifeSpan, next_gene: GeneLocation) -> (action:
        GeneDirectionAction)
        ensures
            action == Self::spec_from_roll(roll, span, next_gene),
            next_gene.wf() ==> action.wf(),
            next_gene.wf() && span.fresh() ==> action.fresh(),
    {
        match roll {
            0 => GeneDirectionAction::MultiplySelf(span, next_gene),
            1 => GeneDirectionAction::MakeLeaf(span),
            2 => GeneDirectionAction::MakeRoot(span),
            3 => GeneDirectionAction::MakeReactor(span),
            4 => GeneDirectionAction::MakeFilter(span),
            5..=7 => GeneDirectionAction::KillCell,
            8 => GeneDirectionAction::CreateSeed(span),
            _ => GeneDirectionAction::Nothing,
        }
    }

    /// Draws an action: a roll of a ten-sided die, a life span and a gene index, put
    /// together by [`GeneDirectionAction::from_roll`].
    pub fn sample(rng: &mut ThreadRng) -> (action: GeneDirectionAction)
        ensures
            action.wf(),
            action.fresh(),
    {
        let roll: u16 = random_in_range(rng, 0, 9);
        let span = LifeSpan::sample(rng);
        let next_gene = GeneLocation::sample(rng);
        Self::from_roll(roll as u8, span, next_gene)
    }
}

/// A test that a gene makes on the cell and its neighbourhood. The conditions that end
/// in `MT` ask whether something is more than the parameter that comes with the condition.
#[derive(Debug, Clone, Copy, PartialEq, Eq, Structural)]
pub enum GeneCondition {
    LifeUp,
    LifeDown,
    LifeLeft,
    LifeRight,
    LethalOrganicUp,
    LethalOrganicDown,
    LethalOrganicLeft,
    LethalOrganicRight,
    LethalEnergyUp,
    LethalEnergyDown,
    LethalEnergyLeft,
    LethalEnergyRight,
    RandomMT,
    LifeEnergyMT,
    OrganicCenterMT,
    OrganicUpMT,
    OrganicDownMT,
    OrganicLeftMT,
    OrganicRightMT,
    SoilEnergyCenterMT,
    SoilEnergyUpMT,
    SoilEnergyDownMT,
    SoilEnergyLeftMT,
    SoilEnergyRightMT,
    AirPollutionCenterMT,
    AirPollutionUpMT,
    AirPollutionDownMT,
    AirPollutionLeftMT,
    AirPollutionRightMT,
    Always,
    Never,
    StepsDividesP,
}

impl GeneCondition {
    /// The condition with the number `roll`, counted from 0 in the order of the
    /// declaration; every roll above 30 stands for the last one.
    pub open spec fn spec_from_roll(roll: u8) -> GeneCondition {
        if roll == 0 {
            GeneCondition::LifeUp
        } else if roll == 1 {
            GeneCondition::LifeDown
        } else if roll == 2 {
            GeneCondition::LifeLeft
        } else if roll == 3 {
            GeneCondition::LifeRight
        } else if roll == 4 {
            GeneCondition::LethalOrganicUp
        } else if roll == 5 {
            GeneCondition::LethalOrganicDown
        } else if roll == 6 {
            GeneCondition::LethalOrganicLeft
        } else if roll == 7 {
            GeneCondition::LethalOrganicRight
        } else if roll == 8 {
            GeneCondition::LethalEnergyUp
        } else if roll == 9 {
            GeneCondition::LethalEnergyDown
        } else if roll == 10 {
            GeneCondition::LethalEnergyLeft
        } else if roll == 11 {
            GeneCondition::LethalEnergyRight
        } else if roll == 12 {
            GeneCondition::RandomMT
        } else if roll == 13 {
            GeneCondition::LifeEnergyMT
        } else if roll == 14 {
            GeneCondition::OrganicCenterMT
        } else if roll == 15 {
            GeneCondition::OrganicUpMT
        } else if roll == 16 {
            GeneCondition::OrganicDownMT
        } else if roll == 17 {
            GeneCondition::OrganicLeftMT
        } else if roll == 18 {
            GeneCondition::OrganicRightMT
        } else if roll == 19 {
            GeneCondition::SoilEnergyCenterMT
        } else if roll == 20 {
            GeneCondition::SoilEnergyUpMT
        } else if roll == 21 {
            GeneCondition::SoilEnergyDownMT
        } else if roll == 22 {
            GeneCondition::SoilEnergyLeftMT
        } else if roll == 23 {
            GeneCondition::SoilEnergyRightMT
        } else if roll == 24 {
            GeneCondition::AirPollutionCenterMT
        } else if roll == 25 {
            GeneCondition::AirPollutionUpMT
        } else if roll == 26 {
            GeneCondition::AirPollutionDownMT
        } else if roll == 27 {
            GeneCondition::AirPollutionLeftMT
        } else if roll == 28 {
            GeneCondition::AirPollutionRightMT
        } else if roll == 29 {
            GeneCondition::Always
        } else if roll == 30 {
            GeneCondition::Never
        } else {
            GeneCondition::StepsDividesP
        }
    }

    #[verifier::when_used_as_spec(spec_from_roll)]
    pub fn from_roll(roll: u8) -> (condition: GeneCondition)
        ensures
            condition == Self::spec_from_roll(roll),
    {
        match roll {
            0 => GeneCondition::LifeUp,
            1 => GeneCondition::LifeDown,
            2 => GeneCondition::LifeLeft,
            3 => GeneCondition::LifeRight,
            4 => GeneCondition::LethalOrganicUp,
            5 => GeneCondition::LethalOrganicDown,
            6 => GeneCondition::LethalOrganicLeft,
            7 => GeneCondition::LethalOrganicRight,
            8 => GeneCondition::LethalEnergyUp,
            9 => GeneCondition::LethalEnergyDown,
            10 => GeneCondition::LethalEnergyLeft,
            11 => GeneCondition::LethalEnergyRight,
            12 => GeneCondition::RandomMT,
            13 => GeneCondition::LifeEnergyMT,
            14 => GeneCondition::OrganicCenterMT,
            15 => GeneCondition::OrganicUpMT,
            16 => GeneCondition::OrganicDownMT,
            17 => GeneCondition::OrganicLeftMT,
            18 => GeneCondition::OrganicRightMT,
            19 => GeneCondition::SoilEnergyCenterMT,
            20 => GeneCondition::SoilEnergyUpMT,
            21 => GeneCondition::SoilEnergyDownMT,
            22 => GeneCondition::SoilEnergyLeftMT,
            23 => GeneCondition::SoilEnergyRightMT,
            24 => GeneCondition::AirPollutionCenterMT,
            25 => GeneCondition::AirPollutionUpMT,
            26 => GeneCondition::AirPollutionDownMT,
            27 => GeneCondition::AirPollutionLeftMT,
            28 => GeneCondition::AirPollutionRightMT,
            29 => GeneCondition::Always,
            30 => GeneCondition::Never,
            _ => GeneCondition::StepsDividesP,
        }
    }

    /// Whether the outcome of the condition hangs on a random byte.
    pub open spec fn spec_needs_roll(&self) -> bool {
        *self == GeneCondition::RandomMT
    }

    #[verifier::when_used_as_spec(spec_needs_roll)]
    pub fn needs_roll(&self) -> (needed: bool)
        ensures
            needed == self.spec_needs_roll(),
    {
        match self {
            GeneCondition::RandomMT => true,
            _ => false,
        }
    }

    /// Draws one of the conditions, each with the same chance.
    pub fn sample(rng: &mut ThreadRng) -> (condition: GeneCondition)
    {
        let roll: u16 = random_in_range(rng, 0, 31);
        Self::from_roll(roll as u8)
    }
}

/// What a gene does apart from its four directions.
#[derive(Debug, Clone, Copy, PartialEq, Eq, Structural)]
pub enum GeneAction {
    MoveOrganicUp,
    MoveOrganicDown,
    MoveOrganicLeft,
    MoveOrganicRight,
    MoveOrganicFromUp,
    MoveOrganicFromDown,
    MoveOrganicFromLeft,
    MoveOrganicFromRight,
    DoNothing,
    ChangeActiveGene(GeneLocation),
    KillUpLeft,
    KillUpRight,
    KillDownLeft,
    KillDownRight,
}

impl GeneAction {
    /// The gene that the action jumps to exists.
    pub open spec fn wf(&self) -> bool {
        match self {
            GeneAction::ChangeActiveGene(target) => target.wf(),
            _ => true,
        }
    }

    /// The action with the number `roll`, counted from 0 in the order of the declaration;
    /// every roll above 12 stands for the last one. `target` is where a jump goes.
    pub open spec fn spec_from_roll(roll: u8, target: GeneLocation) -> GeneAction {
        if roll == 0 {
            GeneAction::MoveOrganicUp
        } else if roll == 1 {
            GeneAction::MoveOrganicDown
        } else if roll == 2 {
            GeneAction::MoveOrganicLeft
        } else if roll == 3 {
            GeneAction::MoveOrganicRight
        } else if roll == 4 {
            GeneAction::MoveOrganicFromUp
        } else if roll == 5 {
            GeneAction::MoveOrganicFromDown
        } else if roll == 6 {
            GeneAction::MoveOrganicFromLeft
        } else if roll == 7 {
            GeneAction::MoveOrganicFromRight
        } else if roll == 8 {
            GeneAction::DoNothing
        } else if roll == 9 {
            GeneAction::ChangeActiveGene(target)
        } else if roll == 10 {
            GeneAction::KillUpLeft
        } else if roll == 11 {
            GeneAction::KillUpRight
        } else if roll == 12 {
            GeneAction::KillDownLeft
        } else {
            GeneAction::KillDownRight
        }
    }

    #[verifier::when_used_as_spec(spec_from_roll)]
    pub fn from_roll(roll: u8, target: GeneLocation) -> (action: GeneAction)
        ensures
            action == Self::spec_from_roll(roll, target),
            target.wf() ==> action.wf(),
    {
        match roll {
            0 => GeneAction::MoveOrganicUp,
            1 => GeneAction::MoveOrganicDown,
            2 => GeneAction::MoveOrganicLeft,
            3 => GeneAction::MoveOrganicRight,
            4 => GeneAction::MoveOrganicFromUp,
            5 => GeneAction::MoveOrganicFromDown,
            6 => GeneAction::MoveOrganicFromLeft,
            7 => GeneAction::MoveOrganicFromRight,
            8 => GeneAction::DoNothing,
            9 => GeneAction::ChangeActiveGene(target),
            10 => GeneAction::KillUpLeft,
            11 => GeneAction::KillUpRight,
            12 => GeneAction::KillDownLeft,
            _ => GeneAction::KillDownRight,
        }
    }

    /// Draws one of the actions, each with the same chance.
    pub fn sample(rng: &mut ThreadRng) -> (action: GeneAction)
        ensures
            action.wf(),
    {
        let roll: u16 = random_in_range(rng, 0, 13);
        let target = GeneLocation::sample(rng);
        Self::from_roll(roll as u8, target)
    }
}

/// One unit of behaviour: what to do towards each neighbour, one main action with its
/// condition, three further actions of which two conditions pick one, and three genes to
/// jump to, of which two more conditions pick one.
#[derive(Debug, Clone, Copy, PartialEq, Eq, Structural)]
pub struct Gene {
    pub up: GeneDirectionAction,
    pub down: GeneDirectionAction,
    pub left: GeneDirectionAction,
    pub right: GeneDirectionAction,
    pub main_action_condition: GeneCondition,
    pub main_action_param: u8,
    pub main_action: GeneAction,
    pub additional_action_condition1: GeneCondition,
    pub additional_action_param1: u8,
    pub additional_action_condition2: GeneCondition,
    pub additional_action_param2: u8,
    pub additional_action1: GeneAction,
    pub additional_action2: GeneAction,
    pub additional_action3: GeneAction,
    pub condition_1: GeneCondition,
    pub param_1: u8,
    pub condition_2: GeneCondition,
    pub param_2: u8,
    pub alt_gene1: GeneLocation,
    pub alt_gene2: GeneLocation,
    pub alt_gene3: GeneLocation,
    pub self_lifespan: LifeSpan,
}

/// The fields of a gene that a mutation can draw anew.
#[derive(Debug, Clone, Copy, PartialEq, Eq, Structural)]
pub enum GeneField {
    Up,
    Down,
    Left,
    Right,
    Condition1,
    Param1,
    Condition2,
    Param2,
    AltGene1,
    AltGene2,
    AltGene3,
    AdditionalActionCondition1,
    AdditionalActionParam1,
    AdditionalActionCondition2,
    AdditionalActionParam2,
    AdditionalAction1,
    AdditionalAction2,
    AdditionalAction3,
    MainAction,
    MainActionParam,
    MainActionCondition,
    SelfLifespan,
}

/// One change to a gene.
#[derive(Debug, Clone, Copy, PartialEq, Eq, Structural)]
pub enum FieldMutation {
    /// The field is drawn anew.
    Reroll(GeneField),
    /// The action towards `to` becomes what the action towards `from` is.
    CopyDirection { to: CellDir, from: CellDir },
    /// The whole gene is drawn anew.
    ReplaceGene,
}

impl FieldMutation {
    /// The change that the roll `roll` of a die with the sides 0 to 86 stands for. Eight
    /// sides each draw `up`, `down`, `left` and `right` anew; one side each draws one of
    /// the other eighteen fields anew; three sides each copy one direction over another,
    /// for each of the twelve pairs; the last side (and every roll beyond it) replaces the
    /// gene.
    pub open spec fn spec_from_roll(roll: u8) -> FieldMutation {
        if roll <= 7 {
            FieldMutation::Reroll(GeneField::Up)
        } else if roll <= 15 {
            FieldMutation::Reroll(GeneField::Down)
        } else if roll <= 23 {
            FieldMutation::Reroll(GeneField::Left)
        } else if roll <= 31 {
            FieldMutation::Reroll(GeneField::Right)
        } else if roll == 32 {
            FieldMutation::Reroll(GeneField::Condition1)
        } else if roll == 33 {
            FieldMutation::Reroll(GeneField::Param1)
        } else if roll == 34 {
            FieldMutation::Reroll(GeneField::Condition2)
        } else if roll == 35 {
            FieldMutation::Reroll(GeneField::Param2)
        } else if roll == 36 {
            FieldMutation::Reroll(GeneField::AltGene1)
        } else if roll == 37 {
            FieldMutation::Reroll(GeneField::AltGene2)
        } else if roll == 38 {
            FieldMutation::Reroll(GeneField::AltGene3)
        } else if roll == 39 {
            FieldMutation::Reroll(GeneField::AdditionalActionCondition1)
        } else if roll == 40 {
            FieldMutation::Reroll(GeneField::AdditionalActionParam1)
        } else if roll == 41 {
            FieldMutation::Reroll(GeneField::AdditionalActionCondition2)
        } else if roll == 42 {
            FieldMutation::Reroll(GeneField::AdditionalActionParam2)
        } else if roll == 43 {
            FieldMutation::Reroll(GeneField::AdditionalAction1)
        } else if roll == 44 {
            FieldMutation::Reroll(GeneField::AdditionalAction2)
        } else if roll == 45 {
            FieldMutation::Reroll(GeneField::AdditionalAction3)
        } else if roll == 46 {
            FieldMutation::Reroll(GeneField::MainAction)
        } else if roll == 47 {
            FieldMutation::Reroll(GeneField::MainActionParam)
        } else if roll == 48 {
            FieldMutation::Reroll(GeneField::MainActionCondition)
        } else if roll == 49 {
            FieldMutation::Reroll(GeneField::SelfLifespan)
        } else if roll <= 52 {
            FieldMutation::CopyDirection { to: CellDir::Up, from: CellDir::Down }
        } else if roll <= 55 {
            FieldMutation::CopyDirection { to: CellDir::Down, from: CellDir::Up }
        } else if roll <= 58 {
            FieldMutation::CopyDirection { to: CellDir::Left, from: CellDir::Right }
        } else if roll <= 61 {
            FieldMutation::CopyDirection { to: CellDir::Right, from: CellDir::Left }
        } else if roll <= 64 {
            FieldMutation::CopyDirection { to: CellDir::Up, from: CellDir::Left }
        } else if roll <= 67 {
            FieldMutation::CopyDirection { to: CellDir::Up, from: CellDir::Right }
        } else if roll <= 70 {
            FieldMutation::CopyDirection { to: CellDir::Down, from: CellDir::Left }
        } else if roll <= 73 {
            FieldMutation::CopyDirection { to: CellDir::Down, from: CellDir::Right }
        } else if roll <= 76 {
            FieldMutation::CopyDirection { to: CellDir::Left, from: CellDir::Up }
        } else if roll <= 79 {
            FieldMutation::CopyDirection { to: CellDir::Left, from: CellDir::Down }
        } else if roll <= 82 {
            FieldMutation::CopyDirection { to: CellDir::Right, from: CellDir::Up }
        } else if roll <= 85 {
            FieldMutation::CopyDirection { to: CellDir::Right, from: CellDir::Down }
        } else {
            FieldMutation::ReplaceGene
        }
    }

    #[verifier::when_used_as_spec(spec_from_roll)]
    pub fn from_roll(roll: u8) -> (mutation: FieldMutation)
        ensures
            mutation == Self::spec_from_roll(roll),
    {
        match roll {
            0..=7 => FieldMutation::Reroll(GeneField::Up),
            8..=15 => FieldMutation::Reroll(GeneField::Down),
            16..=23 => FieldMutation::Reroll(GeneField::Left),
            24..=31 => FieldMutation::Reroll(GeneField::Right),
            32 => FieldMutation::Reroll(GeneField::Condition1),
            33 => FieldMutation::Reroll(GeneField::Param1),
            34 => FieldMutation::Reroll(GeneField::Condition2),
            35 => FieldMutation::Reroll(GeneField::Param2),
            36 => FieldMutation::Reroll(GeneField::AltGene1),
            37 => FieldMutation::Reroll(GeneField::AltGene2),
            38 => FieldMutation::Reroll(GeneField::AltGene3),
            39 => FieldMutation::Reroll(GeneField::AdditionalActionCondition1),
            40 => FieldMutation::Reroll(GeneField::AdditionalActionParam1),
            41 => FieldMutation::Reroll(GeneField::AdditionalActionCondition2),
            42 => FieldMutation::Reroll(GeneField::AdditionalActionParam2),
            43 => FieldMutation::Reroll(GeneField::AdditionalAction1),
            44 => FieldMutation::Reroll(GeneField::AdditionalAction2),
            45 => FieldMutation::Reroll(GeneField::AdditionalAction3),
            46 => FieldMutation::Reroll(GeneField::MainAction),
            47 => FieldMutation::Reroll(GeneField::MainActionParam),
            48 => FieldMutation::Reroll(GeneField::MainActionCondition),
            49 => FieldMutation::Reroll(GeneField::SelfLifespan),
            50..=52 => FieldMutation::CopyDirection { to: CellDir::Up, from: CellDir::Down },
            53..=55 => FieldMutation::CopyDirection { to: CellDir::Down, from: CellDir::Up },
            56..=58 => FieldMutation::CopyDirection { to: CellDir::Left, from: CellDir::Right },
            59..=61 => FieldMutation::CopyDirection { to: CellDir::Right, from: CellDir::Left },
            62..=64 => FieldMutation::CopyDirection { to: CellDir::Up, from: CellDir::Left },
            65..=67 => FieldMutation::CopyDirection { to: CellDir::Up, from: CellDir::Right },
            68..=70 => FieldMutation::CopyDirection { to: CellDir::Down, from: CellDir::Left },
            71..=73 => FieldMutation::CopyDirection { to: CellDir::Down, from: CellDir::Right },
            74..=76 => FieldMutation::CopyDirection { to: CellDir::Left, from: CellDir::Up },
            77..=79 => FieldMutation::CopyDirection { to: CellDir::Left, from: CellDir::Down },
            80..=82 => FieldMutation::CopyDirection { to: CellDir::Right, from: CellDir::Up },
            83..=85 => FieldMutation::CopyDirection { to: CellDir::Right, from: CellDir::Down },
            _ => FieldMutation::ReplaceGene,
        }
    }
}

impl Gene {
    /// Every gene index in the gene points into the table.
    pub open spec fn wf(&self) -> bool {
        &&& self.up.wf()
        &&& self.down.wf()
        &&& self.left.wf()
        &&& self.right.wf()
        &&& self.main_action.wf()
        &&& self.additional_action1.wf()
        &&& self.additional_action2.wf()
        &&& self.additional_action3.wf()
        &&& self.alt_gene1.wf()
        &&& self.alt_gene2.wf()
        &&& self.alt_gene3.wf()
    }

    /// What holds of every gene that was drawn: it is well formed, and every life span in
    /// it is at most 1000 ticks.
    pub open spec fn fresh(&self) -> bool {
        &&& self.wf()
        &&& self.up.fresh()
        &&& self.down.fresh()
        &&& self.left.fresh()
        &&& self.right.fresh()
        &&& self.self_lifespan.fresh()
    }

    /// Tests [`Gene::wf`] at run time.
    pub fn is_well_formed(&self) -> (ok: bool)
        ensures
            ok == self.wf(),
    {
        direction_action_is_well_formed(&self.up) && direction_action_is_well_formed(&self.down)
            && direction_action_is_well_formed(&self.left) && direction_action_is_well_formed(
            &self.right,
        ) && action_is_well_formed(&self.main_action) && action_is_well_formed(
            &self.additional_action1,
        ) && action_is_well_formed(&self.additional_action2) && action_is_well_formed(
            &self.additional_action3,
        ) && self.alt_gene1.0 < MAX_GENES && self.alt_gene2.0 < MAX_GENES && self.alt_gene3.0
            < MAX_GENES
    }

    /// What the four directions of the gene reserve together.
    pub open spec fn spec_energy_capacity(&self) -> u64 {
        (self.up.energy_capacity() + self.down.energy_capacity() + self.left.energy_capacity()
            + self.right.energy_capacity()) as u64
    }

    #[verifier::when_used_as_spec(spec_energy_capacity)]
    pub fn energy_capacity(&self) -> (cost: u64)
        ensures
            cost == self.spec_energy_capacity(),
            cost == self.up.energy_capacity() + self.down.energy_capacity()
                + self.left.energy_capacity() + self.right.energy_capacity(),
            cost <= 4_800_000,
    {
        self.up.energy_capacity() + self.down.energy_capacity() + self.left.energy_capacity()
            + self.right.energy_capacity()
    }

    /// The action of the gene towards `dir`.
    pub open spec fn spec_direction(&self, dir: CellDir) -> GeneDirectionAction {
        match dir {
            CellDir::Up => self.up,
            CellDir::Down => self.down,
            CellDir::Left => self.left,
            CellDir::Right => self.right,
        }
    }

    #[verifier::when_used_as_spec(spec_direction)]
    pub fn direction(&self, dir: CellDir) -> (action: GeneDirectionAction)
        ensures
            action == self.spec_direction(dir),
    {
        match dir {
            CellDir::Up => self.up,
            CellDir::Down => self.down,
            CellDir::Left => self.left,
            CellDir::Right => self.right,
        }
    }

    /// The gene with `action` as its action towards `dir`.
    pub open spec fn with_direction(self, dir: CellDir, action: GeneDirectionAction) -> Gene {
        match dir {
            CellDir::Up => Gene { up: action, ..self },
            CellDir::Down => Gene { down: action, ..self },
            CellDir::Left => Gene { left: action, ..self },
            CellDir::Right => Gene { right: action, ..self },
        }
    }

    /// The gene with the field `field` taken from `fresh`.
    pub open spec fn with_field(self, field: GeneField, fresh: Gene) -> Gene {
        match field {
            GeneField::Up => Gene { up: fresh.up, ..self },
            GeneField::Down => Gene { down: fresh.down, ..self },
            GeneField::Left => Gene { left: fresh.left, ..self },
            GeneField::Right => Gene { right: fresh.right, ..self },
            GeneField::Condition1 => Gene { condition_1: fresh.condition_1, ..self },
            GeneField::Param1 => Gene { param_1: fresh.param_1, ..self },
            GeneField::Condition2 => Gene { condition_2: fresh.condition_2, ..self },
            GeneField::Param2 => Gene { param_2: fresh.param_2, ..self },
            GeneField::AltGene1 => Gene { alt_gene1: fresh.alt_gene1, ..self },
            GeneField::AltGene2 => Gene { alt_gene2: fresh.alt_gene2, ..self },
            GeneField::AltGene3 => Gene { alt_gene3: fresh.alt_gene3, ..self },
            GeneField::AdditionalActionCondition1 => Gene {
                additional_action_condition1: fresh.additional_action_condition1,
                ..self
            },
            GeneField::AdditionalActionParam1 => Gene {
                additional_action_param1: fresh.additional_action_param1,
                ..self
            },
            GeneField::AdditionalActionCondition2 => Gene {
                additional_action_condition2: fresh.additional_action_condition2,
                ..self
            },
            GeneField::AdditionalActionParam2 => Gene {
                additional_action_param2: fresh.additional_action_param2,
                ..self
            },
            GeneField::AdditionalAction1 => Gene {
                additional_action1: fresh.additional_action1,
                ..self
            },
            GeneField::AdditionalAction2 => Gene {
                additional_action2: fresh.additional_action2,
                ..self
            },
            GeneField::AdditionalAction3 => Gene {
                additional_action3: fresh.additional_action3,
                ..self
            },
            GeneField::MainAction => Gene { main_action: fresh.main_action, ..self },
            GeneField::MainActionParam => Gene {
                main_action_param: fresh.main_action_param,
                ..self
            },
            GeneField::MainActionCondition => Gene {
                main_action_condition: fresh.main_action_condition,
                ..self
            },
            GeneField::SelfLifespan => Gene { self_lifespan: fresh.self_lifespan, ..self },
        }
    }

    /// The gene after the change `mutation`, where `fresh` supplies what is drawn anew.
    pub open spec fn mutated(self, mutation: FieldMutation, fresh: Gene) -> Gene {
        match mutation {
            FieldMutation::Reroll(field) => self.with_field(field, fresh),
            FieldMutation::CopyDirection { to, from } => self.with_direction(
                to,
                self.spec_direction(from),
            ),
            FieldMutation::ReplaceGene => fresh,
        }
    }

    /// Changes the gene as `mutation` says; `fresh` supplies what is drawn anew.
    pub fn apply_mutation(&mut self, mutation: FieldMutation, fresh: &Gene)
        ensures
            *final(self) == old(self).mutated(mutation, *fresh),
            old(self).wf() && fresh.wf() ==> final(self).wf(),
            old(self).fresh() && fresh.fresh() ==> final(self).fresh(),
    {
        match mutation {
            FieldMutation::Reroll(field) => {
                match field {
                    GeneField::Up => self.up = fresh.up,
                    GeneField::Down => self.down = fresh.down,
                    GeneField::Left => self.left = fresh.left,
                    GeneField::Right => self.right = fresh.right,
                    GeneField::Condition1 => self.condition_1 = fresh.condition_1,
                    GeneField::Param1 => self.param_1 = fresh.param_1,
                    GeneField::Condition2 => self.condition_2 = fresh.condition_2,
                    GeneField::Param2 => self.param_2 = fresh.param_2,
                    GeneField::AltGene1 => self.alt_gene1 = fresh.alt_gene1,
                    GeneField::AltGene2 => self.alt_gene2 = fresh.alt_gene2,
                    GeneField::AltGene3 => self.alt_gene3 = fresh.alt_gene3,
                    GeneField::AdditionalActionCondition1 => self.additional_action_condition1 =
                        fresh.additional_action_condition1,
                    GeneField::AdditionalActionParam1 => self.additional_action_param1 =
                        fresh.additional_action_param1,
                    GeneField::AdditionalActionCondition2 => self.additional_action_condition2 =
                        fresh.additional_action_condition2,
                    GeneField::AdditionalActionParam2 => self.additional_action_param2 =
                        fresh.additional_action_param2,
                    GeneField::AdditionalAction1 => self.additional_action1 =
                        fresh.additional_action1,
                    GeneField::AdditionalAction2 => self.additional_action2 =
                        fresh.additional_action2,
                    GeneField::AdditionalAction3 => self.additional_action3 =
                        fresh.additional_action3,
                    GeneField::MainAction => self.main_action = fresh.main_action,
                    GeneField::MainActionParam => self.main_action_param =
                        fresh.main_action_param,
                    GeneField::MainActionCondition => self.main_action_condition =
                        fresh.main_action_condition,
                    GeneField::SelfLifespan => self.self_lifespan = fresh.self_lifespan,
                }
            },
            FieldMutation::CopyDirection { to, from } => {
                let action = self.direction(from);
                match to {
                    CellDir::Up => self.up = action,
                    CellDir::Down => self.down = action,
                    CellDir::Left => self.left = action,
                    CellDir::Right => self.right = action,
                }
            },
            FieldMutation::ReplaceGene => {
                *self = *fresh;
            },
        }
    }

    /// Draws a gene, field by field.
    pub fn sample(rng: &mut ThreadRng) -> (gene: Gene)
        ensures
            gene.wf(),
            gene.fresh(),
    {
        Gene {
            up: GeneDirectionAction::sample(rng),
            down: GeneDirectionAction::sample(rng),
            left: GeneDirectionAction::sample(rng),
            right: GeneDirectionAction::sample(rng),
            main_action_condition: GeneCondition::sample(rng),
            main_action_param: random_byte(rng),
            main_action: GeneAction::sample(rng),
            additional_action_condition1: GeneCondition::sample(rng),
            additional_action_param1: random_byte(rng),
            additional_action_condition2: GeneCondition::sample(rng),
            additional_action_param2: random_byte(rng),
            additional_action1: GeneAction::sample(rng),
            additional_action2: GeneAction::sample(rng),
            additional_action3: GeneAction::sample(rng),
            condition_1: GeneCondition::sample(rng),
            param_1: random_byte(rng),
            condition_2: GeneCondition::sample(rng),
            param_2: random_byte(rng),
            alt_gene1: GeneLocation::sample(rng),
            alt_gene2: GeneLocation::sample(rng),
            alt_gene3: GeneLocation::sample(rng),
            self_lifespan: LifeSpan::sample(rng),
        }
    }
}

fn direction_action_is_well_formed(action: &GeneDirectionAction) -> (ok: bool)
    ensures
        ok == action.wf(),
{
    match action {
        GeneDirectionAction::MultiplySelf(_, next_gene) => next_gene.0 < MAX_GENES,
        _ => true,
    }
}

fn action_is_well_formed(action: &GeneAction) -> (ok: bool)
    ensures
        ok == action.wf(),
{
    match action {
        GeneAction::ChangeActiveGene(target) => target.0 < MAX_GENES,
        _ => true,
    }
}

/// The program of a stem cell. It is copied, never shared: each newborn stem cell gets a
/// genome of its own.
#[derive(Debug, Clone, Copy, PartialEq, Eq)]
pub struct Genome {
    pub genes: [Gene; 32],
    /// The gene that is executed.
    pub active_gene: GeneLocation,
    /// The gene that a seed starts with.
    pub seed_gene: GeneLocation,
    pub mutation_rate: MutationRate,
}

impl Genome {
    /// Every gene index in the genome points into the table, and the mutation rate is a
    /// percentage.
    pub open spec fn wf(&self) -> bool {
        &&& forall|i: int| 0 <= i < 32 ==> (#[trigger] self.genes[i]).wf()
        &&& self.active_gene.wf()
        &&& self.seed_gene.wf()
        &&& self.mutation_rate.wf()
    }

    /// What holds of every genome that was drawn, and of every genome that mutations have
    /// made of one: it is well formed, its mutation rate lies between 5 and 100, and every
    /// life span in it is at most 1000 ticks.
    pub open spec fn fresh(&self) -> bool {
        &&& self.wf()
        &&& forall|i: int| 0 <= i < 32 ==> (#[trigger] self.genes[i]).fresh()
        &&& self.mutation_rate.fresh()
    }

    /// Tests [`Genome::wf`] at run time.
    pub fn is_well_formed(&self) -> (ok: bool)
        ensures
            ok == self.wf(),
    {
        if !(self.active_gene.0 < MAX_GENES && self.seed_gene.0 < MAX_GENES
            && self.mutation_rate.0 <= 100) {
            return false;
        }
        let mut i: usize = 0;
        while i < 32
            invariant
                i <= 32,
                forall|j: int| 0 <= j < i ==> (#[trigger] self.genes[j]).wf(),
            decreases 32 - i,
        {
            if !self.genes[i].is_well_formed() {
                return false;
            }
            i += 1;
        }
        true
    }

    /// The gene at `loc`.
    pub open spec fn spec_get_gene(&self, loc: GeneLocation) -> Gene {
        self.genes[loc.0 as int]
    }

    #[verifier::when_used_as_spec(spec_get_gene)]
    pub fn get_gene(&self, loc: GeneLocation) -> (gene: Gene)
        requires
            loc.wf(),
        ensures
            gene == self.spec_get_gene(loc),
            self.wf() ==> gene.wf(),
    {
        self.genes[loc.0 as usize]
    }

    /// The gene that is executed.
    pub open spec fn spec_active_gene(&self) -> Gene {
        self.genes[self.active_gene.0 as int]
    }

    #[verifier::when_used_as_spec(spec_active_gene)]
    pub fn active_gene(&self) -> (gene: Gene)
        requires
            self.active_gene.wf(),
        ensures
            gene == self.spec_active_gene(),
            self.wf() ==> gene.wf(),
    {
        self.get_gene(self.active_gene)
    }

    /// The genome with `loc` as its active gene.
    pub open spec fn with_active_gene(self, loc: GeneLocation) -> Genome {
        Genome { active_gene: loc, ..self }
    }

    /// Whether the genome is `before` with one change to one gene: the gene at `loc` has
    /// gone through the change that the roll `roll` stands for
    /// ([`FieldMutation::spec_from_roll`], [`Gene::mutated`]), with `fresh` supplying what
    /// is drawn anew; the other 31 genes and everything else are as they were.
    pub open spec fn gene_mutated_at(
        &self,
        before: Genome,
        loc: GeneLocation,
        roll: u8,
        fresh: Gene,
    ) -> bool {
        &&& *self == (Genome { genes: self.genes, ..before })
        &&& self.genes@ == before.genes@.update(
            loc.0 as int,
            before.genes[loc.0 as int].mutated(FieldMutation::spec_from_roll(roll), fresh),
        )
    }

    /// Whether the genome is what one change to one gene can make of `before`: some gene
    /// of the table, some side of the die with the sides 0 to 86, and some gene that was
    /// drawn to supply what is new ([`Genome::gene_mutated_at`]).
    pub open spec fn one_gene_mutated_from(&self, before: Genome) -> bool {
        exists|loc: GeneLocation, roll: u8, fresh: Gene|
            loc.wf() && roll <= 86 && fresh.fresh() && #[trigger] self.gene_mutated_at(
                before,
                loc,
                roll,
                fresh,
            )
    }

    /// What one mutation roll can make of `before`: nothing; or a fresh mutation rate; or
    /// another active gene; or another seed gene; or one change to one gene
    /// ([`Genome::one_gene_mutated_from`]). Never two of these at once; and a genome with
    /// a mutation rate of 0 never changes.
    pub open spec fn mutation_of(&self, before: Genome) -> bool {
        if before.mutation_rate.0 == 0 {
            *self == before
        } else {
            ||| *self == before
            ||| *self == (Genome { mutation_rate: self.mutation_rate, ..before })
                    && self.mutation_rate.fresh()
            ||| *self == (Genome { active_gene: self.active_gene, ..before })
                    && self.active_gene.wf()
            ||| *self == (Genome { seed_gene: self.seed_gene, ..before }) && self.seed_gene.wf()
            ||| self.one_gene_mutated_from(before)
        }
    }

    /// What [`Genome::mutate_with`] makes of `before` when the roll has fired and the die
    /// shows `kind`: 0 draws the mutation rate anew, 1 the active gene, 2 the seed gene,
    /// and every other side makes one change to one gene
    /// ([`Genome::one_gene_mutated_from`]).
    pub open spec fn fired_mutation_of(&self, before: Genome, kind: u8) -> bool {
        if kind == 0 {
            *self == (Genome { mutation_rate: self.mutation_rate, ..before })
                && self.mutation_rate.fresh()
        } else if kind == 1 {
            *self == (Genome { active_gene: self.active_gene, ..before })
                && self.active_gene.wf()
        } else if kind == 2 {
            *self == (Genome { seed_gene: self.seed_gene, ..before }) && self.seed_gene.wf()
        } else {
            self.one_gene_mutated_from(before)
        }
    }

    /// One mutation roll. With the chance that the mutation rate gives
    /// ([`MutationRate::chance`]), the roll fires: then a die with [`MUTATION_KINDS`] sides
    /// decides what changes (see [`Genome::fired_mutation_of`]):
    /// the mutation rate, the active gene, the seed gene, or, with nine sides of the
    /// twelve, one field of one gene. With a rate of 0 the roll never fires and nothing
    /// changes; with a rate of 100 it always fires. The rate must be a percentage.
    pub fn mutate(&mut self)
        requires
            old(self).mutation_rate.wf(),
        ensures
            old(self).wf() ==> final(self).wf(),
            final(self).mutation_of(*old(self)),
            old(self).mutation_rate.0 == 0 ==> *final(self) == *old(self),
            old(self).mutation_rate.0 == 100 ==> exists|kind: u8|
                kind < MUTATION_KINDS && #[trigger] final(self).fired_mutation_of(
                    *old(self),
                    kind,
                ),
            old(self).fresh() ==> final(self).fresh(),
    {
        let mut rng = rand::thread_rng();
        let (numerator, denominator) = self.mutation_rate.chance();
        let fired = random_ratio(&mut rng, numerator, denominator);
        let kind: u16 = if fired {
            random_in_range(&mut rng, 0, (MUTATION_KINDS - 1) as u16)
        } else {
            0
        };
        self.mutate_with(fired, kind as u8);
    }

    /// The part of a mutation roll that follows the two draws at its start: `fired` says
    /// whether the roll changes anything, `kind` is what the twelve-sided die shows.
    pub fn mutate_with(&mut self, fired: bool, kind: u8)
        requires
            old(self).mutation_rate.wf(),
        ensures
            old(self).wf() ==> final(self).wf(),
            !fired ==> *final(self) == *old(self),
            fired ==> final(self).fired_mutation_of(*old(self), kind),
            old(self).fresh() ==> final(self).fresh(),
    {
        if fired {
            let mut rng = rand::thread_rng();
            match kind {
                0 => self.mutation_rate = MutationRate::sample(&mut rng),
                1 => self.active_gene = GeneLocation::sample(&mut rng),
                2 => self.seed_gene = GeneLocation::sample(&mut rng),
                _ => self.mutate_genes(&mut rng),
            }
        }
    }

    /// Makes one change to the gene at `loc`: the change that the roll `roll` of the die
    /// with the sides 0 to 86 stands for (see [`FieldMutation::from_roll`]); `fresh`
    /// supplies what the change draws anew. No other gene changes.
    pub fn mutate_gene(&mut self, loc: GeneLocation, roll: u8, fresh: &Gene)
        requires
            loc.wf(),
        ensures
            final(self).gene_mutated_at(*old(self), loc, roll, *fresh),
            old(self).wf() && fresh.wf() ==> final(self).wf(),
            old(self).fresh() && fresh.fresh() ==> final(self).fresh(),
    {
        let mut gene = self.genes[loc.0 as usize];
        gene.apply_mutation(FieldMutation::from_roll(roll), fresh);
        self.genes[loc.0 as usize] = gene;
        assert(self.genes@ =~= old(self).genes@.update(loc.0 as int, gene));
    }

    /// Draws a gene of the table, a side of the die with the sides 0 to 86 and a gene
    /// that supplies what is new, and makes that one change ([`Genome::mutate_gene`]).
    fn mutate_genes(&mut self, rng: &mut ThreadRng)
        ensures
            final(self).one_gene_mutated_from(*old(self)),
            old(self).wf() ==> final(self).wf(),
            old(self).fresh() ==> final(self).fresh(),
    {
        let loc = GeneLocation::sample(rng);
        let roll: u16 = random_in_range(rng, 0, 86);
        let fresh = Gene::sample(rng);
        self.mutate_gene(loc, roll as u8, &fresh);
    }

    /// Draws a genome: a seed gene, which is also the active one, 32 genes and a mutation
    /// rate.
    pub fn sample(rng: &mut ThreadRng) -> (genome: Genome)
        ensures
            genome.wf(),
            genome.fresh(),
            genome.active_gene == genome.seed_gene,
    {
        let seed_gene = GeneLocation::sample(rng);
        let first = Gene::sample(rng);
        let mut genes: [Gene; 32] = [first;32];
        let mut i: usize = 1;
        while i < 32
            invariant
                1 <= i <= 32,
                forall|j: int| 0 <= j < 32 ==> (#[trigger] genes[j]).fresh(),
            decreases 32 - i,
        {
            genes[i] = Gene::sample(rng);
            i += 1;
        }
        Genome { genes, active_gene: seed_gene, seed_gene, mutation_rate: MutationRate::sample(rng) }
    }
}

} // verus!
