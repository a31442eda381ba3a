use spectaculife::cells::air_cell::AirCell;
use spectaculife::cells::life_cell::genome::{
    Gene, GeneAction, GeneCondition, GeneDirectionAction, GeneLocation, Genome, LifeSpan,
    MutationRate,
};
use spectaculife::cells::life_cell::{AliveCell, EnergyDirections, LifeCell, LifeType};
use spectaculife::cells::soil_cell::SoilCell;
use spectaculife::cells::WorldCell;
use spectaculife::grid::Area;
use spectaculife::types::{CellDir, State};
use spectaculife::update::life::{
    check_gene_condition, generate_energy, kill, reroute_energy_paths, transfer_energy,
    update_life,
};

const NONE: EnergyDirections = EnergyDirections { up: false, down: false, left: false, right: false };

fn empty() -> WorldCell {
    WorldCell {
        life: LifeCell::Dead,
        soil: SoilCell { organics: 0, energy: 0 },
        air: AirCell { pollution: 0 },
    }
}

fn area_round(center: WorldCell) -> Area<WorldCell> {
    Area {
        up: empty(),
        down: empty(),
        left: empty(),
        right: empty(),
        up_left: empty(),
        up_right: empty(),
        down_left: empty(),
        down_right: empty(),
        center,
        x: 5,
        y: 5,
        columns: 16,
        rows: 16,
    }
}

fn alive(ty: LifeType, energy: u64, energy_to: EnergyDirections, parent: Option<CellDir>) -> AliveCell {
    AliveCell::new(ty, energy, energy_to, parent, 100)
}

fn living(life: AliveCell) -> WorldCell {
    WorldCell { life: LifeCell::Alive(life), ..empty() }
}

fn the_living(cell: &WorldCell) -> AliveCell {
    match cell.life {
        LifeCell::Alive(life) => life,
        LifeCell::Dead => panic!("nothing lives here"),
    }
}

fn to(dir: CellDir) -> EnergyDirections {
    EnergyDirections::from_direction(&dir)
}

fn plain_gene() -> Gene {
    Gene {
        up: GeneDirectionAction::Nothing,
        down: GeneDirectionAction::Nothing,
        left: GeneDirectionAction::Nothing,
        right: GeneDirectionAction::Nothing,
        main_action_condition: GeneCondition::Never,
        main_action_param: 0,
        main_action: GeneAction::DoNothing,
        additional_action_condition1: GeneCondition::Never,
        additional_action_param1: 0,
        additional_action_condition2: GeneCondition::Never,
        additional_action_param2: 0,
        additional_action1: GeneAction::DoNothing,
        additional_action2: GeneAction::DoNothing,
        additional_action3: GeneAction::DoNothing,
        condition_1: GeneCondition::Never,
        param_1: 0,
        condition_2: GeneCondition::Never,
        param_2: 0,
        alt_gene1: GeneLocation(0),
        alt_gene2: GeneLocation(0),
        alt_gene3: GeneLocation(0),
        self_lifespan: LifeSpan(10),
    }
}

fn plain_genome() -> Genome {
    Genome {
        genes: [plain_gene(); 32],
        active_gene: GeneLocation(0),
        seed_gene: GeneLocation(0),
        mutation_rate: MutationRate(5),
    }
}

#[test]
fn upkeep_and_organics_of_each_role() {
    assert_eq!(LifeType::Pipe.consumption(), 100_000);
    assert_eq!(LifeType::Leaf.consumption(), 200_000);
    assert_eq!(LifeType::Stem(plain_genome()).consumption(), 100_000);
    assert_eq!(LifeType::Root.consumption(), 500_000);
    assert_eq!(LifeType::Reactor.consumption(), 700_000);
    assert_eq!(LifeType::Filter.consumption(), 200_000);
    assert_eq!(LifeType::Pipe.organics(), 1);
    assert_eq!(LifeType::Leaf.organics(), 2);
    assert_eq!(LifeType::Stem(plain_genome()).organics(), 2);
    assert_eq!(LifeType::Root.organics(), 2);
    assert_eq!(LifeType::Reactor.organics(), 1);
    assert_eq!(LifeType::Filter.organics(), 3);
    assert!(LifeType::Leaf.can_transfer() && LifeType::Pipe.can_transfer());
    assert!(!LifeType::Stem(plain_genome()).can_transfer());
    assert!(LifeType::Stem(plain_genome()).is_pipe_recipient() && LifeType::Pipe.is_pipe_recipient());
    assert!(!LifeType::Leaf.is_pipe_recipient());
    assert!(LifeType::Stem(plain_genome()).is_fertile() && !LifeType::Pipe.is_fertile());
}

#[test]
fn a_leaf_in_clean_air_ends_the_tick_with_more_energy() {
    // 5.0 units, less the upkeep of 0.2, plus the 1.8 that a leaf makes in clean air.
    let mut life = alive(LifeType::Leaf, 5_000_000, to(CellDir::Up), Some(CellDir::Up));
    let mut area = area_round(living(life));
    life.energy -= life.consumption();
    generate_energy(&mut area, &mut life);
    assert_eq!(life.energy, 6_600_000);
    assert_eq!(area.center.soil.energy, 900_000);
    assert_eq!(life.ty, LifeType::Leaf);
}

#[test]
fn a_leaf_passes_its_surplus_to_the_pipe_it_feeds() {
    let leaf = alive(LifeType::Leaf, 5_000_000, to(CellDir::Up), Some(CellDir::Up));
    let mut area = area_round(living(leaf));
    area.up = living(alive(LifeType::Pipe, 1_000_000, to(CellDir::Up), None));
    update_life(&State::default(), &mut area);
    let after = the_living(&area.center);
    // 6.6 units after upkeep and generation, of which the leaf keeps 0.22
    assert_eq!(after.energy, 220_000);
    assert_eq!(after.steps_to_death, 99);
    assert_eq!(after.energy_to, to(CellDir::Up));
    assert_eq!(the_living(&area.up).energy, 1_000_000 + 6_380_000);
    assert_eq!(area.center.soil.energy, 900_000);
}

#[test]
fn a_leaf_under_pollution_makes_less() {
    for (pollution, made) in [(0u8, 1_800_000u64), (4, 1_800_000), (5, 1_440_000), (7, 1_028_571), (8, 900_000), (255, 28_235)] {
        let mut life = alive(LifeType::Leaf, 0, to(CellDir::Up), None);
        let mut area = area_round(living(life));
        area.center.air.pollution = pollution;
        generate_energy(&mut area, &mut life);
        assert_eq!(life.energy, made, "pollution {}", pollution);
        assert_eq!(area.center.soil.energy, made / 2);
        assert_eq!(area.center.air.pollution, pollution);
    }
}

#[test]
fn a_root_drains_the_organics_round_it() {
    let mut life = alive(LifeType::Root, 1_000_000, to(CellDir::Up), None);
    let mut area = area_round(living(life));
    area.center.soil.organics = 8;
    area.up.soil.organics = 100;
    area.down_right.soil.organics = 255;
    area.left.soil.organics = 9;
    area.right.soil.organics = 1;
    area.center.air.pollution = 250;
    generate_energy(&mut area, &mut life);
    // drained: 1 + 16 + 40 + 1 + 1 = 59
    assert_eq!(area.center.soil.organics, 7);
    assert_eq!(area.up.soil.organics, 84);
    assert_eq!(area.down_right.soil.organics, 215);
    assert_eq!(area.left.soil.organics, 8);
    assert_eq!(area.right.soil.organics, 0);
    assert_eq!(area.down.soil.organics, 0);
    assert_eq!(life.energy, 1_000_000 + 59 * 600_000);
    assert_eq!(area.center.soil.energy, 59 * 200_000);
    assert_eq!(area.center.air.pollution, 255);
}

#[test]
fn a_reactor_drains_the_soil_energy_round_it() {
    let mut life = alive(LifeType::Reactor, 0, to(CellDir::Up), None);
    let mut area = area_round(living(life));
    area.center.soil.energy = 1_000_000;
    area.up_left.soil.energy = 32_000_000;
    area.down.soil.energy = 6;
    area.left.soil.energy = 7;
    generate_energy(&mut area, &mut life);
    assert_eq!(area.center.soil.energy, 840_000);
    assert_eq!(area.up_left.soil.energy, 26_880_000);
    assert_eq!(area.down.soil.energy, 6);
    assert_eq!(area.left.soil.energy, 6);
    // drained 160_000 + 5_120_000 + 0 + 1, of which four tenths are won
    assert_eq!(life.energy, (160_000 + 5_120_000 + 1) * 4 / 10);
}

#[test]
fn a_reactor_on_the_richest_soil_does_not_overflow() {
    let mut life = alive(LifeType::Reactor, u64::MAX - 5, to(CellDir::Up), None);
    let mut area = area_round(living(life));
    for cell in [
        &mut area.center,
        &mut area.up,
        &mut area.down,
        &mut area.left,
        &mut area.right,
        &mut area.up_left,
        &mut area.up_right,
        &mut area.down_left,
        &mut area.down_right,
    ] {
        cell.soil.energy = u64::MAX;
    }
    generate_energy(&mut area, &mut life);
    assert_eq!(life.energy, u64::MAX);
    let drained = ((u64::MAX as u128) * 16 / 100) as u64;
    assert_eq!(area.center.soil.energy, u64::MAX - drained);
}

#[test]
fn a_filter_drains_the_pollution_round_it() {
    let mut life = alive(LifeType::Filter, 0, to(CellDir::Up), None);
    let mut area = area_round(living(life));
    area.center.air.pollution = 8;
    area.up.air.pollution = 100;
    area.down.air.pollution = 9;
    generate_energy(&mut area, &mut life);
    assert_eq!(area.center.air.pollution, 7);
    assert_eq!(area.up.air.pollution, 84);
    assert_eq!(area.down.air.pollution, 8);
    // won: 1 unit, 16 units and 1.44 units, of which half goes to the filter
    assert_eq!(life.energy, (1_000_000 + 16_000_000 + 1_440_000) / 2);
    assert_eq!(area.center.soil.organics, 0);
}

#[test]
fn pipes_and_stem_cells_make_no_energy() {
    for ty in [LifeType::Pipe, LifeType::Stem(plain_genome())] {
        let mut life = alive(ty, 123, NONE, None);
        let mut area = area_round(living(life));
        area.center.soil.organics = 200;
        area.center.soil.energy = 5_000_000;
        area.center.air.pollution = 50;
        let before = area;
        generate_energy(&mut area, &mut life);
        assert_eq!(area, before);
        assert_eq!(life.energy, 123);
    }
}

#[test]
fn a_killed_organism_goes_into_soil_and_air() {
    let mut area = area_round(living(alive(LifeType::Filter, 3_000_001, NONE, None)));
    area.center.soil.organics = 10;
    area.center.soil.energy = 7;
    area.center.air.pollution = 20;
    kill(&mut area);
    assert_eq!(area.center.life, LifeCell::Dead);
    assert_eq!(area.center.soil.organics, 13);
    assert_eq!(area.center.soil.energy, 1_500_007);
    assert_eq!(area.center.air.pollution, 21);

    let mut pipe = area_round(living(alive(LifeType::Pipe, 0, NONE, None)));
    pipe.center.soil.organics = 255;
    pipe.center.air.pollution = 255;
    kill(&mut pipe);
    assert_eq!(pipe.center.soil.organics, 255);
    assert_eq!(pipe.center.air.pollution, 255);
    assert_eq!(pipe.center.soil.energy, 0);

    let mut one = area_round(living(alive(LifeType::Pipe, 0, NONE, None)));
    kill(&mut one);
    assert_eq!(one.center.soil.organics, 1);
    assert_eq!(one.center.air.pollution, 1);
}

#[test]
fn killing_cleans_the_routing_of_the_neighbours() {
    let everywhere = EnergyDirections { up: true, down: true, left: true, right: true };
    let mut area = area_round(living(alive(LifeType::Stem(plain_genome()), 1_000_000, NONE, None)));
    area.up = living(alive(LifeType::Leaf, 5, everywhere, Some(CellDir::Down)));
    area.down = living(alive(LifeType::Pipe, 6, everywhere, Some(CellDir::Up)));
    area.left = living(alive(LifeType::Root, 7, everywhere, Some(CellDir::Left)));
    area.right = living(alive(LifeType::Pipe, 8, everywhere, None));
    area.up_left = living(alive(LifeType::Pipe, 9, everywhere, Some(CellDir::Down)));
    let diagonal = area.up_left;
    kill(&mut area);
    let up = the_living(&area.up);
    assert_eq!(up.energy_to, EnergyDirections { down: false, ..everywhere });
    assert_eq!(up.parent_dir, None);
    let down = the_living(&area.down);
    assert_eq!(down.energy_to, EnergyDirections { up: false, ..everywhere });
    assert_eq!(down.parent_dir, None);
    let left = the_living(&area.left);
    assert_eq!(left.energy_to, EnergyDirections { right: false, ..everywhere });
    assert_eq!(left.parent_dir, Some(CellDir::Left));
    let right = the_living(&area.right);
    assert_eq!(right.energy_to, EnergyDirections { left: false, ..everywhere });
    assert_eq!(right.parent_dir, None);
    assert_eq!((up.energy, down.energy, left.energy, right.energy), (5, 6, 7, 8));
    assert_eq!(area.up_left, diagonal);
}

#[test]
fn an_organism_without_steps_dies_first() {
    let mut life = alive(LifeType::Leaf, 50_000_000, to(CellDir::Up), None);
    life.steps_to_death = 0;
    let mut area = area_round(living(life));
    update_life(&State::default(), &mut area);
    assert_eq!(area.center.life, LifeCell::Dead);
    assert_eq!(area.center.soil.energy, 25_000_000);
    assert_eq!(area.center.soil.organics, 2);
}

#[test]
fn an_organism_that_cannot_pay_dies_whatever_its_role() {
    for ty in [
        LifeType::Pipe,
        LifeType::Leaf,
        LifeType::Root,
        LifeType::Reactor,
        LifeType::Filter,
        LifeType::Stem(plain_genome()),
    ] {
        let short = ty.consumption() - 1;
        let mut area = area_round(living(alive(ty, short, to(CellDir::Up), None)));
        area.up = living(alive(LifeType::Pipe, 0, NONE, None));
        update_life(&State::default(), &mut area);
        assert_eq!(area.center.life, LifeCell::Dead);
        assert_eq!(area.center.soil.energy, short / 2);
    }
}

#[test]
fn an_organism_that_can_just_pay_lives() {
    let genome = plain_genome();
    let mut area = area_round(living(alive(LifeType::Stem(genome), 100_000, NONE, None)));
    update_life(&State::default(), &mut area);
    let after = the_living(&area.center);
    assert_eq!(after.energy, 0);
    assert_eq!(after.steps_to_death, 99);
    assert_eq!(after.ty, LifeType::Stem(genome));
}

#[test]
fn rich_soil_kills_all_but_those_who_feed_on_it() {
    let mut leaf = area_round(living(alive(LifeType::Leaf, 5_000_000, to(CellDir::Up), None)));
    leaf.center.soil.organics = 17;
    update_life(&State::default(), &mut leaf);
    assert_eq!(leaf.center.life, LifeCell::Dead);
    assert_eq!(leaf.center.soil.organics, 19);

    let mut at_the_limit = area_round(living(alive(LifeType::Leaf, 5_000_000, to(CellDir::Up), None)));
    at_the_limit.center.soil.organics = 16;
    at_the_limit.center.soil.energy = 32_000_000;
    update_life(&State::default(), &mut at_the_limit);
    assert!(at_the_limit.center.life.is_alive());

    let mut root = area_round(living(alive(LifeType::Root, 5_000_000, to(CellDir::Up), None)));
    root.center.soil.organics = 17;
    update_life(&State::default(), &mut root);
    assert!(root.center.life.is_alive());

    let mut root_on_energy = area_round(living(alive(LifeType::Root, 5_000_000, to(CellDir::Up), None)));
    root_on_energy.center.soil.energy = 32_000_001;
    update_life(&State::default(), &mut root_on_energy);
    assert_eq!(root_on_energy.center.life, LifeCell::Dead);

    let mut reactor = area_round(living(alive(LifeType::Reactor, 5_000_000, to(CellDir::Up), None)));
    reactor.center.soil.energy = 32_000_001;
    update_life(&State::default(), &mut reactor);
    assert!(reactor.center.life.is_alive());
}

#[test]
fn an_organism_that_forwards_to_nobody_dies_unless_it_can_start() {
    let mut leaf = area_round(living(alive(LifeType::Leaf, 5_000_000, NONE, Some(CellDir::Up))));
    update_life(&State::default(), &mut leaf);
    assert_eq!(leaf.center.life, LifeCell::Dead);

    let mut orphan = area_round(living(alive(LifeType::Pipe, 5_000_000, NONE, None)));
    update_life(&State::default(), &mut orphan);
    assert_eq!(orphan.center.life, LifeCell::Dead);

    let mut stem = area_round(living(alive(LifeType::Stem(plain_genome()), 5_000_000, NONE, None)));
    update_life(&State::default(), &mut stem);
    assert!(stem.center.life.is_alive());
}

#[test]
fn a_pipe_without_a_path_turns_to_its_parent() {
    let mut area = area_round(living(alive(LifeType::Pipe, 1_000_000, NONE, Some(CellDir::Left))));
    area.left = living(alive(LifeType::Pipe, 0, EnergyDirections { right: true, up: true, ..NONE }, None));
    update_life(&State::default(), &mut area);
    let pipe = the_living(&area.center);
    assert_eq!(pipe.energy_to, to(CellDir::Left));
    assert_eq!(pipe.parent_dir, Some(CellDir::Left));
    // 1.0 less the upkeep of 0.1; the pipe keeps 0.11 and passes 0.79 on
    assert_eq!(pipe.energy, 110_000);
    let parent = the_living(&area.left);
    assert_eq!(parent.energy_to, to(CellDir::Up));
    assert_eq!(parent.energy, 790_000);
}

#[test]
fn rerouting_needs_a_living_parent() {
    let mut life = alive(LifeType::Pipe, 1_000_000, NONE, Some(CellDir::Down));
    let mut area = area_round(living(life));
    let before = area;
    reroute_energy_paths(&mut area, &mut life, CellDir::Down);
    assert_eq!(area, before);
    assert_eq!(life.energy_to, NONE);
}

#[test]
fn a_surplus_is_split_over_the_branches() {
    let mut life = alive(
        LifeType::Pipe,
        1_110_001,
        EnergyDirections { up: true, down: true, left: true, right: false },
        None,
    );
    let mut area = area_round(living(life));
    area.up = living(alive(LifeType::Pipe, 10, NONE, None));
    area.down = living(alive(LifeType::Leaf, 20, to(CellDir::Up), None));
    area.right = living(alive(LifeType::Pipe, 30, NONE, None));
    transfer_energy(&mut area, &mut life);
    // the pipe keeps 0.11; 1_000_001 parts flow, a third each way, rounded down
    assert_eq!(life.energy, 110_000);
    assert_eq!(life.energy_to, to(CellDir::Up));
    assert_eq!(the_living(&area.up).energy, 10 + 333_333);
    assert_eq!(the_living(&area.down).energy, 20);
    assert_eq!(area.left, empty());
    assert_eq!(the_living(&area.right).energy, 30);
}

#[test]
fn in_its_last_tick_an_organism_passes_on_all_it_has() {
    let mut life = alive(LifeType::Pipe, 99, to(CellDir::Right), None);
    life.steps_to_death = 1;
    let mut area = area_round(living(life));
    area.right = living(alive(LifeType::Stem(plain_genome()), 1, NONE, None));
    transfer_energy(&mut area, &mut life);
    assert_eq!(life.energy, 0);
    assert_eq!(the_living(&area.right).energy, 100);
}

#[test]
fn nothing_flows_below_the_reserve_or_from_a_stem_cell() {
    let mut life = alive(LifeType::Pipe, 110_000, to(CellDir::Right), None);
    let mut area = area_round(living(life));
    area.right = living(alive(LifeType::Pipe, 1, NONE, None));
    transfer_energy(&mut area, &mut life);
    assert_eq!(life.energy, 110_000);
    assert_eq!(the_living(&area.right).energy, 1);

    let mut stem = alive(LifeType::Stem(plain_genome()), 9_000_000, to(CellDir::Right), None);
    transfer_energy(&mut area, &mut stem);
    assert_eq!(stem.energy, 9_000_000);
    assert_eq!(stem.energy_to, to(CellDir::Right));
    assert_eq!(the_living(&area.right).energy, 1);
}

#[test]
fn conditions_look_at_the_neighbourhood() {
    let life = alive(LifeType::Stem(plain_genome()), 3_000_001, NONE, None);
    let mut area = area_round(living(life));
    area.up = living(alive(LifeType::Pipe, 0, NONE, None));
    area.down.soil.organics = 17;
    area.left.soil.energy = 32_000_001;
    area.right.air.pollution = 9;
    area.center.soil.organics = 4;
    area.center.soil.energy = 2_000_000;
    let mut state = State::default();
    state.simulation_step = 12;
    let holds = |condition: GeneCondition, param: u8, roll: u8| {
        check_gene_condition(&state, &area, &life, condition, param, roll)
    };
    assert!(holds(GeneCondition::LifeUp, 0, 0));
    assert!(!holds(GeneCondition::LifeDown, 0, 0));
    assert!(!holds(GeneCondition::LifeLeft, 0, 0));
    assert!(!holds(GeneCondition::LifeRight, 0, 0));
    assert!(holds(GeneCondition::LethalOrganicDown, 0, 0));
    assert!(!holds(GeneCondition::LethalOrganicUp, 0, 0));
    assert!(holds(GeneCondition::LethalEnergyLeft, 0, 0));
    assert!(!holds(GeneCondition::LethalEnergyRight, 0, 0));
    assert!(holds(GeneCondition::RandomMT, 5, 6));
    assert!(!holds(GeneCondition::RandomMT, 5, 5));
    assert!(holds(GeneCondition::LifeEnergyMT, 3, 0));
    assert!(!holds(GeneCondition::LifeEnergyMT, 4, 0));
    assert!(holds(GeneCondition::OrganicCenterMT, 3, 0));
    assert!(!holds(GeneCondition::OrganicCenterMT, 4, 0));
    assert!(holds(GeneCondition::OrganicDownMT, 16, 0));
    assert!(!holds(GeneCondition::OrganicUpMT, 0, 0));
    assert!(holds(GeneCondition::SoilEnergyCenterMT, 1, 0));
    assert!(!holds(GeneCondition::SoilEnergyCenterMT, 2, 0));
    assert!(holds(GeneCondition::SoilEnergyLeftMT, 32, 0));
    assert!(!holds(GeneCondition::SoilEnergyRightMT, 0, 0));
    assert!(holds(GeneCondition::AirPollutionRightMT, 8, 0));
    assert!(!holds(GeneCondition::AirPollutionRightMT, 9, 0));
    assert!(!holds(GeneCondition::AirPollutionCenterMT, 0, 0));
    assert!(holds(GeneCondition::Always, 0, 0));
    assert!(!holds(GeneCondition::Never, 255, 255));
    assert!(holds(GeneCondition::StepsDividesP, 4, 0));
    assert!(!holds(GeneCondition::StepsDividesP, 5, 0));
    assert!(holds(GeneCondition::StepsDividesP, 0, 0));
}

#[test]
fn nothing_happens_where_nothing_lives() {
    let mut area = area_round(empty());
    area.up = living(alive(LifeType::Pipe, 5, to(CellDir::Down), Some(CellDir::Down)));
    area.center.soil.organics = 200;
    let before = area;
    update_life(&State::default(), &mut area);
    assert_eq!(area, before);
}

#[test]
fn on_a_single_cell_a_root_drains_the_one_cell_nine_times() {
    let mut life = alive(LifeType::Root, 0, to(CellDir::Up), None);
    let mut cell = living(life);
    cell.soil.organics = 100;
    let mut area = Area {
        up: cell,
        down: cell,
        left: cell,
        right: cell,
        up_left: cell,
        up_right: cell,
        down_left: cell,
        down_right: cell,
        center: cell,
        x: 0,
        y: 0,
        columns: 1,
        rows: 1,
    };
    generate_energy(&mut area, &mut life);
    // 100 -> 84 -> 71 -> 60 -> 51 -> 43 -> 37 -> 32 -> 27 -> 23: 77 in all
    assert_eq!(area.center.soil.organics, 23);
    assert_eq!(area.up_left.soil.organics, 23);
    assert_eq!(area.down.soil.organics, 23);
    assert_eq!(life.energy, 77 * 600_000);
    assert_eq!(area.center.soil.energy, 77 * 200_000);
    assert_eq!(area.center.air.pollution, 38);
    assert_eq!(area.right, area.center);
}

#[test]
fn on_a_single_row_the_killed_cell_is_its_own_neighbour() {
    let everywhere = EnergyDirections { up: true, down: true, left: true, right: true };
    let cell = living(alive(LifeType::Pipe, 2_000_000, everywhere, Some(CellDir::Up)));
    let other = living(alive(LifeType::Pipe, 7, everywhere, Some(CellDir::Right)));
    let mut area = Area {
        up: cell,
        down: cell,
        left: other,
        right: other,
        up_left: other,
        up_right: other,
        down_left: other,
        down_right: other,
        center: cell,
        x: 0,
        y: 0,
        columns: 2,
        rows: 1,
    };
    kill(&mut area);
    assert_eq!(area.center.life, LifeCell::Dead);
    assert_eq!(area.up, area.center);
    assert_eq!(area.down, area.center);
    assert_eq!(area.center.soil.energy, 1_000_000);
    assert_eq!(area.center.soil.organics, 1);
    let neighbour = the_living(&area.left);
    assert_eq!(neighbour.energy_to, EnergyDirections { left: false, right: false, ..everywhere });
    assert_eq!(neighbour.parent_dir, None);
    assert_eq!(area.right, area.left);
    assert_eq!(area.up_left, area.left);
    assert_eq!(area.down_right, area.left);
}
