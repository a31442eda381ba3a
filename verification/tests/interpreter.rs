use spectaculife::cells::air_cell::AirCell;
use spectaculife::cells::life_cell::genome::{
    Gene, GeneAction, GeneCondition, GeneDirectionAction, GeneLocation, Genome, LifeSpan,
    MutationRate,
};
use spectaculife::cells::life_cell::{AliveCell, EnergyDirections, LifeCell, LifeType};
use spectaculife::cells::soil_cell::SoilCell;
use spectaculife::cells::WorldCell;
use spectaculife::grid::Area;
use spectaculife::types::{CellDir, State};
use spectaculife::update::interpreter::{
    direction_action, execute_gene, make_action, process_genome, ConditionRolls, Offspring,
};
use spectaculife::update::life::{update_life, update_life_with};
use spectaculife::update::{update_world, update_world_with};

const NONE: EnergyDirections = EnergyDirections { up: false, down: false, left: false, right: false };

const NO_ROLLS: ConditionRolls = ConditionRolls {
    main_action: 0,
    additional_action1: 0,
    additional_action2: 0,
    branch1: 0,
    branch2: 0,
};

fn empty() -> WorldCell {
    WorldCell {
        life: LifeCell::Dead,
        soil: SoilCell { organics: 0, energy: 0 },
        air: AirCell { pollution: 0 },
    }
}

fn area_round(center: WorldCell) -> Area<WorldCell> {
    Area {
        up: empty(),
        down: empty(),
        left: empty(),
        right: empty(),
        up_left: empty(),
        up_right: empty(),
        down_left: empty(),
        down_right: empty(),
        center,
        x: 5,
        y: 5,
        columns: 16,
        rows: 16,
    }
}

fn living(life: AliveCell) -> WorldCell {
    WorldCell { life: LifeCell::Alive(life), ..empty() }
}

fn the_living(cell: &WorldCell) -> AliveCell {
    match cell.life {
        LifeCell::Alive(life) => life,
        LifeCell::Dead => panic!("nothing lives here"),
    }
}

fn plain_gene() -> Gene {
    Gene {
        up: GeneDirectionAction::Nothing,
        down: GeneDirectionAction::Nothing,
        left: GeneDirectionAction::Nothing,
        right: GeneDirectionAction::Nothing,
        main_action_condition: GeneCondition::Never,
        main_action_param: 0,
        main_action: GeneAction::DoNothing,
        additional_action_condition1: GeneCondition::Never,
        additional_action_param1: 0,
        additional_action_condition2: GeneCondition::Never,
        additional_action_param2: 0,
        additional_action1: GeneAction::DoNothing,
        additional_action2: GeneAction::DoNothing,
        additional_action3: GeneAction::DoNothing,
        condition_1: GeneCondition::Never,
        param_1: 0,
        condition_2: GeneCondition::Never,
        param_2: 0,
        alt_gene1: GeneLocation(1),
        alt_gene2: GeneLocation(2),
        alt_gene3: GeneLocation(3),
        self_lifespan: LifeSpan(10),
    }
}

fn genome_with(gene: Gene) -> Genome {
    let mut genes = [plain_gene(); 32];
    genes[0] = gene;
    Genome {
        genes,
        active_gene: GeneLocation(0),
        seed_gene: GeneLocation(6),
        mutation_rate: MutationRate(0),
    }
}

fn stem(genome: Genome, energy: u64) -> AliveCell {
    AliveCell::new(LifeType::Stem(genome), energy, NONE, None, 100)
}

fn with_active(genome: Genome, gene: u8) -> Genome {
    Genome { active_gene: GeneLocation(gene), ..genome }
}

#[test]
fn a_stem_cell_bears_a_leaf_and_becomes_a_pipe() {
    let mut gene = plain_gene();
    gene.up = GeneDirectionAction::MakeLeaf(LifeSpan(50));
    let genome = genome_with(gene);
    let mut area = area_round(living(stem(genome, 5_000_000)));
    update_life(&State::default(), &mut area);
    let leaf = the_living(&area.up);
    assert_eq!(leaf.ty, LifeType::Leaf);
    assert_eq!(leaf.parent_dir, Some(CellDir::Down));
    assert_eq!(leaf.steps_to_death, 50);
    assert_eq!(leaf.energy, 960_000);
    assert_eq!(leaf.energy_to, EnergyDirections::from_direction(&CellDir::Down));
    let parent = the_living(&area.center);
    assert_eq!(parent.ty, LifeType::Pipe);
    assert_eq!(parent.steps_to_death, 10);
    // 5.0 units less the upkeep of 0.1 and the 1.2 that the gene reserves
    assert_eq!(parent.energy, 3_700_000);
    assert_eq!(parent.energy_to, NONE);
    assert_eq!(area.down, empty());
    assert_eq!(area.left, empty());
    assert_eq!(area.right, empty());
}

#[test]
fn the_whole_step_starts_with_diffusion() {
    let mut gene = plain_gene();
    gene.up = GeneDirectionAction::MakeLeaf(LifeSpan(50));
    let genome = genome_with(gene);
    let mut area = area_round(living(stem(genome, 5_000_000)));
    area.center.soil.energy = 9_000_000;
    area.center.air.pollution = 18;
    let mut twin = area;
    update_world(&State::default(), &mut area);
    assert_eq!(area.up.soil.energy, 1_000_000);
    assert_eq!(area.center.air.pollution, 2);
    assert_eq!(area.up.air.pollution, 1);
    assert_eq!(area.down_right.air.pollution, 3);
    assert_eq!(the_living(&area.up).ty, LifeType::Leaf);
    assert_eq!(the_living(&area.center).ty, LifeType::Pipe);
    update_world_with(&State::default(), &mut twin, NO_ROLLS, &Offspring::copies(&genome));
    assert_eq!(twin, area);
}

#[test]
fn a_gene_needs_more_energy_than_it_reserves() {
    let mut gene = plain_gene();
    gene.up = GeneDirectionAction::MakeLeaf(LifeSpan(50));
    gene.main_action_condition = GeneCondition::Always;
    gene.main_action = GeneAction::ChangeActiveGene(GeneLocation(9));
    let genome = genome_with(gene);
    let mut life = stem(genome, 1_200_000);
    let mut area = area_round(living(life));
    let before = area;
    execute_gene(&State::default(), &mut area, &mut life, &genome, NO_ROLLS, &Offspring::copies(&genome));
    assert_eq!(area, before);
    assert_eq!(life, stem(genome, 1_200_000));

    let mut life = stem(genome, 1_200_001);
    execute_gene(&State::default(), &mut area, &mut life, &genome, NO_ROLLS, &Offspring::copies(&genome));
    assert_eq!(life.energy, 1);
    assert_eq!(life.ty, LifeType::Pipe);
    assert_eq!(the_living(&area.up).ty, LifeType::Leaf);
}

#[test]
fn a_birth_on_an_occupied_cell_ages_the_occupant() {
    let mut gene = plain_gene();
    gene.left = GeneDirectionAction::MakeRoot(LifeSpan(50));
    gene.right = GeneDirectionAction::MakeFilter(LifeSpan(60));
    let genome = genome_with(gene);
    let mut life = stem(genome, 5_000_000);
    let mut area = area_round(living(life));
    let mut old_one = AliveCell::new(LifeType::Pipe, 7, NONE, None, 300);
    area.left = living(old_one);
    old_one.steps_to_death = 100;
    area.right = living(old_one);
    execute_gene(&State::default(), &mut area, &mut life, &genome, NO_ROLLS, &Offspring::copies(&genome));
    assert_eq!(the_living(&area.left), AliveCell::new(LifeType::Pipe, 7, NONE, None, 50));
    assert_eq!(the_living(&area.right), AliveCell::new(LifeType::Pipe, 7, NONE, None, 0));
    // no birth: the parent stays a stem cell, but pays all the same
    assert_eq!(life.ty, LifeType::Stem(genome));
    assert_eq!(life.steps_to_death, 100);
    assert_eq!(life.energy, 5_000_000 - 400_000 - 600_000);
}

#[test]
fn multiplying_debits_the_parent_and_endows_the_child() {
    let mut gene = plain_gene();
    gene.up = GeneDirectionAction::MultiplySelf(LifeSpan(70), GeneLocation(4));
    gene.down = GeneDirectionAction::MakeReactor(LifeSpan(80));
    gene.left = GeneDirectionAction::CreateSeed(LifeSpan(90));
    gene.right = GeneDirectionAction::MakeLeaf(LifeSpan(95));
    gene.self_lifespan = LifeSpan(33);
    let genome = genome_with(gene);
    let mut bred_up = genome;
    bred_up.mutation_rate = MutationRate(50);
    let mut bred_left = genome;
    bred_left.seed_gene = GeneLocation(20);
    let offspring = Offspring { up: bred_up, down: genome, left: bred_left, right: genome };
    let mut life = stem(genome, 10_000_000);
    let mut area = area_round(living(life));
    execute_gene(&State::default(), &mut area, &mut life, &genome, NO_ROLLS, &offspring);

    // the parent pays 0.8 + 0.8 + 0.8 + 1.2
    assert_eq!(life.energy, 10_000_000 - 3_600_000);
    assert_eq!(life.ty, LifeType::Pipe);
    assert_eq!(life.steps_to_death, 33);
    assert_eq!(life.energy_to, EnergyDirections { up: true, left: true, ..NONE });

    let child = the_living(&area.up);
    assert_eq!(child.ty, LifeType::Stem(with_active(bred_up, 4)));
    assert_eq!(child.energy, 640_000);
    assert_eq!(child.steps_to_death, 70);
    assert_eq!(child.parent_dir, Some(CellDir::Down));
    assert_eq!(child.energy_to, NONE);

    let reactor = the_living(&area.down);
    assert_eq!(reactor.ty, LifeType::Reactor);
    assert_eq!(reactor.energy, 640_000);
    assert_eq!(reactor.parent_dir, Some(CellDir::Up));
    assert_eq!(reactor.energy_to, EnergyDirections::from_direction(&CellDir::Up));

    let seed = the_living(&area.left);
    assert_eq!(seed.ty, LifeType::Stem(with_active(bred_left, 20)));
    assert_eq!(seed.energy, 640_000);
    assert_eq!(seed.steps_to_death, 90);
    assert_eq!(seed.parent_dir, Some(CellDir::Right));

    let leaf = the_living(&area.right);
    assert_eq!(leaf.energy, 960_000);
    assert_eq!(leaf.parent_dir, Some(CellDir::Left));
}

#[test]
fn a_kill_takes_the_energy_of_the_neighbour() {
    let mut gene = plain_gene();
    gene.down = GeneDirectionAction::KillCell;
    gene.up = GeneDirectionAction::KillCell;
    let genome = genome_with(gene);
    let mut life = stem(genome, 1);
    let mut area = area_round(living(life));
    area.down = living(AliveCell::new(LifeType::Leaf, 2_500_000, NONE, None, 40));
    execute_gene(&State::default(), &mut area, &mut life, &genome, NO_ROLLS, &Offspring::copies(&genome));
    assert_eq!(life.energy, 2_500_001);
    assert_eq!(life.ty, LifeType::Stem(genome));
    assert_eq!(the_living(&area.down), AliveCell::new(LifeType::Leaf, 0, NONE, None, 0));
    assert_eq!(area.up, empty());
}

#[test]
fn a_single_direction_action_can_be_carried_out() {
    let genome = genome_with(plain_gene());
    let mut life = stem(genome, 1_000_000);
    let mut area = area_round(living(life));
    let born = direction_action(
        CellDir::Right,
        GeneDirectionAction::MakeFilter(LifeSpan(9)),
        &mut area,
        &mut life,
        &genome,
    );
    assert!(born);
    assert_eq!(the_living(&area.right).energy, 480_000);
    assert_eq!(the_living(&area.right).ty, LifeType::Filter);
    let again = direction_action(
        CellDir::Right,
        GeneDirectionAction::MakeFilter(LifeSpan(9)),
        &mut area,
        &mut life,
        &genome,
    );
    assert!(!again);
    assert_eq!(the_living(&area.right).steps_to_death, 0);
    assert!(!direction_action(CellDir::Up, GeneDirectionAction::Nothing, &mut area, &mut life, &genome));
    assert_eq!(life.energy, 1_000_000);
}

#[test]
fn branch_conditions_pick_the_next_gene() {
    for (first, second, target) in [
        (GeneCondition::Always, GeneCondition::Always, Some(1u8)),
        (GeneCondition::Always, GeneCondition::Never, Some(2)),
        (GeneCondition::Never, GeneCondition::Always, Some(3)),
        (GeneCondition::Never, GeneCondition::Never, None),
    ] {
        let mut gene = plain_gene();
        gene.condition_1 = first;
        gene.condition_2 = second;
        gene.up = GeneDirectionAction::MakeRoot(LifeSpan(5));
        let genome = genome_with(gene);
        let mut life = stem(genome, 1_000_000);
        let mut area = area_round(living(life));
        execute_gene(&State::default(), &mut area, &mut life, &genome, NO_ROLLS, &Offspring::copies(&genome));
        assert_eq!(life.energy, 600_000);
        match target {
            Some(gene) => {
                assert_eq!(life.ty, LifeType::Stem(with_active(genome, gene)));
                assert_eq!(area.up, empty());
                assert_eq!(life.steps_to_death, 100);
            }
            None => {
                assert_eq!(life.ty, LifeType::Pipe);
                assert_eq!(the_living(&area.up).ty, LifeType::Root);
            }
        }
    }
}

#[test]
fn two_conditions_pick_the_additional_action() {
    for (first, second, moved_to) in [
        (GeneCondition::Always, GeneCondition::Always, Some(CellDir::Up)),
        (GeneCondition::Always, GeneCondition::Never, Some(CellDir::Down)),
        (GeneCondition::Never, GeneCondition::Always, Some(CellDir::Left)),
        (GeneCondition::Never, GeneCondition::Never, None),
    ] {
        let mut gene = plain_gene();
        gene.additional_action_condition1 = first;
        gene.additional_action_condition2 = second;
        gene.additional_action1 = GeneAction::MoveOrganicUp;
        gene.additional_action2 = GeneAction::MoveOrganicDown;
        gene.additional_action3 = GeneAction::MoveOrganicLeft;
        let genome = genome_with(gene);
        let mut life = stem(genome, 1_000_000);
        let mut area = area_round(living(life));
        area.center.soil.organics = 12;
        execute_gene(&State::default(), &mut area, &mut life, &genome, NO_ROLLS, &Offspring::copies(&genome));
        let mut expected = area_round(living(stem(genome, 1_000_000)));
        expected.center.soil.organics = 12;
        match moved_to {
            Some(dir) => {
                expected.center.soil.organics = 0;
                let mut cell = expected.direction(dir);
                cell.soil.organics = 12;
                expected.set_direction(dir, cell);
            }
            None => {}
        }
        assert_eq!(area, expected);
        assert_eq!(life, stem(genome, 1_000_000));
    }
}

#[test]
fn the_main_action_runs_where_its_condition_holds() {
    let mut gene = plain_gene();
    gene.main_action_condition = GeneCondition::RandomMT;
    gene.main_action_param = 100;
    gene.main_action = GeneAction::ChangeActiveGene(GeneLocation(17));
    let genome = genome_with(gene);
    let miss = ConditionRolls { main_action: 100, ..NO_ROLLS };
    let hit = ConditionRolls { main_action: 101, ..NO_ROLLS };

    let mut life = stem(genome, 1_000_000);
    let mut area = area_round(living(life));
    execute_gene(&State::default(), &mut area, &mut life, &genome, miss, &Offspring::copies(&genome));
    assert_eq!(life.ty, LifeType::Stem(genome));

    execute_gene(&State::default(), &mut area, &mut life, &genome, hit, &Offspring::copies(&genome));
    assert_eq!(life.ty, LifeType::Stem(with_active(genome, 17)));
    assert_eq!(life.energy, 1_000_000);
}

#[test]
fn organics_move_as_far_as_there_is_room() {
    let genome = genome_with(plain_gene());
    let mut life = stem(genome, 0);
    let mut area = area_round(living(life));
    area.center.soil.organics = 100;
    area.right.soil.organics = 200;
    make_action(GeneAction::MoveOrganicRight, &mut area, &mut life, &genome);
    assert_eq!((area.center.soil.organics, area.right.soil.organics), (45, 255));
    make_action(GeneAction::MoveOrganicFromRight, &mut area, &mut life, &genome);
    assert_eq!((area.center.soil.organics, area.right.soil.organics), (255, 45));
    make_action(GeneAction::MoveOrganicFromUp, &mut area, &mut life, &genome);
    assert_eq!((area.center.soil.organics, area.up.soil.organics), (255, 0));
    make_action(GeneAction::MoveOrganicDown, &mut area, &mut life, &genome);
    assert_eq!((area.center.soil.organics, area.down.soil.organics), (0, 255));
    make_action(GeneAction::DoNothing, &mut area, &mut life, &genome);
    assert_eq!(life, stem(genome, 0));
}

#[test]
fn diagonal_kills_take_the_energy_of_the_corner() {
    let genome = genome_with(plain_gene());
    let mut life = stem(genome, 5);
    let mut area = area_round(living(life));
    area.up_left = living(AliveCell::new(LifeType::Pipe, 10, NONE, None, 9));
    area.down_right = living(AliveCell::new(LifeType::Root, u64::MAX, NONE, None, 9));
    make_action(GeneAction::KillUpLeft, &mut area, &mut life, &genome);
    assert_eq!(life.energy, 15);
    assert_eq!(the_living(&area.up_left), AliveCell::new(LifeType::Pipe, 0, NONE, None, 0));
    make_action(GeneAction::KillUpRight, &mut area, &mut life, &genome);
    make_action(GeneAction::KillDownLeft, &mut area, &mut life, &genome);
    assert_eq!(life.energy, 15);
    make_action(GeneAction::KillDownRight, &mut area, &mut life, &genome);
    assert_eq!(life.energy, u64::MAX);
    assert_eq!(the_living(&area.down_right), AliveCell::new(LifeType::Root, 0, NONE, None, 0));
}

#[test]
fn a_gene_without_chance_runs_the_same_with_and_without_given_draws() {
    let mut gene = plain_gene();
    gene.up = GeneDirectionAction::MakeLeaf(LifeSpan(50));
    gene.down = GeneDirectionAction::KillCell;
    gene.main_action_condition = GeneCondition::LifeDown;
    gene.main_action = GeneAction::MoveOrganicFromDown;
    let genome = genome_with(gene);
    let mut area = area_round(living(stem(genome, 4_000_000)));
    area.down = living(AliveCell::new(LifeType::Pipe, 3, NONE, None, 9));
    area.down.soil.organics = 30;
    let mut twin = area;
    let mut life = stem(genome, 4_000_000);
    let mut twin_life = life;
    process_genome(&State::default(), &mut area, &mut life, genome);
    execute_gene(&State::default(), &mut twin, &mut twin_life, &genome, NO_ROLLS, &Offspring::copies(&genome));
    assert_eq!(area, twin);
    assert_eq!(life, twin_life);
    assert_eq!(life.energy, 4_000_003 - 1_200_000);
    assert_eq!(area.center.soil.organics, 30);
}

#[test]
fn a_child_of_a_genome_that_never_mutates_is_a_copy() {
    let mut gene = plain_gene();
    gene.right = GeneDirectionAction::MultiplySelf(LifeSpan(70), GeneLocation(4));
    let genome = genome_with(gene);
    let mut area = area_round(living(stem(genome, 4_000_000)));
    update_life(&State::default(), &mut area);
    let child = the_living(&area.right);
    assert_eq!(child.ty, LifeType::Stem(with_active(genome, 4)));
    assert_eq!(child.energy, 640_000);
    let parent = the_living(&area.center);
    assert_eq!(parent.ty, LifeType::Pipe);
    assert_eq!(parent.energy, 4_000_000 - 100_000 - 800_000);
    assert_eq!(parent.energy_to, EnergyDirections::from_direction(&CellDir::Right));

    let mut twin = area_round(living(stem(genome, 4_000_000)));
    update_life_with(&State::default(), &mut twin, NO_ROLLS, &Offspring::copies(&genome));
    assert_eq!(twin, area);
}
