use spectaculife::cells::life_cell::genome::{
    FieldMutation, Gene, GeneAction, GeneCondition, GeneDirectionAction, GeneField, GeneLocation,
    Genome, LifeSpan, MutationRate, MAX_GENES, MUTATION_KINDS,
};
use spectaculife::types::CellDir;

fn plain_gene() -> Gene {
    Gene {
        up: GeneDirectionAction::Nothing,
        down: GeneDirectionAction::Nothing,
        left: GeneDirectionAction::Nothing,
        right: GeneDirectionAction::Nothing,
        main_action_condition: GeneCondition::Never,
        main_action_param: 0,
        main_action: GeneAction::DoNothing,
        additional_action_condition1: GeneCondition::Never,
        additional_action_param1: 0,
        additional_action_condition2: GeneCondition::Never,
        additional_action_param2: 0,
        additional_action1: GeneAction::DoNothing,
        additional_action2: GeneAction::DoNothing,
        additional_action3: GeneAction::DoNothing,
        condition_1: GeneCondition::Never,
        param_1: 0,
        condition_2: GeneCondition::Never,
        param_2: 0,
        alt_gene1: GeneLocation(0),
        alt_gene2: GeneLocation(0),
        alt_gene3: GeneLocation(0),
        self_lifespan: LifeSpan(10),
    }
}

fn plain_genome(rate: u8) -> Genome {
    Genome {
        genes: [plain_gene(); 32],
        active_gene: GeneLocation(0),
        seed_gene: GeneLocation(0),
        mutation_rate: MutationRate(rate),
    }
}

#[test]
fn energy_capacity_of_each_action() {
    assert_eq!(GeneDirectionAction::MakeLeaf(LifeSpan(1)).energy_capacity(), 1_200_000);
    assert_eq!(GeneDirectionAction::MakeRoot(LifeSpan(1)).energy_capacity(), 400_000);
    assert_eq!(GeneDirectionAction::MakeReactor(LifeSpan(1)).energy_capacity(), 800_000);
    assert_eq!(GeneDirectionAction::MakeFilter(LifeSpan(1)).energy_capacity(), 600_000);
    assert_eq!(
        GeneDirectionAction::MultiplySelf(LifeSpan(1), GeneLocation(3)).energy_capacity(),
        800_000
    );
    assert_eq!(GeneDirectionAction::CreateSeed(LifeSpan(1)).energy_capacity(), 800_000);
    assert_eq!(GeneDirectionAction::KillCell.energy_capacity(), 0);
    assert_eq!(GeneDirectionAction::Nothing.energy_capacity(), 0);
    assert_eq!(GeneDirectionAction::MakeLeaf(LifeSpan(1)).newborn_energy(), 960_000);
    assert_eq!(GeneDirectionAction::MakeRoot(LifeSpan(1)).newborn_energy(), 320_000);
    assert_eq!(GeneDirectionAction::Nothing.newborn_energy(), 0);
}

#[test]
fn gene_capacity_is_the_sum_of_its_directions() {
    let mut gene = plain_gene();
    assert_eq!(gene.energy_capacity(), 0);
    gene.up = GeneDirectionAction::MakeLeaf(LifeSpan(5));
    gene.down = GeneDirectionAction::MakeRoot(LifeSpan(5));
    gene.left = GeneDirectionAction::KillCell;
    gene.right = GeneDirectionAction::CreateSeed(LifeSpan(5));
    assert_eq!(gene.energy_capacity(), 2_400_000);
    assert_eq!(gene.direction(CellDir::Right), GeneDirectionAction::CreateSeed(LifeSpan(5)));
}

#[test]
fn rolls_stand_for_direction_actions() {
    let span = LifeSpan(7);
    let next = GeneLocation(4);
    assert_eq!(
        GeneDirectionAction::from_roll(0, span, next),
        GeneDirectionAction::MultiplySelf(span, next)
    );
    assert_eq!(GeneDirectionAction::from_roll(1, span, next), GeneDirectionAction::MakeLeaf(span));
    assert_eq!(GeneDirectionAction::from_roll(4, span, next), GeneDirectionAction::MakeFilter(span));
    for roll in 5..=7 {
        assert_eq!(GeneDirectionAction::from_roll(roll, span, next), GeneDirectionAction::KillCell);
    }
    assert_eq!(GeneDirectionAction::from_roll(8, span, next), GeneDirectionAction::CreateSeed(span));
    assert_eq!(GeneDirectionAction::from_roll(9, span, next), GeneDirectionAction::Nothing);
    assert_eq!(GeneDirectionAction::from_roll(200, span, next), GeneDirectionAction::Nothing);
}

#[test]
fn rolls_stand_for_conditions_and_actions() {
    assert_eq!(GeneCondition::from_roll(0), GeneCondition::LifeUp);
    assert_eq!(GeneCondition::from_roll(12), GeneCondition::RandomMT);
    assert_eq!(GeneCondition::from_roll(29), GeneCondition::Always);
    assert_eq!(GeneCondition::from_roll(30), GeneCondition::Never);
    assert_eq!(GeneCondition::from_roll(31), GeneCondition::StepsDividesP);
    assert_eq!(GeneCondition::from_roll(255), GeneCondition::StepsDividesP);
    assert!(GeneCondition::RandomMT.needs_roll());
    assert!(!GeneCondition::Always.needs_roll());
    let target = GeneLocation(9);
    assert_eq!(GeneAction::from_roll(0, target), GeneAction::MoveOrganicUp);
    assert_eq!(GeneAction::from_roll(8, target), GeneAction::DoNothing);
    assert_eq!(GeneAction::from_roll(9, target), GeneAction::ChangeActiveGene(target));
    assert_eq!(GeneAction::from_roll(13, target), GeneAction::KillDownRight);
    assert_eq!(GeneAction::from_roll(99, target), GeneAction::KillDownRight);
}

#[test]
fn rolls_stand_for_field_mutations() {
    assert_eq!(FieldMutation::from_roll(0), FieldMutation::Reroll(GeneField::Up));
    assert_eq!(FieldMutation::from_roll(7), FieldMutation::Reroll(GeneField::Up));
    assert_eq!(FieldMutation::from_roll(8), FieldMutation::Reroll(GeneField::Down));
    assert_eq!(FieldMutation::from_roll(31), FieldMutation::Reroll(GeneField::Right));
    assert_eq!(FieldMutation::from_roll(32), FieldMutation::Reroll(GeneField::Condition1));
    assert_eq!(FieldMutation::from_roll(49), FieldMutation::Reroll(GeneField::SelfLifespan));
    assert_eq!(
        FieldMutation::from_roll(50),
        FieldMutation::CopyDirection { to: CellDir::Up, from: CellDir::Down }
    );
    assert_eq!(
        FieldMutation::from_roll(85),
        FieldMutation::CopyDirection { to: CellDir::Right, from: CellDir::Down }
    );
    assert_eq!(FieldMutation::from_roll(86), FieldMutation::ReplaceGene);
    assert_eq!(FieldMutation::from_roll(255), FieldMutation::ReplaceGene);
}

#[test]
fn a_field_mutation_changes_one_thing() {
    let mut fresh = plain_gene();
    fresh.up = GeneDirectionAction::MakeLeaf(LifeSpan(3));
    fresh.param_2 = 77;
    fresh.self_lifespan = LifeSpan(500);

    let mut gene = plain_gene();
    gene.apply_mutation(FieldMutation::Reroll(GeneField::Param2), &fresh);
    let mut expected = plain_gene();
    expected.param_2 = 77;
    assert_eq!(gene, expected);

    let mut gene = plain_gene();
    gene.down = GeneDirectionAction::KillCell;
    gene.apply_mutation(FieldMutation::CopyDirection { to: CellDir::Left, from: CellDir::Down }, &fresh);
    let mut expected = plain_gene();
    expected.down = GeneDirectionAction::KillCell;
    expected.left = GeneDirectionAction::KillCell;
    assert_eq!(gene, expected);

    let mut gene = plain_gene();
    gene.apply_mutation(FieldMutation::ReplaceGene, &fresh);
    assert_eq!(gene, fresh);
}

#[test]
fn active_gene_is_the_gene_at_the_pointer() {
    let mut genome = plain_genome(5);
    genome.genes[3].param_1 = 42;
    genome.active_gene = GeneLocation(3);
    assert_eq!(genome.active_gene().param_1, 42);
    assert_eq!(genome.get_gene(GeneLocation(0)).param_1, 0);
    assert!(genome.is_well_formed());
    genome.genes[31].alt_gene2 = GeneLocation(MAX_GENES);
    assert!(!genome.is_well_formed());
}

#[test]
fn a_genome_that_never_mutates_stays_the_same() {
    let genome = plain_genome(0);
    let mut copy = genome;
    for _ in 0..100_000 {
        copy.mutate();
    }
    assert_eq!(copy, genome);
}

#[test]
fn the_lowest_rate_mutates_about_one_time_in_twenty() {
    let genome = plain_genome(5);
    let trials = 100_000;
    let mut changed = 0;
    for _ in 0..trials {
        let mut copy = genome;
        copy.mutate();
        assert!(copy.is_well_formed());
        if copy != genome {
            changed += 1;
        }
    }
    // The roll fires in 5 of 100 calls; a roll that fires changes the genome in about 2 of
    // 3 cases (a fresh draw may repeat the old value, and to copy one direction over another
    // changes nothing where the two are the same).
    assert!(changed > trials * 25 / 1000, "changed in {} of {} calls", changed, trials);
    assert!(changed < trials * 45 / 1000, "changed in {} of {} calls", changed, trials);
}

#[test]
fn a_mutation_that_does_not_fire_changes_nothing() {
    let genome = plain_genome(100);
    for kind in 0..=11 {
        let mut copy = genome;
        copy.mutate_with(false, kind);
        assert_eq!(copy, genome);
    }
}

#[test]
fn a_mutation_that_fires_changes_what_the_die_names() {
    let genome = plain_genome(100);
    for _ in 0..200 {
        let mut copy = genome;
        copy.mutate_with(true, 0);
        assert!((5..=100).contains(&copy.mutation_rate.0));
        copy.mutation_rate = genome.mutation_rate;
        assert_eq!(copy, genome);

        let mut copy = genome;
        copy.mutate_with(true, 1);
        assert!(copy.active_gene.0 < MAX_GENES);
        copy.active_gene = genome.active_gene;
        assert_eq!(copy, genome);

        let mut copy = genome;
        copy.mutate_with(true, 2);
        assert!(copy.seed_gene.0 < MAX_GENES);
        copy.seed_gene = genome.seed_gene;
        assert_eq!(copy, genome);

        let mut copy = genome;
        copy.mutate_with(true, 7);
        assert!(copy.is_well_formed());
        let differing = (0..32).filter(|i| copy.genes[*i] != genome.genes[*i]).count();
        assert!(differing <= 1);
        copy.genes = genome.genes;
        assert_eq!(copy, genome);
    }
}

#[test]
fn the_highest_rate_always_fires() {
    // At a rate of 100 the roll fires every time. About 2 of 3 rolls that fire change the
    // genome; the others draw what was there before, or copy a direction over its like.
    let genome = plain_genome(100);
    let mut changed = 0;
    for _ in 0..1000 {
        let mut copy = genome;
        copy.mutate();
        if copy != genome {
            changed += 1;
        }
    }
    assert!(changed > 500, "changed in {} of 1000 calls", changed);
    assert!(changed < 800, "changed in {} of 1000 calls", changed);
}

#[test]
fn samples_are_well_formed_and_vary() {
    let mut rng = rand::thread_rng();
    let mut gene_indices = [false; 32];
    let mut rates = [false; 101];
    for _ in 0..2000 {
        let loc = GeneLocation::sample(&mut rng);
        assert!(loc.0 < MAX_GENES);
        gene_indices[loc.0 as usize] = true;
        let rate = MutationRate::sample(&mut rng);
        assert!((5..=100).contains(&rate.0));
        rates[rate.0 as usize] = true;
        assert!(LifeSpan::sample(&mut rng).0 <= 1000);
    }
    assert!(gene_indices.iter().all(|seen| *seen));
    assert!(rates.iter().filter(|seen| **seen).count() > 80);
    let genome = Genome::sample(&mut rng);
    assert!(genome.is_well_formed());
    assert_eq!(genome.active_gene, genome.seed_gene);
    let other = Genome::sample(&mut rng);
    assert_ne!(genome.genes, other.genes);
}

#[test]
fn one_change_to_one_gene_leaves_the_others_alone() {
    let genome = plain_genome(5);
    let mut fresh = plain_gene();
    fresh.param_1 = 99;
    fresh.up = GeneDirectionAction::MakeRoot(LifeSpan(8));

    let mut copy = genome;
    copy.mutate_gene(GeneLocation(7), 33, &fresh);
    let mut expected = genome;
    expected.genes[7].param_1 = 99;
    assert_eq!(copy, expected);

    let mut copy = genome;
    copy.mutate_gene(GeneLocation(31), 0, &fresh);
    let mut expected = genome;
    expected.genes[31].up = GeneDirectionAction::MakeRoot(LifeSpan(8));
    assert_eq!(copy, expected);

    let mut copy = genome;
    copy.mutate_gene(GeneLocation(0), 86, &fresh);
    let mut expected = genome;
    expected.genes[0] = fresh;
    assert_eq!(copy, expected);

    let mut copy = genome;
    copy.mutate_gene(GeneLocation(0), 50, &fresh);
    assert_eq!(copy, genome);
}

#[test]
fn a_change_to_the_genes_touches_one_gene_whatever_the_rate() {
    for rate in [0u8, 5, 100] {
        let genome = plain_genome(rate);
        let mut touched = [false; 32];
        for _ in 0..2000 {
            let mut copy = genome;
            copy.mutate_with(true, 3);
            assert!(copy.is_well_formed());
            let differing: Vec<usize> = (0..32).filter(|i| copy.genes[*i] != genome.genes[*i]).collect();
            assert!(differing.len() <= 1);
            for i in differing {
                touched[i] = true;
            }
            copy.genes = genome.genes;
            assert_eq!(copy, genome);
        }
        assert_eq!(touched, [true; 32]);
    }
}

#[test]
fn the_chance_of_a_mutation_is_the_rate_out_of_a_hundred() {
    assert_eq!(MutationRate(5).chance(), (5, 100));
    assert_eq!(MutationRate(0).chance(), (0, 100));
    assert_eq!(MutationRate(100).chance(), (100, 100));
    assert_eq!(MUTATION_KINDS, 12);
}
