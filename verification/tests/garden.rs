use smartyplants::garden::{
    evaluate_outcome, generate_starting_plants, is_game_lost, pest_destruction_roll,
    plant_takes_credit, GameOutcome, GameState, Planter, Planters, Season, Seeds,
    GOAL_INTELLIGENCE, NUM_SEED_SPACES,
};
use smartyplants::name::PlantName;
use smartyplants::plant::{
    splice_plants, FruitColor, FruitStyle, Gene, GeneCategory, Plant, StemColor, StemStyle,
};
use smartyplants::rng::{RandomSource, UNIT_DRAW_SCALE};

fn plant_with(categories: &[GeneCategory]) -> Plant {
    let genes: Vec<Gene> = categories.iter().map(|c| Gene::new_with_category(*c)).collect();
    Plant {
        name: PlantName::new(vec!["test".to_string()]),
        genes,
    }
}

/// intelligence 4 + 5 - 1 + 2 = 10, pest resistance -1 - 1 + 3 + 1 = 2
fn smart_plant() -> Plant {
    plant_with(&[
        GeneCategory::StemStyle(StemStyle::Loopy),
        GeneCategory::StemColor(StemColor::Blue),
        GeneCategory::FruitStyle(FruitStyle::Circle),
        GeneCategory::FruitColor(FruitColor::Purple),
    ])
}

/// intelligence 1 + 5 + 4 - 1 = 9
fn almost_smart_plant() -> Plant {
    plant_with(&[
        GeneCategory::StemStyle(StemStyle::Wiggly),
        GeneCategory::StemColor(StemColor::Blue),
        GeneCategory::FruitStyle(FruitStyle::Triangle),
        GeneCategory::FruitColor(FruitColor::Red),
    ])
}

#[test]
fn starting_garden_holds_three_plants_and_one_empty_slot() {
    let planters = generate_starting_plants();
    assert_eq!(planters.0.len(), 4);
    for slot in planters.0.iter().take(3) {
        assert!(matches!(slot, Planter::Plant(_)));
    }
    assert!(matches!(planters.0[3], Planter::Empty));

    if let Planter::Plant(p) = &planters.0[0] {
        assert_eq!(p.name.render(), "Roberto");
        let phenotype = p.get_phenotype();
        assert_eq!(phenotype.intelligence, -4);
        assert_eq!(phenotype.pest_resistance, 9);
    }
    if let Planter::Plant(p) = &planters.0[1] {
        assert_eq!(p.name.render(), "Jessica");
        let phenotype = p.get_phenotype();
        assert_eq!(phenotype.intelligence, 2);
        assert_eq!(phenotype.pest_resistance, 9);
    }
    if let Planter::Plant(p) = &planters.0[2] {
        assert_eq!(p.name.render(), "Mallory");
        let phenotype = p.get_phenotype();
        assert_eq!(phenotype.intelligence, 1);
        assert_eq!(phenotype.pest_resistance, 9);
    }
}

#[test]
fn seed_grows_and_can_die_in_the_same_season() {
    // Splicing Roberto and Jessica with a fixed draw of 1 gives an
    // offspring with pest resistance 3, below the threshold of 5.
    let planters = generate_starting_plants();
    let (first, second) = match (&planters.0[0], &planters.0[1]) {
        (Planter::Plant(a), Planter::Plant(b)) => (a, b),
        _ => panic!("starting garden should begin with two plants"),
    };
    let mut rng = RandomSource::Fixed(1);
    let seed = splice_plants(first, second, &mut rng);

    // a draw of 0.0 guarantees destruction when resistance is under 5
    let mut garden = Planters(vec![Planter::Seed(seed)]);
    let mut rng_death = RandomSource::Fixed(0);
    garden.next_season(&mut rng_death);
    assert!(matches!(garden.0[0], Planter::DeadPlant(_)));
    if let Planter::DeadPlant(p) = &garden.0[0] {
        assert_eq!(p.get_phenotype().pest_resistance, 3);
    }

    // a draw of 1.0 guarantees survival at this deficit
    let mut rng_second = RandomSource::Fixed(1);
    let seed_second = splice_plants(first, second, &mut rng_second);
    let mut garden_second = Planters(vec![Planter::Seed(seed_second)]);
    let mut rng_life = RandomSource::Fixed(UNIT_DRAW_SCALE);
    garden_second.next_season(&mut rng_life);
    assert!(matches!(garden_second.0[0], Planter::Plant(_)));
}

#[test]
fn resistant_plants_always_survive_the_season() {
    // every starting plant has pest resistance 9, over the threshold
    let mut planters = generate_starting_plants();
    let mut rng = RandomSource::Fixed(0);
    planters.next_season(&mut rng);
    for slot in planters.0.iter().take(3) {
        assert!(matches!(slot, Planter::Plant(_)));
    }
    assert!(matches!(planters.0[3], Planter::Empty));
}

#[test]
fn dead_and_empty_slots_never_change() {
    let mut planters = Planters(vec![
        Planter::DeadPlant(smart_plant()),
        Planter::Empty,
    ]);
    let mut rng = RandomSource::Fixed(0);
    planters.next_season(&mut rng);
    assert!(matches!(planters.0[0], Planter::DeadPlant(_)));
    assert!(matches!(planters.0[1], Planter::Empty));
}

#[test]
fn pest_chance_boundary_destroys_on_equal_draw() {
    // resistance 0: deficit 5, chance five tenths of the unit interval
    let half = UNIT_DRAW_SCALE / 2;
    assert!(pest_destruction_roll(0, half));
    assert!(!pest_destruction_roll(0, half + 1));
    // resistance at the threshold is never evaluated against the draw
    assert!(!pest_destruction_roll(5, 0));
    // deficit 1: chance one tenth
    assert!(pest_destruction_roll(4, UNIT_DRAW_SCALE / 10));
    assert!(!pest_destruction_roll(4, UNIT_DRAW_SCALE / 10 + 1));
    // negative resistance can push the chance past the whole interval
    assert!(pest_destruction_roll(-5, UNIT_DRAW_SCALE));
}

#[test]
fn intelligence_ten_wins_and_nine_does_not() {
    let not_yet = Planters(vec![
        Planter::Empty,
        Planter::Plant(almost_smart_plant()),
    ]);
    assert!(not_yet.find_smart_plant().is_none());

    let winning = Planters(vec![
        Planter::Plant(almost_smart_plant()),
        Planter::Plant(smart_plant()),
    ]);
    let winner = winning.find_smart_plant().expect("a plant at the goal should win");
    assert_eq!(winner.get_phenotype().intelligence, GOAL_INTELLIGENCE);
}

#[test]
fn lose_requires_every_slot_and_seed_exhausted() {
    let lost = Planters(vec![
        Planter::DeadPlant(smart_plant()),
        Planter::Empty,
    ]);
    assert!(is_game_lost(&lost, &Seeds(Vec::new())));

    let with_plant = Planters(vec![Planter::Plant(smart_plant()), Planter::Empty]);
    assert!(!is_game_lost(&with_plant, &Seeds(Vec::new())));

    let mut rng = RandomSource::System;
    let seed = splice_plants(&smart_plant(), &almost_smart_plant(), &mut rng);
    let with_planted_seed = Planters(vec![Planter::Seed(seed), Planter::Empty]);
    assert!(!is_game_lost(&with_planted_seed, &Seeds(Vec::new())));

    let seed_in_inventory = splice_plants(&smart_plant(), &almost_smart_plant(), &mut rng);
    let empty_garden = Planters(vec![Planter::Empty]);
    assert!(!is_game_lost(&empty_garden, &Seeds(vec![seed_in_inventory])));
}

#[test]
fn slot_accessors_return_none_out_of_range() {
    let planters = generate_starting_plants();
    assert!(planters.with_id(3).is_some());
    assert!(planters.with_id(4).is_none());

    let mut rng = RandomSource::System;
    let seed_a = splice_plants(&smart_plant(), &almost_smart_plant(), &mut rng);
    let seed_b = splice_plants(&smart_plant(), &almost_smart_plant(), &mut rng);
    let mut seeds = Seeds(vec![seed_a, seed_b]);
    assert!(seeds.with_id(1).is_some());
    assert!(seeds.with_id(2).is_none());

    assert!(seeds.take_with_id(5).is_none());
    assert_eq!(seeds.0.len(), 2);
    let expected = seeds.0[0].genes.clone();
    let taken = seeds.take_with_id(0).expect("seed 0 should be removable");
    assert_eq!(taken.genes, expected);
    assert_eq!(seeds.0.len(), 1);
}

#[test]
fn season_counter_advances_by_one() {
    let mut season = Season(1);
    season.advance();
    assert_eq!(season.0, 2);
}

#[test]
fn take_credit_boundary_follows_extra_intelligence() {
    // at the goal exactly, only a draw of zero takes the credit
    assert!(plant_takes_credit(GOAL_INTELLIGENCE, 0));
    assert!(!plant_takes_credit(GOAL_INTELLIGENCE, 1));
    // two points over the goal: chance of two tenths
    assert!(plant_takes_credit(GOAL_INTELLIGENCE + 2, UNIT_DRAW_SCALE / 5));
    assert!(!plant_takes_credit(GOAL_INTELLIGENCE + 2, UNIT_DRAW_SCALE / 5 + 1));
    // below the goal the question never arises
    assert!(!plant_takes_credit(GOAL_INTELLIGENCE - 1, 0));
}

#[test]
fn fresh_game_state_matches_the_starting_arrangement() {
    let game = GameState::new();
    assert_eq!(game.season.0, 1);
    assert!(game.seeds.0.is_empty());
    assert_eq!(game.planters.0.len(), 4);
    if let Planter::Plant(p) = &game.planters.0[0] {
        assert_eq!(p.name.render(), "Roberto");
    } else {
        panic!("slot 0 should hold Roberto");
    }
}

#[test]
fn advancing_a_game_state_ticks_the_season() {
    let mut game = GameState::new();
    let mut rng = RandomSource::Fixed(0);
    game.advance_season(&mut rng);
    assert_eq!(game.season.0, 2);
    assert!(matches!(game.planters.0[0], Planter::Plant(_)));
}

#[test]
fn outcome_evaluation_orders_win_over_loss() {
    let ongoing = Planters(vec![Planter::Plant(almost_smart_plant())]);
    assert!(matches!(
        evaluate_outcome(&ongoing, &Seeds(Vec::new())),
        GameOutcome::Ongoing
    ));

    let won = Planters(vec![Planter::Empty, Planter::Plant(smart_plant())]);
    match evaluate_outcome(&won, &Seeds(Vec::new())) {
        GameOutcome::Won(p) => assert_eq!(p.get_phenotype().intelligence, GOAL_INTELLIGENCE),
        _ => panic!("a garden with a smart plant should be won"),
    }

    let lost = Planters(vec![Planter::DeadPlant(smart_plant()), Planter::Empty]);
    assert!(matches!(
        evaluate_outcome(&lost, &Seeds(Vec::new())),
        GameOutcome::Lost
    ));
}

#[test]
fn seed_inventory_capacity_is_enforced_by_the_caller() {
    let mut rng = RandomSource::System;
    let mut seeds = Seeds(Vec::new());
    for _ in 0..NUM_SEED_SPACES + 2 {
        if seeds.0.len() < NUM_SEED_SPACES {
            seeds.0.push(splice_plants(&smart_plant(), &almost_smart_plant(), &mut rng));
        }
    }
    assert_eq!(seeds.0.len(), NUM_SEED_SPACES);
}
