use smartyplants::name::PlantName;
use smartyplants::plant::{
    FruitColor, FruitStyle, Gene, GeneCategory, GeneDominance, Plant, StemColor, StemStyle,
};

fn plant_with(categories: &[GeneCategory]) -> Plant {
    let genes: Vec<Gene> = categories.iter().map(|c| Gene::new_with_category(*c)).collect();
    Plant {
        name: PlantName::new(vec!["test".to_string()]),
        genes,
    }
}

#[test]
fn phenotype_is_deterministic() {
    let plant = plant_with(&[
        GeneCategory::StemColor(StemColor::Blue),
        GeneCategory::StemStyle(StemStyle::Loopy),
        GeneCategory::FruitStyle(FruitStyle::Triangle),
        GeneCategory::FruitColor(FruitColor::Yellow),
    ]);
    let first = plant.get_phenotype();
    let second = plant.get_phenotype();
    assert_eq!(first, second);
}

#[test]
fn dominant_beats_recessive_in_either_order() {
    let dominant_last = plant_with(&[
        GeneCategory::StemColor(StemColor::Blue),
        GeneCategory::StemColor(StemColor::Green),
    ]);
    assert_eq!(dominant_last.get_phenotype().stem_color, StemColor::Green);

    let dominant_first = plant_with(&[
        GeneCategory::StemColor(StemColor::Green),
        GeneCategory::StemColor(StemColor::Blue),
    ]);
    assert_eq!(dominant_first.get_phenotype().stem_color, StemColor::Green);
}

#[test]
fn first_dominant_in_list_order_wins_ties() {
    let green_first = plant_with(&[
        GeneCategory::StemColor(StemColor::Green),
        GeneCategory::StemColor(StemColor::Brown),
    ]);
    assert_eq!(green_first.get_phenotype().stem_color, StemColor::Green);

    let brown_first = plant_with(&[
        GeneCategory::StemColor(StemColor::Brown),
        GeneCategory::StemColor(StemColor::Green),
    ]);
    assert_eq!(brown_first.get_phenotype().stem_color, StemColor::Brown);
}

#[test]
fn empty_categories_fall_back_to_defaults() {
    let bare = plant_with(&[]);
    let phenotype = bare.get_phenotype();
    assert_eq!(phenotype.stem_style, StemStyle::Curvy);
    assert_eq!(phenotype.stem_color, StemColor::Green);
    assert_eq!(phenotype.fruit_style, FruitStyle::Circle);
    assert_eq!(phenotype.fruit_color, FruitColor::Red);
    // the defaults' baked-in effects: four -1s and 1 + 2 + 3 + 3
    assert_eq!(phenotype.intelligence, -4);
    assert_eq!(phenotype.pest_resistance, 9);
}

#[test]
fn first_recessive_expressed_when_no_dominant() {
    let plant = plant_with(&[
        GeneCategory::StemStyle(StemStyle::Loopy),
        GeneCategory::StemStyle(StemStyle::Angular),
    ]);
    assert_eq!(plant.get_phenotype().stem_style, StemStyle::Loopy);
}

#[test]
fn gene_table_matches_reference_values() {
    let curvy = Gene::new_with_category(GeneCategory::StemStyle(StemStyle::Curvy));
    assert_eq!(curvy.dominance(), GeneDominance::Dominant);
    assert_eq!(curvy.intelligence_effect(), -1);
    assert_eq!(curvy.pest_resistance_effect(), 1);
    assert_eq!(curvy.category(), GeneCategory::StemStyle(StemStyle::Curvy));

    let blue = Gene::new_with_category(GeneCategory::StemColor(StemColor::Blue));
    assert_eq!(blue.dominance(), GeneDominance::Recessive);
    assert_eq!(blue.intelligence_effect(), 5);
    assert_eq!(blue.pest_resistance_effect(), -1);

    let yellow = Gene::new_with_category(GeneCategory::FruitColor(FruitColor::Yellow));
    assert_eq!(yellow.dominance(), GeneDominance::Recessive);
    assert_eq!(yellow.intelligence_effect(), 4);
    assert_eq!(yellow.pest_resistance_effect(), -3);

    let triangle = Gene::new_with_category(GeneCategory::FruitStyle(FruitStyle::Triangle));
    assert_eq!(triangle.dominance(), GeneDominance::Recessive);
    assert_eq!(triangle.intelligence_effect(), 4);
    assert_eq!(triangle.pest_resistance_effect(), 1);
}

#[test]
fn stats_can_go_negative() {
    let plant = plant_with(&[
        GeneCategory::StemStyle(StemStyle::Loopy),
        GeneCategory::StemColor(StemColor::Blue),
        GeneCategory::FruitStyle(FruitStyle::Square),
        GeneCategory::FruitColor(FruitColor::Yellow),
    ]);
    let phenotype = plant.get_phenotype();
    assert_eq!(phenotype.intelligence, 4 + 5 + 3 + 4);
    assert_eq!(phenotype.pest_resistance, -1 + -1 + -1 + -3);
}
