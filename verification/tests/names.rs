use smartyplants::name::{combine_names, uppercase_first_letter, PlantName};
use smartyplants::rng::RandomSource;

#[test]
fn name_renders_concatenated_and_capitalized() {
    let name = PlantName::new(vec!["ro".to_string(), "ber".to_string(), "to".to_string()]);
    assert_eq!(name.render(), "Roberto");
}

#[test]
fn single_syllable_renders_capitalized() {
    let name = PlantName::new(vec!["ro".to_string()]);
    assert_eq!(name.render(), "Ro");
}

#[test]
fn empty_name_renders_empty() {
    let name = PlantName::new(Vec::new());
    assert_eq!(name.render(), "");
}

#[test]
fn from_syllables_lowercases_its_input() {
    let name = PlantName::from_syllables(&vec![
        "RO".to_string(),
        "bEr".to_string(),
        "To".to_string(),
    ]);
    assert_eq!(name.render(), "Roberto");
}

#[test]
fn uppercase_first_letter_touches_only_the_first() {
    assert_eq!(uppercase_first_letter("jessica"), "Jessica");
    assert_eq!(uppercase_first_letter(""), "");
    assert_eq!(uppercase_first_letter("a"), "A");
}

#[test]
fn cloned_name_renders_the_same() {
    let name = PlantName::new(vec!["mal".to_string(), "lo".to_string(), "ry".to_string()]);
    let copy = name.clone();
    assert_eq!(copy.render(), "Mallory");
}

#[test]
fn combined_name_is_as_long_as_the_longer_parent() {
    let short = PlantName::new(vec!["jo".to_string()]);
    let long = PlantName::new(vec!["ro".to_string(), "ber".to_string(), "to".to_string()]);
    let mut rng = RandomSource::System;
    let child = combine_names(&short, &long, &mut rng);
    assert_eq!(child.syllable_count(), 3);
}

#[test]
fn two_single_syllable_parents_give_two_syllables() {
    let first = PlantName::new(vec!["bo".to_string()]);
    let second = PlantName::new(vec!["mi".to_string()]);
    let mut rng = RandomSource::System;
    let child = combine_names(&first, &second, &mut rng);
    assert_eq!(child.syllable_count(), 2);
    assert_eq!(child.render(), "Bomi");
}

#[test]
fn one_empty_parent_still_contributes_nothing() {
    let empty = PlantName::new(Vec::new());
    let other = PlantName::new(vec!["ro".to_string(), "za".to_string()]);
    let mut rng = RandomSource::System;
    let child = combine_names(&empty, &other, &mut rng);
    assert_eq!(child.syllable_count(), 2);

    let both_empty = combine_names(&empty, &empty, &mut rng);
    assert_eq!(both_empty.syllable_count(), 0);
}

#[test]
fn fixed_draws_recombine_deterministically() {
    let first = PlantName::new(vec!["ro".to_string(), "ber".to_string(), "to".to_string()]);
    let second = PlantName::new(vec!["jes".to_string(), "si".to_string(), "ca".to_string()]);
    let mut rng = RandomSource::Fixed(0);
    let child = combine_names(&first, &second, &mut rng);
    // picks index 0 of parent 1, index 0 of parent 2, then index 0 of the union
    assert_eq!(child.render(), "Rojesro");
}
