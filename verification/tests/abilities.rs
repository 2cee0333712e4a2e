use panicvtt_engine::entities::abilities::{Ability, AbilityScores};

#[test]
fn ability_scores_new() {
    let scores = AbilityScores::new(1, 2, 3, 4, 5, 6);
    assert_eq!(scores.get_ability_score(Ability::Strength), 1);
    assert_eq!(scores.get_ability_score(Ability::Dexterity), 2);
    assert_eq!(scores.get_ability_score(Ability::Constitution), 3);
    assert_eq!(scores.get_ability_score(Ability::Intelligence), 4);
    assert_eq!(scores.get_ability_score(Ability::Wisdom), 5);
    assert_eq!(scores.get_ability_score(Ability::Charisma), 6);
}

#[test]
fn ability_scores_from_default() {
    let scores = AbilityScores::from_defaults();
    assert_eq!(scores.get_ability_score(Ability::Strength), 10);
    assert_eq!(scores.get_ability_score(Ability::Dexterity), 10);
    assert_eq!(scores.get_ability_score(Ability::Constitution), 10);
    assert_eq!(scores.get_ability_score(Ability::Intelligence), 10);
    assert_eq!(scores.get_ability_score(Ability::Wisdom), 10);
    assert_eq!(scores.get_ability_score(Ability::Charisma), 10);
}

#[test]
fn ability_scores_get() {
    let scores = AbilityScores::new(1, 2, 3, 4, 5, 6);

    assert_eq!(scores.get_ability_score(Ability::Strength), 1);
    assert_eq!(scores.get_ability_score(Ability::Dexterity), 2);
    assert_eq!(scores.get_ability_score(Ability::Constitution), 3);
    assert_eq!(scores.get_ability_score(Ability::Intelligence), 4);
    assert_eq!(scores.get_ability_score(Ability::Wisdom), 5);
    assert_eq!(scores.get_ability_score(Ability::Charisma), 6);
}

#[test]
fn ability_scores_impls() {
    let scores = AbilityScores::new(1, 2, 3, 21, 22, 23);
    let s = scores.to_string();
    assert_eq!(s, String::from("{ 1STR, 2DEX, 3CON, 21INT, 22WIS, 23CHA }"));
}

#[test]
fn ability_modifier_rounds_down() {
    let expected: [i8; 31] = [
        -5, -5, -4, -4, -3, -3, -2, -2, -1, -1, 0, 0, 1, 1, 2, 2, 3, 3, 4, 4, 5, 5, 6, 6, 7, 7,
        8, 8, 9, 9, 10,
    ];
    for i in 0..31u8 {
        let scores = AbilityScores::new(i, i, i, i, i, i);
        assert_eq!(scores.get_ability_modifier(Ability::Wisdom), expected[i as usize]);
    }
    let top = AbilityScores::new(255, 0, 0, 0, 0, 0);
    assert_eq!(top.get_ability_modifier(Ability::Strength), 122);
    assert_eq!(top.get_ability_modifier(Ability::Charisma), -5);
}

#[test]
fn ability_abbreviations() {
    assert_eq!(Ability::Strength.to_string(), "STR");
    assert_eq!(Ability::Dexterity.to_string(), "DEX");
    assert_eq!(Ability::Constitution.to_string(), "CON");
    assert_eq!(Ability::Intelligence.to_string(), "INT");
    assert_eq!(Ability::Wisdom.to_string(), "WIS");
    assert_eq!(Ability::Charisma.to_string(), "CHA");
}
