use panicvtt_engine::entities::abilities::Ability;
use panicvtt_engine::entities::skills::{Skill, SkillAttributes};
use panicvtt_engine::util::enum_map::{EnumKey, EnumMap, EnumMapIter};
use panicvtt_engine::util::text::{chars_of, digit_text, push_decimal, push_last_digits, same_text};

#[test]
fn one_value_for_each_variant() {
    let map: EnumMap<Ability, u8> = EnumMap::from_value(7);
    assert_eq!(map.into_vec(), vec![7; 6]);

    let map: EnumMap<Skill, usize> = EnumMap::from_fn(|skill: Skill| skill.to_index() * 2);
    assert_eq!(*map.get(Skill::Acrobatics), 0);
    assert_eq!(*map.get(Skill::Arcana), 4);
    assert_eq!(*map.get(Skill::Survival), 34);
    assert_eq!(map.into_vec().len(), 18);
}

#[test]
fn set_returns_what_was_there() {
    let mut map: EnumMap<Ability, u8> = EnumMap::from_value(1);
    assert_eq!(map.set(Ability::Wisdom, 9), 1);
    assert_eq!(map.set(Ability::Wisdom, 10), 9);
    assert_eq!(*map.get(Ability::Wisdom), 10);
    assert_eq!(*map.get(Ability::Charisma), 1);
    assert_eq!(map.into_vec(), vec![1, 1, 1, 1, 10, 1]);
}

#[test]
fn from_vec_wants_one_value_for_each_variant() {
    assert!(EnumMap::<Ability, u8>::from_vec(vec![0; 5]).is_none());
    assert!(EnumMap::<Ability, u8>::from_vec(vec![0; 7]).is_none());
    let map = EnumMap::<Ability, u8>::from_vec(vec![1, 2, 3, 4, 5, 6]).unwrap();
    assert_eq!(*map.get(Ability::Strength), 1);
    assert_eq!(*map.get(Ability::Charisma), 6);
}

#[test]
fn variants_are_numbered_in_order() {
    assert_eq!(Ability::variant_count(), 6);
    assert_eq!(Skill::variant_count(), 18);
    assert_eq!(SkillAttributes::variant_count(), 4);
    for i in 0..6 {
        assert_eq!(Ability::from_index(i).to_index(), i);
    }
    for i in 0..18 {
        assert_eq!(Skill::from_index(i).to_index(), i);
    }
    assert_eq!(Skill::from_index(15), Skill::SlightOfHand);
    assert_eq!(Ability::Intelligence.to_index(), 3);
    assert_eq!(SkillAttributes::from_index(1), SkillAttributes::HalfProficient);
    assert_eq!(usize::from(Ability::Wisdom), 4);
    assert_eq!(usize::from(Skill::Acrobatics), 0);
    assert_eq!(usize::from(Skill::Survival), 17);
}

#[test]
fn the_iterator_stops_where_its_position_meets_what_is_left() {
    let mut iter: EnumMapIter<Ability, char> = EnumMapIter::new(vec!['a', 'b', 'c', 'd', 'e', 'f']);
    assert_eq!(iter.next(), Some((Ability::Strength, 'a')));
    assert_eq!(iter.next(), Some((Ability::Dexterity, 'b')));
    assert_eq!(iter.next(), Some((Ability::Constitution, 'c')));
    assert_eq!(iter.next(), None);
    assert_eq!(iter.next(), None);

    let mut iter: EnumMapIter<Ability, char> = EnumMapIter::new(Vec::new());
    assert_eq!(iter.next(), None);

    // any vector is taken; up to twice the variants, every step is a variant's
    let mut iter: EnumMapIter<Ability, u8> = EnumMapIter::new((0..12).collect());
    let mut handed = Vec::new();
    while let Some((ability, value)) = iter.next() {
        handed.push((ability.to_index(), value));
    }
    assert_eq!(handed, [(0, 0), (1, 1), (2, 2), (3, 3), (4, 4), (5, 5)]);
    let unused: EnumMapIter<Ability, u8> = EnumMapIter::new(vec![0; 40]);
    drop(unused);

    let mut iter: EnumMapIter<Ability, u8> = EnumMap::from_value(3).into_iter();
    let mut count = 0;
    while let Some((ability, value)) = iter.next() {
        assert_eq!(ability.to_index(), count);
        assert_eq!(value, 3);
        count += 1;
    }
    assert_eq!(count, 3);
}

#[test]
fn skills_rest_on_abilities() {
    assert_eq!(Skill::Athletics.get_ability(), Ability::Strength);
    assert_eq!(Skill::Acrobatics.get_ability(), Ability::Dexterity);
    assert_eq!(Skill::SlightOfHand.get_ability(), Ability::Dexterity);
    assert_eq!(Skill::Stealth.get_ability(), Ability::Dexterity);
    assert_eq!(Skill::Arcana.get_ability(), Ability::Intelligence);
    assert_eq!(Skill::History.get_ability(), Ability::Intelligence);
    assert_eq!(Skill::Investigation.get_ability(), Ability::Intelligence);
    assert_eq!(Skill::Nature.get_ability(), Ability::Intelligence);
    assert_eq!(Skill::Religion.get_ability(), Ability::Intelligence);
    assert_eq!(Skill::AnimalHandling.get_ability(), Ability::Wisdom);
    assert_eq!(Skill::Insight.get_ability(), Ability::Wisdom);
    assert_eq!(Skill::Medicine.get_ability(), Ability::Wisdom);
    assert_eq!(Skill::Perception.get_ability(), Ability::Wisdom);
    assert_eq!(Skill::Survival.get_ability(), Ability::Wisdom);
    assert_eq!(Skill::Deception.get_ability(), Ability::Charisma);
    assert_eq!(Skill::Intimidation.get_ability(), Ability::Charisma);
    assert_eq!(Skill::Performance.get_ability(), Ability::Charisma);
    assert_eq!(Skill::Persuasion.get_ability(), Ability::Charisma);
}

#[test]
fn proficiency_offsets() {
    assert_eq!(SkillAttributes::Normal.get_proficiency_offset(5), 0);
    assert_eq!(SkillAttributes::HalfProficient.get_proficiency_offset(5), 2);
    assert_eq!(SkillAttributes::Proficient.get_proficiency_offset(5), 5);
    assert_eq!(SkillAttributes::Expertise.get_proficiency_offset(5), 10);
    assert_eq!(SkillAttributes::Expertise.get_proficiency_offset(255), 510);
}

#[test]
fn decimal_text() {
    let mut text = String::from("n=");
    push_decimal(&mut text, 0);
    text.push(',');
    push_decimal(&mut text, 9);
    text.push(',');
    push_decimal(&mut text, 10);
    text.push(',');
    push_decimal(&mut text, 1234567890);
    text.push(',');
    push_decimal(&mut text, u128::MAX);
    assert_eq!(text, format!("n=0,9,10,1234567890,{}", u128::MAX));
    assert_eq!(digit_text(7), "7");

    let mut tail = String::new();
    push_last_digits(&mut tail, 1234567, 6);
    tail.push('/');
    push_last_digits(&mut tail, 42, 6);
    tail.push('/');
    push_last_digits(&mut tail, 42, 0);
    assert_eq!(tail, "234567/000042/");
}

#[test]
fn texts_compare_by_their_characters() {
    assert!(same_text("classes", "classes"));
    assert!(!same_text("classes", "classe"));
    assert!(!same_text("classes", "Classes"));
    assert!(same_text("", ""));
    assert_eq!(chars_of("a\u{e9}b"), vec!['a', '\u{e9}', 'b']);
}
