use std::collections::HashMap;

use panicvtt_engine::assets::asset::Asset;
use panicvtt_engine::assets::asset_manager::check_and_insert;
use panicvtt_engine::assets::io_failure::{IoFailure, IoFailureKind};
use panicvtt_engine::entities::class::Class;
use panicvtt_engine::entities::entityview::EntityView;
use panicvtt_engine::mechanics::dice::Dice;
use panicvtt_engine::util::asset_key_error::{format_key_error, AssetKeyError};

#[test]
fn an_error_holds_what_it_was_given() {
    let mut state: HashMap<u128, Class> = HashMap::new();
    state.insert(1, Class::from_parts(1, String::from("held"), Dice::D6));
    let present = &state[&1];
    let error = AssetKeyError::new(
        String::from("tag"),
        Class::from_parts(1, String::from("turned away"), Dice::D8),
        present,
        &state,
    );
    assert_eq!(error.get_message(), "tag");
    assert_eq!(error.get_rejected().get_name(), "turned away");
    assert_eq!(error.get_rejected().get_hit_die(), Dice::D8);
    assert_eq!(error.get_present().get_name(), "held");
    assert_eq!(error.get_state().len(), 1);
    assert_eq!(error.into_rejected().get_uuid(), 1);
}

#[test]
fn check_and_insert_never_overwrites() {
    let mut map: HashMap<u128, Class> = HashMap::new();
    let stored = check_and_insert(&mut map, Class::from_parts(4, String::from("a"), Dice::D4), "m");
    assert_eq!(stored.unwrap().get_name(), "a");
    let error =
        check_and_insert(&mut map, Class::from_parts(4, String::from("b"), Dice::D4), "m")
            .err()
            .unwrap();
    assert_eq!(error.get_message(), "m");
    assert_eq!(error.get_rejected().get_name(), "b");
    assert_eq!(error.get_present().get_name(), "a");
    assert_eq!(map.len(), 1);
    assert_eq!(map[&4].get_name(), "a");
    assert!(check_and_insert(&mut map, Class::from_parts(5, String::new(), Dice::D4), "m").is_ok());
    assert_eq!(map.len(), 2);
}

#[test]
fn failures_are_plain_values() {
    let failure = IoFailure::new(IoFailureKind::Other, String::from("disk on fire"));
    assert_eq!(failure.get_kind(), IoFailureKind::Other);
    assert_eq!(failure.get_message(), "disk on fire");
    assert_eq!(failure.kind, IoFailureKind::Other);
    assert_eq!(failure.message, "disk on fire");
}

#[test]
fn an_entity_view_shows_name_and_digits() {
    let view = EntityView { uuid: 1234567890, name: String::from("Syd") };
    assert_eq!(view.get_name(), "Syd");
    assert_eq!(view.get_uuid(), 1234567890);
    assert_eq!(view.to_string(), "Entity Syd (uuid ...567890)");
    let small = EntityView { uuid: 42, name: String::new() };
    assert_eq!(small.to_string(), "Entity  (uuid ...000042)");
}

#[test]
fn the_text_of_a_refused_insertion() {
    let pairs = vec![(7, String::from("held")), (12, String::from("other"))];
    let text = format_key_error("c", "turned away", "held", 7, &pairs);
    assert_eq!(
        text,
        "c\n\t(Value to add: turned away; present value: held; UUID 7)\n\tProblematic HashMap: \n\t\t{ 7, held }\n\t\t{ 12, other }\n"
    );
    assert_eq!(
        format_key_error("", "", "", 0, &Vec::new()),
        "\n\t(Value to add: ; present value: ; UUID 0)\n\tProblematic HashMap: \n"
    );
}
