use panicvtt_engine::assets::asset::Asset;
use panicvtt_engine::campaigns::campaign::Campaign;
use panicvtt_engine::campaigns::scene::Scene;
use panicvtt_engine::entities::class::Class;
use panicvtt_engine::entities::race::Race;
use panicvtt_engine::mechanics::dice::Dice;

#[test]
fn add_some_scenes() {
    let mut c = Campaign::new(
        String::from("The Gang Plays D&D"),
        String::from("A Roleplaying Adventure by Mantis Toboggan, M.D."),
    );
    assert_eq!(c.get_name(), "The Gang Plays D&D");
    assert_eq!(c.get_description(), "A Roleplaying Adventure by Mantis Toboggan, M.D.");

    let s1 = Scene::new(String::from("scene 1"));
    let s3 = Scene::new(String::from("scene 3"));
    let id1 = s1.get_uuid();
    let id3 = s3.get_uuid();

    c.add_scene(s1);
    let id2 = c.create_scene(String::from("scene 2")).unwrap().get_uuid();
    c.add_scene(s3);
    let id4 = c.create_scene(String::from("scene 4")).unwrap().get_uuid();

    let s1 = c.get_scene(id1).unwrap();
    let s2 = c.get_scene(id2).unwrap();
    let s3 = c.get_scene(id3).unwrap();
    let s4 = c.get_scene(id4).unwrap();

    assert_eq!(s1.get_name(), "scene 1");
    assert_eq!(s2.get_name(), "scene 2");
    assert_eq!(s3.get_name(), "scene 3");
    assert_eq!(s4.get_name(), "scene 4");

    // Try to get some bad scenes
    assert!(c.get_scene(55u128).is_none());
    assert!(c.get_scene(u128::MAX).is_none());
}

#[test]
fn class_getters() {
    let class = Class::new(String::from("Nick Mason"), Dice::D8);

    assert_eq!(String::from("Nick Mason"), class.get_name());
    assert_eq!(Dice::D8, class.get_hit_die());
}

#[test]
fn race_getters() {
    let race = Race::new(String::from("Syd Barrett"), 123);

    assert_eq!(String::from("Syd Barrett"), race.get_name());
    assert_eq!(123, race.get_speed());
}

#[test]
fn stock_description() {
    let c = Campaign::with_no_description(String::from("Untitled"));
    assert_eq!(c.get_name(), "Untitled");
    assert_eq!(c.get_description(), "A D&D Adventure!");
    assert!(c.get_active_scene().is_none());
    assert!(c.get_owning_campaign().is_none());
}

#[test]
fn fresh_identifiers_are_not_nil_and_differ() {
    let a = Class::new(String::new(), Dice::D4).get_uuid();
    let b = Class::new(String::new(), Dice::D4).get_uuid();
    assert_ne!(a, 0);
    assert_ne!(b, 0);
    assert_ne!(a, b);
    // version 7 in bits 76 to 79
    assert_eq!((a >> 76) & 0xF, 7);
    assert_eq!(Class::default().get_uuid(), 0);
    assert_eq!(Race::default().get_uuid(), 0);
}

#[test]
fn a_scene_added_twice_is_replaced() {
    let mut c = Campaign::with_no_description(String::new());
    c.add_scene(Scene::from_parts(5, String::from("before"), vec![1, 2]));
    c.add_scene(Scene::from_parts(5, String::from("after"), vec![3]));
    assert_eq!(c.get_scene(5).unwrap().get_name(), "after");
    assert_eq!(c.get_scene(5).unwrap().get_entities(), &vec![3]);
}
