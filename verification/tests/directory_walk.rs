use panicvtt_engine::assets::asset::Asset;
use panicvtt_engine::assets::directory_loader::{collect_assets, merge_assets, reversed};
use panicvtt_engine::assets::directory_walk::{
    is_asset_file, DirEntry, DirectoryWalk, WalkAction, WalkEvent,
};
use panicvtt_engine::assets::io_failure::{IoFailure, IoFailureKind};
use panicvtt_engine::entities::race::Race;

fn entry(dir: &str, name: &str, is_dir: bool) -> Result<DirEntry, IoFailure> {
    Ok(DirEntry { path: format!("{}/{}", dir, name), file_name: String::from(name), is_dir })
}

fn race(id: u128, name: &str) -> Race {
    Race::from_parts(id, String::from(name), 30)
}

fn path_of(action: &WalkAction) -> &str {
    match action {
        WalkAction::ReadDir { path } | WalkAction::Decode { path } => path,
        WalkAction::Finished => "",
    }
}

#[test]
fn asset_file_names() {
    assert!(is_asset_file("a.panic"));
    assert!(is_asset_file("a.b.panic"));
    assert!(is_asset_file("..panic"));
    assert!(is_asset_file("\u{e9}t\u{e9}.panic"));
    assert!(!is_asset_file(".panic"));
    assert!(!is_asset_file("panic"));
    assert!(!is_asset_file(""));
    assert!(!is_asset_file("a.panic "));
    assert!(!is_asset_file("a.Panic"));
    assert!(!is_asset_file("a.panick"));
    assert!(!is_asset_file("a_panic"));
}

#[test]
fn a_walk_visits_depth_first_in_listing_order() {
    let mut walk: DirectoryWalk<Race> = DirectoryWalk::begin(String::from("races"));
    assert!(!walk.is_finished());
    let action = walk.action();
    assert!(matches!(action, WalkAction::ReadDir { ref path } if path == "races"));

    let action = walk.step(WalkEvent::Listing(Ok(vec![
        entry("races", "readme.md", false),
        entry("races", "a.panic", false),
        entry("races", "sub", true),
        entry("races", "z.panic", false),
    ])));
    assert!(matches!(action, WalkAction::Decode { .. }));
    assert_eq!(path_of(&action), "races/a.panic");

    let action = walk.step(WalkEvent::Decoded(Ok(race(1, "a"))));
    assert!(matches!(action, WalkAction::ReadDir { .. }));
    assert_eq!(path_of(&action), "races/sub");

    let action = walk.step(WalkEvent::Listing(Ok(vec![
        entry("races/sub", "deep", true),
        entry("races/sub", "m.panic", false),
    ])));
    assert_eq!(path_of(&action), "races/sub/deep");

    // an empty directory: the walk goes on behind it
    let action = walk.step(WalkEvent::Listing(Ok(vec![])));
    assert!(matches!(action, WalkAction::Decode { .. }));
    assert_eq!(path_of(&action), "races/sub/m.panic");

    // an answer of the wrong sort is passed over
    let action = walk.step(WalkEvent::Listing(Ok(vec![entry("x", "y.panic", false)])));
    assert_eq!(path_of(&action), "races/sub/m.panic");

    let action = walk.step(WalkEvent::Decoded(Ok(race(2, "m"))));
    assert_eq!(path_of(&action), "races/z.panic");
    assert_eq!(path_of(&walk.action().duplicate()), "races/z.panic");

    let action = walk.step(WalkEvent::Decoded(Ok(race(3, "z"))));
    assert!(matches!(action, WalkAction::Finished));
    assert!(walk.is_finished());

    let found = walk.finish().unwrap().unwrap();
    let names: Vec<&str> = found.iter().map(|race| race.get_name()).collect();
    assert_eq!(names, ["a", "m", "z"]);

    let collection = collect_assets(found);
    assert_eq!(collection.len(), 3);
    for (id, race) in &collection {
        assert_eq!(*id, race.get_uuid());
    }
    assert_eq!(collection[&2].get_name(), "m");
}

#[test]
fn a_walk_that_has_not_ended_has_no_outcome() {
    let walk: DirectoryWalk<Race> = DirectoryWalk::begin(String::from("races"));
    assert!(walk.finish().is_none());
}

#[test]
fn a_walk_ends_with_the_first_failure() {
    // the listing of the root fails
    let mut walk: DirectoryWalk<Race> = DirectoryWalk::begin(String::from("races"));
    let action = walk.step(WalkEvent::Listing(Err(IoFailure::new(
        IoFailureKind::NotFound,
        String::from("gone"),
    ))));
    assert!(matches!(action, WalkAction::Finished));
    let failure = walk.finish().unwrap().err().unwrap();
    assert_eq!(failure.get_kind(), IoFailureKind::NotFound);
    assert_eq!(failure.get_message(), "gone");

    // an entry fails after an asset was found: nothing is handed out
    let mut walk: DirectoryWalk<Race> = DirectoryWalk::begin(String::from("races"));
    walk.step(WalkEvent::Listing(Ok(vec![
        entry("races", "a.panic", false),
        Err(IoFailure::new(IoFailureKind::Other, String::from("entry"))),
        entry("races", "b.panic", false),
    ])));
    let action = walk.step(WalkEvent::Decoded(Ok(race(1, "a"))));
    assert!(matches!(action, WalkAction::Finished));
    // the walk has ended and takes nothing more in
    let action = walk.step(WalkEvent::Decoded(Ok(race(2, "b"))));
    assert!(matches!(action, WalkAction::Finished));
    let failure = walk.finish().unwrap().err().unwrap();
    assert_eq!(failure.get_kind(), IoFailureKind::Other);
    assert_eq!(failure.get_message(), "entry");

    // a file fails to decode
    let mut walk: DirectoryWalk<Race> = DirectoryWalk::begin(String::from("races"));
    walk.step(WalkEvent::Listing(Ok(vec![entry("races", "a.panic", false)])));
    let action = walk.step(WalkEvent::Decoded(Err(IoFailure::new(
        IoFailureKind::InvalidData,
        String::from("not a race"),
    ))));
    assert!(matches!(action, WalkAction::Finished));
    assert_eq!(walk.finish().unwrap().err().unwrap().get_kind(), IoFailureKind::InvalidData);
}

#[test]
fn merging_keeps_the_later_asset() {
    let mut collection = collect_assets(vec![race(1, "one"), race(2, "two")]);
    merge_assets(&mut collection, vec![race(2, "second"), race(3, "three"), race(2, "third")]);
    assert_eq!(collection.len(), 3);
    assert_eq!(collection[&1].get_name(), "one");
    assert_eq!(collection[&2].get_name(), "third");
    assert_eq!(collection[&3].get_name(), "three");
    assert_eq!(collect_assets(Vec::<Race>::new()).len(), 0);
}

#[test]
fn the_order_of_distinct_assets_does_not_matter() {
    let one = collect_assets(vec![race(1, "a"), race(2, "b"), race(3, "c")]);
    let other = collect_assets(vec![race(3, "c"), race(1, "a"), race(2, "b")]);
    assert_eq!(one.len(), other.len());
    for (id, race) in &one {
        assert_eq!(race.get_name(), other[id].get_name());
    }
}

#[test]
fn reversed_values() {
    assert_eq!(reversed(vec![1, 2, 3]), vec![3, 2, 1]);
    assert_eq!(reversed(Vec::<u8>::new()), Vec::<u8>::new());
}
