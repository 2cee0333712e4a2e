//! What a scan makes of an asset root, or of the directory of a campaign.
//!
//! A scanned directory is described by what lies behind each of its
//! entries: the campaign catalog, the definition of a campaign, or a tree
//! of classes, races or entities. The laws of this module say what a scan
//! has found, and what it has merged into the collections, when its caller
//! answers from such a description.

use vstd::prelude::*;
use crate::assets::asset::Asset;
use crate::assets::asset_manager::{catalog_of, Collections};
use crate::assets::asset_scan::{
    asked,
    scan_failed,
    scan_ran,
    scan_settled,
    scan_started,
    scan_stepped,
    walk_passed,
    walking,
    AssetKind,
    Asked,
    ScanEvent,
    ScanMode,
    ScanModel,
    ScanRequest,
    WalkSlot,
};
use crate::assets::campaign_load::{
    campaign_path,
    load_outcome,
    load_ran,
    load_started,
    LoadModel,
    LoadOutcome,
};
use crate::assets::directory_loader::merged;
use crate::assets::directory_tree::{
    answers,
    assets_below,
    describes,
    lemma_answers_tight,
    lemma_ended_walk_stays,
    lemma_settled_whatever_request,
    lemma_walk_through,
    resting,
    tight,
    walk_ran,
    Node,
};
use crate::assets::directory_walk::{
    settled,
    started,
    stepped,
    DirEntry,
    Listing,
    WalkEvent,
    WalkModel,
};
use crate::assets::io_failure::IoFailure;
use crate::assets::manager_load::only_defaults;
use crate::campaigns::campaign::Campaign;
use crate::campaigns::campaign_description::CampaignDescription;
use crate::entities::class::Class;
use crate::entities::entity::Entity;
use crate::entities::race::Race;

verus! {

/// What lies behind one entry of a scanned directory.
#[allow(inconsistent_fields)]
pub enum Behind {
    /// The outcome of reading the campaign catalog.
    Catalog { manifest: Result<Vec<CampaignDescription>, IoFailure> },
    /// The outcome of decoding the definition of a campaign.
    Definition { content: Result<Campaign, IoFailure> },
    /// A directory of classes: the outcome of listing it, and its tree.
    Classes { listing: Listing, children: Seq<Node<Class>> },
    /// A directory of races: the outcome of listing it, and its tree.
    Races { listing: Listing, children: Seq<Node<Race>> },
    /// A directory of entities: the outcome of listing it, and its tree.
    Entities { listing: Listing, children: Seq<Node<Entity>> },
    /// Anything else.
    Other,
}

/// What lies behind an entry is what the scan asks of the entry, and a
/// directory of assets has a tree of at most `depth` directories below it.
pub open spec fn matches_entry(mode: ScanMode, depth: nat, entry: DirEntry, behind: Behind) -> bool {
    match asked(mode, entry) {
        Asked::Nothing => true,
        Asked::Catalog => behind is Catalog,
        Asked::Definition => behind is Definition,
        Asked::Walk(AssetKind::Class) => match behind {
            Behind::Classes { listing: Ok(listed), children } => describes(
                depth,
                listed@,
                children,
            ),
            Behind::Classes { .. } => true,
            _ => false,
        },
        Asked::Walk(AssetKind::Race) => match behind {
            Behind::Races { listing: Ok(listed), children } => describes(depth, listed@, children),
            Behind::Races { .. } => true,
            _ => false,
        },
        Asked::Walk(AssetKind::Entity) => match behind {
            Behind::Entities { listing: Ok(listed), children } => describes(
                depth,
                listed@,
                children,
            ),
            Behind::Entities { .. } => true,
            _ => false,
        },
    }
}

/// There is one description for each entry, and each entry that could be
/// read has a description that matches it.
pub open spec fn fits(
    mode: ScanMode,
    depth: nat,
    entries: Seq<Result<DirEntry, IoFailure>>,
    behinds: Seq<Behind>,
) -> bool {
    &&& behinds.len() == entries.len()
    &&& forall|i: int|
        0 <= i < entries.len() && (#[trigger] entries[i]) is Ok ==> matches_entry(
            mode,
            depth,
            entries[i]->Ok_0,
            behinds[i],
        )
}

/// What a scan has found: the collections as far as they are filled, the
/// campaign decoded last, whether a catalog was read, and the failure that
/// ended the scan, if one did.
pub struct Found {
    pub assets: Collections,
    pub campaign: Option<Campaign>,
    pub manifest_seen: bool,
    pub failure: Option<IoFailure>,
}

/// What has been found after the assets below a directory of one kind were
/// loaded: they are merged into `landed`, or the load has failed.
pub open spec fn after_walk<T>(
    found: Found,
    depth: nat,
    listing: Listing,
    children: Seq<Node<T>>,
    landed: spec_fn(Seq<T>) -> Collections,
) -> Found {
    match listing {
        Err(failure) => Found { failure: Some(failure), ..found },
        Ok(listed) => match assets_below(depth, listed@, children) {
            Err(failure) => Found { failure: Some(failure), ..found },
            Ok(below) => Found { assets: landed(below), ..found },
        },
    }
}

/// What has been found after one entry was dealt with.
pub open spec fn after_entry(
    mode: ScanMode,
    depth: nat,
    entry: DirEntry,
    behind: Behind,
    found: Found,
) -> Found {
    match (asked(mode, entry), behind) {
        (Asked::Catalog, Behind::Catalog { manifest: Ok(entries) }) => Found {
            assets: Collections { campaign_descriptions: catalog_of(entries@), ..found.assets },
            manifest_seen: true,
            ..found
        },
        (Asked::Catalog, Behind::Catalog { manifest: Err(failure) }) => Found {
            failure: Some(failure),
            ..found
        },
        (Asked::Definition, Behind::Definition { content: Ok(campaign) }) => Found {
            campaign: Some(campaign),
            ..found
        },
        (Asked::Definition, Behind::Definition { content: Err(failure) }) => Found {
            failure: Some(failure),
            ..found
        },
        (Asked::Walk(AssetKind::Class), Behind::Classes { listing, children }) => after_walk(
            found,
            depth,
            listing,
            children,
            |below: Seq<Class>|
                Collections { classes: merged(found.assets.classes, below), ..found.assets },
        ),
        (Asked::Walk(AssetKind::Race), Behind::Races { listing, children }) => after_walk(
            found,
            depth,
            listing,
            children,
            |below: Seq<Race>|
                Collections { races: merged(found.assets.races, below), ..found.assets },
        ),
        (Asked::Walk(AssetKind::Entity), Behind::Entities { listing, children }) => after_walk(
            found,
            depth,
            listing,
            children,
            |below: Seq<Entity>|
                Collections { entities: merged(found.assets.entities, below), ..found.assets },
        ),
        _ => found,
    }
}

/// What a scan is to find in a directory: its entries are dealt with in
/// the order of the listing, each on top of what was found before it, up
/// to the first failure. What was merged before a failure stays merged.
pub open spec fn scanned(
    mode: ScanMode,
    depth: nat,
    entries: Seq<Result<DirEntry, IoFailure>>,
    behinds: Seq<Behind>,
    found: Found,
) -> Found
    decreases entries.len(),
{
    if entries.len() == 0 || behinds.len() == 0 {
        found
    } else {
        match entries[0] {
            Err(failure) => Found { failure: Some(failure), ..found },
            Ok(entry) => {
                let next = after_entry(mode, depth, entry, behinds[0], found);
                if next.failure is Some {
                    next
                } else {
                    scanned(mode, depth, entries.drop_first(), behinds.drop_first(), next)
                }
            },
        }
    }
}

/// An event of a walk over classes as an event of the scan.
pub open spec fn class_event(event: WalkEvent<Class>) -> ScanEvent {
    match event {
        WalkEvent::Listing(listing) => ScanEvent::Listing(listing),
        WalkEvent::Decoded(outcome) => ScanEvent::Class(outcome),
    }
}

/// An event of a walk over races as an event of the scan.
pub open spec fn race_event(event: WalkEvent<Race>) -> ScanEvent {
    match event {
        WalkEvent::Listing(listing) => ScanEvent::Listing(listing),
        WalkEvent::Decoded(outcome) => ScanEvent::Race(outcome),
    }
}

/// An event of a walk over entities as an event of the scan.
pub open spec fn entity_event(event: WalkEvent<Entity>) -> ScanEvent {
    match event {
        WalkEvent::Listing(listing) => ScanEvent::Listing(listing),
        WalkEvent::Decoded(outcome) => ScanEvent::Entity(outcome),
    }
}

/// What the caller hands back while a directory of assets is loaded: its
/// listing, then the answers from its tree.
pub open spec fn walk_answers<T>(
    depth: nat,
    listing: Listing,
    children: Seq<Node<T>>,
    as_scan_event: spec_fn(WalkEvent<T>) -> ScanEvent,
) -> Seq<ScanEvent> {
    match listing {
        Err(_) => seq![ScanEvent::Listing(listing)],
        Ok(listed) => seq![ScanEvent::Listing(listing)] + answers(depth, listed@, children).map_values(
            as_scan_event,
        ),
    }
}

/// What the caller hands back while one entry is dealt with.
pub open spec fn entry_answers(mode: ScanMode, depth: nat, entry: DirEntry, behind: Behind) -> Seq<
    ScanEvent,
> {
    match (asked(mode, entry), behind) {
        (Asked::Catalog, Behind::Catalog { manifest }) => seq![ScanEvent::Manifest(manifest)],
        (Asked::Definition, Behind::Definition { content }) => seq![ScanEvent::Campaign(content)],
        (Asked::Walk(AssetKind::Class), Behind::Classes { listing, children }) => walk_answers(
            depth,
            listing,
            children,
            |event: WalkEvent<Class>| class_event(event),
        ),
        (Asked::Walk(AssetKind::Race), Behind::Races { listing, children }) => walk_answers(
            depth,
            listing,
            children,
            |event: WalkEvent<Race>| race_event(event),
        ),
        (Asked::Walk(AssetKind::Entity), Behind::Entities { listing, children }) => walk_answers(
            depth,
            listing,
            children,
            |event: WalkEvent<Entity>| entity_event(event),
        ),
        _ => Seq::empty(),
    }
}

/// What the caller of a scan hands back, in order, while the scan deals
/// with the entries.
pub open spec fn scan_answers(
    mode: ScanMode,
    depth: nat,
    entries: Seq<Result<DirEntry, IoFailure>>,
    behinds: Seq<Behind>,
) -> Seq<ScanEvent>
    decreases entries.len(),
{
    if entries.len() == 0 || behinds.len() == 0 {
        Seq::empty()
    } else {
        let after = scan_answers(mode, depth, entries.drop_first(), behinds.drop_first());
        match entries[0] {
            Err(_) => after,
            Ok(entry) => entry_answers(mode, depth, entry, behinds[0]) + after,
        }
    }
}

/// A scan that has ended takes no event in.
pub proof fn lemma_ended_scan_stays(scan: ScanModel, assets: Collections, events: Seq<ScanEvent>)
    requires
        scan.request is Finished,
        scan.walk is Idle,
    ensures
        scan_ran(scan, assets, events) == (scan, assets),
    decreases events.len(),
{
    if events.len() > 0 {
        lemma_ended_scan_stays(scan, assets, events.drop_first());
    }
}

/// Running through one event is taking that event in.
pub proof fn lemma_scan_ran_one(scan: ScanModel, assets: Collections, event: ScanEvent)
    ensures
        scan_ran(scan, assets, seq![event]) == scan_stepped(scan, assets, event),
{
    let events = seq![event];
    assert(events[0] == event);
    assert(events.drop_first().len() == 0);
    let (next, merged) = scan_stepped(scan, assets, event);
    assert(scan_ran(next, merged, events.drop_first()) == (next, merged));
}

/// Running through two sequences of events, one after the other, is running
/// through both.
pub proof fn lemma_scan_ran_on(
    scan: ScanModel,
    assets: Collections,
    first: Seq<ScanEvent>,
    second: Seq<ScanEvent>,
)
    ensures
        scan_ran(scan, assets, first + second) == scan_ran(
            scan_ran(scan, assets, first).0,
            scan_ran(scan, assets, first).1,
            second,
        ),
    decreases first.len(),
{
    if first.len() == 0 {
        assert(first + second =~= second);
    } else {
        assert((first + second)[0] == first[0]);
        assert((first + second).drop_first() =~= first.drop_first() + second);
        let (next, merged) = scan_stepped(scan, assets, first[0]);
        lemma_scan_ran_on(next, merged, first.drop_first(), second);
    }
}

/// What a scan settles into does not depend on what it waited for before.
pub proof fn lemma_scan_settled_whatever_request(scan: ScanModel, request: ScanRequest)
    ensures
        scan_settled(ScanModel { request, ..scan }) == scan_settled(scan),
    decreases scan.pending.len(),
{
    if scan.pending.len() > 0 {
        let rest = ScanModel { pending: scan.pending.drop_first(), ..scan };
        lemma_scan_settled_whatever_request(rest, request);
    }
}

/// The scan and the collections while a walk over classes is in the given
/// state.
pub open spec fn classes_landed(scan: ScanModel, assets: Collections, walk: WalkModel<Class>) -> (
    ScanModel,
    Collections,
) {
    walk_passed(
        scan,
        assets,
        AssetKind::Class,
        walk,
        WalkSlot::Classes(walk),
        Collections { classes: merged(assets.classes, walk.found), ..assets },
    )
}

/// The scan and the collections while a walk over races is in the given
/// state.
pub open spec fn races_landed(scan: ScanModel, assets: Collections, walk: WalkModel<Race>) -> (
    ScanModel,
    Collections,
) {
    walk_passed(
        scan,
        assets,
        AssetKind::Race,
        walk,
        WalkSlot::Races(walk),
        Collections { races: merged(assets.races, walk.found), ..assets },
    )
}

/// The scan and the collections while a walk over entities is in the given
/// state.
pub open spec fn entities_landed(scan: ScanModel, assets: Collections, walk: WalkModel<Entity>) -> (
    ScanModel,
    Collections,
) {
    walk_passed(
        scan,
        assets,
        AssetKind::Entity,
        walk,
        WalkSlot::Entities(walk),
        Collections { entities: merged(assets.entities, walk.found), ..assets },
    )
}

/// A walk over classes inside a scan: the scan hands the events on to the
/// walk, and stands at every moment where the state of the walk puts it.
pub proof fn lemma_classes_in_scan(
    scan: ScanModel,
    assets: Collections,
    walk: WalkModel<Class>,
    events: Seq<WalkEvent<Class>>,
)
    requires
        tight(walk, events),
    ensures
        ({
            let begun = classes_landed(scan, assets, walk);
            scan_ran(
                begun.0,
                begun.1,
                events.map_values(|event: WalkEvent<Class>| class_event(event)),
            ) == classes_landed(scan, assets, walk_ran(walk, events))
        }),
    decreases events.len(),
{
    let as_scan = |event: WalkEvent<Class>| class_event(event);
    let begun = classes_landed(scan, assets, walk);
    if events.len() == 0 {
    } else if walk.request is Finished {
        lemma_ended_walk_stays(walk, events);
        lemma_ended_scan_stays(begun.0, begun.1, events.map_values(as_scan));
    } else {
        assert(events.map_values(as_scan)[0] == class_event(events[0]));
        assert(events.map_values(as_scan).drop_first() =~= events.drop_first().map_values(
            as_scan,
        ));
        let next = stepped(walk, events[0]);
        lemma_scan_settled_whatever_request(
            ScanModel { walk: WalkSlot::Idle, ..scan },
            begun.0.request,
        );
        assert(scan_stepped(begun.0, begun.1, class_event(events[0])) == classes_landed(
            scan,
            assets,
            next,
        ));
        lemma_classes_in_scan(scan, assets, next, events.drop_first());
    }
}

/// A walk over races inside a scan: the scan hands the events on to the
/// walk, and stands at every moment where the state of the walk puts it.
pub proof fn lemma_races_in_scan(
    scan: ScanModel,
    assets: Collections,
    walk: WalkModel<Race>,
    events: Seq<WalkEvent<Race>>,
)
    requires
        tight(walk, events),
    ensures
        ({
            let begun = races_landed(scan, assets, walk);
            scan_ran(
                begun.0,
                begun.1,
                events.map_values(|event: WalkEvent<Race>| race_event(event)),
            ) == races_landed(scan, assets, walk_ran(walk, events))
        }),
    decreases events.len(),
{
    let as_scan = |event: WalkEvent<Race>| race_event(event);
    let begun = races_landed(scan, assets, walk);
    if events.len() == 0 {
    } else if walk.request is Finished {
        lemma_ended_walk_stays(walk, events);
        lemma_ended_scan_stays(begun.0, begun.1, events.map_values(as_scan));
    } else {
        assert(events.map_values(as_scan)[0] == race_event(events[0]));
        assert(events.map_values(as_scan).drop_first() =~= events.drop_first().map_values(
            as_scan,
        ));
        let next = stepped(walk, events[0]);
        lemma_scan_settled_whatever_request(
            ScanModel { walk: WalkSlot::Idle, ..scan },
            begun.0.request,
        );
        assert(scan_stepped(begun.0, begun.1, race_event(events[0])) == races_landed(
            scan,
            assets,
            next,
        ));
        lemma_races_in_scan(scan, assets, next, events.drop_first());
    }
}

/// A walk over entities inside a scan: the scan hands the events on to the
/// walk, and stands at every moment where the state of the walk puts it.
pub proof fn lemma_entities_in_scan(
    scan: ScanModel,
    assets: Collections,
    walk: WalkModel<Entity>,
    events: Seq<WalkEvent<Entity>>,
)
    requires
        tight(walk, events),
    ensures
        ({
            let begun = entities_landed(scan, assets, walk);
            scan_ran(
                begun.0,
                begun.1,
                events.map_values(|event: WalkEvent<Entity>| entity_event(event)),
            ) == entities_landed(scan, assets, walk_ran(walk, events))
        }),
    decreases events.len(),
{
    let as_scan = |event: WalkEvent<Entity>| entity_event(event);
    let begun = entities_landed(scan, assets, walk);
    if events.len() == 0 {
    } else if walk.request is Finished {
        lemma_ended_walk_stays(walk, events);
        lemma_ended_scan_stays(begun.0, begun.1, events.map_values(as_scan));
    } else {
        assert(events.map_values(as_scan)[0] == entity_event(events[0]));
        assert(events.map_values(as_scan).drop_first() =~= events.drop_first().map_values(
            as_scan,
        ));
        let next = stepped(walk, events[0]);
        lemma_scan_settled_whatever_request(
            ScanModel { walk: WalkSlot::Idle, ..scan },
            begun.0.request,
        );
        assert(scan_stepped(begun.0, begun.1, entity_event(events[0])) == entities_landed(
            scan,
            assets,
            next,
        ));
        lemma_entities_in_scan(scan, assets, next, events.drop_first());
    }
}

/// The assets of a directory of classes inside a scan: the scan that has
/// come to the directory and is answered from its tree goes on with the
/// entries behind it, the classes below the directory merged into the
/// collections; or it has ended with the first failure in the directory.
pub proof fn lemma_classes_entry(
    scan: ScanModel,
    assets: Collections,
    path: Seq<char>,
    depth: nat,
    listing: Listing,
    children: Seq<Node<Class>>,
)
    requires
        listing is Ok ==> describes(depth, listing->Ok_0@, children),
    ensures
        ({
            let end = scan_ran(
                walking(scan, AssetKind::Class, path),
                assets,
                walk_answers(depth, listing, children, |event: WalkEvent<Class>| class_event(event)),
            );
            match listing {
                Err(failure) => end == (scan_failed(scan, failure), assets),
                Ok(listed) => match assets_below(depth, listed@, children) {
                    Err(failure) => end == (scan_failed(scan, failure), assets),
                    Ok(below) => end == (
                        scan_settled(ScanModel { walk: WalkSlot::Idle, ..scan }),
                        Collections { classes: merged(assets.classes, below), ..assets },
                    ),
                },
            }
        }),
{
    let as_scan = |event: WalkEvent<Class>| class_event(event);
    let begun = walking(scan, AssetKind::Class, path);
    let first = ScanEvent::Listing(listing);
    lemma_scan_ran_one(begun, assets, first);
    let empty = Seq::<Result<DirEntry, IoFailure>>::empty();
    lemma_scan_settled_whatever_request(ScanModel { walk: WalkSlot::Idle, ..scan }, begun.request);
    match listing {
        Err(_) => {},
        Ok(listed) => {
            let inner = answers(depth, listed@, children);
            let entered = stepped(started::<Class>(path), WalkEvent::Listing(listing));
            assert(started::<Class>(path).pending =~= empty);
            lemma_settled_whatever_request(
                resting(listed@ + empty, Seq::<Class>::empty()),
                started::<Class>(path).request,
            );
            assert(entered == settled(resting(listed@ + empty, Seq::<Class>::empty())));
            assert(scan_stepped(begun, assets, first) == classes_landed(scan, assets, entered));
            lemma_scan_ran_on(begun, assets, seq![first], inner.map_values(as_scan));
            lemma_answers_tight(depth, listed@, children, empty, Seq::<Class>::empty());
            lemma_classes_in_scan(scan, assets, entered, inner);
            lemma_walk_through(depth, listed@, children, empty, Seq::<Class>::empty());
            match assets_below(depth, listed@, children) {
                Err(_) => {},
                Ok(below) => {
                    assert(Seq::<Class>::empty() + below =~= below);
                },
            }
        },
    }
}

/// The assets of a directory of races inside a scan: the scan that has
/// come to the directory and is answered from its tree goes on with the
/// entries behind it, the races below the directory merged into the
/// collections; or it has ended with the first failure in the directory.
pub proof fn lemma_races_entry(
    scan: ScanModel,
    assets: Collections,
    path: Seq<char>,
    depth: nat,
    listing: Listing,
    children: Seq<Node<Race>>,
)
    requires
        listing is Ok ==> describes(depth, listing->Ok_0@, children),
    ensures
        ({
            let end = scan_ran(
                walking(scan, AssetKind::Race, path),
                assets,
                walk_answers(depth, listing, children, |event: WalkEvent<Race>| race_event(event)),
            );
            match listing {
                Err(failure) => end == (scan_failed(scan, failure), assets),
                Ok(listed) => match assets_below(depth, listed@, children) {
                    Err(failure) => end == (scan_failed(scan, failure), assets),
                    Ok(below) => end == (
                        scan_settled(ScanModel { walk: WalkSlot::Idle, ..scan }),
                        Collections { races: merged(assets.races, below), ..assets },
                    ),
                },
            }
        }),
{
    let as_scan = |event: WalkEvent<Race>| race_event(event);
    let begun = walking(scan, AssetKind::Race, path);
    let first = ScanEvent::Listing(listing);
    lemma_scan_ran_one(begun, assets, first);
    let empty = Seq::<Result<DirEntry, IoFailure>>::empty();
    lemma_scan_settled_whatever_request(ScanModel { walk: WalkSlot::Idle, ..scan }, begun.request);
    match listing {
        Err(_) => {},
        Ok(listed) => {
            let inner = answers(depth, listed@, children);
            let entered = stepped(started::<Race>(path), WalkEvent::Listing(listing));
            assert(started::<Race>(path).pending =~= empty);
            lemma_settled_whatever_request(
                resting(listed@ + empty, Seq::<Race>::empty()),
                started::<Race>(path).request,
            );
            assert(entered == settled(resting(listed@ + empty, Seq::<Race>::empty())));
            assert(scan_stepped(begun, assets, first) == races_landed(scan, assets, entered));
            lemma_scan_ran_on(begun, assets, seq![first], inner.map_values(as_scan));
            lemma_answers_tight(depth, listed@, children, empty, Seq::<Race>::empty());
            lemma_races_in_scan(scan, assets, entered, inner);
            lemma_walk_through(depth, listed@, children, empty, Seq::<Race>::empty());
            match assets_below(depth, listed@, children) {
                Err(_) => {},
                Ok(below) => {
                    assert(Seq::<Race>::empty() + below =~= below);
                },
            }
        },
    }
}

/// The assets of a directory of entities inside a scan: the scan that has
/// come to the directory and is answered from its tree goes on with the
/// entries behind it, the entities below the directory merged into the
/// collections; or it has ended with the first failure in the directory.
pub proof fn lemma_entities_entry(
    scan: ScanModel,
    assets: Collections,
    path: Seq<char>,
    depth: nat,
    listing: Listing,
    children: Seq<Node<Entity>>,
)
    requires
        listing is Ok ==> describes(depth, listing->Ok_0@, children),
    ensures
        ({
            let end = scan_ran(
                walking(scan, AssetKind::Entity, path),
                assets,
                walk_answers(
                    depth,
                    listing,
                    children,
                    |event: WalkEvent<Entity>| entity_event(event),
                ),
            );
            match listing {
                Err(failure) => end == (scan_failed(scan, failure), assets),
                Ok(listed) => match assets_below(depth, listed@, children) {
                    Err(failure) => end == (scan_failed(scan, failure), assets),
                    Ok(below) => end == (
                        scan_settled(ScanModel { walk: WalkSlot::Idle, ..scan }),
                        Collections { entities: merged(assets.entities, below), ..assets },
                    ),
                },
            }
        }),
{
    let as_scan = |event: WalkEvent<Entity>| entity_event(event);
    let begun = walking(scan, AssetKind::Entity, path);
    let first = ScanEvent::Listing(listing);
    lemma_scan_ran_one(begun, assets, first);
    let empty = Seq::<Result<DirEntry, IoFailure>>::empty();
    lemma_scan_settled_whatever_request(ScanModel { walk: WalkSlot::Idle, ..scan }, begun.request);
    match listing {
        Err(_) => {},
        Ok(listed) => {
            let inner = answers(depth, listed@, children);
            let entered = stepped(started::<Entity>(path), WalkEvent::Listing(listing));
            assert(started::<Entity>(path).pending =~= empty);
            lemma_settled_whatever_request(
                resting(listed@ + empty, Seq::<Entity>::empty()),
                started::<Entity>(path).request,
            );
            assert(entered == settled(resting(listed@ + empty, Seq::<Entity>::empty())));
            assert(scan_stepped(begun, assets, first) == entities_landed(scan, assets, entered));
            lemma_scan_ran_on(begun, assets, seq![first], inner.map_values(as_scan));
            lemma_answers_tight(depth, listed@, children, empty, Seq::<Entity>::empty());
            lemma_entities_in_scan(scan, assets, entered, inner);
            lemma_walk_through(depth, listed@, children, empty, Seq::<Entity>::empty());
            match assets_below(depth, listed@, children) {
                Err(_) => {},
                Ok(below) => {
                    assert(Seq::<Entity>::empty() + below =~= below);
                },
            }
        },
    }
}

/// A scan that waits for nothing, with the given entries pending, and with
/// the campaign and the catalog flag of what was found.
pub open spec fn at_rest(
    mode: ScanMode,
    pending: Seq<Result<DirEntry, IoFailure>>,
    found: Found,
) -> ScanModel {
    ScanModel {
        mode,
        pending,
        walk: WalkSlot::Idle,
        request: ScanRequest::Finished,
        campaign: found.campaign,
        manifest_seen: found.manifest_seen,
        failure: None,
    }
}

/// The scan has ended, and it and the collections hold what was found.
pub open spec fn ended_with(
    scan: ScanModel,
    assets: Collections,
    mode: ScanMode,
    found: Found,
) -> bool {
    &&& scan.mode == mode
    &&& scan.walk is Idle
    &&& scan.request is Finished
    &&& scan.campaign == found.campaign
    &&& scan.manifest_seen == found.manifest_seen
    &&& scan.failure == found.failure
    &&& assets == found.assets
}

/// The scan through a directory: a scan that has settled before entries
/// which the descriptions fit, and is answered from the descriptions, ends
/// with what is to be found in the directory.
pub proof fn lemma_scan_through(
    mode: ScanMode,
    depth: nat,
    entries: Seq<Result<DirEntry, IoFailure>>,
    behinds: Seq<Behind>,
    found: Found,
)
    requires
        fits(mode, depth, entries, behinds),
        found.failure is None,
    ensures
        ({
            let end = scan_ran(
                scan_settled(at_rest(mode, entries, found)),
                found.assets,
                scan_answers(mode, depth, entries, behinds),
            );
            ended_with(end.0, end.1, mode, scanned(mode, depth, entries, behinds, found))
        }),
    decreases entries.len(),
{
    let assets = found.assets;
    let begun = scan_settled(at_rest(mode, entries, found));
    let events = scan_answers(mode, depth, entries, behinds);
    if entries.len() > 0 {
        let rest = entries.drop_first();
        let rest_behinds = behinds.drop_first();
        let after = scan_answers(mode, depth, rest, rest_behinds);
        let resting = at_rest(mode, rest, found);
        assert(fits(mode, depth, rest, rest_behinds)) by {
            assert forall|i: int|
                0 <= i < rest.len() && (#[trigger] rest[i]) is Ok implies matches_entry(
                mode,
                depth,
                rest[i]->Ok_0,
                rest_behinds[i],
            ) by {
                assert(rest[i] == entries[i + 1]);
                assert(rest_behinds[i] == behinds[i + 1]);
            }
        }
        match entries[0] {
            Err(failure) => {
                lemma_ended_scan_stays(begun, assets, events);
            },
            Ok(entry) => {
                assert(matches_entry(mode, depth, entry, behinds[0]));
                let first = entry_answers(mode, depth, entry, behinds[0]);
                let next = after_entry(mode, depth, entry, behinds[0], found);
                lemma_scan_ran_on(begun, assets, first, after);
                let left = scan_ran(begun, assets, first);
                if next.failure is None {
                    lemma_scan_through(mode, depth, rest, rest_behinds, next);
                }
                lemma_scan_settled_whatever_request(at_rest(mode, rest, next), begun.request);
                match asked(mode, entry) {
                    Asked::Nothing => {
                        assert(first + after =~= after);
                    },
                    Asked::Catalog => {
                        let manifest = behinds[0]->Catalog_manifest;
                        lemma_scan_ran_one(begun, assets, ScanEvent::Manifest(manifest));
                        if next.failure is Some {
                            lemma_ended_scan_stays(left.0, left.1, after);
                        }
                    },
                    Asked::Definition => {
                        let content = behinds[0]->Definition_content;
                        lemma_scan_ran_one(begun, assets, ScanEvent::Campaign(content));
                        if next.failure is Some {
                            lemma_ended_scan_stays(left.0, left.1, after);
                        }
                    },
                    Asked::Walk(AssetKind::Class) => {
                        match behinds[0] {
                            Behind::Classes { listing, children } => {
                                lemma_classes_entry(
                                    resting,
                                    assets,
                                    entry.path@,
                                    depth,
                                    listing,
                                    children,
                                );
                            },
                            _ => {},
                        }
                        if next.failure is Some {
                            lemma_ended_scan_stays(left.0, left.1, after);
                        }
                    },
                    Asked::Walk(AssetKind::Race) => {
                        match behinds[0] {
                            Behind::Races { listing, children } => {
                                lemma_races_entry(
                                    resting,
                                    assets,
                                    entry.path@,
                                    depth,
                                    listing,
                                    children,
                                );
                            },
                            _ => {},
                        }
                        if next.failure is Some {
                            lemma_ended_scan_stays(left.0, left.1, after);
                        }
                    },
                    Asked::Walk(AssetKind::Entity) => {
                        match behinds[0] {
                            Behind::Entities { listing, children } => {
                                lemma_entities_entry(
                                    resting,
                                    assets,
                                    entry.path@,
                                    depth,
                                    listing,
                                    children,
                                );
                            },
                            _ => {},
                        }
                        if next.failure is Some {
                            lemma_ended_scan_stays(left.0, left.1, after);
                        }
                    },
                }
            },
        }
    }
}

/// Nothing found yet, over the given collections.
pub open spec fn nothing_yet(assets: Collections) -> Found {
    Found { assets, campaign: None, manifest_seen: false, failure: None }
}

/// What a scan is to find in a directory whose listing and descriptions
/// are given, over the given collections.
pub open spec fn scan_of(
    mode: ScanMode,
    depth: nat,
    listing: Listing,
    behinds: Seq<Behind>,
    assets: Collections,
) -> Found {
    match listing {
        Err(failure) => Found { failure: Some(failure), ..nothing_yet(assets) },
        Ok(listed) => scanned(mode, depth, listed@, behinds, nothing_yet(assets)),
    }
}

/// The events of a whole scan: the listing of the directory, then the
/// answers from what lies behind its entries.
pub open spec fn scan_events(
    mode: ScanMode,
    depth: nat,
    listing: Listing,
    behinds: Seq<Behind>,
) -> Seq<ScanEvent> {
    match listing {
        Err(_) => seq![ScanEvent::Listing(listing)],
        Ok(listed) => seq![ScanEvent::Listing(listing)] + scan_answers(
            mode,
            depth,
            listed@,
            behinds,
        ),
    }
}

/// The scan of a directory: a scan that begins at a directory and is
/// answered from the listing of the directory and from what lies behind its
/// entries ends with what is to be found there, merged into the
/// collections.
pub proof fn lemma_scan(
    mode: ScanMode,
    path: Seq<char>,
    depth: nat,
    listing: Listing,
    behinds: Seq<Behind>,
    assets: Collections,
)
    requires
        listing is Ok ==> fits(mode, depth, listing->Ok_0@, behinds),
    ensures
        ({
            let end = scan_ran(
                scan_started(mode, path),
                assets,
                scan_events(mode, depth, listing, behinds),
            );
            ended_with(end.0, end.1, mode, scan_of(mode, depth, listing, behinds, assets))
        }),
{
    let begun = scan_started(mode, path);
    let first = ScanEvent::Listing(listing);
    lemma_scan_ran_one(begun, assets, first);
    match listing {
        Err(_) => {},
        Ok(listed) => {
            let found = nothing_yet(assets);
            lemma_scan_ran_on(begun, assets, seq![first], scan_answers(mode, depth, listed@, behinds));
            assert(listed@ + begun.pending =~= listed@);
            lemma_scan_settled_whatever_request(at_rest(mode, listed@, found), begun.request);
            lemma_scan_through(mode, depth, listed@, behinds, found);
        },
    }
}

/// The construction of a manager from an asset root: answered from the
/// listing of the asset root and from what lies behind its entries, the
/// scan of the construction ends. It has failed where a read failed, and
/// has seen a catalog where the asset root has a directory `campaigns`
/// whose catalog was read. Otherwise its collections are the defaults with
/// the catalog in place and with every asset below the directories
/// `classes`, `races` and `entities` merged in, in the order of the
/// listings.
pub proof fn lemma_construction(
    asset_root: Seq<char>,
    depth: nat,
    listing: Listing,
    behinds: Seq<Behind>,
    defaults: Collections,
)
    requires
        only_defaults(defaults, asset_root),
        listing is Ok ==> fits(ScanMode::Root, depth, listing->Ok_0@, behinds),
    ensures
        ({
            let end = scan_ran(
                scan_started(ScanMode::Root, asset_root),
                defaults,
                scan_events(ScanMode::Root, depth, listing, behinds),
            );
            let found = scan_of(ScanMode::Root, depth, listing, behinds, defaults);
            &&& end.0.request is Finished
            &&& end.0.failure == found.failure
            &&& end.0.manifest_seen == found.manifest_seen
            &&& end.1 == found.assets
        }),
{
    lemma_scan(ScanMode::Root, asset_root, depth, listing, behinds, defaults);
}

/// A load that scans runs as its scan does.
pub proof fn lemma_load_runs_as_scan(scan: ScanModel, assets: Collections, events: Seq<ScanEvent>)
    ensures
        load_ran(LoadModel::Scanning(scan), assets, events) == (
            LoadModel::Scanning(scan_ran(scan, assets, events).0),
            scan_ran(scan, assets, events).1,
        ),
    decreases events.len(),
{
    if events.len() > 0 {
        let (next, merged) = scan_stepped(scan, assets, events[0]);
        lemma_load_runs_as_scan(next, merged, events.drop_first());
    }
}

/// How a load ends that has found the given things: with the failure, if
/// there is one; else without a campaign, if none was found; else with the
/// campaign, which is stored unless its identifier is taken.
pub open spec fn outcome_for(found: Found) -> LoadOutcome {
    if found.failure is Some {
        LoadOutcome::IoError
    } else if found.campaign is None {
        LoadOutcome::NoCampaignFound
    } else if found.assets.campaigns.contains_key(found.campaign->0.uuid()) {
        LoadOutcome::UuidDuplicate
    } else {
        LoadOutcome::Loaded
    }
}

/// The loading of a campaign from its directory: the load of a campaign
/// that the catalog lists, answered from the listing of the campaign's
/// directory and from what lies behind its entries, ends; the assets of the
/// directories of classes, races and entities up to the first failure are
/// merged into the collections; and the load ends as what was found
/// demands.
pub proof fn lemma_campaign_load(
    assets: Collections,
    id: u128,
    depth: nat,
    listing: Listing,
    behinds: Seq<Behind>,
)
    requires
        assets.campaign_descriptions.contains_key(id),
        listing is Ok ==> fits(ScanMode::Campaign, depth, listing->Ok_0@, behinds),
    ensures
        ({
            let (load, merged) = load_ran(
                load_started(assets, id),
                assets,
                scan_events(ScanMode::Campaign, depth, listing, behinds),
            );
            let found = scan_of(ScanMode::Campaign, depth, listing, behinds, assets);
            &&& load is Scanning
            &&& ended_with(load->Scanning_0, merged, ScanMode::Campaign, found)
            &&& load_outcome(load, merged) == Some(outcome_for(found))
        }),
{
    let begun = scan_started(ScanMode::Campaign, campaign_path(assets, id));
    let events = scan_events(ScanMode::Campaign, depth, listing, behinds);
    lemma_load_runs_as_scan(begun, assets, events);
    lemma_scan(ScanMode::Campaign, campaign_path(assets, id), depth, listing, behinds, assets);
}

} // verus!
