//! The construction of an asset manager from an asset root.

use vstd::prelude::*;
use vstd::string::StringExecFns;
use crate::assets::asset::Asset;
use crate::assets::asset_manager::{AssetManager, Collections};
use crate::assets::asset_scan::{
    scan_ran,
    scan_started,
    scan_stepped,
    AssetScan,
    ScanAction,
    ScanEvent,
    ScanMode,
    ScanModel,
    WalkSlot,
};
use crate::assets::directory_loader::{alike, lemma_merged_alike};
use crate::assets::directory_walk::{stepped, WalkEvent};
use crate::assets::identifier::nil;
use crate::assets::io_failure::{IoFailure, IoFailureKind};
use crate::campaigns::campaign::Campaign;
use crate::campaigns::campaign_description::CampaignDescription;
use crate::entities::class::Class;
use crate::entities::entity::Entity;
use crate::entities::race::Race;
use crate::mechanics::dice::Dice;

verus! {

/// The collections of a manager that holds the built-in defaults and
/// nothing else: a nameless class with a four-sided hit die and a nameless
/// race of speed 0, both under the nil identifier.
pub open spec fn only_defaults(assets: Collections, asset_root: Seq<char>) -> bool {
    &&& assets.asset_root == asset_root
    &&& assets.classes.dom() == set![nil()]
    &&& assets.classes[nil()].uuid() == nil()
    &&& assets.classes[nil()].name() == Seq::<char>::empty()
    &&& assets.classes[nil()].hit_die() == Dice::D4
    &&& assets.races.dom() == set![nil()]
    &&& assets.races[nil()].uuid() == nil()
    &&& assets.races[nil()].name() == Seq::<char>::empty()
    &&& assets.races[nil()].speed() == 0
    &&& assets.entities == Map::<u128, Entity>::empty()
    &&& assets.campaigns == Map::<u128, Campaign>::empty()
    &&& assets.campaign_descriptions == Map::<u128, CampaignDescription>::empty()
}

/// What the failure says when an asset root holds no campaign catalog.
pub open spec fn missing_catalog_message() -> Seq<char> {
    "the asset root holds no campaign catalog"@
}

/// Two classes have the same identifier, name and hit die.
pub open spec fn same_class(left: Class, right: Class) -> bool {
    &&& left.uuid() == right.uuid()
    &&& left.name() == right.name()
    &&& left.hit_die() == right.hit_die()
}

/// Two races have the same identifier, name and speed.
pub open spec fn same_race(left: Race, right: Race) -> bool {
    &&& left.uuid() == right.uuid()
    &&& left.name() == right.name()
    &&& left.speed() == right.speed()
}

/// Two sets of collections are identical: the same asset root, the same
/// catalog, campaigns and entities, and classes and races that agree, under
/// every identifier, in all that a class or a race holds.
pub open spec fn identical(left: Collections, right: Collections) -> bool {
    &&& left.asset_root == right.asset_root
    &&& left.campaign_descriptions == right.campaign_descriptions
    &&& left.campaigns == right.campaigns
    &&& left.entities == right.entities
    &&& alike(left.classes, right.classes, |a: Class, b: Class| same_class(a, b))
    &&& alike(left.races, right.races, |a: Race, b: Race| same_race(a, b))
}

/// What a scan does next never depends on the collections, and collections
/// that are identical before an event are identical after it.
pub proof fn lemma_stepped_identical(
    scan: ScanModel,
    left: Collections,
    right: Collections,
    event: ScanEvent,
)
    requires
        identical(left, right),
    ensures
        scan_stepped(scan, left, event).0 == scan_stepped(scan, right, event).0,
        identical(scan_stepped(scan, left, event).1, scan_stepped(scan, right, event).1),
{
    let same_classes = |a: Class, b: Class| same_class(a, b);
    let same_races = |a: Race, b: Race| same_race(a, b);
    match scan.walk {
        WalkSlot::Classes(walk) => {
            match event {
                ScanEvent::Listing(listing) => {
                    let next = stepped(walk, WalkEvent::Listing(listing));
                    lemma_merged_alike(left.classes, right.classes, next.found, same_classes);
                },
                ScanEvent::Class(outcome) => {
                    let next = stepped(walk, WalkEvent::Decoded(outcome));
                    lemma_merged_alike(left.classes, right.classes, next.found, same_classes);
                },
                _ => {},
            }
        },
        WalkSlot::Races(walk) => {
            match event {
                ScanEvent::Listing(listing) => {
                    let next = stepped(walk, WalkEvent::Listing(listing));
                    lemma_merged_alike(left.races, right.races, next.found, same_races);
                },
                ScanEvent::Race(outcome) => {
                    let next = stepped(walk, WalkEvent::Decoded(outcome));
                    lemma_merged_alike(left.races, right.races, next.found, same_races);
                },
                _ => {},
            }
        },
        _ => {},
    }
}

/// From the same state, the same events lead to the same requests and to
/// identical collections, where the collections were identical before.
pub proof fn lemma_ran_identical(
    scan: ScanModel,
    left: Collections,
    right: Collections,
    events: Seq<ScanEvent>,
)
    requires
        identical(left, right),
    ensures
        scan_ran(scan, left, events).0 == scan_ran(scan, right, events).0,
        identical(scan_ran(scan, left, events).1, scan_ran(scan, right, events).1),
    decreases events.len(),
{
    if events.len() > 0 {
        lemma_stepped_identical(scan, left, right, events[0]);
        let (next, merged_left) = scan_stepped(scan, left, events[0]);
        let (_, merged_right) = scan_stepped(scan, right, events[0]);
        lemma_ran_identical(next, merged_left, merged_right, events.drop_first());
    }
}

/// Loading twice: two constructions that begin at the same asset root and
/// are handed the same events end with identical collections, and ask for
/// the same things on the way.
pub proof fn lemma_loading_twice(
    asset_root: Seq<char>,
    first: Collections,
    second: Collections,
    events: Seq<ScanEvent>,
)
    requires
        only_defaults(first, asset_root),
        only_defaults(second, asset_root),
    ensures
        scan_ran(scan_started(ScanMode::Root, asset_root), first, events).0 == scan_ran(
            scan_started(ScanMode::Root, asset_root),
            second,
            events,
        ).0,
        identical(
            scan_ran(scan_started(ScanMode::Root, asset_root), first, events).1,
            scan_ran(scan_started(ScanMode::Root, asset_root), second, events).1,
        ),
{
    assert(first.classes.dom() =~= second.classes.dom());
    assert(first.races.dom() =~= second.races.dom());
    lemma_ran_identical(scan_started(ScanMode::Root, asset_root), first, second, events);
}

/// An asset manager under construction: the scan of its asset root, and
/// the manager as far as it is filled.
pub struct ManagerLoad {
    scan: AssetScan,
    manager: AssetManager,
}

impl ManagerLoad {
    /// The state of the scan.
    pub closed spec fn scan(&self) -> ScanModel {
        self.scan@
    }

    /// The collections as far as they are filled.
    pub closed spec fn assets(&self) -> Collections {
        self.manager@
    }

    /// The manager under construction is well formed and holds the
    /// defaults.
    pub closed spec fn wf(&self) -> bool {
        self.manager.wf() && self.manager.has_defaults()
    }

    /// What the construction waits for.
    pub fn action(&self) -> (action: ScanAction)
        ensures
            action@ == self.scan().request,
    {
        self.scan.action()
    }

    /// Whether the scan of the asset root has ended.
    pub fn is_finished(&self) -> (finished: bool)
        ensures
            finished == (self.scan().request is Finished),
    {
        self.scan.is_finished()
    }

    /// Takes the event in and names what the construction waits for next.
    pub fn step(&mut self, event: ScanEvent) -> (action: ScanAction)
        requires
            old(self).wf(),
        ensures
            final(self).wf(),
            (final(self).scan(), final(self).assets()) == scan_stepped(
                old(self).scan(),
                old(self).assets(),
                event,
            ),
            action@ == final(self).scan().request,
    {
        self.scan.step(&mut self.manager, event)
    }

    /// The manager, once the scan has ended without a failure and has read
    /// a campaign catalog. A scan that failed yields its failure, and one
    /// that found no catalog a failure of the kind `NotFound`: no manager
    /// is handed out then. `None` while the scan has not ended.
    pub fn finish(self) -> (outcome: Option<Result<AssetManager, IoFailure>>)
        requires
            self.wf(),
        ensures
            outcome is Some <==> self.scan().request is Finished,
            match outcome {
                Some(Ok(manager)) => {
                    &&& self.scan().failure is None
                    &&& self.scan().manifest_seen
                    &&& manager@ == self.assets()
                    &&& manager.wf()
                    &&& manager.has_defaults()
                },
                Some(Err(failure)) => match self.scan().failure {
                    Some(cause) => failure == cause,
                    None => {
                        &&& !self.scan().manifest_seen
                        &&& failure.kind == IoFailureKind::NotFound
                        &&& failure.message@ == missing_catalog_message()
                    },
                },
                None => true,
            },
    {
        if !self.scan.is_finished() {
            return None;
        }
        let seen: bool = self.scan.has_seen_manifest();
        let (failure, _) = self.scan.into_findings();
        match failure {
            Some(cause) => Some(Err(cause)),
            None => {
                if seen {
                    Some(Ok(self.manager))
                } else {
                    Some(
                        Err(
                            IoFailure::new(
                                IoFailureKind::NotFound,
                                String::from_str("the asset root holds no campaign catalog"),
                            ),
                        ),
                    )
                }
            },
        }
    }
}

impl AssetManager {
    /// Begins the construction of a manager from the asset root at
    /// `asset_root`: the manager holds the defaults, and the scan is about
    /// to list the asset root.
    pub fn new(asset_root: &str) -> (load: ManagerLoad)
        ensures
            load.wf(),
            load.scan() == scan_started(ScanMode::Root, asset_root@),
            only_defaults(load.assets(), asset_root@),
    {
        ManagerLoad {
            scan: AssetScan::begin(ScanMode::Root, String::from_str(asset_root)),
            manager: AssetManager::with_defaults(String::from_str(asset_root)),
        }
    }
}

} // verus!
