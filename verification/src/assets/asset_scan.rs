//! The scan of an asset root, or of the directory of one campaign.
//!
//! A scan lists one directory and decides, entry by entry, what is read
//! next: the campaign catalog, the definition of a campaign, or a whole
//! directory of classes, races or entities, which a directory walk loads
//! and the scan then merges into the asset manager. The scan decides and the
//! caller reads, as in a directory walk.

use vstd::prelude::*;
use vstd::string::StringExecFns;
use crate::assets::asset_manager::{catalog_of, AssetManager, Collections};
use crate::assets::directory_loader::{merged, reversed};
use crate::assets::directory_walk::{
    is_asset_file,
    is_asset_file_name,
    started,
    stepped,
    DirEntry,
    DirectoryWalk,
    Listing,
    WalkAction,
    WalkEvent,
    WalkModel,
    WalkRequest,
};
use crate::assets::io_failure::IoFailure;
use crate::campaigns::campaign::Campaign;
use crate::campaigns::campaign_description::CampaignDescription;
use crate::entities::class::Class;
use crate::entities::entity::Entity;
use crate::entities::race::Race;
use crate::util::text::same_text;

verus! {

/// The name of the directory that holds the campaigns.
pub open spec fn campaigns_dir() -> Seq<char> {
    "campaigns"@
}

/// The name of a directory that holds classes.
pub open spec fn classes_dir() -> Seq<char> {
    "classes"@
}

/// The name of a directory that holds races.
pub open spec fn races_dir() -> Seq<char> {
    "races"@
}

/// The name of a directory that holds entities.
pub open spec fn entities_dir() -> Seq<char> {
    "entities"@
}

/// What is appended to the path of the campaigns directory to name the
/// campaign catalog.
pub open spec fn manifest_suffix() -> Seq<char> {
    "/manifest.panic"@
}

/// What a scan asks of its caller.
#[derive(Debug)]
pub enum ScanAction {
    /// List the directory at `path`.
    ReadDir { path: String },
    /// Read the file at `path` and decode it as the campaign catalog.
    ReadManifest { path: String },
    /// Read the file at `path` and decode it as a campaign.
    DecodeCampaign { path: String },
    /// Read the file at `path` and decode it as a class.
    DecodeClass { path: String },
    /// Read the file at `path` and decode it as a race.
    DecodeRace { path: String },
    /// Read the file at `path` and decode it as an entity.
    DecodeEntity { path: String },
    /// Nothing: the scan has ended.
    Finished,
}

/// A `ScanAction` with its path as a sequence of characters.
pub enum ScanRequest {
    ReadDir { path: Seq<char> },
    ReadManifest { path: Seq<char> },
    DecodeCampaign { path: Seq<char> },
    DecodeClass { path: Seq<char> },
    DecodeRace { path: Seq<char> },
    DecodeEntity { path: Seq<char> },
    Finished,
}

impl View for ScanAction {
    type V = ScanRequest;

    open spec fn view(&self) -> ScanRequest {
        match self {
            ScanAction::ReadDir { path } => ScanRequest::ReadDir { path: path@ },
            ScanAction::ReadManifest { path } => ScanRequest::ReadManifest { path: path@ },
            ScanAction::DecodeCampaign { path } => ScanRequest::DecodeCampaign { path: path@ },
            ScanAction::DecodeClass { path } => ScanRequest::DecodeClass { path: path@ },
            ScanAction::DecodeRace { path } => ScanRequest::DecodeRace { path: path@ },
            ScanAction::DecodeEntity { path } => ScanRequest::DecodeEntity { path: path@ },
            ScanAction::Finished => ScanRequest::Finished,
        }
    }
}

impl ScanAction {
    /// The same action once more.
    pub fn duplicate(&self) -> (copy: ScanAction)
        ensures
            copy == *self,
    {
        match self {
            ScanAction::ReadDir { path } => ScanAction::ReadDir { path: path.clone() },
            ScanAction::ReadManifest { path } => ScanAction::ReadManifest { path: path.clone() },
            ScanAction::DecodeCampaign { path } => ScanAction::DecodeCampaign {
                path: path.clone(),
            },
            ScanAction::DecodeClass { path } => ScanAction::DecodeClass { path: path.clone() },
            ScanAction::DecodeRace { path } => ScanAction::DecodeRace { path: path.clone() },
            ScanAction::DecodeEntity { path } => ScanAction::DecodeEntity { path: path.clone() },
            ScanAction::Finished => ScanAction::Finished,
        }
    }
}

/// What the caller hands back to a scan.
pub enum ScanEvent {
    /// The outcome of listing a directory.
    Listing(Listing),
    /// The outcome of reading and decoding the campaign catalog.
    Manifest(Result<Vec<CampaignDescription>, IoFailure>),
    /// The outcome of reading and decoding a campaign.
    Campaign(Result<Campaign, IoFailure>),
    /// The outcome of reading and decoding a class.
    Class(Result<Class, IoFailure>),
    /// The outcome of reading and decoding a race.
    Race(Result<Race, IoFailure>),
    /// The outcome of reading and decoding an entity.
    Entity(Result<Entity, IoFailure>),
}

/// What a scan looks at: an asset root, or the directory of one campaign.
#[derive(Clone, Copy, PartialEq, Eq, Debug, Structural)]
pub enum ScanMode {
    Root,
    Campaign,
}

/// The kinds of asset that a directory walk loads for a scan.
#[derive(Clone, Copy, PartialEq, Eq, Debug, Structural)]
pub enum AssetKind {
    Class,
    Race,
    Entity,
}

/// The directory walk that a scan is in the middle of, if any.
pub enum WalkSlot {
    Idle,
    Classes(WalkModel<Class>),
    Races(WalkModel<Race>),
    Entities(WalkModel<Entity>),
}

/// The state of a scan.
pub struct ScanModel {
    pub mode: ScanMode,
    /// The entries of the scanned directory still to visit, the next first.
    pub pending: Seq<Result<DirEntry, IoFailure>>,
    /// The directory walk under way.
    pub walk: WalkSlot,
    /// What the scan waits for.
    pub request: ScanRequest,
    /// The campaign that was decoded last.
    pub campaign: Option<Campaign>,
    /// Whether a campaign catalog was read.
    pub manifest_seen: bool,
    /// The failure that ended the scan, if one did.
    pub failure: Option<IoFailure>,
}

/// The request of a directory walk as a request of the scan, for a walk
/// over assets of the given kind.
pub open spec fn typed(kind: AssetKind, request: WalkRequest) -> ScanRequest {
    match request {
        WalkRequest::ReadDir { path } => ScanRequest::ReadDir { path },
        WalkRequest::Decode { path } => match kind {
            AssetKind::Class => ScanRequest::DecodeClass { path },
            AssetKind::Race => ScanRequest::DecodeRace { path },
            AssetKind::Entity => ScanRequest::DecodeEntity { path },
        },
        WalkRequest::Finished => ScanRequest::Finished,
    }
}

/// The kind of asset that a directory of the given name holds.
pub open spec fn kind_of_dir(name: Seq<char>) -> Option<AssetKind> {
    if name == classes_dir() {
        Some(AssetKind::Class)
    } else if name == races_dir() {
        Some(AssetKind::Race)
    } else if name == entities_dir() {
        Some(AssetKind::Entity)
    } else {
        None
    }
}

/// The scan as it begins a directory walk of the given kind at `path`.
pub open spec fn walking(scan: ScanModel, kind: AssetKind, path: Seq<char>) -> ScanModel {
    ScanModel {
        walk: match kind {
            AssetKind::Class => WalkSlot::Classes(started(path)),
            AssetKind::Race => WalkSlot::Races(started(path)),
            AssetKind::Entity => WalkSlot::Entities(started(path)),
        },
        request: ScanRequest::ReadDir { path },
        ..scan
    }
}

/// What a scan asks for when it comes to an entry.
pub enum Asked {
    /// Nothing: the entry is passed over.
    Nothing,
    /// The campaign catalog in the directory that the entry names.
    Catalog,
    /// The campaign that the file defines which the entry names.
    Definition,
    /// A walk over the directory that the entry names, for assets of one
    /// kind.
    Walk(AssetKind),
}

/// What a scan asks for when it comes to an entry.
///
/// In an asset root only directories count: `campaigns` has its catalog
/// read, and `classes`, `races` and `entities` are walked. In the directory
/// of a campaign the directories `classes`, `races` and `entities` are
/// walked, and a file with the asset extension is decoded as the campaign;
/// a directory is never taken for the definition, whatever its name.
pub open spec fn asked(mode: ScanMode, entry: DirEntry) -> Asked {
    match mode {
        ScanMode::Root => if !entry.is_dir {
            Asked::Nothing
        } else if entry.file_name@ == campaigns_dir() {
            Asked::Catalog
        } else {
            match kind_of_dir(entry.file_name@) {
                Some(kind) => Asked::Walk(kind),
                None => Asked::Nothing,
            }
        },
        ScanMode::Campaign => if entry.is_dir {
            match kind_of_dir(entry.file_name@) {
                Some(kind) => Asked::Walk(kind),
                None => Asked::Nothing,
            }
        } else if is_asset_file_name(entry.file_name@) {
            Asked::Definition
        } else {
            Asked::Nothing
        },
    }
}

/// The scan after it has visited its pending entries up to the first that
/// asks for something from the caller. An entry that could not be read ends
/// the scan with its failure, and so does the end of the entries, without
/// one.
pub open spec fn scan_settled(scan: ScanModel) -> ScanModel
    decreases scan.pending.len(),
{
    if scan.pending.len() == 0 {
        ScanModel { request: ScanRequest::Finished, ..scan }
    } else {
        let rest = ScanModel { pending: scan.pending.drop_first(), ..scan };
        match scan.pending[0] {
            Err(failure) => ScanModel {
                request: ScanRequest::Finished,
                failure: Some(failure),
                ..rest
            },
            Ok(entry) => match asked(scan.mode, entry) {
                Asked::Nothing => scan_settled(rest),
                Asked::Catalog => ScanModel {
                    request: ScanRequest::ReadManifest { path: entry.path@ + manifest_suffix() },
                    ..rest
                },
                Asked::Definition => ScanModel {
                    request: ScanRequest::DecodeCampaign { path: entry.path@ },
                    ..rest
                },
                Asked::Walk(kind) => walking(rest, kind, entry.path@),
            },
        }
    }
}

/// The scan that ended with a failure.
pub open spec fn scan_failed(scan: ScanModel, failure: IoFailure) -> ScanModel {
    ScanModel {
        walk: WalkSlot::Idle,
        request: ScanRequest::Finished,
        failure: Some(failure),
        ..scan
    }
}

/// The scan and the collections after a directory walk has taken an event
/// in. While the walk goes on, the scan passes its request on. A walk that
/// failed ends the scan. A walk that came to its end has its assets merged
/// into the collection of their kind, in the order of the walk, and the
/// scan goes on with its own entries.
pub open spec fn walk_passed<T>(
    scan: ScanModel,
    assets: Collections,
    kind: AssetKind,
    walk: WalkModel<T>,
    going: WalkSlot,
    landed: Collections,
) -> (ScanModel, Collections) {
    if !(walk.request is Finished) {
        (ScanModel { walk: going, request: typed(kind, walk.request), ..scan }, assets)
    } else if walk.failure is Some {
        (scan_failed(scan, walk.failure->0), assets)
    } else {
        (scan_settled(ScanModel { walk: WalkSlot::Idle, ..scan }), landed)
    }
}

/// The scan and the collections after an event.
///
/// During a directory walk, listings and assets of the walk's kind go to
/// the walk. Otherwise a listing that was asked for puts its entries before
/// the pending ones, a catalog that was asked for replaces the catalog of
/// the collections, and a campaign that was asked for is kept as the
/// campaign found, in place of an earlier one. A failure ends the scan. An
/// event that was not asked for changes nothing.
pub open spec fn scan_stepped(scan: ScanModel, assets: Collections, event: ScanEvent) -> (
    ScanModel,
    Collections,
) {
    match scan.walk {
        WalkSlot::Classes(walk) => match event {
            ScanEvent::Listing(listing) => {
                let next = stepped(walk, WalkEvent::Listing(listing));
                walk_passed(
                    scan,
                    assets,
                    AssetKind::Class,
                    next,
                    WalkSlot::Classes(next),
                    Collections { classes: merged(assets.classes, next.found), ..assets },
                )
            },
            ScanEvent::Class(outcome) => {
                let next = stepped(walk, WalkEvent::Decoded(outcome));
                walk_passed(
                    scan,
                    assets,
                    AssetKind::Class,
                    next,
                    WalkSlot::Classes(next),
                    Collections { classes: merged(assets.classes, next.found), ..assets },
                )
            },
            _ => (scan, assets),
        },
        WalkSlot::Races(walk) => match event {
            ScanEvent::Listing(listing) => {
                let next = stepped(walk, WalkEvent::Listing(listing));
                walk_passed(
                    scan,
                    assets,
                    AssetKind::Race,
                    next,
                    WalkSlot::Races(next),
                    Collections { races: merged(assets.races, next.found), ..assets },
                )
            },
            ScanEvent::Race(outcome) => {
                let next = stepped(walk, WalkEvent::Decoded(outcome));
                walk_passed(
                    scan,
                    assets,
                    AssetKind::Race,
                    next,
                    WalkSlot::Races(next),
                    Collections { races: merged(assets.races, next.found), ..assets },
                )
            },
            _ => (scan, assets),
        },
        WalkSlot::Entities(walk) => match event {
            ScanEvent::Listing(listing) => {
                let next = stepped(walk, WalkEvent::Listing(listing));
                walk_passed(
                    scan,
                    assets,
                    AssetKind::Entity,
                    next,
                    WalkSlot::Entities(next),
                    Collections { entities: merged(assets.entities, next.found), ..assets },
                )
            },
            ScanEvent::Entity(outcome) => {
                let next = stepped(walk, WalkEvent::Decoded(outcome));
                walk_passed(
                    scan,
                    assets,
                    AssetKind::Entity,
                    next,
                    WalkSlot::Entities(next),
                    Collections { entities: merged(assets.entities, next.found), ..assets },
                )
            },
            _ => (scan, assets),
        },
        WalkSlot::Idle => match (scan.request, event) {
            (ScanRequest::ReadDir { .. }, ScanEvent::Listing(Ok(entries))) => (
                scan_settled(ScanModel { pending: entries@ + scan.pending, ..scan }),
                assets,
            ),
            (ScanRequest::ReadDir { .. }, ScanEvent::Listing(Err(failure))) => (
                scan_failed(scan, failure),
                assets,
            ),
            (ScanRequest::ReadManifest { .. }, ScanEvent::Manifest(Ok(entries))) => (
                scan_settled(ScanModel { manifest_seen: true, ..scan }),
                Collections { campaign_descriptions: catalog_of(entries@), ..assets },
            ),
            (ScanRequest::ReadManifest { .. }, ScanEvent::Manifest(Err(failure))) => (
                scan_failed(scan, failure),
                assets,
            ),
            (ScanRequest::DecodeCampaign { .. }, ScanEvent::Campaign(Ok(campaign))) => (
                scan_settled(ScanModel { campaign: Some(campaign), ..scan }),
                assets,
            ),
            (ScanRequest::DecodeCampaign { .. }, ScanEvent::Campaign(Err(failure))) => (
                scan_failed(scan, failure),
                assets,
            ),
            _ => (scan, assets),
        },
    }
}

/// The scan that is about to list the directory at `path`.
pub open spec fn scan_started(mode: ScanMode, path: Seq<char>) -> ScanModel {
    ScanModel {
        mode,
        pending: Seq::empty(),
        walk: WalkSlot::Idle,
        request: ScanRequest::ReadDir { path },
        campaign: None,
        manifest_seen: false,
        failure: None,
    }
}

/// The scan and the collections after a sequence of events.
pub open spec fn scan_ran(scan: ScanModel, assets: Collections, events: Seq<ScanEvent>) -> (
    ScanModel,
    Collections,
)
    decreases events.len(),
{
    if events.len() == 0 {
        (scan, assets)
    } else {
        let (next, merged) = scan_stepped(scan, assets, events[0]);
        scan_ran(next, merged, events.drop_first())
    }
}

/// Some entry is a file that may define a campaign: it is no directory and
/// has the asset extension.
pub open spec fn has_definition(entries: Seq<Result<DirEntry, IoFailure>>) -> bool {
    exists|i: int|
        0 <= i < entries.len() && (#[trigger] entries[i]) is Ok && !entries[i]->Ok_0.is_dir
            && is_asset_file_name(entries[i]->Ok_0.file_name@)
}

/// The scan of a campaign's directory has found no campaign and will find
/// none: none is asked for, no pending entry may define one, and outside a
/// directory walk the scan has ended.
pub open spec fn finds_no_campaign(scan: ScanModel) -> bool {
    &&& scan.mode == ScanMode::Campaign
    &&& scan.campaign is None
    &&& !has_definition(scan.pending)
    &&& scan.walk is Idle ==> scan.request is Finished
}

/// A scan of a campaign's directory that settles without a pending entry
/// that may define a campaign asks for none.
pub proof fn lemma_settled_without_definition(scan: ScanModel)
    requires
        scan.mode == ScanMode::Campaign,
        scan.campaign is None,
        scan.walk is Idle,
        !has_definition(scan.pending),
    ensures
        finds_no_campaign(scan_settled(scan)),
    decreases scan.pending.len(),
{
    if scan.pending.len() > 0 {
        let rest = ScanModel { pending: scan.pending.drop_first(), ..scan };
        assert forall|i: int| 0 <= i < rest.pending.len() && (#[trigger] rest.pending[i]) is Ok
            implies rest.pending[i]->Ok_0.is_dir || !is_asset_file_name(
            rest.pending[i]->Ok_0.file_name@,
        ) by {
            assert(rest.pending[i] == scan.pending[i + 1]);
        }
        assert(!has_definition(rest.pending));
        assert(scan.pending[0] is Ok ==> scan.pending[0]->Ok_0.is_dir || !is_asset_file_name(
            scan.pending[0]->Ok_0.file_name@,
        ));
        lemma_settled_without_definition(rest);
    }
}

/// A scan that has found no campaign and will find none stays so after any
/// event.
pub proof fn lemma_stepped_without_definition(
    scan: ScanModel,
    assets: Collections,
    event: ScanEvent,
)
    requires
        finds_no_campaign(scan),
    ensures
        finds_no_campaign(scan_stepped(scan, assets, event).0),
{
    let idle = ScanModel { walk: WalkSlot::Idle, ..scan };
    lemma_settled_without_definition(idle);
}

/// The scan is that of a campaign's directory and asks for no catalog.
pub open spec fn reads_no_catalog(scan: ScanModel) -> bool {
    &&& scan.mode == ScanMode::Campaign
    &&& !(scan.request is ReadManifest)
}

/// A scan of a campaign's directory settles without asking for a catalog.
pub proof fn lemma_settled_reads_no_catalog(scan: ScanModel)
    requires
        scan.mode == ScanMode::Campaign,
    ensures
        reads_no_catalog(scan_settled(scan)),
    decreases scan.pending.len(),
{
    if scan.pending.len() > 0 {
        lemma_settled_reads_no_catalog(ScanModel { pending: scan.pending.drop_first(), ..scan });
    }
}

/// The catalog is read-only once a manager is built: a scan of a campaign's
/// directory leaves it as it is, whatever event it takes in, and goes on
/// asking for no catalog.
pub proof fn lemma_stepped_keeps_catalog(scan: ScanModel, assets: Collections, event: ScanEvent)
    requires
        reads_no_catalog(scan),
    ensures
        reads_no_catalog(scan_stepped(scan, assets, event).0),
        scan_stepped(scan, assets, event).1.campaign_descriptions == assets.campaign_descriptions,
{
    lemma_settled_reads_no_catalog(ScanModel { walk: WalkSlot::Idle, ..scan });
    match (scan.walk, scan.request, event) {
        (WalkSlot::Idle, ScanRequest::ReadDir { .. }, ScanEvent::Listing(Ok(entries))) => {
            lemma_settled_reads_no_catalog(ScanModel { pending: entries@ + scan.pending, ..scan });
        },
        (WalkSlot::Idle, ScanRequest::DecodeCampaign { .. }, ScanEvent::Campaign(Ok(campaign))) => {
            lemma_settled_reads_no_catalog(ScanModel { campaign: Some(campaign), ..scan });
        },
        _ => {},
    }
}

/// The action of a directory walk as an action of the scan.
fn typed_action(kind: AssetKind, action: WalkAction) -> (typed_action: ScanAction)
    ensures
        typed_action@ == typed(kind, action@),
{
    match action {
        WalkAction::ReadDir { path } => ScanAction::ReadDir { path },
        WalkAction::Decode { path } => match kind {
            AssetKind::Class => ScanAction::DecodeClass { path },
            AssetKind::Race => ScanAction::DecodeRace { path },
            AssetKind::Entity => ScanAction::DecodeEntity { path },
        },
        WalkAction::Finished => ScanAction::Finished,
    }
}

/// The kind of asset that a directory of the given name holds.
fn kind_of(name: &str) -> (kind: Option<AssetKind>)
    ensures
        kind == kind_of_dir(name@),
{
    if same_text(name, "classes") {
        Some(AssetKind::Class)
    } else if same_text(name, "races") {
        Some(AssetKind::Race)
    } else if same_text(name, "entities") {
        Some(AssetKind::Entity)
    } else {
        None
    }
}

enum ActiveWalk {
    Idle,
    Classes(DirectoryWalk<Class>),
    Races(DirectoryWalk<Race>),
    Entities(DirectoryWalk<Entity>),
}

impl ActiveWalk {
    spec fn slot(&self) -> WalkSlot {
        match self {
            ActiveWalk::Idle => WalkSlot::Idle,
            ActiveWalk::Classes(walk) => WalkSlot::Classes(walk@),
            ActiveWalk::Races(walk) => WalkSlot::Races(walk@),
            ActiveWalk::Entities(walk) => WalkSlot::Entities(walk@),
        }
    }
}

/// A scan of one directory: an asset root, or the directory of a campaign.
pub struct AssetScan {
    mode: ScanMode,
    pending: Vec<Result<DirEntry, IoFailure>>,
    walk: ActiveWalk,
    request: ScanAction,
    campaign: Option<Campaign>,
    manifest_seen: bool,
    failure: Option<IoFailure>,
}

impl View for AssetScan {
    type V = ScanModel;

    closed spec fn view(&self) -> ScanModel {
        ScanModel {
            mode: self.mode,
            pending: self.pending@.reverse(),
            walk: self.walk.slot(),
            request: self.request@,
            campaign: self.campaign,
            manifest_seen: self.manifest_seen,
            failure: self.failure,
        }
    }
}

impl AssetScan {
    /// A scan that is about to list the directory at `path`.
    pub(crate) fn begin(mode: ScanMode, path: String) -> (scan: Self)
        ensures
            scan@ == scan_started(mode, path@),
    {
        let scan = Self {
            mode,
            pending: Vec::new(),
            walk: ActiveWalk::Idle,
            request: ScanAction::ReadDir { path },
            campaign: None,
            manifest_seen: false,
            failure: None,
        };
        assert(scan.pending@.reverse() =~= Seq::<Result<DirEntry, IoFailure>>::empty());
        scan
    }

    /// What the scan waits for.
    pub fn action(&self) -> (action: ScanAction)
        ensures
            action@ == self@.request,
    {
        self.request.duplicate()
    }

    /// Whether the scan has ended.
    pub fn is_finished(&self) -> (finished: bool)
        ensures
            finished == (self@.request is Finished),
    {
        match self.request {
            ScanAction::Finished => true,
            _ => false,
        }
    }

    /// Whether the scan has read a campaign catalog.
    pub fn has_seen_manifest(&self) -> (seen: bool)
        ensures
            seen == self@.manifest_seen,
    {
        self.manifest_seen
    }

    /// What the scan has found when it has ended: its failure, if it
    /// failed, and the campaign that was decoded last.
    pub fn into_findings(self) -> (findings: (Option<IoFailure>, Option<Campaign>))
        ensures
            findings.0 == self@.failure,
            findings.1 == self@.campaign,
    {
        (self.failure, self.campaign)
    }

    fn begin_walk(&mut self, kind: AssetKind, path: String)
        ensures
            final(self)@ == walking(old(self)@, kind, path@),
    {
        self.request = ScanAction::ReadDir { path: path.clone() };
        match kind {
            AssetKind::Class => {
                self.walk = ActiveWalk::Classes(DirectoryWalk::begin(path));
            },
            AssetKind::Race => {
                self.walk = ActiveWalk::Races(DirectoryWalk::begin(path));
            },
            AssetKind::Entity => {
                self.walk = ActiveWalk::Entities(DirectoryWalk::begin(path));
            },
        }
    }

    fn settle(&mut self)
        ensures
            final(self)@ == scan_settled(old(self)@),
    {
        let mut settling: bool = true;
        while settling
            invariant
                settling ==> scan_settled(self@) == scan_settled(old(self)@),
                !settling ==> self@ == scan_settled(old(self)@),
            decreases self.pending@.len() + if settling { 1nat } else { 0nat },
        {
            let ghost before = self@;
            let next = self.pending.pop();
            proof {
                if before.pending.len() > 0 {
                    assert(self.pending@.reverse() =~= before.pending.drop_first());
                } else {
                    assert(self.pending@.reverse() =~= before.pending);
                }
            }
            match next {
                None => {
                    self.request = ScanAction::Finished;
                    settling = false;
                },
                Some(Err(failure)) => {
                    self.failure = Some(failure);
                    self.request = ScanAction::Finished;
                    settling = false;
                },
                Some(Ok(entry)) => {
                    let DirEntry { path, file_name, is_dir } = entry;
                    match self.mode {
                        ScanMode::Root => {
                            if is_dir {
                                if same_text(file_name.as_str(), "campaigns") {
                                    let mut manifest: String = path;
                                    manifest.append("/manifest.panic");
                                    self.request = ScanAction::ReadManifest { path: manifest };
                                    settling = false;
                                } else {
                                    match kind_of(file_name.as_str()) {
                                        Some(kind) => {
                                            self.begin_walk(kind, path);
                                            settling = false;
                                        },
                                        None => {},
                                    }
                                }
                            }
                        },
                        ScanMode::Campaign => {
                            if is_dir {
                                match kind_of(file_name.as_str()) {
                                    Some(kind) => {
                                        self.begin_walk(kind, path);
                                        settling = false;
                                    },
                                    None => {},
                                }
                            } else if is_asset_file(file_name.as_str()) {
                                self.request = ScanAction::DecodeCampaign { path };
                                settling = false;
                            }
                        },
                    }
                },
            }
        }
    }

    fn fail(&mut self, failure: IoFailure)
        ensures
            final(self)@ == scan_failed(old(self)@, failure),
    {
        self.walk = ActiveWalk::Idle;
        self.request = ScanAction::Finished;
        self.failure = Some(failure);
    }

    fn pass_classes(&mut self, manager: &mut AssetManager, walk: DirectoryWalk<Class>)
        requires
            old(manager).wf(),
        ensures
            final(manager).wf(),
            old(manager).has_defaults() ==> final(manager).has_defaults(),
            (final(self)@, final(manager)@) == walk_passed(
                old(self)@,
                old(manager)@,
                AssetKind::Class,
                walk@,
                WalkSlot::Classes(walk@),
                Collections {
                    classes: merged(old(manager)@.classes, walk@.found),
                    ..old(manager)@
                },
            ),
    {
        if !walk.is_finished() {
            self.request = typed_action(AssetKind::Class, walk.action());
            self.walk = ActiveWalk::Classes(walk);
        } else {
            match walk.finish() {
                Some(Ok(found)) => {
                    manager.merge_classes(found);
                    self.walk = ActiveWalk::Idle;
                    self.settle();
                },
                Some(Err(failure)) => {
                    self.fail(failure);
                },
                None => {},
            }
        }
    }

    fn pass_races(&mut self, manager: &mut AssetManager, walk: DirectoryWalk<Race>)
        requires
            old(manager).wf(),
        ensures
            final(manager).wf(),
            old(manager).has_defaults() ==> final(manager).has_defaults(),
            (final(self)@, final(manager)@) == walk_passed(
                old(self)@,
                old(manager)@,
                AssetKind::Race,
                walk@,
                WalkSlot::Races(walk@),
                Collections { races: merged(old(manager)@.races, walk@.found), ..old(manager)@ },
            ),
    {
        if !walk.is_finished() {
            self.request = typed_action(AssetKind::Race, walk.action());
            self.walk = ActiveWalk::Races(walk);
        } else {
            match walk.finish() {
                Some(Ok(found)) => {
                    manager.merge_races(found);
                    self.walk = ActiveWalk::Idle;
                    self.settle();
                },
                Some(Err(failure)) => {
                    self.fail(failure);
                },
                None => {},
            }
        }
    }

    fn pass_entities(&mut self, manager: &mut AssetManager, walk: DirectoryWalk<Entity>)
        requires
            old(manager).wf(),
        ensures
            final(manager).wf(),
            old(manager).has_defaults() ==> final(manager).has_defaults(),
            (final(self)@, final(manager)@) == walk_passed(
                old(self)@,
                old(manager)@,
                AssetKind::Entity,
                walk@,
                WalkSlot::Entities(walk@),
                Collections {
                    entities: merged(old(manager)@.entities, walk@.found),
                    ..old(manager)@
                },
            ),
    {
        if !walk.is_finished() {
            self.request = typed_action(AssetKind::Entity, walk.action());
            self.walk = ActiveWalk::Entities(walk);
        } else {
            match walk.finish() {
                Some(Ok(found)) => {
                    manager.merge_entities(found);
                    self.walk = ActiveWalk::Idle;
                    self.settle();
                },
                Some(Err(failure)) => {
                    self.fail(failure);
                },
                None => {},
            }
        }
    }

    fn step_idle(&mut self, manager: &mut AssetManager, event: ScanEvent)
        requires
            old(manager).wf(),
            old(self)@.walk is Idle,
        ensures
            final(manager).wf(),
            old(manager).has_defaults() ==> final(manager).has_defaults(),
            (final(self)@, final(manager)@) == scan_stepped(old(self)@, old(manager)@, event),
    {
        let listing_due: bool = match self.request {
            ScanAction::ReadDir { .. } => true,
            _ => false,
        };
        let manifest_due: bool = match self.request {
            ScanAction::ReadManifest { .. } => true,
            _ => false,
        };
        let campaign_due: bool = match self.request {
            ScanAction::DecodeCampaign { .. } => true,
            _ => false,
        };
        match event {
            ScanEvent::Listing(listing) => {
                if listing_due {
                    match listing {
                        Ok(entries) => {
                            let ghost before = self.pending@;
                            let mut tail: Vec<Result<DirEntry, IoFailure>> = reversed(entries);
                            self.pending.append(&mut tail);
                            proof {
                                assert(self.pending@.reverse() =~= entries@ + before.reverse());
                            }
                            self.settle();
                        },
                        Err(failure) => {
                            self.fail(failure);
                        },
                    }
                }
            },
            ScanEvent::Manifest(outcome) => {
                if manifest_due {
                    match outcome {
                        Ok(entries) => {
                            manager.set_campaign_descriptions(entries);
                            self.manifest_seen = true;
                            self.settle();
                        },
                        Err(failure) => {
                            self.fail(failure);
                        },
                    }
                }
            },
            ScanEvent::Campaign(outcome) => {
                if campaign_due {
                    match outcome {
                        Ok(campaign) => {
                            self.campaign = Some(campaign);
                            self.settle();
                        },
                        Err(failure) => {
                            self.fail(failure);
                        },
                    }
                }
            },
            _ => {},
        }
    }

    /// Takes the event in, merges into `manager` what a directory walk has
    /// brought to its end, and names what the scan waits for next.
    pub fn step(&mut self, manager: &mut AssetManager, event: ScanEvent) -> (action: ScanAction)
        requires
            old(manager).wf(),
        ensures
            final(manager).wf(),
            old(manager).has_defaults() ==> final(manager).has_defaults(),
            (final(self)@, final(manager)@) == scan_stepped(old(self)@, old(manager)@, event),
            action@ == final(self)@.request,
    {
        let mut slot: ActiveWalk = ActiveWalk::Idle;
        core::mem::swap(&mut self.walk, &mut slot);
        match slot {
            ActiveWalk::Idle => {
                self.step_idle(manager, event);
            },
            ActiveWalk::Classes(walk) => {
                let mut walk: DirectoryWalk<Class> = walk;
                match event {
                    ScanEvent::Listing(listing) => {
                        walk.step(WalkEvent::Listing(listing));
                        self.pass_classes(manager, walk);
                    },
                    ScanEvent::Class(outcome) => {
                        walk.step(WalkEvent::Decoded(outcome));
                        self.pass_classes(manager, walk);
                    },
                    _ => {
                        self.walk = ActiveWalk::Classes(walk);
                    },
                }
            },
            ActiveWalk::Races(walk) => {
                let mut walk: DirectoryWalk<Race> = walk;
                match event {
                    ScanEvent::Listing(listing) => {
                        walk.step(WalkEvent::Listing(listing));
                        self.pass_races(manager, walk);
                    },
                    ScanEvent::Race(outcome) => {
                        walk.step(WalkEvent::Decoded(outcome));
                        self.pass_races(manager, walk);
                    },
                    _ => {
                        self.walk = ActiveWalk::Races(walk);
                    },
                }
            },
            ActiveWalk::Entities(walk) => {
                let mut walk: DirectoryWalk<Entity> = walk;
                match event {
                    ScanEvent::Listing(listing) => {
                        walk.step(WalkEvent::Listing(listing));
                        self.pass_entities(manager, walk);
                    },
                    ScanEvent::Entity(outcome) => {
                        walk.step(WalkEvent::Decoded(outcome));
                        self.pass_entities(manager, walk);
                    },
                    _ => {
                        self.walk = ActiveWalk::Entities(walk);
                    },
                }
            },
        }
        self.request.duplicate()
    }
}

} // verus!
