//! The loading of one campaign into an asset manager.

use vstd::prelude::*;
use vstd::string::StringExecFns;
use crate::assets::asset::Asset;
use crate::assets::asset_manager::{AssetManager, Collections};
use crate::assets::asset_scan::{
    finds_no_campaign,
    has_definition,
    lemma_settled_without_definition,
    lemma_stepped_keeps_catalog,
    lemma_stepped_without_definition,
    reads_no_catalog,
    scan_started,
    scan_stepped,
    AssetScan,
    ScanAction,
    ScanEvent,
    ScanMode,
    ScanModel,
    ScanRequest,
};
use crate::assets::directory_walk::DirEntry;
use crate::assets::io_failure::IoFailure;
use crate::assets::load_asset_result::LoadAssetResult;
use crate::campaigns::campaign::Campaign;

verus! {

/// What is put between the asset root and the path of a campaign.
pub open spec fn campaigns_infix() -> Seq<char> {
    "/campaigns/"@
}

/// The directory of the campaign that the catalog lists under `id`.
pub open spec fn campaign_path(assets: Collections, id: u128) -> Seq<char> {
    assets.asset_root + campaigns_infix() + assets.campaign_descriptions[id].path()
}

/// The state of a load: the catalog does not know the campaign, or the
/// campaign's directory is being scanned.
pub enum LoadModel {
    Unknown,
    Scanning(ScanModel),
}

/// The five ways in which a load ends.
pub enum LoadOutcome {
    Loaded,
    UuidNotFound,
    IoError,
    NoCampaignFound,
    UuidDuplicate,
}

/// The load as it begins: where the catalog lists the campaign, the scan is
/// about to list the campaign's directory.
pub open spec fn load_started(assets: Collections, id: u128) -> LoadModel {
    if assets.campaign_descriptions.contains_key(id) {
        LoadModel::Scanning(scan_started(ScanMode::Campaign, campaign_path(assets, id)))
    } else {
        LoadModel::Unknown
    }
}

/// What the load waits for.
pub open spec fn load_request(load: LoadModel) -> ScanRequest {
    match load {
        LoadModel::Unknown => ScanRequest::Finished,
        LoadModel::Scanning(scan) => scan.request,
    }
}

/// The load and the collections after an event.
pub open spec fn load_stepped(load: LoadModel, assets: Collections, event: ScanEvent) -> (
    LoadModel,
    Collections,
) {
    match load {
        LoadModel::Unknown => (load, assets),
        LoadModel::Scanning(scan) => {
            let (next, merged) = scan_stepped(scan, assets, event);
            (LoadModel::Scanning(next), merged)
        },
    }
}

/// The load and the collections after a sequence of events.
pub open spec fn load_ran(load: LoadModel, assets: Collections, events: Seq<ScanEvent>) -> (
    LoadModel,
    Collections,
)
    decreases events.len(),
{
    if events.len() == 0 {
        (load, assets)
    } else {
        let (next, merged) = load_stepped(load, assets, events[0]);
        load_ran(next, merged, events.drop_first())
    }
}

/// How the load ends, once it waits for nothing more: the campaign is not
/// in the catalog; or the scan failed; or it found no campaign; or the
/// identifier of the campaign found is taken; or the campaign is stored.
pub open spec fn load_outcome(load: LoadModel, assets: Collections) -> Option<LoadOutcome> {
    match load {
        LoadModel::Unknown => Some(LoadOutcome::UuidNotFound),
        LoadModel::Scanning(scan) => if !(scan.request is Finished) {
            None
        } else if scan.failure is Some {
            Some(LoadOutcome::IoError)
        } else if scan.campaign is None {
            Some(LoadOutcome::NoCampaignFound)
        } else if assets.campaigns.contains_key(scan.campaign->0.uuid()) {
            Some(LoadOutcome::UuidDuplicate)
        } else {
            Some(LoadOutcome::Loaded)
        },
    }
}

/// Which of the five ways a result stands for.
pub open spec fn outcome_of(result: LoadAssetResult<'_, Campaign>) -> LoadOutcome {
    match result {
        LoadAssetResult::Loaded { .. } => LoadOutcome::Loaded,
        LoadAssetResult::UuidNotFoundError => LoadOutcome::UuidNotFound,
        LoadAssetResult::IoError { .. } => LoadOutcome::IoError,
        LoadAssetResult::NoCampaignFound => LoadOutcome::NoCampaignFound,
        LoadAssetResult::UuidDuplicateError { .. } => LoadOutcome::UuidDuplicate,
    }
}

/// The tag of the error that a load gives for a taken identifier.
pub open spec fn load_tag() -> Seq<char> {
    "C"@
}

/// A load of a campaign that the catalog does not list waits for nothing,
/// ends as `UuidNotFound` and leaves every collection as it was, whatever
/// events it is handed.
pub proof fn lemma_unknown_campaign(assets: Collections, id: u128, events: Seq<ScanEvent>)
    requires
        !assets.campaign_descriptions.contains_key(id),
    ensures
        load_request(load_started(assets, id)) is Finished,
        load_ran(load_started(assets, id), assets, events) == (LoadModel::Unknown, assets),
        load_outcome(load_ran(load_started(assets, id), assets, events).0, assets) == Some(
            LoadOutcome::UuidNotFound,
        ),
    decreases events.len(),
{
    if events.len() > 0 {
        lemma_unknown_campaign(assets, id, events.drop_first());
    }
}

/// A load that has found no campaign and will find none stays so through
/// any sequence of events.
pub proof fn lemma_ran_without_definition(
    scan: ScanModel,
    assets: Collections,
    events: Seq<ScanEvent>,
)
    requires
        finds_no_campaign(scan),
    ensures
        load_ran(LoadModel::Scanning(scan), assets, events).0 is Scanning,
        finds_no_campaign(load_ran(LoadModel::Scanning(scan), assets, events).0->Scanning_0),
    decreases events.len(),
{
    if events.len() > 0 {
        lemma_stepped_without_definition(scan, assets, events[0]);
        let (next, merged) = scan_stepped(scan, assets, events[0]);
        lemma_ran_without_definition(next, merged, events.drop_first());
    }
}

/// A load whose directory holds no file with the asset extension never
/// ends with a campaign: once its directory is listed, whatever events
/// follow, it either still waits, or has failed, or ends as
/// `NoCampaignFound`.
pub proof fn lemma_no_campaign_found(
    assets: Collections,
    id: u128,
    entries: Vec<Result<DirEntry, IoFailure>>,
    events: Seq<ScanEvent>,
)
    requires
        assets.campaign_descriptions.contains_key(id),
        !has_definition(entries@),
    ensures
        ({
            let listed = load_stepped(
                load_started(assets, id),
                assets,
                ScanEvent::Listing(Ok(entries)),
            );
            let (load, after) = load_ran(listed.0, listed.1, events);
            &&& load is Scanning
            &&& load->Scanning_0.request is Finished && load->Scanning_0.failure is None
                ==> load_outcome(load, after) == Some(LoadOutcome::NoCampaignFound)
            &&& load_outcome(load, after) != Some(LoadOutcome::Loaded)
            &&& load_outcome(load, after) != Some(LoadOutcome::UuidDuplicate)
            &&& load_outcome(load, after) != Some(LoadOutcome::UuidNotFound)
        }),
{
    let begun = scan_started(ScanMode::Campaign, campaign_path(assets, id));
    let filled = ScanModel { pending: entries@ + begun.pending, ..begun };
    assert(filled.pending =~= entries@);
    lemma_settled_without_definition(filled);
    let listed = load_stepped(load_started(assets, id), assets, ScanEvent::Listing(Ok(entries)));
    lemma_ran_without_definition(listed.0->Scanning_0, listed.1, events);
}

/// The load asks for no catalog: it is over before it began, or it scans a
/// campaign's directory.
pub open spec fn load_reads_no_catalog(load: LoadModel) -> bool {
    match load {
        LoadModel::Unknown => true,
        LoadModel::Scanning(scan) => reads_no_catalog(scan),
    }
}

/// A load that asks for no catalog leaves the catalog as it is, whatever
/// events it is handed, and goes on asking for none.
pub proof fn lemma_ran_keeps_catalog(load: LoadModel, assets: Collections, events: Seq<ScanEvent>)
    requires
        load_reads_no_catalog(load),
    ensures
        load_reads_no_catalog(load_ran(load, assets, events).0),
        load_ran(load, assets, events).1.campaign_descriptions == assets.campaign_descriptions,
    decreases events.len(),
{
    if events.len() > 0 {
        let (next, merged) = load_stepped(load, assets, events[0]);
        if let LoadModel::Scanning(scan) = load {
            lemma_stepped_keeps_catalog(scan, assets, events[0]);
        }
        lemma_ran_keeps_catalog(next, merged, events.drop_first());
    }
}

/// The catalog is read-only: the load of any campaign leaves the catalog
/// as it is, whatever events it is handed.
pub proof fn lemma_load_keeps_catalog(assets: Collections, id: u128, events: Seq<ScanEvent>)
    ensures
        load_reads_no_catalog(load_started(assets, id)),
        load_ran(load_started(assets, id), assets, events).1.campaign_descriptions
            == assets.campaign_descriptions,
{
    lemma_ran_keeps_catalog(load_started(assets, id), assets, events);
}

/// A campaign that is being loaded.
pub struct CampaignLoad {
    scan: Option<AssetScan>,
}

impl View for CampaignLoad {
    type V = LoadModel;

    closed spec fn view(&self) -> LoadModel {
        match self.scan {
            Some(scan) => LoadModel::Scanning(scan@),
            None => LoadModel::Unknown,
        }
    }
}

impl CampaignLoad {
    /// What the load waits for.
    pub fn action(&self) -> (action: ScanAction)
        ensures
            action@ == load_request(self@),
    {
        match &self.scan {
            Some(scan) => scan.action(),
            None => ScanAction::Finished,
        }
    }

    /// Whether the load waits for nothing more.
    pub fn is_finished(&self) -> (finished: bool)
        ensures
            finished == (load_request(self@) is Finished),
    {
        match &self.scan {
            Some(scan) => scan.is_finished(),
            None => true,
        }
    }

    /// Takes the event in, merges into `manager` what a directory walk has
    /// brought to its end, and names what the load waits for next.
    pub fn step(&mut self, manager: &mut AssetManager, event: ScanEvent) -> (action: ScanAction)
        requires
            old(manager).wf(),
        ensures
            final(manager).wf(),
            old(manager).has_defaults() ==> final(manager).has_defaults(),
            (final(self)@, final(manager)@) == load_stepped(old(self)@, old(manager)@, event),
            action@ == load_request(final(self)@),
            load_reads_no_catalog(old(self)@) ==> load_reads_no_catalog(final(self)@)
                && final(manager).campaign_descriptions() == old(manager).campaign_descriptions(),
    {
        proof {
            if let LoadModel::Scanning(scan) = self@ {
                if reads_no_catalog(scan) {
                    lemma_stepped_keeps_catalog(scan, manager@, event);
                }
            }
        }
        match &mut self.scan {
            Some(scan) => scan.step(manager, event),
            None => ScanAction::Finished,
        }
    }

    /// Ends the load. A campaign that was found is stored in `manager`
    /// unless its identifier is taken; in every other case `manager` stays
    /// as it is. `None` while the load still waits for an event.
    pub fn finish(self, manager: &mut AssetManager) -> (result: Option<
        LoadAssetResult<'_, Campaign>,
    >)
        requires
            old(manager).wf(),
        ensures
            final(manager).wf(),
            old(manager).has_defaults() ==> final(manager).has_defaults(),
            final(manager).same_but_campaigns(old(manager)),
            match result {
                None => load_outcome(self@, old(manager)@) is None,
                Some(ended) => load_outcome(self@, old(manager)@) == Some(outcome_of(ended)),
            },
            match result {
                Some(LoadAssetResult::Loaded { asset }) => {
                    &&& self@ is Scanning
                    &&& Some(*asset) == self@->Scanning_0.campaign
                    &&& final(manager).campaigns() == old(manager).campaigns().insert(
                        asset.uuid(),
                        *asset,
                    )
                },
                Some(LoadAssetResult::UuidDuplicateError { e }) => {
                    &&& self@ is Scanning
                    &&& Some(e.rejected()) == self@->Scanning_0.campaign
                    &&& e.message() == load_tag()
                    &&& e.present() == old(manager).campaigns()[e.rejected().uuid()]
                    &&& e.state() == old(manager).campaigns()
                    &&& final(manager).campaigns() == old(manager).campaigns()
                },
                Some(LoadAssetResult::IoError { e }) => {
                    &&& self@ is Scanning
                    &&& Some(e) == self@->Scanning_0.failure
                    &&& final(manager).campaigns() == old(manager).campaigns()
                },
                _ => final(manager).campaigns() == old(manager).campaigns(),
            },
    {
        let scan: AssetScan = match self.scan {
            Some(scan) => scan,
            None => {
                return Some(LoadAssetResult::UuidNotFoundError);
            },
        };
        if !scan.is_finished() {
            return None;
        }
        let (failure, campaign) = scan.into_findings();
        match failure {
            Some(e) => Some(LoadAssetResult::IoError { e }),
            None => match campaign {
                None => Some(LoadAssetResult::NoCampaignFound),
                Some(c) => match manager.insert_campaign(c, "C") {
                    Ok(asset) => Some(LoadAssetResult::Loaded { asset }),
                    Err(e) => Some(LoadAssetResult::UuidDuplicateError { e }),
                },
            },
        }
    }
}

impl AssetManager {
    /// Begins the loading of the campaign that the catalog lists under
    /// `campaign_id`. Where the catalog lists none, the load has ended at
    /// once; otherwise it is about to list the campaign's directory, which
    /// lies below `campaigns` in the asset root at the path that the
    /// catalog gives.
    pub fn load_campaign(&self, campaign_id: u128) -> (load: CampaignLoad)
        ensures
            load@ == load_started(self@, campaign_id),
            load_reads_no_catalog(load@),
    {
        match self.get_campaign_description(campaign_id) {
            None => CampaignLoad { scan: None },
            Some(entry) => {
                let mut path: String = String::from_str(self.get_asset_root());
                path.append("/campaigns/");
                path.append(entry.get_path());
                CampaignLoad { scan: Some(AssetScan::begin(ScanMode::Campaign, path)) }
            },
        }
    }
}

} // verus!
