use std::collections::HashMap;

use panicvtt_engine::assets::asset::Asset;
use panicvtt_engine::assets::asset_manager::AssetManager;
use panicvtt_engine::assets::asset_scan::{ScanAction, ScanEvent};
use panicvtt_engine::assets::directory_walk::DirEntry;
use panicvtt_engine::assets::io_failure::{IoFailure, IoFailureKind};
use panicvtt_engine::assets::load_asset_result::LoadAssetResult;
use panicvtt_engine::campaigns::campaign::Campaign;
use panicvtt_engine::campaigns::campaign_description::CampaignDescription;
use panicvtt_engine::engine::{Engine, EntityBuilder};
use panicvtt_engine::entities::abilities::{AbilityScores, SaveAttributes};
use panicvtt_engine::entities::class::Class;
use panicvtt_engine::entities::entity::{Entity, EntityRecord};
use panicvtt_engine::entities::race::Race;
use panicvtt_engine::entities::skills::SkillAttributes;
use panicvtt_engine::mechanics::dice::{Dice, Rng};

const CLASS_1: u128 = 0x00000000111122223333444444444444;
const CLASS_2: u128 = 0x00000000000000000000123456789000;
const RACE_1: u128 = 0xaaaaaaaabbbbccccddddeeeeeeeeeeee;
const RACE_2: u128 = 0x99999999999999999999999999999999;
const ENTITY_1: u128 = 0xeeeeeeeeddddccccbbbbaaaaaaaaaaaa;
const CAMPAIGN_1: u128 = 0x00001111222233334444123412341234;
const CAMPAIGN_2: u128 = 0xffff1111222233334444123412341234;
const LOCAL_CLASS_1: u128 = 0x00000000000100020003000000000004;
const LOCAL_CLASS_2: u128 = 0xf0000000f000f000f000f00000000000;
const LOCAL_RACE_1: u128 = 0x12341234123412341234123412341234;
const LOCAL_ENTITY_1: u128 = 0xff00ff00ff00ff00ff00ff00ff00ff00;
const BAD_CAMPAIGN: u128 = 0x0000111122223333444412341234123F;

/// What a file holds.
enum File {
    Class(u128, &'static str, Dice),
    Race(u128, &'static str, u8),
    Entity(u128, &'static str, u128, u128),
    Campaign(u128, &'static str, &'static str),
    Manifest(Vec<(u128, &'static str, &'static str, &'static str)>),
    Junk,
}

/// A file system held in memory: the listing of every directory, in the
/// order in which it is handed out, and the content of every file.
struct MemFs {
    dirs: HashMap<String, Vec<(String, bool)>>,
    files: HashMap<String, File>,
    reads: Vec<String>,
}

fn trimmed(path: &str) -> String {
    let mut path = path.replace("//", "/");
    while path.ends_with('/') {
        path.pop();
    }
    path
}

impl MemFs {
    fn new() -> Self {
        MemFs { dirs: HashMap::new(), files: HashMap::new(), reads: Vec::new() }
    }

    fn dir(&mut self, path: &str) {
        let path = trimmed(path);
        if self.dirs.contains_key(&path) {
            return;
        }
        self.dirs.insert(path.clone(), Vec::new());
        if let Some((parent, name)) = path.rsplit_once('/') {
            self.dir(parent);
            self.dirs.get_mut(parent).unwrap().push((String::from(name), true));
        }
    }

    fn file(&mut self, path: &str, content: File) {
        let (parent, name) = path.rsplit_once('/').unwrap();
        self.dir(parent);
        self.dirs.get_mut(parent).unwrap().push((String::from(name), false));
        self.files.insert(String::from(path), content);
    }

    fn missing(path: &str) -> IoFailure {
        IoFailure::new(IoFailureKind::NotFound, format!("{} is not there", path))
    }

    fn invalid(path: &str) -> IoFailure {
        IoFailure::new(IoFailureKind::InvalidData, format!("{} holds something else", path))
    }

    fn list(&mut self, path: &str) -> Result<Vec<Result<DirEntry, IoFailure>>, IoFailure> {
        let dir = trimmed(path);
        self.reads.push(dir.clone());
        match self.dirs.get(&dir) {
            None => Err(Self::missing(path)),
            Some(entries) => Ok(entries
                .iter()
                .map(|(name, is_dir)| {
                    Ok(DirEntry {
                        path: format!("{}/{}", dir, name),
                        file_name: name.clone(),
                        is_dir: *is_dir,
                    })
                })
                .collect()),
        }
    }

    fn class(&mut self, path: &str) -> Result<Class, IoFailure> {
        self.reads.push(String::from(path));
        match self.files.get(path) {
            Some(File::Class(uuid, name, die)) => {
                Ok(Class::from_parts(*uuid, String::from(*name), *die))
            }
            Some(_) => Err(Self::invalid(path)),
            None => Err(Self::missing(path)),
        }
    }

    fn race(&mut self, path: &str) -> Result<Race, IoFailure> {
        self.reads.push(String::from(path));
        match self.files.get(path) {
            Some(File::Race(uuid, name, speed)) => {
                Ok(Race::from_parts(*uuid, String::from(*name), *speed))
            }
            Some(_) => Err(Self::invalid(path)),
            None => Err(Self::missing(path)),
        }
    }

    fn entity(&mut self, path: &str) -> Result<Entity, IoFailure> {
        self.reads.push(String::from(path));
        match self.files.get(path) {
            Some(File::Entity(uuid, name, class, race)) => Ok(Entity::from_record(EntityRecord {
                uuid: *uuid,
                name: String::from(*name),
                hp: 7,
                hp_max: 7,
                hp_temp: 0,
                level: 1,
                class: *class,
                race: *race,
                abilities: AbilityScores::from_defaults(),
                skills: vec![SkillAttributes::Normal; 18],
                saves: vec![SaveAttributes::Normal; 6],
            })
            .unwrap()),
            Some(_) => Err(Self::invalid(path)),
            None => Err(Self::missing(path)),
        }
    }

    fn campaign(&mut self, path: &str) -> Result<Campaign, IoFailure> {
        self.reads.push(String::from(path));
        match self.files.get(path) {
            Some(File::Campaign(uuid, name, description)) => Ok(Campaign::from_parts(
                *uuid,
                String::from(*name),
                String::from(*description),
                HashMap::new(),
                None,
            )),
            Some(_) => Err(Self::invalid(path)),
            None => Err(Self::missing(path)),
        }
    }

    fn manifest(&mut self, path: &str) -> Result<Vec<CampaignDescription>, IoFailure> {
        self.reads.push(String::from(path));
        match self.files.get(path) {
            Some(File::Manifest(entries)) => Ok(entries
                .iter()
                .map(|(uuid, name, path, description)| {
                    CampaignDescription::new(
                        *uuid,
                        String::from(*name),
                        String::from(*path),
                        String::from(*description),
                    )
                })
                .collect()),
            Some(_) => Err(Self::invalid(path)),
            None => Err(Self::missing(path)),
        }
    }

    /// Does what the action asks for. `None` for `Finished`.
    fn perform(&mut self, action: ScanAction) -> Option<ScanEvent> {
        match action {
            ScanAction::ReadDir { path } => Some(ScanEvent::Listing(self.list(&path))),
            ScanAction::ReadManifest { path } => Some(ScanEvent::Manifest(self.manifest(&path))),
            ScanAction::DecodeCampaign { path } => Some(ScanEvent::Campaign(self.campaign(&path))),
            ScanAction::DecodeClass { path } => Some(ScanEvent::Class(self.class(&path))),
            ScanAction::DecodeRace { path } => Some(ScanEvent::Race(self.race(&path))),
            ScanAction::DecodeEntity { path } => Some(ScanEvent::Entity(self.entity(&path))),
            ScanAction::Finished => None,
        }
    }

    fn new_manager(&mut self, asset_root: &str) -> Result<AssetManager, IoFailure> {
        let mut load = AssetManager::new(asset_root);
        let mut action = load.action();
        while let Some(event) = self.perform(action) {
            action = load.step(event);
        }
        assert!(load.is_finished());
        load.finish().unwrap()
    }

    fn load_campaign<'a>(
        &mut self,
        manager: &'a mut AssetManager,
        campaign_id: u128,
    ) -> LoadAssetResult<'a, Campaign> {
        let mut load = manager.load_campaign(campaign_id);
        let mut action = load.action();
        while let Some(event) = self.perform(action) {
            action = load.step(manager, event);
        }
        assert!(load.is_finished());
        load.finish(manager).unwrap()
    }
}

/// The assets of the trials: two global classes, one of them nested, two
/// global races, one global entity, and two campaigns with local assets.
fn test_assets() -> MemFs {
    let mut fs = MemFs::new();
    fs.file("test/assets/readme.txt", File::Junk);
    fs.file("test/assets/classes/class_1.panic", File::Class(CLASS_1, "Global Class 1", Dice::D20));
    fs.file(
        "test/assets/classes/nested/deeper/class_2.panic",
        File::Class(CLASS_2, "Global Class 2 (Nested)", Dice::D100),
    );
    fs.file("test/assets/classes/notes.txt", File::Junk);
    fs.file("test/assets/races/race_1.panic", File::Race(RACE_1, "Global Race 1", 123));
    fs.file("test/assets/races/race_2.panic", File::Race(RACE_2, "Global Race 2", 255));
    fs.file(
        "test/assets/entities/entity_1.panic",
        File::Entity(ENTITY_1, "Global Entity 1", CLASS_1, RACE_1),
    );
    fs.dir("test/assets/unrelated");
    fs.file("test/assets/unrelated/class_3.panic", File::Class(3, "Never Loaded", Dice::D4));
    fs.file(
        "test/assets/campaigns/manifest.panic",
        File::Manifest(vec![
            (CAMPAIGN_1, "Campaign 1", "campaign_1/", "The first campaign"),
            (CAMPAIGN_2, "Campaign 2: Electric Boogaloo", "campaign_2/", "The second campaign"),
        ]),
    );
    fs.file(
        "test/assets/campaigns/campaign_1/campaign.panic",
        File::Campaign(CAMPAIGN_1, "Campaign 1", "The first campaign"),
    );
    fs.file(
        "test/assets/campaigns/campaign_1/classes/local_class.panic",
        File::Class(LOCAL_CLASS_1, "Local Class 1 (campaign_1)", Dice::D6),
    );
    fs.file(
        "test/assets/campaigns/campaign_1/races/local_race.panic",
        File::Race(LOCAL_RACE_1, "Local Race 1 (campaign_1)", 30),
    );
    fs.file(
        "test/assets/campaigns/campaign_2/campaign.panic",
        File::Campaign(CAMPAIGN_2, "Campaign 2: Electric Boogaloo", "The second campaign"),
    );
    fs.file(
        "test/assets/campaigns/campaign_2/classes/deep/local_class.panic",
        File::Class(LOCAL_CLASS_2, "Local Class 2 (campaign_2)", Dice::D8),
    );
    fs.file(
        "test/assets/campaigns/campaign_2/entities/local_entity.panic",
        File::Entity(LOCAL_ENTITY_1, "Local Entity 1 (campaign_2)", LOCAL_CLASS_2, RACE_2),
    );
    fs
}

/// Assets whose one campaign has a directory without a definition.
fn bad_assets() -> MemFs {
    let mut fs = MemFs::new();
    fs.file(
        "test/bad_assets/campaigns/manifest.panic",
        File::Manifest(vec![(BAD_CAMPAIGN, "Bad Campaign", "bad_campaign/", "Nothing in it")]),
    );
    fs.file("test/bad_assets/campaigns/bad_campaign/notes.txt", File::Junk);
    fs.file(
        "test/bad_assets/campaigns/bad_campaign/classes/local_class.panic",
        File::Class(LOCAL_CLASS_1, "Local Class 1", Dice::D6),
    );
    fs
}

#[test]
fn happy_path() {
    // Load the directory into the asset manager
    let am = test_assets().new_manager("test/assets").unwrap();

    // We loaded two classes and two races, and there is one default for each - verify each
    assert_eq!(am.count_classes(), 3);

    let c1 = am.get_class(CLASS_1).unwrap();
    assert_eq!(c1.get_name(), String::from("Global Class 1"));
    assert_eq!(c1.get_hit_die(), Dice::D20);

    let c2 = am.get_class(CLASS_2).unwrap();
    assert_eq!(c2.get_name(), String::from("Global Class 2 (Nested)"));
    assert_eq!(c2.get_hit_die(), Dice::D100);

    let default_class = am.get_class(0).unwrap();
    assert_eq!(default_class.get_name(), String::new());
    assert_eq!(default_class.get_hit_die(), Dice::D4);

    assert_eq!(am.count_races(), 3);

    let r1 = am.get_race(RACE_1).unwrap();
    assert_eq!(r1.get_name(), String::from("Global Race 1"));
    assert_eq!(r1.get_speed(), 123);

    let r2 = am.get_race(RACE_2).unwrap();
    assert_eq!(r2.get_name(), String::from("Global Race 2"));
    assert_eq!(r2.get_speed(), 255);

    let default_race = am.get_race(0).unwrap();
    assert_eq!(default_race.get_name(), String::new());
    assert_eq!(default_race.get_speed(), 0);

    // We loaded one entity: make sure its class/race are correct
    let e = am.get_entity(ENTITY_1).unwrap();
    assert_eq!(e.get_class_name(&am).unwrap(), c1.get_name());
    assert_eq!(e.get_race_name(&am).unwrap(), r1.get_name());

    // We loaded 2 campaign descriptions: make sure they look right
    assert_eq!(am.count_campaign_descriptions(), 2);
    assert_eq!(am.get_campaign_descriptions().len(), 2);

    let cd1 = am.get_campaign_description(CAMPAIGN_1).unwrap();
    assert_eq!(cd1.get_name(), String::from("Campaign 1"));
    assert_eq!(cd1.get_path(), String::from("campaign_1/"));

    let cd2 = am.get_campaign_description(CAMPAIGN_2).unwrap();
    assert_eq!(cd2.get_name(), String::from("Campaign 2: Electric Boogaloo"));
    assert_eq!(cd2.get_path(), String::from("campaign_2/"));
}

#[test]
fn default_getters() {
    let am = test_assets().new_manager("test/assets").unwrap();

    let c = am.get_default_class();
    let r = am.get_default_race();

    assert_eq!(c.get_name(), String::from(""));
    assert_eq!(c.get_hit_die(), Dice::D4);
    assert_eq!(c.get_uuid(), 0);

    assert_eq!(r.get_name(), String::from(""));
    assert_eq!(r.get_speed(), 0);
    assert_eq!(r.get_uuid(), 0);
}

#[test]
fn bad_asset_fails_correctly() {
    let am = AssetManager::from_test_config();

    // Try to load some Assets with bad IDs
    let bad_class = am.get_class(55u128);
    assert!(bad_class.is_none());

    let bad_race = am.get_race(55u128);
    assert!(bad_race.is_none());

    let bad_entity = am.get_entity(55u128);
    assert!(bad_entity.is_none());
}

#[test]
fn create_happy_path() {
    let mut am = AssetManager::from_test_config();

    // One of each asset with no errors
    let Ok(campaign) = am.create_campaign(
        String::from("Test Campaign Name"),
        String::from("Test Campaign Description"),
    ) else {
        panic!()
    };
    let campaign_uuid = campaign.get_uuid();
    let campaign = am.get_campaign(campaign_uuid).unwrap();

    assert_eq!(campaign.get_uuid(), campaign_uuid);
    assert_eq!(campaign.get_name(), "Test Campaign Name");
    assert_eq!(campaign.get_description(), "Test Campaign Description");

    let Ok(class) = am.create_class(String::from("Test Class Name"), Dice::D20) else { panic!() };
    let class_uuid = class.get_uuid();
    let class = am.get_class(class_uuid).unwrap();

    assert_eq!(class.get_name(), "Test Class Name");

    let Ok(race) = am.create_race(String::from("Test Race Name"), 222) else { panic!() };
    let race_uuid = race.get_uuid();
    let race = am.get_race(race_uuid).unwrap();

    assert_eq!(race.get_name(), "Test Race Name");

    let mut rng = Rng::new(0, 0);
    let Ok(entity) = am.create_entity(
        String::from("Test Entity Name"),
        class_uuid,
        race_uuid,
        AbilityScores::from_defaults(),
        &mut rng,
    ) else {
        panic!()
    };
    let entity_uuid = entity.get_uuid();
    let entity = am.get_entity(entity_uuid).unwrap();

    assert_eq!(entity.get_name(), "Test Entity Name");
}

#[test]
fn load_happy_path() {
    let mut fs = test_assets();
    let mut am = fs.new_manager("test/assets").unwrap();

    // Load one of the campaigns
    let c = am.get_campaign_description(CAMPAIGN_1).unwrap();
    let name = String::from(c.get_name());
    let uuid = c.get_uuid();

    let asset = match fs.load_campaign(&mut am, uuid) {
        LoadAssetResult::Loaded { asset } => asset,
        _ => panic!(),
    };

    // Make sure we got the correct campaign
    assert_eq!(name, asset.get_name());
    assert_eq!(uuid, asset.get_uuid());

    // Make sure we loaded in the correct Assets
    assert_eq!(am.count_classes(), 4); // One Default class, two Global, one Local to this Campaign
    let class = am.get_class(LOCAL_CLASS_1).unwrap();
    assert_eq!(class.get_name(), "Local Class 1 (campaign_1)");

    assert_eq!(am.count_races(), 4); // One Default race, two Global, one Local to this Campaign
    let race = am.get_race(LOCAL_RACE_1).unwrap();
    assert_eq!(race.get_name(), "Local Race 1 (campaign_1)");

    assert_eq!(am.count_entities(), 1); // One Global Entity, none else loaded

    // Load the other Campaign
    let c = am.get_campaign_description(CAMPAIGN_2).unwrap();
    let desc = String::from(c.get_description());
    let uuid = c.get_uuid();

    let asset = match fs.load_campaign(&mut am, uuid) {
        LoadAssetResult::Loaded { asset } => asset,
        _ => panic!(),
    };

    // Make sure we got the correct campaign
    assert_eq!(desc, asset.get_description());
    assert_eq!(uuid, asset.get_uuid());

    // Make sure we loaded in the correct Assets
    assert_eq!(am.count_classes(), 5); // One Default class, two Global, two Local
    let class = am.get_class(LOCAL_CLASS_2).unwrap();
    assert_eq!(class.get_name(), "Local Class 2 (campaign_2)");

    assert_eq!(am.count_races(), 4); // One Default race, two Global, one Local to the first Campaign

    assert_eq!(am.count_entities(), 2); // One Global Entity, one Local to this Campaign
    let entity = am.get_entity(LOCAL_ENTITY_1).unwrap();
    assert_eq!(entity.get_name(), "Local Entity 1 (campaign_2)");
}

#[test]
fn load_uuid_error() {
    let mut fs = test_assets();
    let mut am = fs.new_manager("test/assets").unwrap();
    let reads = fs.reads.len();

    // Load a Campaign with a bad UUID
    match fs.load_campaign(&mut am, 0x55) {
        LoadAssetResult::UuidNotFoundError => (),
        _ => panic!(),
    };

    // nothing was read and every collection is as large as it was
    assert_eq!(fs.reads.len(), reads);
    assert_eq!(am.count_classes(), 3);
    assert_eq!(am.count_races(), 3);
    assert_eq!(am.count_entities(), 1);
    assert_eq!(am.count_campaigns(), 0);
    assert_eq!(am.count_campaign_descriptions(), 2);
}

#[test]
fn load_no_campaign_found_error() {
    let mut fs = bad_assets();
    let mut am = fs.new_manager("test/bad_assets").unwrap();

    // Load a Campaign that has no .panic file
    match fs.load_campaign(&mut am, BAD_CAMPAIGN) {
        LoadAssetResult::NoCampaignFound => (),
        _ => panic!(),
    };

    // what lay beside the missing definition was merged all the same
    assert_eq!(am.get_class(LOCAL_CLASS_1).unwrap().get_name(), "Local Class 1");
    assert_eq!(am.count_campaigns(), 0);
}

#[test]
fn new() {
    let rng = Rng::new(0, 1);
    let mut engine = Engine::new(rng, test_assets().new_manager("test/assets").unwrap());

    // Add a new Campaign and make sure it's there
    let campaign_id: u128;
    {
        let campaign = engine
            .new_campaign(String::from("Campaign name"), String::from("A super thirlling campaign"))
            .unwrap();
        assert_eq!(campaign.get_name(), String::from("Campaign name"));
        campaign_id = campaign.get_uuid();
    }

    let c = engine.get_asset_manager().get_campaign(campaign_id).unwrap();
    assert_eq!(c.get_uuid(), campaign_id);

    let entity_id: u128;
    {
        let entity = engine.new_entity(EntityBuilder::new(String::from("Test Entity"))).unwrap();
        assert_eq!(entity.get_name(), String::from("Test Entity"));
        entity_id = entity.get_uuid();
    }

    let e = engine.get_asset_manager().get_entity(entity_id).unwrap();
    assert_eq!(e.get_uuid(), entity_id);

    let class_id: u128;
    {
        let class = engine.new_class(String::from("Class 2"), Dice::D10).unwrap();
        assert_eq!(class.get_name(), String::from("Class 2"));
        class_id = class.get_uuid();
    }

    let c = engine.get_asset_manager().get_class(class_id).unwrap();
    assert_eq!(c.get_uuid(), class_id);

    let race_id: u128;
    {
        let race = engine.new_race(String::from("Race 2"), 51).unwrap();
        assert_eq!(race.get_name(), String::from("Race 2"));
        race_id = race.get_uuid();
    }

    let r = engine.get_asset_manager().get_race(race_id).unwrap();
    assert_eq!(r.get_uuid(), race_id);
}

#[test]
fn entity_builder() {
    let rng = Rng::new(0, 1);
    let mut engine = Engine::new(rng, test_assets().new_manager("test/assets").unwrap());

    let entity_id: u128;
    let class_id: u128;
    let race_id: u128;

    {
        let c = engine
            .get_asset_manager()
            .get_class(AssetManager::DEFAULT_CLASS_UUID)
            .unwrap()
            .get_uuid();
        let r = engine
            .get_asset_manager()
            .get_race(AssetManager::DEFAULT_RACE_UUID)
            .unwrap()
            .get_uuid();
        class_id = c;
        race_id = r;

        let a = AbilityScores::new(1, 6, 11, 16, 21, 26);
        let e = engine
            .new_entity(
                EntityBuilder::new(String::from("Builder Entity"))
                    .with_class(c)
                    .with_race(r)
                    .with_abilities(a),
            )
            .unwrap();

        assert_eq!(e.get_name(), "Builder Entity");
        entity_id = e.get_uuid();
    }

    let e = engine.get_asset_manager().get_entity(entity_id).unwrap();
    assert_eq!(e.get_class(engine.get_asset_manager()).unwrap().get_uuid(), class_id);
    assert_eq!(e.get_race(engine.get_asset_manager()).unwrap().get_uuid(), race_id);
    assert_eq!(*e.get_ability_scores(), AbilityScores::new(1, 6, 11, 16, 21, 26));
}

#[test]
fn entity_builder_defaults() {
    let (name, class, race, abilities) = EntityBuilder::new(String::from("Plain")).build();
    assert_eq!(name, "Plain");
    assert_eq!(class, 0);
    assert_eq!(race, 0);
    assert_eq!(abilities, AbilityScores::from_defaults());

    let (_, class, race, _) = EntityBuilder::new(String::new()).with_race(9).with_class(8).build();
    assert_eq!((class, race), (8, 9));
}

/// The scenario of one class, one race and one campaign with a local class.
#[test]
fn overlay_scenario() {
    const U1: u128 = 0x11;
    const U2: u128 = 0x22;
    const U3: u128 = 0x33;
    const U4: u128 = 0x44;
    const C1: u128 = 0xC1;
    let mut fs = MemFs::new();
    fs.file("root/classes/a.panic", File::Class(U1, "Fighter", Dice::D10));
    fs.file("root/races/b.panic", File::Race(U2, "Elf", 35));
    fs.file("root/campaigns/manifest.panic", File::Manifest(vec![(C1, "One", "c1/", "")]));
    fs.file("root/campaigns/c1/campaign.panic", File::Campaign(U3, "One", ""));
    fs.file("root/campaigns/c1/classes/local.panic", File::Class(U4, "Local", Dice::D6));

    let mut am = fs.new_manager("root").unwrap();
    assert_eq!(am.count_classes(), 2);
    assert!(am.get_class(0).is_some());
    assert_eq!(am.get_class(U1).unwrap().get_name(), "Fighter");
    assert_eq!(am.get_race(U2).unwrap().get_name(), "Elf");
    assert_eq!(am.count_campaign_descriptions(), 1);
    assert_eq!(am.get_campaign_description(C1).unwrap().get_uuid(), C1);
    assert_eq!(am.count_campaigns(), 0);
    // the campaign's own files were not touched
    assert!(!fs.reads.iter().any(|path| path.contains("c1")));

    match fs.load_campaign(&mut am, C1) {
        LoadAssetResult::Loaded { asset } => assert_eq!(asset.get_uuid(), U3),
        _ => panic!(),
    }
    assert_eq!(am.count_classes(), 3);
    assert!(am.get_class(0).is_some());
    assert!(am.get_class(U1).is_some());
    assert_eq!(am.get_class(U4).unwrap().get_hit_die(), Dice::D6);
    assert_eq!(am.count_campaigns(), 1);
    assert!(am.get_campaign(U3).is_some());
    assert!(am.get_campaign(C1).is_none());
}

#[test]
fn loading_twice_gives_the_same_collections() {
    let first = test_assets().new_manager("test/assets").unwrap();
    let second = test_assets().new_manager("test/assets").unwrap();
    assert_eq!(first.count_classes(), second.count_classes());
    assert_eq!(first.count_races(), second.count_races());
    assert_eq!(first.count_entities(), second.count_entities());
    for id in [0, CLASS_1, CLASS_2] {
        let (a, b) = (first.get_class(id).unwrap(), second.get_class(id).unwrap());
        assert_eq!(a.get_uuid(), b.get_uuid());
        assert_eq!(a.get_name(), b.get_name());
        assert_eq!(a.get_hit_die(), b.get_hit_die());
    }
    for id in [0, RACE_1, RACE_2] {
        let (a, b) = (first.get_race(id).unwrap(), second.get_race(id).unwrap());
        assert_eq!(a.get_name(), b.get_name());
        assert_eq!(a.get_speed(), b.get_speed());
    }
    assert_eq!(
        first.get_entity(ENTITY_1).unwrap().get_name(),
        second.get_entity(ENTITY_1).unwrap().get_name()
    );
}

#[test]
fn a_failing_file_leaves_no_manager() {
    let mut fs = test_assets();
    fs.file("test/assets/races/broken.panic", File::Junk);
    let failure = fs.new_manager("test/assets").err().unwrap();
    assert_eq!(failure.get_kind(), IoFailureKind::InvalidData);
    assert!(failure.get_message().contains("broken.panic"));
}

#[test]
fn a_missing_catalog_leaves_no_manager() {
    let mut fs = MemFs::new();
    fs.file("root/classes/a.panic", File::Class(1, "Fighter", Dice::D10));
    let failure = fs.new_manager("root").err().unwrap();
    assert_eq!(failure.get_kind(), IoFailureKind::NotFound);
    assert_eq!(failure.get_message(), "the asset root holds no campaign catalog");

    // a directory of campaigns without its catalog file fails at the file
    let mut fs = MemFs::new();
    fs.dir("root/campaigns");
    let failure = fs.new_manager("root").err().unwrap();
    assert_eq!(failure.get_kind(), IoFailureKind::NotFound);
    assert!(failure.get_message().contains("root/campaigns/manifest.panic"));

    // and so does an asset root that is not there
    let failure = MemFs::new().new_manager("nowhere").err().unwrap();
    assert_eq!(failure.get_kind(), IoFailureKind::NotFound);
}

#[test]
fn only_asset_files_are_decoded() {
    let mut fs = MemFs::new();
    fs.file("root/campaigns/manifest.panic", File::Manifest(vec![]));
    fs.file("root/classes/a.panic", File::Class(1, "One", Dice::D10));
    fs.file("root/classes/.panic", File::Junk);
    fs.file("root/classes/panic", File::Junk);
    fs.file("root/classes/b.panic.bak", File::Junk);
    fs.file("root/classes/c.PANIC", File::Junk);
    fs.file("root/classes/d.two.panic", File::Class(2, "Two", Dice::D12));
    fs.file("root/classes/sub.panic/e.panic", File::Class(3, "Three", Dice::D4));
    // a file by the name of an asset directory is no asset directory
    fs.file("root/races", File::Junk);
    let am = fs.new_manager("root").unwrap();
    assert_eq!(am.count_classes(), 4);
    assert_eq!(am.get_class(2).unwrap().get_name(), "Two");
    assert_eq!(am.get_class(3).unwrap().get_name(), "Three");
    assert_eq!(am.count_races(), 1);
    assert!(!fs.reads.iter().any(|path| path.ends_with("/.panic")));
    assert!(!fs.reads.iter().any(|path| path.ends_with(".bak")));
}

#[test]
fn the_later_file_wins_a_shared_identifier() {
    let mut fs = MemFs::new();
    fs.file("root/campaigns/manifest.panic", File::Manifest(vec![
        (7, "First", "first/", ""),
        (7, "Second", "second/", ""),
    ]));
    fs.file("root/classes/a.panic", File::Class(1, "Earlier", Dice::D10));
    fs.file("root/classes/sub/b.panic", File::Class(1, "Nested", Dice::D12));
    fs.file("root/classes/z.panic", File::Class(1, "Later", Dice::D20));
    fs.file("root/races/nil.panic", File::Race(0, "Replaces The Default", 9));
    let am = fs.new_manager("root").unwrap();
    assert_eq!(am.count_classes(), 2);
    assert_eq!(am.get_class(1).unwrap().get_name(), "Later");
    assert_eq!(am.get_class(1).unwrap().get_hit_die(), Dice::D20);
    assert_eq!(am.count_campaign_descriptions(), 1);
    assert_eq!(am.get_campaign_description(7).unwrap().get_name(), "Second");
    // the default race gave way, and its place is still taken
    assert_eq!(am.get_default_race().get_name(), "Replaces The Default");
    assert_eq!(am.get_default_race().get_uuid(), 0);
    assert_eq!(am.get_default_class().get_uuid(), 0);
}

#[test]
fn a_failed_load_keeps_what_was_merged_before() {
    let mut fs = test_assets();
    // campaign_1 lists: campaign.panic, classes, races. Break the races.
    fs.file("test/assets/campaigns/campaign_1/races/broken.panic", File::Junk);
    let mut am = fs.new_manager("test/assets").unwrap();
    match fs.load_campaign(&mut am, CAMPAIGN_1) {
        LoadAssetResult::IoError { e } => assert_eq!(e.get_kind(), IoFailureKind::InvalidData),
        _ => panic!(),
    }
    // the classes came before the failure and stay; the races of the failed
    // directory do not, nor does the campaign
    assert_eq!(am.count_classes(), 4);
    assert!(am.get_class(LOCAL_CLASS_1).is_some());
    assert_eq!(am.count_races(), 3);
    assert!(am.get_race(LOCAL_RACE_1).is_none());
    assert_eq!(am.count_campaigns(), 0);
}

#[test]
fn loading_a_campaign_twice_is_a_duplicate() {
    let mut fs = test_assets();
    let mut am = fs.new_manager("test/assets").unwrap();
    assert!(matches!(fs.load_campaign(&mut am, CAMPAIGN_1), LoadAssetResult::Loaded { .. }));
    match fs.load_campaign(&mut am, CAMPAIGN_1) {
        LoadAssetResult::UuidDuplicateError { e } => {
            assert_eq!(e.get_message(), "C");
            assert_eq!(e.get_rejected().get_uuid(), CAMPAIGN_1);
            assert_eq!(e.get_present().get_uuid(), CAMPAIGN_1);
            assert_eq!(e.get_state().len(), 1);
        }
        _ => panic!(),
    }
    assert_eq!(am.count_campaigns(), 1);
}

#[test]
fn the_last_definition_wins() {
    let mut fs = test_assets();
    fs.file(
        "test/assets/campaigns/campaign_1/other.panic",
        File::Campaign(0xABC, "Another Definition", ""),
    );
    let mut am = fs.new_manager("test/assets").unwrap();
    match fs.load_campaign(&mut am, CAMPAIGN_1) {
        LoadAssetResult::Loaded { asset } => {
            assert_eq!(asset.get_uuid(), 0xABC);
            assert_eq!(asset.get_name(), "Another Definition");
        }
        _ => panic!(),
    }
    assert!(am.get_campaign(CAMPAIGN_1).is_none());
}

#[test]
fn a_missing_campaign_directory_is_an_io_error() {
    let mut fs = MemFs::new();
    fs.file("root/campaigns/manifest.panic", File::Manifest(vec![(5, "Gone", "gone/", "")]));
    let mut am = fs.new_manager("root").unwrap();
    match fs.load_campaign(&mut am, 5) {
        LoadAssetResult::IoError { e } => {
            assert_eq!(e.get_kind(), IoFailureKind::NotFound);
            assert!(e.get_message().contains("root/campaigns/gone/"));
        }
        _ => panic!(),
    }
}

#[test]
fn events_that_were_not_asked_for_change_nothing() {
    let mut fs = test_assets();
    let mut load = AssetManager::new("test/assets");
    assert!(matches!(load.action(), ScanAction::ReadDir { ref path } if path == "test/assets"));
    assert!(load.finish().is_none());

    let mut load = AssetManager::new("test/assets");
    // a class where a listing is due
    let action = load.step(ScanEvent::Class(Ok(Class::from_parts(9, String::new(), Dice::D4))));
    assert!(matches!(action, ScanAction::ReadDir { ref path } if path == "test/assets"));
    let mut action = load.step(ScanEvent::Manifest(Ok(Vec::new())));
    assert!(matches!(action, ScanAction::ReadDir { .. }));
    let mut strays = 0;
    while let Some(event) = fs.perform(action) {
        // before every answer, a race that nobody asked for
        let again = load.step(ScanEvent::Campaign(Err(MemFs::invalid("stray"))));
        assert!(!matches!(again, ScanAction::Finished));
        strays += 1;
        action = load.step(event);
    }
    assert!(strays > 5);
    let am = load.finish().unwrap().unwrap();
    assert_eq!(am.count_classes(), 3);
    assert!(am.get_class(9).is_none());
    assert_eq!(am.count_campaign_descriptions(), 2);
}

#[test]
fn duplicate_keys_are_reported_not_overwritten() {
    let mut am = AssetManager::from_test_config();
    let id = am.get_testing_class().get_uuid();
    let error = am.insert_class(Class::from_parts(id, String::from("Usurper"), Dice::D4)).err().unwrap();
    assert_eq!(error.get_message(), "c");
    assert_eq!(error.get_rejected().get_name(), "Usurper");
    assert_eq!(error.get_present().get_name(), "Testing Class");
    assert_eq!(error.get_state().len(), 1);
    assert_eq!(error.into_rejected().get_uuid(), id);
    assert_eq!(am.get_class(id).unwrap().get_name(), "Testing Class");
    assert_eq!(am.count_classes(), 1);

    let id = am.get_testing_race().get_uuid();
    let error = am.insert_race(Race::from_parts(id, String::from("Usurper"), 1)).err().unwrap();
    assert_eq!(error.get_message(), "r");
    assert_eq!(am.get_race(id).unwrap().get_speed(), 123);

    am.insert_campaign(Campaign::from_parts(4, String::from("A"), String::new(), HashMap::new(), None), "x")
        .unwrap();
    let error = am
        .insert_campaign(Campaign::from_parts(4, String::from("B"), String::new(), HashMap::new(), None), "x")
        .err()
        .unwrap();
    assert_eq!(error.get_message(), "x");
    assert_eq!(am.get_campaign(4).unwrap().get_name(), "A");
}

#[test]
fn created_classes_get_identifiers_of_their_own() {
    let mut am = test_assets().new_manager("test/assets").unwrap();
    let first = am.create_class(String::from("Fighter"), Dice::D20).unwrap().get_uuid();
    let found = am.get_class(first).unwrap();
    assert_eq!(found.get_name(), "Fighter");
    assert_eq!(found.get_hit_die(), Dice::D20);
    let second = am.create_class(String::from("Fighter"), Dice::D20).unwrap().get_uuid();
    assert_ne!(first, second);
    assert_ne!(first, 0);
    assert_ne!(second, 0);
    assert_eq!(am.count_classes(), 5);
    // the defaults are where they were
    assert_eq!(am.get_default_class().get_uuid(), 0);
    assert_eq!(am.get_default_class().get_hit_die(), Dice::D4);
    assert_eq!(am.get_default_race().get_uuid(), 0);
    for _ in 0..50 {
        am.create_race(String::from("Elf"), 30).unwrap();
    }
    assert_eq!(am.count_races(), 53);
    assert_eq!(am.get_default_race().get_speed(), 0);
}

#[test]
fn a_directory_is_never_the_definition() {
    let mut fs = MemFs::new();
    fs.file("root/campaigns/manifest.panic", File::Manifest(vec![(5, "Five", "five/", "")]));
    fs.file("root/campaigns/five/folder.panic/inside.panic", File::Campaign(9, "Inside", ""));
    fs.file("root/campaigns/five/classes/local.panic", File::Class(8, "Local", Dice::D6));
    let mut am = fs.new_manager("root").unwrap();
    assert!(matches!(fs.load_campaign(&mut am, 5), LoadAssetResult::NoCampaignFound));
    assert!(!fs.reads.iter().any(|path| path.contains("folder.panic")));
    assert!(am.get_class(8).is_some());

    fs.file("root/campaigns/five/five.panic", File::Campaign(5, "Five", ""));
    assert!(matches!(fs.load_campaign(&mut am, 5), LoadAssetResult::Loaded { .. }));
    assert_eq!(am.get_campaign(5).unwrap().get_name(), "Five");
    // the catalog is as it was built
    assert_eq!(am.count_campaign_descriptions(), 1);
    assert_eq!(am.get_campaign_description(5).unwrap().get_path(), "five/");
}

#[test]
fn minted_identifiers_are_none_of_the_small_numbers() {
    let mut am = AssetManager::from_test_config();
    let id = am.create_class(String::from("Fighter"), Dice::D20).unwrap().get_uuid();
    let c = am.get_class(id).unwrap();
    assert_eq!(c.get_name(), "Fighter");
    assert_eq!(c.get_hit_die(), Dice::D20);
    assert_eq!(c.get_uuid(), id);
    assert!(am.get_class(55).is_none());
    assert_eq!((id >> 76) & 0xf, 7);
    assert_eq!((id >> 62) & 0x3, 2);
    assert_eq!((am.get_testing_race().get_uuid() >> 76) & 0xf, 7);

    let races = am.count_races();
    let race = am.create_race(String::from("Test Race Name"), 222).unwrap().get_uuid();
    assert_eq!(am.count_races(), races + 1);
    assert_eq!(am.get_race(race).unwrap().get_speed(), 222);
    assert_eq!(am.count_classes(), 2);
}

#[test]
fn an_entity_made_by_the_manager_draws_once() {
    let mut am = AssetManager::from_test_config();
    let class = am.get_testing_class().get_uuid();
    let mut rng = Rng::new(5, 1);
    let entity = am
        .create_entity(String::new(), class, 0, AbilityScores::new(20, 19, 18, 17, 16, 15), &mut rng)
        .unwrap();
    // the word 5 on a twelve-sided die is 6; constitution 18 adds 4
    assert_eq!(entity.get_hp(), 10);
    assert!(matches!(rng, Rng::Step { state: 6, increment: 1 }));

    // no class, no draw
    let entity =
        am.create_entity(String::new(), 1, 0, AbilityScores::from_defaults(), &mut rng).unwrap();
    assert_eq!(entity.get_hp(), 0);
    assert!(matches!(rng, Rng::Step { state: 6, increment: 1 }));
}
