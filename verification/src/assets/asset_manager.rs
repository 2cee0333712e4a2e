//! The asset manager: the store of every class, race, entity and campaign,
//! each collection keyed by identifier.

use vstd::prelude::*;
use vstd::std_specs::hash::group_hash_axioms;
use vstd::std_specs::iter::IteratorSpec;
use vstd::string::StringExecFns;
use std::collections::HashMap;
use crate::assets::asset::{keyed_by_uuid, Asset};
use crate::assets::directory_loader::{
    lemma_merged_keyed,
    merge_assets,
    merged,
    reversed,
    stored,
};
use crate::assets::identifier::{minted, nil};
use crate::campaigns::campaign::Campaign;
use crate::campaigns::campaign_description::CampaignDescription;
use crate::entities::abilities::{Ability, AbilityScores, SaveAttributes};
use crate::entities::class::Class;
use crate::entities::entity::{leveled_hp, Entity};
use crate::entities::race::Race;
use crate::entities::skills::{Skill, SkillAttributes};
use crate::mechanics::dice::{step_bits, step_state, Dice, Rng};
use crate::util::asset_key_error::AssetKeyError;

verus! {

broadcast use group_hash_axioms;

/// The collection that holds the given catalog entries, each under its own
/// identifier. Where two entries share an identifier the later one stays.
pub open spec fn catalog_of(entries: Seq<CampaignDescription>) -> Map<u128, CampaignDescription>
    decreases entries.len(),
{
    if entries.len() == 0 {
        Map::empty()
    } else {
        catalog_of(entries.drop_last()).insert(entries.last().uuid(), entries.last())
    }
}

/// Every entry of the catalog is stored under its own identifier.
pub open spec fn catalog_keyed(catalog: Map<u128, CampaignDescription>) -> bool {
    forall|id: u128| #[trigger] catalog.contains_key(id) ==> catalog[id].uuid() == id
}

/// Every entry of a catalog is stored under its own identifier.
pub proof fn lemma_catalog_keyed(entries: Seq<CampaignDescription>)
    ensures
        catalog_keyed(catalog_of(entries)),
    decreases entries.len(),
{
    if entries.len() > 0 {
        lemma_catalog_keyed(entries.drop_last());
    }
}

/// `after` holds all that `before` holds, under the same identifiers.
pub open spec fn holds_all<T>(after: Map<u128, T>, before: Map<u128, T>) -> bool {
    forall|id: u128| #[trigger]
        before.contains_key(id) ==> after.contains_key(id) && after[id] == before[id]
}

/// A collection holds all of itself, and all that it held before an asset
/// was stored in it; and holding all carries over from step to step.
pub proof fn lemma_growth<T: Asset>(
    before: Map<u128, T>,
    asset: T,
    between: Map<u128, T>,
    after: Map<u128, T>,
)
    ensures
        holds_all(before, before),
        stored(before, asset, after) ==> holds_all(after, before),
        holds_all(between, before) && holds_all(after, between) ==> holds_all(after, before),
{
}

/// The defaults stay: in a manager that holds all that an earlier one held,
/// as after any number of creations, the class and the race under the nil
/// identifier are those of the earlier manager, and each carries the nil
/// identifier.
pub proof fn lemma_defaults_stay(before: &AssetManager, after: &AssetManager)
    requires
        before.wf(),
        before.has_defaults(),
        holds_all(after.classes(), before.classes()),
        holds_all(after.races(), before.races()),
    ensures
        after.has_defaults(),
        after.classes()[nil()] == before.classes()[nil()],
        after.classes()[nil()].uuid() == nil(),
        after.races()[nil()] == before.races()[nil()],
        after.races()[nil()].uuid() == nil(),
{
}

/// Stores `asset` in `map` under its own identifier unless that identifier
/// is taken. Where it is taken, nothing is stored and the error holds the
/// asset that was turned away, the asset that is in its place, and the
/// collection.
pub fn check_and_insert<'a, T: Asset>(
    map: &'a mut HashMap<u128, T>,
    asset: T,
    message: &str,
) -> (result: Result<&'a T, AssetKeyError<'a, T>>)
    ensures
        result is Ok <==> !old(map)@.contains_key(asset.uuid()),
        match result {
            Ok(stored) => {
                &&& *stored == asset
                &&& final(map)@ == old(map)@.insert(asset.uuid(), asset)
            },
            Err(error) => {
                &&& final(map)@ == old(map)@
                &&& error.message() == message@
                &&& error.rejected() == asset
                &&& error.present() == old(map)@[asset.uuid()]
                &&& error.state() == old(map)@
            },
        },
{
    let uuid: u128 = asset.get_uuid();
    if map.contains_key(&uuid) {
        let state: &'a HashMap<u128, T> = map;
        let present: &'a T = state.get(&uuid).unwrap();
        Err(AssetKeyError::new(String::from_str(message), asset, present, state))
    } else {
        map.insert(uuid, asset);
        Ok(map.get(&uuid).unwrap())
    }
}

/// The five collections of an asset manager and its asset root.
pub struct Collections {
    pub asset_root: Seq<char>,
    pub campaign_descriptions: Map<u128, CampaignDescription>,
    pub campaigns: Map<u128, Campaign>,
    pub classes: Map<u128, Class>,
    pub entities: Map<u128, Entity>,
    pub races: Map<u128, Race>,
}

/// The store of all assets.
pub struct AssetManager {
    asset_root: String,
    campaign_descriptions: HashMap<u128, CampaignDescription>,
    campaigns: HashMap<u128, Campaign>,
    classes: HashMap<u128, Class>,
    entities: HashMap<u128, Entity>,
    races: HashMap<u128, Race>,
}

impl AssetManager {
    /// The identifier of the built-in class.
    pub const DEFAULT_CLASS_UUID: u128 = 0;

    /// The identifier of the built-in race.
    pub const DEFAULT_RACE_UUID: u128 = 0;

    /// The directory that the assets were loaded from.
    pub closed spec fn asset_root(&self) -> Seq<char> {
        self.asset_root@
    }

    /// The catalog of the campaigns that can be loaded.
    pub closed spec fn campaign_descriptions(&self) -> Map<u128, CampaignDescription> {
        self.campaign_descriptions@
    }

    pub closed spec fn campaigns(&self) -> Map<u128, Campaign> {
        self.campaigns@
    }

    pub closed spec fn classes(&self) -> Map<u128, Class> {
        self.classes@
    }

    pub closed spec fn entities(&self) -> Map<u128, Entity> {
        self.entities@
    }

    pub closed spec fn races(&self) -> Map<u128, Race> {
        self.races@
    }

    /// The collections and the asset root together.
    pub open spec fn view(&self) -> Collections {
        Collections {
            asset_root: self.asset_root(),
            campaign_descriptions: self.campaign_descriptions(),
            campaigns: self.campaigns(),
            classes: self.classes(),
            entities: self.entities(),
            races: self.races(),
        }
    }

    /// In every collection each value is stored under its own identifier,
    /// and every collection holds finitely many values.
    pub open spec fn wf(&self) -> bool {
        &&& keyed_by_uuid(self.classes())
        &&& keyed_by_uuid(self.races())
        &&& keyed_by_uuid(self.entities())
        &&& keyed_by_uuid(self.campaigns())
        &&& catalog_keyed(self.campaign_descriptions())
        &&& self.classes().dom().finite()
        &&& self.races().dom().finite()
        &&& self.entities().dom().finite()
        &&& self.campaigns().dom().finite()
        &&& self.campaign_descriptions().dom().finite()
    }

    /// The built-in defaults are there: a class and a race under the nil
    /// identifier.
    pub open spec fn has_defaults(&self) -> bool {
        &&& self.classes().contains_key(nil())
        &&& self.races().contains_key(nil())
    }

    /// Everything but the classes is the same in both managers.
    pub open spec fn same_but_classes(&self, other: &Self) -> bool {
        &&& self.asset_root() == other.asset_root()
        &&& self.campaign_descriptions() == other.campaign_descriptions()
        &&& self.campaigns() == other.campaigns()
        &&& self.entities() == other.entities()
        &&& self.races() == other.races()
    }

    /// Everything but the races is the same in both managers.
    pub open spec fn same_but_races(&self, other: &Self) -> bool {
        &&& self.asset_root() == other.asset_root()
        &&& self.campaign_descriptions() == other.campaign_descriptions()
        &&& self.campaigns() == other.campaigns()
        &&& self.entities() == other.entities()
        &&& self.classes() == other.classes()
    }

    /// Everything but the entities is the same in both managers.
    pub open spec fn same_but_entities(&self, other: &Self) -> bool {
        &&& self.asset_root() == other.asset_root()
        &&& self.campaign_descriptions() == other.campaign_descriptions()
        &&& self.campaigns() == other.campaigns()
        &&& self.classes() == other.classes()
        &&& self.races() == other.races()
    }

    /// Everything but the campaigns is the same in both managers.
    pub open spec fn same_but_campaigns(&self, other: &Self) -> bool {
        &&& self.asset_root() == other.asset_root()
        &&& self.campaign_descriptions() == other.campaign_descriptions()
        &&& self.classes() == other.classes()
        &&& self.entities() == other.entities()
        &&& self.races() == other.races()
    }

    /// Everything but the catalog is the same in both managers.
    pub open spec fn same_but_catalog(&self, other: &Self) -> bool {
        &&& self.asset_root() == other.asset_root()
        &&& self.campaigns() == other.campaigns()
        &&& self.classes() == other.classes()
        &&& self.entities() == other.entities()
        &&& self.races() == other.races()
    }

    /// All five collections are the same in both managers.
    pub open spec fn same_collections(&self, other: &Self) -> bool {
        &&& self.campaign_descriptions() == other.campaign_descriptions()
        &&& self.campaigns() == other.campaigns()
        &&& self.classes() == other.classes()
        &&& self.entities() == other.entities()
        &&& self.races() == other.races()
    }

    /// A manager that holds the built-in class and race and nothing else.
    pub fn with_defaults(asset_root: String) -> (manager: Self)
        ensures
            manager.wf(),
            manager.has_defaults(),
            manager.asset_root() == asset_root@,
            manager.classes().dom() == set![nil()],
            manager.classes()[nil()].name() == Seq::<char>::empty(),
            manager.classes()[nil()].hit_die() == Dice::D4,
            manager.races().dom() == set![nil()],
            manager.races()[nil()].name() == Seq::<char>::empty(),
            manager.races()[nil()].speed() == 0,
            manager.entities() == Map::<u128, Entity>::empty(),
            manager.campaigns() == Map::<u128, Campaign>::empty(),
            manager.campaign_descriptions() == Map::<u128, CampaignDescription>::empty(),
    {
        let default_class: Class = Class::default();
        let default_race: Race = Race::default();
        let mut classes: HashMap<u128, Class> = HashMap::new();
        classes.insert(default_class.get_uuid(), default_class);
        let mut races: HashMap<u128, Race> = HashMap::new();
        races.insert(default_race.get_uuid(), default_race);
        let manager = Self {
            asset_root,
            campaign_descriptions: HashMap::new(),
            campaigns: HashMap::new(),
            classes,
            entities: HashMap::new(),
            races,
        };
        assert(manager.classes().dom() =~= set![nil()]);
        assert(manager.races().dom() =~= set![nil()]);
        manager
    }

    /// A manager for trials: no asset root, no defaults, one class and one
    /// race under freshly minted identifiers.
    pub fn from_test_config() -> (manager: Self)
        ensures
            manager.wf(),
            manager.asset_root() == Seq::<char>::empty(),
            manager.classes().len() == 1,
            manager.races().len() == 1,
            !manager.classes().contains_key(nil()),
            !manager.races().contains_key(nil()),
            forall|id: u128| #[trigger]
                manager.classes().contains_key(id) ==> minted(id) && manager.classes()[id].name()
                    == "Testing Class"@ && manager.classes()[id].hit_die() == Dice::D12,
            forall|id: u128| #[trigger]
                manager.races().contains_key(id) ==> minted(id) && manager.races()[id].name()
                    == "Testing Race"@ && manager.races()[id].speed() == 123,
            manager.entities() == Map::<u128, Entity>::empty(),
            manager.campaigns() == Map::<u128, Campaign>::empty(),
            manager.campaign_descriptions() == Map::<u128, CampaignDescription>::empty(),
    {
        let c: Class = Class::new(String::from_str("Testing Class"), Dice::D12);
        let r: Race = Race::new(String::from_str("Testing Race"), 123);
        let mut classes: HashMap<u128, Class> = HashMap::new();
        classes.insert(c.get_uuid(), c);
        let mut races: HashMap<u128, Race> = HashMap::new();
        races.insert(r.get_uuid(), r);
        let manager = Self {
            asset_root: String::new(),
            campaign_descriptions: HashMap::new(),
            campaigns: HashMap::new(),
            classes,
            entities: HashMap::new(),
            races,
        };
        assert(manager.classes().dom() =~= set![c.uuid()]);
        assert(manager.races().dom() =~= set![r.uuid()]);
        manager
    }

    /// Some class of the manager: the only one, after `from_test_config`.
    pub fn get_testing_class(&self) -> (class: &Class)
        requires
            self.classes().len() > 0,
        ensures
            exists|id: u128| #[trigger] self.classes().contains_key(id) && self.classes()[id] == *class,
    {
        let mut first: Option<&Class> = None;
        for value in iter: self.classes.values()
            invariant
                iter.seq().unref().to_set() == self.classes@.values(),
                iter.seq().len() == self.classes@.dom().len(),
                first is None <==> iter.index() == 0,
                first is Some ==> self.classes@.values().contains(*first->0),
        {
            if first.is_none() {
                proof {
                    let i = iter.index() as int;
                    assert(iter.seq().unref()[i] == *value);
                    assert(iter.seq().unref().to_set().contains(iter.seq().unref()[i]));
                }
                first = Some(value);
            }
        }
        first.unwrap()
    }

    /// Some race of the manager: the only one, after `from_test_config`.
    pub fn get_testing_race(&self) -> (race: &Race)
        requires
            self.races().len() > 0,
        ensures
            exists|id: u128| #[trigger] self.races().contains_key(id) && self.races()[id] == *race,
    {
        let mut first: Option<&Race> = None;
        for value in iter: self.races.values()
            invariant
                iter.seq().unref().to_set() == self.races@.values(),
                iter.seq().len() == self.races@.dom().len(),
                first is None <==> iter.index() == 0,
                first is Some ==> self.races@.values().contains(*first->0),
        {
            if first.is_none() {
                proof {
                    let i = iter.index() as int;
                    assert(iter.seq().unref()[i] == *value);
                    assert(iter.seq().unref().to_set().contains(iter.seq().unref()[i]));
                }
                first = Some(value);
            }
        }
        first.unwrap()
    }

    pub fn get_asset_root(&self) -> (root: &str)
        ensures
            root@ == self.asset_root(),
    {
        self.asset_root.as_str()
    }

    pub fn get_campaign(&self, uuid: u128) -> (campaign: Option<&Campaign>)
        ensures
            match campaign {
                Some(found) => self.campaigns().contains_key(uuid) && *found
                    == self.campaigns()[uuid],
                None => !self.campaigns().contains_key(uuid),
            },
    {
        self.campaigns.get(&uuid)
    }

    pub fn get_class(&self, uuid: u128) -> (class: Option<&Class>)
        ensures
            match class {
                Some(found) => self.classes().contains_key(uuid) && *found == self.classes()[uuid],
                None => !self.classes().contains_key(uuid),
            },
    {
        self.classes.get(&uuid)
    }

    pub fn get_race(&self, uuid: u128) -> (race: Option<&Race>)
        ensures
            match race {
                Some(found) => self.races().contains_key(uuid) && *found == self.races()[uuid],
                None => !self.races().contains_key(uuid),
            },
    {
        self.races.get(&uuid)
    }

    pub fn get_entity(&self, uuid: u128) -> (entity: Option<&Entity>)
        ensures
            match entity {
                Some(found) => self.entities().contains_key(uuid) && *found
                    == self.entities()[uuid],
                None => !self.entities().contains_key(uuid),
            },
    {
        self.entities.get(&uuid)
    }

    pub fn get_campaign_description(&self, uuid: u128) -> (entry: Option<&CampaignDescription>)
        ensures
            match entry {
                Some(found) => self.campaign_descriptions().contains_key(uuid) && *found
                    == self.campaign_descriptions()[uuid],
                None => !self.campaign_descriptions().contains_key(uuid),
            },
    {
        self.campaign_descriptions.get(&uuid)
    }

    /// The class stored under the nil identifier.
    pub fn get_default_class(&self) -> (class: &Class)
        requires
            self.has_defaults(),
        ensures
            *class == self.classes()[nil()],
            self.wf() ==> class.uuid() == nil(),
    {
        self.classes.get(&crate::assets::identifier::nil_identifier()).unwrap()
    }

    /// The race stored under the nil identifier.
    pub fn get_default_race(&self) -> (race: &Race)
        requires
            self.has_defaults(),
        ensures
            *race == self.races()[nil()],
            self.wf() ==> race.uuid() == nil(),
    {
        self.races.get(&crate::assets::identifier::nil_identifier()).unwrap()
    }

    pub fn count_classes(&self) -> (count: usize)
        ensures
            count == self.classes().len(),
    {
        self.classes.len()
    }

    pub fn count_races(&self) -> (count: usize)
        ensures
            count == self.races().len(),
    {
        self.races.len()
    }

    pub fn count_entities(&self) -> (count: usize)
        ensures
            count == self.entities().len(),
    {
        self.entities.len()
    }

    pub fn count_campaigns(&self) -> (count: usize)
        ensures
            count == self.campaigns().len(),
    {
        self.campaigns.len()
    }

    pub fn count_campaign_descriptions(&self) -> (count: usize)
        ensures
            count == self.campaign_descriptions().len(),
    {
        self.campaign_descriptions.len()
    }

    /// Stores `class` unless its identifier is taken.
    pub fn insert_class(&mut self, class: Class) -> (result: Result<
        &Class,
        AssetKeyError<'_, Class>,
    >)
        requires
            old(self).wf(),
        ensures
            final(self).wf(),
            old(self).has_defaults() ==> final(self).has_defaults(),
            final(self).same_but_classes(old(self)),
            result is Ok <==> !old(self).classes().contains_key(class.uuid()),
            match result {
                Ok(stored) => {
                    &&& *stored == class
                    &&& final(self).classes() == old(self).classes().insert(class.uuid(), class)
                },
                Err(error) => {
                    &&& final(self).classes() == old(self).classes()
                    &&& error.message() == "c"@
                    &&& error.rejected() == class
                    &&& error.present() == old(self).classes()[class.uuid()]
                    &&& error.state() == old(self).classes()
                },
            },
    {
        check_and_insert(&mut self.classes, class, "c")
    }

    /// Stores `race` unless its identifier is taken.
    pub fn insert_race(&mut self, race: Race) -> (result: Result<&Race, AssetKeyError<'_, Race>>)
        requires
            old(self).wf(),
        ensures
            final(self).wf(),
            old(self).has_defaults() ==> final(self).has_defaults(),
            final(self).same_but_races(old(self)),
            result is Ok <==> !old(self).races().contains_key(race.uuid()),
            match result {
                Ok(stored) => {
                    &&& *stored == race
                    &&& final(self).races() == old(self).races().insert(race.uuid(), race)
                },
                Err(error) => {
                    &&& final(self).races() == old(self).races()
                    &&& error.message() == "r"@
                    &&& error.rejected() == race
                    &&& error.present() == old(self).races()[race.uuid()]
                    &&& error.state() == old(self).races()
                },
            },
    {
        check_and_insert(&mut self.races, race, "r")
    }

    /// Stores `entity` unless its identifier is taken.
    pub fn insert_entity(&mut self, entity: Entity) -> (result: Result<
        &Entity,
        AssetKeyError<'_, Entity>,
    >)
        requires
            old(self).wf(),
        ensures
            final(self).wf(),
            old(self).has_defaults() ==> final(self).has_defaults(),
            final(self).same_but_entities(old(self)),
            result is Ok <==> !old(self).entities().contains_key(entity.uuid()),
            match result {
                Ok(stored) => {
                    &&& *stored == entity
                    &&& final(self).entities() == old(self).entities().insert(entity.uuid(), entity)
                },
                Err(error) => {
                    &&& final(self).entities() == old(self).entities()
                    &&& error.message() == "d"@
                    &&& error.rejected() == entity
                    &&& error.present() == old(self).entities()[entity.uuid()]
                    &&& error.state() == old(self).entities()
                },
            },
    {
        check_and_insert(&mut self.entities, entity, "d")
    }

    /// Stores `campaign` unless its identifier is taken. `message` is the
    /// tag that the error carries.
    pub fn insert_campaign(&mut self, campaign: Campaign, message: &str) -> (result: Result<
        &Campaign,
        AssetKeyError<'_, Campaign>,
    >)
        requires
            old(self).wf(),
        ensures
            final(self).wf(),
            old(self).has_defaults() ==> final(self).has_defaults(),
            final(self).same_but_campaigns(old(self)),
            result is Ok <==> !old(self).campaigns().contains_key(campaign.uuid()),
            match result {
                Ok(stored) => {
                    &&& *stored == campaign
                    &&& final(self).campaigns() == old(self).campaigns().insert(
                        campaign.uuid(),
                        campaign,
                    )
                },
                Err(error) => {
                    &&& final(self).campaigns() == old(self).campaigns()
                    &&& error.message() == message@
                    &&& error.rejected() == campaign
                    &&& error.present() == old(self).campaigns()[campaign.uuid()]
                    &&& error.state() == old(self).campaigns()
                },
            },
    {
        check_and_insert(&mut self.campaigns, campaign, message)
    }

    /// Makes a campaign under a fresh identifier and stores it, unless the
    /// identifier is taken.
    pub fn create_campaign(&mut self, campaign_name: String, campaign_description: String) -> (result:
        Result<&Campaign, AssetKeyError<'_, Campaign>>)
        requires
            old(self).wf(),
        ensures
            final(self).wf(),
            old(self).has_defaults() ==> final(self).has_defaults(),
            final(self).same_but_campaigns(old(self)),
            match result {
                Ok(stored) => {
                    &&& stored.name() == campaign_name@
                    &&& stored.description() == campaign_description@
                    &&& minted(stored.uuid())
                    &&& stored.uuid() != nil()
                    &&& !old(self).campaigns().contains_key(stored.uuid())
                    &&& final(self).campaigns() == old(self).campaigns().insert(
                        stored.uuid(),
                        *stored,
                    )
                },
                Err(error) => {
                    &&& final(self).campaigns() == old(self).campaigns()
                    &&& error.message() == "c"@
                    &&& minted(error.rejected().uuid())
                    &&& error.rejected().name() == campaign_name@
                    &&& error.rejected().description() == campaign_description@
                    &&& old(self).campaigns().contains_key(error.rejected().uuid())
                    &&& error.present() == old(self).campaigns()[error.rejected().uuid()]
                    &&& error.state() == old(self).campaigns()
                },
            },
    {
        let c: Campaign = Campaign::new(campaign_name, campaign_description);
        self.insert_campaign(c, "c")
    }

    /// Makes a class under a fresh identifier and stores it, unless the
    /// identifier is taken.
    pub fn create_class(&mut self, class_name: String, hit_die: Dice) -> (result: Result<
        &Class,
        AssetKeyError<'_, Class>,
    >)
        requires
            old(self).wf(),
        ensures
            final(self).wf(),
            old(self).has_defaults() ==> final(self).has_defaults(),
            final(self).same_but_classes(old(self)),
            match result {
                Ok(stored) => {
                    &&& stored.name() == class_name@
                    &&& stored.hit_die() == hit_die
                    &&& minted(stored.uuid())
                    &&& stored.uuid() != nil()
                    &&& !old(self).classes().contains_key(stored.uuid())
                    &&& final(self).classes() == old(self).classes().insert(stored.uuid(), *stored)
                },
                Err(error) => {
                    &&& final(self).classes() == old(self).classes()
                    &&& error.message() == "c"@
                    &&& minted(error.rejected().uuid())
                    &&& error.rejected().name() == class_name@
                    &&& error.rejected().hit_die() == hit_die
                    &&& old(self).classes().contains_key(error.rejected().uuid())
                    &&& error.present() == old(self).classes()[error.rejected().uuid()]
                    &&& error.state() == old(self).classes()
                },
            },
    {
        let c: Class = Class::new(class_name, hit_die);
        self.insert_class(c)
    }

    /// Makes an entity at level 1 under a fresh identifier and stores it,
    /// unless the identifier is taken. The entity refers to the class and
    /// the race of the given identifiers, whether the manager holds them or
    /// not; its first hit points are rolled with one draw from `rng` where
    /// the manager holds the class, and `rng` is left as it was where not.
    pub fn create_entity(
        &mut self,
        entity_name: String,
        class: u128,
        race: u128,
        abilities: AbilityScores,
        rng: &mut Rng,
    ) -> (result: Result<&Entity, AssetKeyError<'_, Entity>>)
        requires
            old(self).wf(),
        ensures
            final(self).wf(),
            old(self).has_defaults() ==> final(self).has_defaults(),
            final(self).same_but_entities(old(self)),
            !old(self).classes().contains_key(class) ==> *final(rng) == *old(rng),
            ({
                let entity = match result {
                    Ok(stored) => *stored,
                    Err(error) => error.rejected(),
                };
                &&& entity.wf()
                &&& minted(entity.uuid())
                &&& entity.uuid() != nil()
                &&& entity.name() == entity_name@
                &&& entity.class() == class
                &&& entity.race() == race
                &&& entity.abilities() == abilities
                &&& entity.level() == 1
                &&& entity.hp_temp() == 0
                &&& entity.hp_max() == entity.hp()
                &&& forall|skill: Skill| #[trigger]
                    entity.skills().value(skill) == SkillAttributes::Normal
                &&& forall|ability: Ability| #[trigger]
                    entity.saves().value(ability) == SaveAttributes::Normal
                &&& !old(self).classes().contains_key(class) ==> entity.hp() == 0
                &&& old(self).classes().contains_key(class) ==> exists|raw: u32|
                    entity.hp() == leveled_hp(
                        0,
                        #[trigger] old(self).classes()[class].hit_die().face_for(raw),
                        abilities.modifier(Ability::Constitution),
                    )
                &&& old(self).classes().contains_key(class) ==> match *old(rng) {
                    Rng::Step { state, increment } => {
                        &&& entity.hp() == leveled_hp(
                            0,
                            old(self).classes()[class].hit_die().face_for(step_bits(state)),
                            abilities.modifier(Ability::Constitution),
                        )
                        &&& *final(rng) == (Rng::Step {
                            state: step_state(state, increment),
                            increment,
                        })
                    },
                    Rng::Std(_) => *final(rng) is Std,
                }
                &&& result is Ok <==> !old(self).entities().contains_key(entity.uuid())
            }),
            match result {
                Ok(stored) => final(self).entities() == old(self).entities().insert(
                    stored.uuid(),
                    *stored,
                ),
                Err(error) => {
                    &&& final(self).entities() == old(self).entities()
                    &&& error.message() == "d"@
                    &&& error.present() == old(self).entities()[error.rejected().uuid()]
                    &&& error.state() == old(self).entities()
                },
            },
    {
        let e: Entity = Entity::new(entity_name, class, race, abilities, self, rng);
        self.insert_entity(e)
    }

    /// The entries of the catalog, in no particular order.
    pub fn get_campaign_descriptions(&self) -> (entries: Vec<&CampaignDescription>)
        ensures
            entries@.len() == self.campaign_descriptions().len(),
            entries@.unref().to_set() == self.campaign_descriptions().values(),
    {
        let mut entries: Vec<&CampaignDescription> = Vec::new();
        let values = self.campaign_descriptions.values();
        let ghost all = values.remaining();
        for entry in iter: values
            invariant
                iter.seq() == all,
                entries@ == all.take(iter.index() as int),
        {
            proof {
                let i = iter.index() as int;
                assert(all.take(i + 1) =~= all.take(i).push(entry));
            }
            entries.push(entry);
        }
        proof {
            assert(entries@ =~= all);
        }
        entries
    }

    /// Makes a race under a fresh identifier and stores it, unless the
    /// identifier is taken.
    pub fn create_race(&mut self, race_name: String, speed: u8) -> (result: Result<
        &Race,
        AssetKeyError<'_, Race>,
    >)
        requires
            old(self).wf(),
        ensures
            final(self).wf(),
            old(self).has_defaults() ==> final(self).has_defaults(),
            final(self).same_but_races(old(self)),
            match result {
                Ok(stored) => {
                    &&& stored.name() == race_name@
                    &&& stored.speed() == speed
                    &&& minted(stored.uuid())
                    &&& stored.uuid() != nil()
                    &&& !old(self).races().contains_key(stored.uuid())
                    &&& final(self).races() == old(self).races().insert(stored.uuid(), *stored)
                },
                Err(error) => {
                    &&& final(self).races() == old(self).races()
                    &&& error.message() == "r"@
                    &&& minted(error.rejected().uuid())
                    &&& error.rejected().name() == race_name@
                    &&& error.rejected().speed() == speed
                    &&& old(self).races().contains_key(error.rejected().uuid())
                    &&& error.present() == old(self).races()[error.rejected().uuid()]
                    &&& error.state() == old(self).races()
                },
            },
    {
        let r: Race = Race::new(race_name, speed);
        self.insert_race(r)
    }

    /// Replaces the catalog by the given entries, each under its own
    /// identifier. Where two entries share an identifier the later one stays.
    pub(crate) fn set_campaign_descriptions(&mut self, entries: Vec<CampaignDescription>)
        requires
            old(self).wf(),
        ensures
            final(self).wf(),
            old(self).has_defaults() ==> final(self).has_defaults(),
            final(self).same_but_catalog(old(self)),
            final(self).campaign_descriptions() == catalog_of(entries@),
    {
        let mut catalog: HashMap<u128, CampaignDescription> = HashMap::new();
        let mut stack: Vec<CampaignDescription> = reversed(entries);
        let ghost mut done: int = 0;
        while stack.len() > 0
            invariant
                0 <= done <= entries@.len(),
                stack@.len() == entries@.len() - done,
                stack@ == entries@.reverse().take(entries@.len() - done),
                catalog@ == catalog_of(entries@.take(done)),
            decreases stack@.len(),
        {
            let entry: CampaignDescription = stack.pop().unwrap();
            let id: u128 = entry.get_uuid();
            proof {
                assert(entry == entries@[done]);
                assert(entries@.take(done + 1).drop_last() =~= entries@.take(done));
                assert(entries@.take(done + 1).last() == entries@[done]);
            }
            catalog.insert(id, entry);
            proof {
                done = done + 1;
            }
        }
        proof {
            assert(entries@.take(entries@.len() as int) =~= entries@);
            lemma_catalog_keyed(entries@);
        }
        self.campaign_descriptions = catalog;
    }

    /// Stores every class of `found` under its own identifier, in order,
    /// replacing what was stored under that identifier before.
    pub fn merge_classes(&mut self, found: Vec<Class>)
        requires
            old(self).wf(),
        ensures
            final(self).wf(),
            old(self).has_defaults() ==> final(self).has_defaults(),
            final(self).same_but_classes(old(self)),
            final(self).classes() == merged(old(self).classes(), found@),
    {
        proof {
            lemma_merged_keyed(self.classes@, found@);
        }
        merge_assets(&mut self.classes, found);
    }

    /// Stores every race of `found` under its own identifier, in order,
    /// replacing what was stored under that identifier before.
    pub fn merge_races(&mut self, found: Vec<Race>)
        requires
            old(self).wf(),
        ensures
            final(self).wf(),
            old(self).has_defaults() ==> final(self).has_defaults(),
            final(self).same_but_races(old(self)),
            final(self).races() == merged(old(self).races(), found@),
    {
        proof {
            lemma_merged_keyed(self.races@, found@);
        }
        merge_assets(&mut self.races, found);
    }

    /// Stores every entity of `found` under its own identifier, in order,
    /// replacing what was stored under that identifier before.
    pub fn merge_entities(&mut self, found: Vec<Entity>)
        requires
            old(self).wf(),
        ensures
            final(self).wf(),
            old(self).has_defaults() ==> final(self).has_defaults(),
            final(self).same_but_entities(old(self)),
            final(self).entities() == merged(old(self).entities(), found@),
    {
        proof {
            lemma_merged_keyed(self.entities@, found@);
        }
        merge_assets(&mut self.entities, found);
    }
}

} // verus!
