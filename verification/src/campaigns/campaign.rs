//! Campaigns and the scenes they own.

use vstd::prelude::*;
use vstd::string::StringExecFns;
use vstd::std_specs::hash::group_hash_axioms;
use std::collections::HashMap;
use crate::assets::asset::Asset;
use crate::assets::identifier::{mint, minted, nil};
use crate::campaigns::scene::Scene;

verus! {

broadcast use group_hash_axioms;

/// The description of a campaign that was given none.
pub open spec fn stock_description() -> Seq<char> {
    "A D&D Adventure!"@
}

/// A campaign: a name, a description and the scenes it owns.
#[derive(Debug)]
pub struct Campaign {
    uuid: u128,
    name: String,
    description: String,
    scenes: HashMap<u128, Scene>,
    active_scene: Option<u128>,
}

impl Campaign {
    pub closed spec fn name(&self) -> Seq<char> {
        self.name@
    }

    pub closed spec fn description(&self) -> Seq<char> {
        self.description@
    }

    /// The scenes of the campaign, by the identifier they are stored under.
    pub closed spec fn scenes(&self) -> Map<u128, Scene> {
        self.scenes@
    }

    pub closed spec fn active_scene(&self) -> Option<u128> {
        self.active_scene
    }

    /// A campaign without scenes under a freshly minted identifier.
    pub fn new(name: String, description: String) -> (campaign: Self)
        ensures
            minted(campaign.uuid()),
            campaign.uuid() != nil(),
            campaign.name() == name@,
            campaign.description() == description@,
            campaign.scenes() == Map::<u128, Scene>::empty(),
            campaign.active_scene() is None,
    {
        Self {
            uuid: mint(),
            name,
            description,
            scenes: HashMap::new(),
            active_scene: None,
        }
    }

    /// A campaign without scenes, with the stock description.
    pub fn with_no_description(name: String) -> (campaign: Self)
        ensures
            minted(campaign.uuid()),
            campaign.uuid() != nil(),
            campaign.name() == name@,
            campaign.description() == stock_description(),
            campaign.scenes() == Map::<u128, Scene>::empty(),
            campaign.active_scene() is None,
    {
        Self::new(name, String::from_str("A D&D Adventure!"))
    }

    /// A campaign under a given identifier.
    pub fn from_parts(
        uuid: u128,
        name: String,
        description: String,
        scenes: HashMap<u128, Scene>,
        active_scene: Option<u128>,
    ) -> (campaign: Self)
        ensures
            campaign.uuid() == uuid,
            campaign.name() == name@,
            campaign.description() == description@,
            campaign.scenes() == scenes@,
            campaign.active_scene() == active_scene,
    {
        Self { uuid, name, description, scenes, active_scene }
    }

    pub fn get_name(&self) -> (name: &str)
        ensures
            name@ == self.name(),
    {
        self.name.as_str()
    }

    pub fn get_description(&self) -> (description: &str)
        ensures
            description@ == self.description(),
    {
        self.description.as_str()
    }

    pub fn get_scenes(&self) -> (scenes: &HashMap<u128, Scene>)
        ensures
            scenes@ == self.scenes(),
    {
        &self.scenes
    }

    pub fn get_active_scene(&self) -> (active: Option<u128>)
        ensures
            active == self.active_scene(),
    {
        self.active_scene
    }

    /// Adds an empty scene under a freshly minted identifier and returns it.
    /// A scene already stored under that identifier is replaced.
    pub fn create_scene(&mut self, scene_name: String) -> (created: Option<&Scene>)
        ensures
            created is Some,
            created->0.name() == scene_name@,
            created->0.entities() == Seq::<u128>::empty(),
            minted(created->0.uuid()),
            created->0.uuid() != nil(),
            final(self).scenes() == old(self).scenes().insert(created->0.uuid(), *created->0),
            final(self).uuid() == old(self).uuid(),
            final(self).name() == old(self).name(),
            final(self).description() == old(self).description(),
            final(self).active_scene() == old(self).active_scene(),
    {
        let scene: Scene = Scene::new(scene_name);
        let uuid: u128 = scene.get_uuid();
        self.scenes.insert(uuid, scene);
        self.scenes.get(&uuid)
    }

    /// Stores `scene` under its own identifier. A scene already stored under
    /// that identifier is replaced.
    pub fn add_scene(&mut self, scene: Scene)
        ensures
            final(self).scenes() == old(self).scenes().insert(scene.uuid(), scene),
            final(self).uuid() == old(self).uuid(),
            final(self).name() == old(self).name(),
            final(self).description() == old(self).description(),
            final(self).active_scene() == old(self).active_scene(),
    {
        let uuid: u128 = scene.get_uuid();
        self.scenes.insert(uuid, scene);
    }

    pub fn get_scene(&self, id: u128) -> (scene: Option<&Scene>)
        ensures
            match scene {
                Some(found) => self.scenes().contains_key(id) && *found == self.scenes()[id],
                None => !self.scenes().contains_key(id),
            },
    {
        self.scenes.get(&id)
    }
}

impl Asset for Campaign {
    closed spec fn uuid(&self) -> u128 {
        self.uuid
    }

    fn get_uuid(&self) -> u128 {
        self.uuid
    }

    /// Campaigns are not owned.
    fn get_owning_campaign(&self) -> (owner: Option<u128>)
        ensures
            owner is None,
    {
        None
    }
}

} // verus!
