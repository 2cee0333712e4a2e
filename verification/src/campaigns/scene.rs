//! Scenes of a campaign.

use vstd::prelude::*;
use crate::assets::asset::Asset;
use crate::assets::identifier::{mint, minted, nil};

verus! {

/// A scene: a name and the identifiers of the entities that take part.
#[derive(Debug)]
pub struct Scene {
    uuid: u128,
    name: String,
    entities: Vec<u128>,
}

impl Scene {
    pub closed spec fn name(&self) -> Seq<char> {
        self.name@
    }

    pub closed spec fn entities(&self) -> Seq<u128> {
        self.entities@
    }

    /// An empty scene under a freshly minted identifier.
    pub fn new(name: String) -> (scene: Self)
        ensures
            minted(scene.uuid()),
            scene.uuid() != nil(),
            scene.name() == name@,
            scene.entities() == Seq::<u128>::empty(),
    {
        Self { uuid: mint(), name, entities: Vec::new() }
    }

    /// A scene under a given identifier.
    pub fn from_parts(uuid: u128, name: String, entities: Vec<u128>) -> (scene: Self)
        ensures
            scene.uuid() == uuid,
            scene.name() == name@,
            scene.entities() == entities@,
    {
        Self { uuid, name, entities }
    }

    pub fn get_name(&self) -> (name: &str)
        ensures
            name@ == self.name(),
    {
        self.name.as_str()
    }

    pub fn get_entities(&self) -> (entities: &Vec<u128>)
        ensures
            entities@ == self.entities(),
    {
        &self.entities
    }
}

impl Asset for Scene {
    closed spec fn uuid(&self) -> u128 {
        self.uuid
    }

    fn get_uuid(&self) -> u128 {
        self.uuid
    }

    fn get_owning_campaign(&self) -> (owner: Option<u128>)
        ensures
            owner is None,
    {
        None
    }
}

} // verus!
