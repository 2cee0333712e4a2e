//! Entries of the campaign catalog.

use vstd::prelude::*;

verus! {

/// What the catalog says of a campaign that may be loaded: its identifier,
/// its name, the directory that holds it and a description.
#[derive(Debug)]
pub struct CampaignDescription {
    uuid: u128,
    name: String,
    path: String,
    description: String,
}

impl CampaignDescription {
    pub closed spec fn uuid(&self) -> u128 {
        self.uuid
    }

    pub closed spec fn name(&self) -> Seq<char> {
        self.name@
    }

    pub closed spec fn path(&self) -> Seq<char> {
        self.path@
    }

    pub closed spec fn description(&self) -> Seq<char> {
        self.description@
    }

    pub fn new(uuid: u128, name: String, path: String, description: String) -> (entry: Self)
        ensures
            entry.uuid() == uuid,
            entry.name() == name@,
            entry.path() == path@,
            entry.description() == description@,
    {
        Self { uuid, name, path, description }
    }

    pub fn get_uuid(&self) -> (id: u128)
        ensures
            id == self.uuid(),
    {
        self.uuid
    }

    pub fn get_name(&self) -> (name: &str)
        ensures
            name@ == self.name(),
    {
        self.name.as_str()
    }

    pub fn get_path(&self) -> (path: &str)
        ensures
            path@ == self.path(),
    {
        self.path.as_str()
    }

    pub fn get_description(&self) -> (description: &str)
        ensures
            description@ == self.description(),
    {
        self.description.as_str()
    }
}

} // verus!
