//! Races.

use vstd::prelude::*;
use crate::assets::asset::Asset;
use crate::assets::identifier::{mint, minted, nil, nil_identifier};

verus! {

/// A race: a name and a walking speed.
#[derive(Debug)]
pub struct Race {
    uuid: u128,
    name: String,
    speed: u8,
}

impl Race {
    pub closed spec fn name(&self) -> Seq<char> {
        self.name@
    }

    pub closed spec fn speed(&self) -> u8 {
        self.speed
    }

    /// A race under a freshly minted identifier.
    pub fn new(name: String, speed: u8) -> (race: Self)
        ensures
            minted(race.uuid()),
            race.uuid() != nil(),
            race.name() == name@,
            race.speed() == speed,
    {
        Self { uuid: mint(), name, speed }
    }

    /// A race under a given identifier.
    pub fn from_parts(uuid: u128, name: String, speed: u8) -> (race: Self)
        ensures
            race.uuid() == uuid,
            race.name() == name@,
            race.speed() == speed,
    {
        Self { uuid, name, speed }
    }

    pub fn get_name(&self) -> (name: &str)
        ensures
            name@ == self.name(),
    {
        self.name.as_str()
    }

    pub fn get_speed(&self) -> (speed: u8)
        ensures
            speed == self.speed(),
    {
        self.speed
    }
}

impl Asset for Race {
    closed spec fn uuid(&self) -> u128 {
        self.uuid
    }

    fn get_uuid(&self) -> u128 {
        self.uuid
    }

    fn get_owning_campaign(&self) -> (owner: Option<u128>)
        ensures
            owner is None,
    {
        None
    }
}

impl Default for Race {
    /// The built-in race: the nil identifier, no name, speed 0.
    fn default() -> (race: Self)
        ensures
            race.uuid() == nil(),
            race.name() == Seq::<char>::empty(),
            race.speed() == 0,
    {
        Self { uuid: nil_identifier(), name: String::new(), speed: 0 }
    }
}

} // verus!
