//! Character classes.

use vstd::prelude::*;
use crate::assets::asset::Asset;
use crate::assets::identifier::{mint, minted, nil, nil_identifier};
use crate::mechanics::dice::Dice;

verus! {

/// A character class: a name and the die that is rolled for hit points.
#[derive(Clone, Debug)]
pub struct Class {
    uuid: u128,
    name: String,
    hit_die: Dice,
}

impl Class {
    pub closed spec fn name(&self) -> Seq<char> {
        self.name@
    }

    pub closed spec fn hit_die(&self) -> Dice {
        self.hit_die
    }

    /// A class under a freshly minted identifier.
    pub fn new(name: String, hit_die: Dice) -> (class: Self)
        ensures
            minted(class.uuid()),
            class.uuid() != nil(),
            class.name() == name@,
            class.hit_die() == hit_die,
    {
        Self { uuid: mint(), name, hit_die }
    }

    /// A class under a given identifier.
    pub fn from_parts(uuid: u128, name: String, hit_die: Dice) -> (class: Self)
        ensures
            class.uuid() == uuid,
            class.name() == name@,
            class.hit_die() == hit_die,
    {
        Self { uuid, name, hit_die }
    }

    pub fn get_name(&self) -> (name: &str)
        ensures
            name@ == self.name(),
    {
        self.name.as_str()
    }

    pub fn get_hit_die(&self) -> (hit_die: Dice)
        ensures
            hit_die == self.hit_die(),
    {
        self.hit_die
    }
}

impl Asset for Class {
    closed spec fn uuid(&self) -> u128 {
        self.uuid
    }

    fn get_uuid(&self) -> u128 {
        self.uuid
    }

    fn get_owning_campaign(&self) -> (owner: Option<u128>)
        ensures
            owner is None,
    {
        None
    }
}

impl Default for Class {
    /// The built-in class: the nil identifier, no name, a four-sided hit die.
    fn default() -> (class: Self)
        ensures
            class.uuid() == nil(),
            class.name() == Seq::<char>::empty(),
            class.hit_die() == Dice::D4,
    {
        Self { uuid: nil_identifier(), name: String::new(), hit_die: Dice::D4 }
    }
}

} // verus!
