//! What a caller sees of an entity: its identifier and its name.

use vstd::prelude::*;
use crate::entities::entity::{entity_text, format_entity_data};

verus! {

pub struct EntityView {
    pub uuid: u128,
    pub name: String,
}

impl EntityView {
    pub fn get_name(&self) -> (name: &str)
        ensures
            name@ == self.name@,
    {
        self.name.as_str()
    }

    pub fn get_uuid(&self) -> (id: u128)
        ensures
            id == self.uuid,
    {
        self.uuid
    }

    /// The text that shows the entity.
    pub fn to_string(&self) -> (text: String)
        ensures
            text@ == entity_text(self.uuid, self.name@),
    {
        format_entity_data(self.uuid, self.name.as_str())
    }
}

} // verus!
