//! What every storable object offers: its own identifier.

use vstd::prelude::*;

verus! {

/// An object that the asset manager can store.
pub trait Asset {
    /// The identifier that names the asset.
    spec fn uuid(&self) -> u128;

    fn get_uuid(&self) -> (id: u128)
        ensures
            id == self.uuid(),
    ;

    /// The campaign that owns the asset, or `None` for an asset that is
    /// global to the system.
    fn get_owning_campaign(&self) -> (owner: Option<u128>);
}

/// Every value of the map is stored under its own identifier.
pub open spec fn keyed_by_uuid<T: Asset>(map: Map<u128, T>) -> bool {
    forall|id: u128| #[trigger] map.contains_key(id) ==> map[id].uuid() == id
}

} // verus!
