//! The two forms of an asset that refers to other assets: the live form,
//! whose references resolve against a store, and the wire form, which holds
//! plain identifiers and can be written to a file as it is.

use vstd::prelude::*;
use crate::assets::asset_manager::AssetManager;

verus! {

pub trait ReferenceSerializable: Sized {
    /// The wire form.
    type DirectSerde;

    /// The wire form of a live value.
    spec fn wire(self) -> Self::DirectSerde;

    /// The live value of a wire form, if every identifier in it resolves
    /// against `assets`.
    spec fn resolve(s: Self::DirectSerde, assets: &AssetManager) -> Option<Self>;

    fn serialize(self) -> (s: Self::DirectSerde)
        ensures
            s == self.wire(),
    ;

    fn deserialize(s: Self::DirectSerde, assets: &AssetManager) -> (live: Option<Self>)
        ensures
            live == Self::resolve(s, assets),
    ;
}

} // verus!
