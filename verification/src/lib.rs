//! An in-memory asset catalog for a tabletop rules engine.
//!
//! Classes, races, entities and campaigns are keyed by 128-bit identifiers and
//! held by an [`assets::asset_manager::AssetManager`]. The catalog is filled
//! from a directory hierarchy: the library decides what is read and in which
//! order, and the caller performs the reads.

use vstd::prelude::*;

pub mod assets;
pub mod campaigns;
pub mod engine;
pub mod entities;
pub mod mechanics;
pub mod parse_error;
pub mod util;
pub mod version;

verus! {

/// The engine's version.
pub fn version() -> (v: &'static str)
    ensures
        v@ == version::VERSION@,
{
    version::VERSION
}

} // verus!
