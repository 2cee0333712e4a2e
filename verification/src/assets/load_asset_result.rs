//! How the loading of one asset ended.

use vstd::prelude::*;
use crate::assets::asset::Asset;
use crate::assets::io_failure::IoFailure;
use crate::util::asset_key_error::AssetKeyError;

verus! {

/// The five ways in which a load ends. Exactly one of them holds.
#[allow(inconsistent_fields)]
pub enum LoadAssetResult<'a, A> where A: Asset {
    /// The asset was loaded and stored.
    Loaded { asset: &'a A },
    /// The catalog knows no asset of that identifier.
    UuidNotFoundError,
    /// A file or directory could not be read or decoded.
    IoError { e: IoFailure },
    /// The campaign's directory holds no definition of the campaign.
    NoCampaignFound,
    /// The identifier of the loaded asset was already taken.
    UuidDuplicateError { e: AssetKeyError<'a, A> },
}

} // verus!
