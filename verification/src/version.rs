use vstd::prelude::*;

verus! {

/// The version of the engine.
pub const VERSION: &'static str = "0.1.0";

} // verus!
