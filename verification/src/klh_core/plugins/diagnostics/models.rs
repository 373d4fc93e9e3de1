use vstd::prelude::*;

verus! {

/// The content of a slow bomb: how long the diagnostics plugin should be
/// kept busy.
pub struct SlowBombContent {
    pub interval_seconds: u64,
}

} // verus!
