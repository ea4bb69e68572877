use vstd::prelude::*;

verus! {

/// Presence settings handed from the caller to the worker. The handle and the
/// worker carry it through without reading it.
#[derive(Clone, Debug, PartialEq, Eq)]
pub struct Config {
    pub status: String,
}

} // verus!
