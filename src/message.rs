use vstd::prelude::*;

use crate::config::Config;

verus! {

/// Message payloads that the background worker listens for.
#[derive(Clone, Debug, PartialEq, Eq)]
pub enum Message {
    /// The handle is going away: the worker leaves its loop.
    Dropping,
    /// A new configuration for the worker to hold.
    UpdateConfig(Config),
}

} // verus!
