use vstd::prelude::*;

verus! {

#[verifier::external_type_specification]
#[verifier::external_body]
pub struct ExIoError(std::io::Error);

/// The one failure that reaches a caller: the worker could not be started.
#[derive(Debug)]
pub enum DiscordRPCError {
    /// The operating system refused to create the worker's thread.
    ThreadSpawn(std::io::Error),
}

} // verus!
