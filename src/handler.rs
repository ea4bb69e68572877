//! The caller's handle on the background worker.

use vstd::prelude::*;

use crate::channel::{enqueued, send};
use crate::config::Config;
use crate::error::DiscordRPCError;
use crate::message::Message;
use crate::worker::{Phase, Worker, WorkerModel};

verus! {

/// A client that watches for game events and emits status updates to
/// Discord. This is a message route to the background worker, which does the
/// actual work; it owns the only sending end of the worker's channel.
#[derive(Debug)]
pub struct DiscordHandler {
    tx: std::sync::mpsc::Sender<Message>,
}

impl DiscordHandler {
    /// The messages this handle has placed on the worker's channel, in order.
    pub closed spec fn sent(&self) -> Seq<Message> {
        enqueued(self.tx)
    }

    /// Finishes construction once the worker's thread has been asked for:
    /// with the thread running, a handle that owns `tx`; without it, the
    /// spawn error, and `tx` is released with nothing sent.
    pub fn launch(
        tx: std::sync::mpsc::Sender<Message>,
        spawned: Result<(), std::io::Error>,
    ) -> (r: Result<DiscordHandler, DiscordRPCError>)
        ensures
            spawned is Ok <==> r is Ok,
            r is Ok ==> r->Ok_0.sent() == enqueued(tx),
            spawned is Err ==> r == Err::<DiscordHandler, DiscordRPCError>(
                DiscordRPCError::ThreadSpawn(spawned->Err_0),
            ),
    {
        match spawned {
            Ok(()) => Ok(DiscordHandler { tx }),
            Err(e) => Err(DiscordRPCError::ThreadSpawn(e)),
        }
    }

    /// The worker's starting state: waiting, with the context and the
    /// configuration given at construction. Must be run on the background
    /// thread, which feeds it every received message until it stops waiting.
    pub fn start(ram_offset: usize, config: Config) -> (r: Worker)
        ensures
            r@ == (WorkerModel { ram_offset, config, phase: Phase::Waiting, applied: seq![] }),
    {
        Worker::new(ram_offset, config)
    }

    /// Passes a new configuration into the background worker. Never blocks;
    /// when the worker is gone the update is silently lost.
    pub fn update_config(&mut self, config: Config)
        ensures
            final(self).sent() == old(self).sent().push(Message::UpdateConfig(config))
                || final(self).sent() == old(self).sent(),
    {
        let _ = send(&mut self.tx, Message::UpdateConfig(config));
    }

    /// Tells the worker that this handle is going away.
    fn notify_dropping(&mut self)
        ensures
            final(self).sent() == old(self).sent().push(Message::Dropping)
                || final(self).sent() == old(self).sent(),
        no_unwind
    {
        let _ = send(&mut self.tx, Message::Dropping);
    }
}

impl Drop for DiscordHandler {
    /// Notifies the background worker that we're dropping; it leaves its loop
    /// when it reads that. Does not wait for it.
    // Verus cannot yet check a call made inside `drop`, so this body, which
    // only forwards to the verified `notify_dropping`, is taken on trust.
    #[verifier::external_body]
    fn drop(&mut self)
        opens_invariants none
        no_unwind
    {
        self.notify_dropping();
    }
}

} // verus!
