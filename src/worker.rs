//! The worker's side of the protocol, as a state machine. Whoever owns the
//! receiving end of the channel feeds each received message (or `None` once
//! the channel has closed) to `Worker::process`, and keeps waiting for the
//! next one for as long as it returns `true`.

use vstd::prelude::*;

use crate::config::Config;
use crate::message::Message;

verus! {

/// Where the worker stands in its lifecycle.
#[derive(Clone, Copy, Debug, PartialEq, Eq, Structural)]
pub enum Phase {
    /// Blocked on the channel, ready for the next message.
    Waiting,
    /// Left its loop; no further message is read.
    Terminated,
}

/// What the worker is, mathematically: its fixed context, the configuration in
/// effect, its phase, and every configuration it has applied so far, in order.
pub struct WorkerModel {
    pub ram_offset: usize,
    pub config: Config,
    pub phase: Phase,
    pub applied: Seq<Config>,
}

/// One transition: an update replaces the configuration while waiting; a
/// `Dropping` message or a closed channel (`None`) ends the loop; a terminated
/// worker stays as it is.
pub open spec fn step(w: WorkerModel, received: Option<Message>) -> WorkerModel {
    match w.phase {
        Phase::Terminated => w,
        Phase::Waiting => match received {
            Some(Message::UpdateConfig(c)) => WorkerModel {
                config: c,
                applied: w.applied.push(c),
                ..w
            },
            _ => WorkerModel { phase: Phase::Terminated, ..w },
        },
    }
}

/// The worker after it has been handed `events` in order.
pub open spec fn run(w: WorkerModel, events: Seq<Option<Message>>) -> WorkerModel
    decreases events.len(),
{
    if events.len() == 0 {
        w
    } else {
        step(run(w, events.drop_last()), events.last())
    }
}

/// Whether an event ends the worker's loop.
pub open spec fn is_exit(e: Option<Message>) -> bool {
    !(e matches Some(Message::UpdateConfig(_)))
}

/// The configurations carried by the updates that precede the first exit
/// event, in the order they come.
pub open spec fn updates_before_exit(events: Seq<Option<Message>>) -> Seq<Config>
    decreases events.len(),
{
    if events.len() == 0 {
        seq![]
    } else {
        match events[0] {
            Some(Message::UpdateConfig(c)) => seq![c] + updates_before_exit(events.drop_first()),
            _ => seq![],
        }
    }
}

/// The events that a sequence of updates turns into on the channel.
pub open spec fn updates(cs: Seq<Config>) -> Seq<Option<Message>> {
    cs.map_values(|c: Config| Some(Message::UpdateConfig(c)))
}

/// Handing over `a` and then `b` is handing over `a + b`.
proof fn lemma_run_concat(w: WorkerModel, a: Seq<Option<Message>>, b: Seq<Option<Message>>)
    ensures
        run(w, a + b) == run(run(w, a), b),
    decreases b.len(),
{
    if b.len() == 0 {
        assert(a + b =~= a);
    } else {
        assert((a + b).drop_last() =~= a + b.drop_last());
        lemma_run_concat(w, a, b.drop_last());
    }
}

/// A terminated worker ignores whatever it is handed.
proof fn lemma_terminated_stays(w: WorkerModel, events: Seq<Option<Message>>)
    requires
        w.phase == Phase::Terminated,
    ensures
        run(w, events) == w,
    decreases events.len(),
{
    if events.len() > 0 {
        lemma_terminated_stays(w, events.drop_last());
    }
}

/// Updates reach a waiting worker in the order they were sent: after a run of
/// updates it is still waiting, has applied each configuration in turn, and
/// holds the last one.
pub proof fn lemma_updates_applied_in_order(w: WorkerModel, cs: Seq<Config>)
    requires
        w.phase == Phase::Waiting,
    ensures
        run(w, updates(cs)) == (WorkerModel {
            config: if cs.len() == 0 { w.config } else { cs.last() },
            applied: w.applied + cs,
            ..w
        }),
    decreases cs.len(),
{
    if cs.len() == 0 {
        assert(w.applied + cs =~= w.applied);
    } else {
        assert(updates(cs).drop_last() =~= updates(cs.drop_last()));
        assert(updates(cs).last() == Some(Message::UpdateConfig(cs.last())));
        lemma_updates_applied_in_order(w, cs.drop_last());
        assert((w.applied + cs.drop_last()).push(cs.last()) =~= w.applied + cs);
    }
}

/// Once the worker has been handed `Dropping`, it has terminated, and nothing
/// handed to it afterwards is applied or changes it.
pub proof fn lemma_nothing_after_stop(
    w: WorkerModel,
    before: Seq<Option<Message>>,
    after: Seq<Option<Message>>,
)
    ensures
        run(w, before.push(Some(Message::Dropping))).phase == Phase::Terminated,
        run(w, before.push(Some(Message::Dropping)) + after) == run(
            w,
            before.push(Some(Message::Dropping)),
        ),
{
    let stopped = before.push(Some(Message::Dropping));
    assert(stopped.drop_last() =~= before);
    if run(w, before).phase == Phase::Terminated {
        lemma_terminated_stays(run(w, before), seq![Some(Message::Dropping)]);
        assert(run(run(w, before), seq![Some(Message::Dropping)]) == step(
            run(w, before),
            Some(Message::Dropping),
        ));
    }
    lemma_run_concat(w, stopped, after);
    lemma_terminated_stays(run(w, stopped), after);
}

/// What a waiting worker applies from any stream of events: exactly the
/// updates that come before the first `Dropping` or closing of the channel, in
/// the order they come.
pub proof fn lemma_applies_updates_before_exit(w: WorkerModel, events: Seq<Option<Message>>)
    requires
        w.phase == Phase::Waiting,
    ensures
        run(w, events).applied == w.applied + updates_before_exit(events),
    decreases events.len(),
{
    if events.len() == 0 {
        assert(w.applied + seq![] =~= w.applied);
    } else {
        let first = seq![events[0]];
        let rest = events.drop_first();
        assert(first + rest =~= events);
        lemma_run_concat(w, first, rest);
        assert(first.drop_last() =~= Seq::<Option<Message>>::empty());
        assert(run(w, first.drop_last()) == w);
        let next = step(w, events[0]);
        assert(run(w, first) == next);
        match events[0] {
            Some(Message::UpdateConfig(c)) => {
                lemma_applies_updates_before_exit(next, rest);
                assert(w.applied.push(c) + updates_before_exit(rest) =~= w.applied + (seq![c]
                    + updates_before_exit(rest)));
            },
            _ => {
                lemma_terminated_stays(next, rest);
                assert(w.applied + seq![] =~= w.applied);
            },
        }
    }
}

/// The state held on the worker's own stack: the context it was started with,
/// the configuration in effect, and where it stands.
pub struct Worker {
    ram_offset: usize,
    config: Config,
    phase: Phase,
    applied: Ghost<Seq<Config>>,
}

impl View for Worker {
    type V = WorkerModel;

    closed spec fn view(&self) -> WorkerModel {
        WorkerModel {
            ram_offset: self.ram_offset,
            config: self.config,
            phase: self.phase,
            applied: self.applied@,
        }
    }
}

impl Worker {
    /// A waiting worker holding `ram_offset` and `config`, with nothing applied.
    pub(crate) fn new(ram_offset: usize, config: Config) -> (r: Worker)
        ensures
            r@ == (WorkerModel { ram_offset, config, phase: Phase::Waiting, applied: seq![] }),
    {
        Worker { ram_offset, config, phase: Phase::Waiting, applied: Ghost(Seq::empty()) }
    }

    /// Applies one received message (`None`: the channel has closed). Returns
    /// whether the worker goes on waiting for the next one.
    pub fn process(&mut self, received: Option<Message>) -> (waiting: bool)
        ensures
            final(self)@ == step(old(self)@, received),
            waiting == (final(self)@.phase == Phase::Waiting),
    {
        if self.phase == Phase::Terminated {
            return false;
        }
        match received {
            Some(Message::UpdateConfig(c)) => {
                proof {
                    self.applied = Ghost(self.applied@.push(c));
                }
                self.config = c;
                true
            },
            _ => {
                self.phase = Phase::Terminated;
                false
            },
        }
    }

    /// The configuration in effect.
    pub fn config(&self) -> (r: &Config)
        ensures
            *r == self@.config,
    {
        &self.config
    }

    /// The context the worker was started with.
    pub fn ram_offset(&self) -> (r: usize)
        ensures
            r == self@.ram_offset,
    {
        self.ram_offset
    }

    /// Whether the worker is still waiting for messages.
    pub fn is_waiting(&self) -> (r: bool)
        ensures
            r == (self@.phase == Phase::Waiting),
    {
        self.phase == Phase::Waiting
    }
}

} // verus!
