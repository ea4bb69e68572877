//! The sending end of the channel from the handle to its worker.

use vstd::prelude::*;

use crate::message::Message;

verus! {

#[verifier::external_type_specification]
#[verifier::external_body]
#[verifier::reject_recursive_types(T)]
pub struct ExSender<T>(std::sync::mpsc::Sender<T>);

/// The messages that `tx` has placed on its channel, in the order it placed
/// them. std's channel hands them to the receiver in this same order.
pub uninterp spec fn enqueued(tx: std::sync::mpsc::Sender<Message>) -> Seq<Message>;

/// Relies on `std::sync::mpsc::Sender::send`: it never blocks; it places the
/// message on the channel, or, when the receiving end has been dropped, hands
/// the message back and places nothing.
#[verifier::external_body]
pub(crate) fn send(tx: &mut std::sync::mpsc::Sender<Message>, m: Message) -> (r: Option<Message>)
    ensures
        r is None ==> enqueued(*final(tx)) == enqueued(*old(tx)).push(m),
        r is Some ==> enqueued(*final(tx)) == enqueued(*old(tx)) && r == Some(m),
    no_unwind
{
    tx.send(m).err().map(|e| e.0)
}

} // verus!
