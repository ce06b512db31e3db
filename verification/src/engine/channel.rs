use vstd::prelude::*;
use crossbeam_channel::{Receiver, Sender};
use std::sync::Arc;
use std::time::Duration;

verus! {

#[verifier::external_type_specification]
#[verifier::external_body]
#[verifier::reject_recursive_types(T)]
pub struct ExSender<T>(Sender<T>);

#[verifier::external_type_specification]
#[verifier::external_body]
#[verifier::reject_recursive_types(T)]
pub struct ExReceiver<T>(Receiver<T>);

/// Evidence that a message was handed to a sender: the sender it went to. Only
/// `send_message` makes one, as it hands the message over.
#[verifier::reject_recursive_types(T)]
pub struct Sent<T> {
    via: Ghost<Sender<T>>,
}

impl<T> Sent<T> {
    /// The sender the message was handed to.
    pub closed spec fn sender(&self) -> Sender<T> {
        self.via@
    }
}

/// Evidence that a receiver was looked into: the receiver, and whether it gave a message.
/// Only `try_receive` and `receive_within_millis` make one, as they poll.
#[verifier::reject_recursive_types(T)]
pub struct Polled<T> {
    from: Ghost<Receiver<T>>,
    gave: Ghost<bool>,
}

impl<T> Polled<T> {
    /// The receiver that was looked into.
    pub closed spec fn receiver(&self) -> Receiver<T> {
        self.from@
    }

    /// Whether it gave a message.
    pub closed spec fn gave_message(&self) -> bool {
        self.gave@
    }
}

/// Calls `crossbeam_channel::bounded`, which makes a channel that holds at most `cap`
/// messages and returns its two ends.
///
/// Claimed: the new channel is a channel of its own: its ends differ from the ends of every
/// channel in `alive`, which stay alive across the call (the channel is a fresh allocation).
/// The channel's capacity is left unsaid: a name for it would need the message type as a
/// parameter. `requires` keeps `cap` small: the channel allocates a slot for each message it
/// can hold, and panics where the capacity is too large.
#[verifier::external_body]
pub(crate) fn bounded_channel<T>(cap: usize, alive: &Vec<(Arc<Sender<T>>, Arc<Receiver<T>>)>) -> (r: (Sender<T>, Receiver<T>))
    requires
        cap <= 65536,
    ensures
        forall|i: int| 0 <= i < alive@.len() ==> r.0 != *alive@[i].0 && r.1 != *alive@[i].1,
{
    let _ = alive;
    crossbeam_channel::bounded(cap)
}

/// Calls `crossbeam_channel::Sender::send`, which blocks while the channel is full and fails
/// only where every receiver is gone; the error then gives the message back.
///
/// Claimed: an error carries the message that was handed in, and the evidence names the
/// sender the message was handed to. Whether it succeeds depends on the other ends of the
/// channel and is left open.
#[verifier::external_body]
pub(crate) fn send_message<T>(sender: &Sender<T>, msg: T) -> (r: (Result<(), T>, Sent<T>))
    ensures
        r.0 matches Err(m) ==> m == msg,
        r.1.sender() == *sender,
{
    let sent = match sender.send(msg) {
        Ok(()) => Ok(()),
        Err(e) => Err(e.0),
    };
    (sent, Sent { via: Ghost(*sender) })
}

/// Calls `crossbeam_channel::Receiver::try_recv`, which takes a waiting message out of the
/// channel without blocking; `None` stands for both of its errors (empty, disconnected).
///
/// Claimed: the evidence names the receiver that was polled and whether it gave a message.
/// Nothing is claimed of which message: what a channel holds changes with every thread that
/// shares it.
#[verifier::external_body]
pub(crate) fn try_receive<T>(receiver: &Receiver<T>) -> (r: (Option<T>, Polled<T>))
    ensures
        r.1.receiver() == *receiver,
        r.1.gave_message() == r.0 is Some,
{
    let got = receiver.try_recv().ok();
    let evidence = Polled { from: Ghost(*receiver), gave: Ghost(got is Some) };
    (got, evidence)
}

/// Calls `crossbeam_channel::Receiver::recv_timeout`, which waits at most `millis`
/// milliseconds for a message; `None` stands for both of its errors (timed out,
/// disconnected).
///
/// Claimed: the evidence names the receiver that was waited on and whether it gave a
/// message. Nothing is claimed of which message: it depends on the other threads and on the
/// time.
#[verifier::external_body]
pub(crate) fn receive_within_millis<T>(receiver: &Receiver<T>, millis: u64) -> (r: (Option<T>, Polled<T>))
    ensures
        r.1.receiver() == *receiver,
        r.1.gave_message() == r.0 is Some,
{
    let got = receiver.recv_timeout(Duration::from_millis(millis)).ok();
    let evidence = Polled { from: Ghost(*receiver), gave: Ghost(got is Some) };
    (got, evidence)
}

/// Calls `std::sync::Arc::clone`, which returns another handle to the same value.
#[verifier::external_body]
pub(crate) fn share<T>(handle: &Arc<T>) -> (r: Arc<T>)
    ensures
        r == *handle,
{
    Arc::clone(handle)
}

} // verus!
