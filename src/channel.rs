//! The std channel and clock items the library uses, as Verus sees them.
use crate::key::Key;
use std::sync::mpsc::{Receiver, RecvError, SendError, Sender};
use std::time::Duration;
use vstd::prelude::*;

verus! {

#[verifier::external_type_specification]
#[verifier::external_body]
#[verifier::reject_recursive_types(T)]
pub struct ExSender<T>(Sender<T>);

#[verifier::external_type_specification]
#[verifier::external_body]
#[verifier::reject_recursive_types(T)]
pub struct ExReceiver<T>(Receiver<T>);

#[verifier::external_type_specification]
#[verifier::external_body]
pub struct ExRecvError(RecvError);

#[verifier::external_type_specification]
#[verifier::external_body]
#[verifier::reject_recursive_types(T)]
pub struct ExSendError<T>(SendError<T>);

/// The duration of the given number of milliseconds.
pub uninterp spec fn millis_duration(ms: u64) -> Duration;

/// Relies on `Duration::from_millis`: the duration depends on the count alone.
#[verifier::external_body]
pub(crate) fn duration_from_millis(ms: u64) -> (d: Duration)
    ensures
        d == millis_duration(ms),
{
    Duration::from_millis(ms)
}

/// The channel a producer end sends into.
pub uninterp spec fn sender_channel(tx: Sender<Key>) -> int;

/// The channel a consumer end receives from.
pub uninterp spec fn receiver_channel(rx: Receiver<Key>) -> int;

/// Relies on `std::sync::mpsc::channel`: a new, empty, unbounded channel,
/// whose two ends belong to it.
#[verifier::external_body]
pub(crate) fn key_channel() -> (r: (Sender<Key>, Receiver<Key>))
    ensures
        sender_channel(r.0) == receiver_channel(r.1),
{
    std::sync::mpsc::channel()
}

/// Relies on `Sender::clone`: another producer end of the same channel.
#[verifier::external_body]
pub(crate) fn clone_sender(tx: &Sender<Key>) -> (r: Sender<Key>)
    ensures
        sender_channel(r) == sender_channel(*tx),
{
    tx.clone()
}

/// Relies on `Sender::send`; whether it succeeds depends on whether the
/// receiving end is still alive, so nothing is claimed of the outcome.
#[verifier::external_body]
pub(crate) fn send_key(tx: &Sender<Key>, k: Key) -> Result<(), SendError<Key>> {
    tx.send(k)
}

/// Relies on `Receiver::recv`: blocks until a key is queued, and fails only
/// once every sender of the channel is gone. `kept` is a sender of the same
/// channel, alive for the whole call, so the receive does not fail; which
/// key comes back depends on the other threads.
#[verifier::external_body]
pub(crate) fn recv_key(rx: &Receiver<Key>, kept: &Sender<Key>) -> (r: Result<Key, RecvError>)
    requires
        receiver_channel(*rx) == sender_channel(*kept),
    ensures
        r is Ok,
{
    rx.recv()
}

} // verus!
