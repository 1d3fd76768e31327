//! Trusted boundary around the bounded multi-producer multi-consumer channel
//! of the `crossbeam_channel` crate, which the worker pool uses as its
//! transport. Everything here is believed, not proved; the contracts state
//! only what the crate documents of every outcome.

use vstd::prelude::*;

verus! {

#[verifier::external_type_specification]
#[verifier::external_body]
#[verifier::reject_recursive_types(T)]
pub struct ExSender<T>(crossbeam_channel::Sender<T>);

#[verifier::external_type_specification]
#[verifier::external_body]
#[verifier::reject_recursive_types(T)]
pub struct ExReceiver<T>(crossbeam_channel::Receiver<T>);

/// Relies on crossbeam_channel::bounded: a channel that buffers at most `cap`
/// items; `bounded` panics only when the capacity is far too large to
/// allocate, which the precondition rules out.
#[verifier::external_body]
pub(crate) fn channel_bounded<T>(cap: usize) -> (crossbeam_channel::Sender<T>, crossbeam_channel::Receiver<T>)
    requires
        1 <= cap <= 1024,
{
    crossbeam_channel::bounded(cap)
}

/// Relies on crossbeam_channel::Sender::send: blocks while the channel is
/// full, and when the channel is disconnected it fails, handing the original
/// item back inside the error.
#[verifier::external_body]
pub(crate) fn channel_send<T>(sender: &crossbeam_channel::Sender<T>, item: T) -> (r: Result<(), T>)
    ensures
        r matches Err(back) ==> back == item,
{
    match sender.send(item) {
        Ok(()) => Ok(()),
        Err(crossbeam_channel::SendError(back)) => Err(back),
    }
}

/// Relies on crossbeam_channel::Receiver::recv: blocks until an item arrives
/// (returned as `Some`), and returns `None` exactly when the channel is
/// disconnected and drained. Which item arrives depends on the other threads,
/// so nothing is stated of the value.
#[verifier::external_body]
pub(crate) fn channel_recv<T>(receiver: &crossbeam_channel::Receiver<T>) -> (r: Option<T>) {
    match receiver.recv() {
        Ok(item) => Some(item),
        Err(crossbeam_channel::RecvError) => None,
    }
}

/// Relies on crossbeam_channel::Receiver::clone: another handle to the same
/// channel, over which consumers compete for items.
#[verifier::external_body]
pub(crate) fn channel_clone_receiver<T>(receiver: &crossbeam_channel::Receiver<T>) -> crossbeam_channel::Receiver<T> {
    receiver.clone()
}

} // verus!
