//! Cross-thread channels from `crossbeam_channel`, the only way state moves
//! between the controller, the decoder engine and the audio sink.
use crossbeam_channel::{Receiver, Sender};
use vstd::prelude::*;

verus! {

#[verifier::external_type_specification]
#[verifier::external_body]
#[verifier::reject_recursive_types(T)]
pub struct ExSender<T>(Sender<T>);

#[verifier::external_type_specification]
#[verifier::external_body]
#[verifier::reject_recursive_types(T)]
pub struct ExReceiver<T>(Receiver<T>);

/// Relies on `crossbeam_channel::unbounded`: a fresh channel pair with no
/// capacity limit.
#[verifier::external_body]
pub(crate) fn open_unbounded<T>() -> (Sender<T>, Receiver<T>) {
    crossbeam_channel::unbounded()
}

/// Relies on `crossbeam_channel::bounded`: a fresh channel pair holding at
/// most `cap` messages. It panics only on a capacity too large to allocate,
/// which the bound here leaves out.
#[verifier::external_body]
pub(crate) fn open_bounded<T>(cap: usize) -> (Sender<T>, Receiver<T>)
    requires
        cap <= 1024,
{
    crossbeam_channel::bounded(cap)
}

/// Relies on `crossbeam_channel::Sender::send`: `true` when the message was
/// queued, `false` when every receiver is gone. Which of the two happens
/// depends on the other threads, so nothing more is stated.
#[verifier::external_body]
pub(crate) fn send_message<T>(tx: &Sender<T>, msg: T) -> (r: bool) {
    tx.send(msg).is_ok()
}

/// Relies on `crossbeam_channel::Receiver::try_recv`: the next queued message,
/// or `None` without blocking when the channel is empty or disconnected.
#[verifier::external_body]
pub(crate) fn try_receive<T>(rx: &Receiver<T>) -> (r: Option<T>) {
    rx.try_recv().ok()
}

/// Relies on `crossbeam_channel::Receiver::recv`: blocks for the next message,
/// `None` once the channel is empty and every sender is gone.
#[verifier::external_body]
pub(crate) fn receive<T>(rx: &Receiver<T>) -> (r: Option<T>) {
    rx.recv().ok()
}

} // verus!
