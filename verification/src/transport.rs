//! The cross-thread handoff primitives the queue and the dynamic mixer lean
//! on: a non-blocking multi-producer channel and shared handles. Nothing is
//! claimed about what a channel delivers — only the code around a delivery
//! is verified, for every value that may come out.

use vstd::prelude::*;

use std::sync::mpsc::{Receiver, Sender};

verus! {

#[verifier::external_type_specification]
#[verifier::external_body]
#[verifier::reject_recursive_types(T)]
pub struct ExSender<T>(Sender<T>);

#[verifier::external_type_specification]
#[verifier::external_body]
#[verifier::reject_recursive_types(T)]
pub struct ExReceiver<T>(Receiver<T>);

/// Relies on std::sync::mpsc::channel: builds a connected sender/receiver
/// pair; what is sent on the one side comes out of the other, in order.
#[verifier::external_body]
pub(crate) fn channel_pair<T>() -> (Sender<T>, Receiver<T>) {
    std::sync::mpsc::channel()
}

/// Relies on std::sync::mpsc::Sender::send: hands one value to the
/// receiving half without blocking; it fails, returning the value, exactly
/// when the receiving half is gone.
#[verifier::external_body]
pub(crate) fn channel_send<T>(tx: &Sender<T>, value: T) -> (r: Result<(), T>) {
    match tx.send(value) {
        Ok(()) => Ok(()),
        Err(std::sync::mpsc::SendError(v)) => Err(v),
    }
}

/// Relies on std::sync::mpsc::Receiver::try_recv: takes the oldest pending
/// value without blocking, or nothing when the channel is empty or the
/// sending half is gone.
#[verifier::external_body]
pub(crate) fn channel_try_recv<T>(rx: &Receiver<T>) -> (r: Option<T>) {
    rx.try_recv().ok()
}

/// Relies on std::sync::Arc::clone: the new handle refers to the very same
/// allocation, so both handles see one shared value.
#[verifier::external_body]
pub(crate) fn arc_clone<T>(v: &std::sync::Arc<T>) -> (r: std::sync::Arc<T>)
    ensures
        r == *v,
{
    std::sync::Arc::clone(v)
}

} // verus!
