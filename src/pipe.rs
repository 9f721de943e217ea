//! The std channel that carries values between threads, and the few calls
//! made on it.
use vstd::prelude::*;
use std::collections::VecDeque;
use std::sync::mpsc::{Receiver, Sender};

verus! {

/// std's `mpsc::Sender`, carried through as an opaque value.
#[verifier::external_type_specification]
#[verifier::external_body]
#[verifier::reject_recursive_types(T)]
pub struct ExSender<T>(Sender<T>);

/// std's `mpsc::Receiver`, carried through as an opaque value.
#[verifier::external_type_specification]
#[verifier::external_body]
#[verifier::reject_recursive_types(T)]
pub struct ExReceiver<T>(Receiver<T>);

/// What a non-blocking receive found.
pub enum Received<T> {
    /// The oldest value that was queued.
    Value(T),
    /// Nothing is queued, but a sender still exists.
    Empty,
    /// Nothing is queued and every sender is gone.
    Disconnected,
}

/// Relies on `std::sync::mpsc::channel`: a new connected sender/receiver pair.
#[verifier::external_body]
pub(crate) fn open_channel<T>() -> (r: (Sender<T>, Receiver<T>)) {
    std::sync::mpsc::channel()
}

/// Relies on `Sender::send`: queues the value without blocking; it fails,
/// returning `false`, only when the receiver is gone, and never panics.
#[verifier::external_body]
pub(crate) fn send_value<T>(tx: &Sender<T>, value: T) -> (r: bool) {
    tx.send(value).is_ok()
}

/// Relies on `Sender::clone`: another sender into the same channel.
#[verifier::external_body]
pub(crate) fn clone_sender<T>(tx: &Sender<T>) -> (r: Sender<T>) {
    tx.clone()
}

/// Relies on `Receiver::try_recv`: the oldest queued value, or why there is
/// none, without blocking.
#[verifier::external_body]
pub(crate) fn poll_value<T>(rx: &Receiver<T>) -> (r: Received<T>) {
    match rx.try_recv() {
        Ok(v) => Received::Value(v),
        Err(std::sync::mpsc::TryRecvError::Empty) => Received::Empty,
        Err(std::sync::mpsc::TryRecvError::Disconnected) => Received::Disconnected,
    }
}

/// Relies on `Receiver::recv`: blocks until a value comes (`Some`) or every
/// sender is gone with nothing queued (`None`).
#[verifier::external_body]
pub(crate) fn wait_value<T>(rx: &Receiver<T>) -> (r: Option<T>) {
    rx.recv().ok()
}

/// Relies on `Receiver::try_iter`: every value queued now, oldest first,
/// without blocking.
#[verifier::external_body]
pub(crate) fn drain_values<T>(rx: &Receiver<T>) -> (r: VecDeque<T>) {
    rx.try_iter().collect()
}

} // verus!
