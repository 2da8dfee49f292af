//! The queue primitives that the library builds on: tokio's bounded
//! multi-producer, single-consumer channel.
//!
//! The declarations in this file are not proved: each states what the
//! library assumes of tokio. The two predicates at its end assume nothing.
//! They let a contract say that a value is what one of these calls
//! returned, without saying which value that is.

use tokio::sync::mpsc::{Receiver, Sender};
use vstd::prelude::*;

verus! {

/// Envelopes that a center's queue holds before senders have to wait.
pub const QUEUE_CAPACITY: usize = 100;

/// `tokio::sync::mpsc::Sender`, the sending end of a queue. Its contents
/// are hidden: a value of it is only carried and cloned.
#[verifier::external_type_specification]
#[verifier::external_body]
#[verifier::reject_recursive_types(T)]
pub struct ExSender<T>(Sender<T>);

/// `tokio::sync::mpsc::Receiver`, the receiving end of a queue. Its
/// contents are hidden: a value of it is only carried.
#[verifier::external_type_specification]
#[verifier::external_body]
#[verifier::reject_recursive_types(T)]
pub struct ExReceiver<T>(Receiver<T>);

/// `tokio::sync::mpsc::channel` creates a queue and returns its two ends.
/// It panics on a capacity of zero and on one above the largest `usize`
/// shifted right by three bits, so both are excluded: the bound here is
/// that maximum on a 32-bit machine, and lies below it on a 64-bit one.
/// Nothing is claimed of the ends it returns.
pub assume_specification<T>[ tokio::sync::mpsc::channel::<T> ](buffer: usize) -> (ends: (
    Sender<T>,
    Receiver<T>,
))
    requires
        0 < buffer <= 0x1fff_ffff,
;

/// `Sender::clone` returns another sending end of the same queue. The only
/// thing known of the result is that it is a clone of the argument.
pub assume_specification<T>[ <Sender<T> as Clone>::clone ](tx: &Sender<T>) -> (twin: Sender<T>)
;

/// `Sender::is_closed` tells whether the queue's receiving end has been
/// dropped or closed. The answer depends on what other tasks have done, so
/// nothing is claimed of it.
pub assume_specification<T>[ Sender::<T>::is_closed ](tx: &Sender<T>) -> (closed: bool)
;

/// Whether `tx` and `rx` can be the two ends that `channel` returns when
/// asked for a queue of `capacity` envelopes.
pub open spec fn queue_ends<T>(capacity: usize, tx: Sender<T>, rx: Receiver<T>) -> bool {
    call_ensures(tokio::sync::mpsc::channel::<T>, (capacity,), (tx, rx))
}

/// Whether `closed` can be what `is_closed` answers when asked on `tx`.
pub open spec fn answers_closed<T>(tx: Sender<T>, closed: bool) -> bool {
    call_ensures(Sender::<T>::is_closed, (&tx,), closed)
}

} // verus!
