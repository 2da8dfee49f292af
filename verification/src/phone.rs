//! The calling handle.

use crate::operation::CallCenter;
use crate::queue::answers_closed;
use tokio::sync::mpsc::Sender;
use vstd::prelude::*;

verus! {

/// A handle for placing calls to one center. Phones are made by a center
/// or cloned from one another, and all of them feed the same queue.
#[derive(Debug)]
pub struct Phone<Call: CallCenter> {
    tx: Sender<Call::CallEnum>,
}

impl<Call: CallCenter> Phone<Call> {
    /// The sending end that this phone holds.
    pub closed spec fn line(&self) -> Sender<Call::CallEnum> {
        self.tx
    }

    /// The phone that holds `tx`.
    pub(crate) fn on(tx: Sender<Call::CallEnum>) -> (phone: Self)
        ensures
            phone.line() == tx,
    {
        Phone { tx }
    }

    /// The sending end of the center's queue, on which the caller puts the
    /// envelope of a call.
    pub fn sender(&self) -> (tx: &Sender<Call::CallEnum>)
        ensures
            *tx == self.line(),
    {
        &self.tx
    }

    /// Whether the center behind this phone was there when asked. A center
    /// that is gone does not come back.
    pub fn is_alive(&self) -> (alive: bool)
        ensures
            answers_closed(self.line(), !alive),
    {
        !self.tx.is_closed()
    }
}

impl<Call: CallCenter> Clone for Phone<Call> {
    /// Another phone onto the same queue.
    fn clone(&self) -> (twin: Self)
        ensures
            cloned(self.line(), twin.line()),
    {
        Phone { tx: self.tx.clone() }
    }
}

} // verus!
