//! The receiving endpoint.

use crate::operation::CallCenter;
use crate::phone::Phone;
use crate::queue::{queue_ends, QUEUE_CAPACITY};
use std::marker::PhantomData;
use tokio::sync::mpsc::{Receiver, Sender};
use vstd::prelude::*;

verus! {

/// The receiving endpoint of a call center: it owns the queue that its
/// phones feed, and hands the envelopes to whoever dispatches them.
pub struct TelephoneCenter<Call: CallCenter> {
    cl: PhantomData<Call>,
    tx: Sender<Call::CallEnum>,
    rx: Receiver<Call::CallEnum>,
}

impl<Call: CallCenter> TelephoneCenter<Call> {
    /// The sending end that this center hands out clones of.
    pub closed spec fn line(&self) -> Sender<Call::CallEnum> {
        self.tx
    }

    /// The receiving end of this center's queue.
    pub closed spec fn queue(&self) -> Receiver<Call::CallEnum> {
        self.rx
    }

    /// A center with an empty queue of `QUEUE_CAPACITY` envelopes.
    pub fn new() -> (center: TelephoneCenter<Call>)
        ensures
            queue_ends(QUEUE_CAPACITY, center.line(), center.queue()),
    {
        let (tx, rx) = tokio::sync::mpsc::channel(QUEUE_CAPACITY);
        TelephoneCenter { cl: PhantomData, tx, rx }
    }

    /// A new phone onto this center's queue.
    pub fn make_phone(&self) -> (phone: Phone<Call>)
        ensures
            cloned(self.line(), phone.line()),
    {
        Phone::on(self.tx.clone())
    }

    /// The receiving end of the queue, on which the dispatcher waits for
    /// the next envelope.
    pub fn receiver(&mut self) -> (rx: &mut Receiver<Call::CallEnum>)
        ensures
            *rx == old(self).queue(),
            final(self).queue() == *final(rx),
            final(self).line() == old(self).line(),
    {
        &mut self.rx
    }
}

impl<Call: CallCenter> Default for TelephoneCenter<Call> {
    fn default() -> (center: Self)
        ensures
            queue_ends(QUEUE_CAPACITY, center.line(), center.queue()),
    {
        Self::new()
    }
}

} // verus!
