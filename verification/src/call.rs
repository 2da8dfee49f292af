//! The decisions of a call.
//!
//! A call has up to two waits: one for room in the center's queue, and
//! one for the reply. The caller performs them; the functions here say
//! what follows from each outcome.

use crate::error::Error;
use vstd::prelude::*;

verus! {

/// What a caller does once the queue has answered.
pub enum CallStep<R> {
    /// The envelope is in the queue: wait on the response channel.
    AwaitResponse,
    /// The call is over, with this result.
    Finished(Result<R, Error>),
}

/// The step after the envelope of a call was offered to the queue.
/// `accepted` is false when the queue's receiving end was gone.
pub open spec fn after_enqueue<R>(accepted: bool) -> CallStep<R> {
    if accepted {
        CallStep::AwaitResponse
    } else {
        CallStep::Finished(Err(Error::PhoneClosed))
    }
}

/// The result of a call whose response channel yielded `response`: `None`
/// when the channel closed with no reply sent.
pub open spec fn after_response<R>(response: Option<R>) -> Result<R, Error> {
    match response {
        Some(reply) => Ok(reply),
        None => Err(Error::PhoneClosed),
    }
}

/// The result of a whole call, from the outcomes of its two waits.
/// `response` is what the response channel yields; it is not looked at
/// when the queue refused the envelope.
pub open spec fn call_result<R>(accepted: bool, response: Option<R>) -> Result<R, Error> {
    match after_enqueue::<R>(accepted) {
        CallStep::AwaitResponse => after_response(response),
        CallStep::Finished(result) => result,
    }
}

/// The step after the envelope of a call that wants no reply was offered
/// to the queue.
pub open spec fn after_enqueue_no_response(accepted: bool) -> CallStep<()> {
    if accepted {
        CallStep::Finished(Ok(()))
    } else {
        CallStep::Finished(Err(Error::PhoneClosed))
    }
}

/// What a center hands to its dispatcher when its queue yielded
/// `received`: `None` when the queue is closed and empty.
pub open spec fn next_request<E>(received: Option<E>) -> Result<E, Error> {
    match received {
        Some(envelope) => Ok(envelope),
        None => Err(Error::PhoneClosed),
    }
}

/// Decides how a call goes on after its envelope was offered to the queue.
pub fn call_enqueued<R>(accepted: bool) -> (step: CallStep<R>)
    ensures
        step == after_enqueue::<R>(accepted),
{
    if accepted {
        CallStep::AwaitResponse
    } else {
        CallStep::Finished(Err(Error::PhoneClosed))
    }
}

/// Turns what the response channel yielded into the call's result.
pub fn call_responded<R>(response: Option<R>) -> (result: Result<R, Error>)
    ensures
        result == after_response(response),
{
    match response {
        Some(reply) => Ok(reply),
        None => Err(Error::PhoneClosed),
    }
}

/// Ends a call that wants no reply, once its envelope was offered to the
/// queue: there is no further step, so the result is returned as it is.
pub fn call_no_response_enqueued(accepted: bool) -> (result: Result<(), Error>)
    ensures
        CallStep::Finished(result) == after_enqueue_no_response(accepted),
{
    if accepted {
        Ok(())
    } else {
        Err(Error::PhoneClosed)
    }
}

/// Turns what a center's queue yielded into the dispatcher's next request.
pub fn request_received<E>(received: Option<E>) -> (request: Result<E, Error>)
    ensures
        request == next_request(received),
{
    match received {
        Some(envelope) => Ok(envelope),
        None => Err(Error::PhoneClosed),
    }
}

/// A reply that arrives is what the call returns, whatever its value.
pub proof fn lemma_reply_is_returned<R>(reply: R)
    ensures
        call_result(true, Some(reply)) == Ok::<R, Error>(reply),
{
}

/// A call returns a reply only if the queue took its envelope and that
/// very reply came out of its own response channel.
pub proof fn lemma_returned_reply_was_sent<R>(accepted: bool, response: Option<R>, reply: R)
    requires
        call_result(accepted, response) == Ok::<R, Error>(reply),
    ensures
        accepted,
        response == Some(reply),
{
}

/// A call whose peer is gone fails with `PhoneClosed`: when the queue
/// refuses the envelope, and when the response channel closes empty.
pub proof fn lemma_closed_peer_fails_call<R>(response: Option<R>)
    ensures
        call_result(false, response) == Err::<R, Error>(Error::PhoneClosed),
        call_result(true, None::<R>) == Err::<R, Error>(Error::PhoneClosed),
{
}

/// A call that wants no reply is over as soon as the queue has answered,
/// and fails exactly when the queue refused the envelope.
pub proof fn lemma_no_response_never_waits(accepted: bool)
    ensures
        after_enqueue_no_response(accepted) is Finished,
        after_enqueue_no_response(accepted) == CallStep::Finished(Ok::<(), Error>(())) <==> accepted,
{
}

} // verus!
