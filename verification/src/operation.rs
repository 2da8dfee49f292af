//! Operations, call centers, and what binds one to the other.

use std::fmt::Debug;
use tokio::sync::mpsc::Receiver;
use vstd::prelude::*;

verus! {

/// A kind of call: a marker type that names the shape of its parameters
/// and of its reply. An operation can be callable on several call centers.
pub trait TelephoneOperation {
    /// What the caller hands over. Cloned once per listener when a call is
    /// broadcast.
    type Parameters: Debug + Clone + Send + 'static;

    /// What the handler hands back.
    type ReturnValue: Debug + Send + 'static;
}

/// A closed catalog of operations, identified by a marker type.
pub trait CallCenter: Clone + Debug {
    /// The envelope of this center: one variant per operation of the
    /// catalog, each holding that operation's parameters and the sending
    /// end of a response channel for its reply.
    type CallEnum: Send + Sync + Debug + Clone + 'static;
}

/// Says that an operation can be called on the center `Call`, and how its
/// envelope is built.
pub trait MakeCallOn<Call: CallCenter>: TelephoneOperation {
    /// The operation's name, for diagnostics.
    const NAME: &'static str;

    /// Wraps `request` and the sending end of a fresh single-slot response
    /// channel into this operation's variant of the envelope, and returns
    /// it with the channel's receiving end.
    fn make_call(request: Self::Parameters) -> (Call::CallEnum, Receiver<Self::ReturnValue>);
}

} // verus!
