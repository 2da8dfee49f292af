//! Typed calls between tasks over bounded queues.
//!
//! A call center owns the receiving end of one queue of call envelopes.
//! Phones are cloneable handles onto the sending end. Every call travels
//! with a single-slot response channel of its own, so a reply can only
//! reach the caller that placed the call.
//!
//! This crate holds the data structures and every decision of the
//! protocol, with proofs. Waiting (for room in a queue, for the next
//! envelope, for a reply, for a lock) is left to the caller: each
//! operation that waits is split into the action to perform and a function
//! here that decides what follows from its outcome.

pub mod broadcast;
pub mod broadcast_center;
pub mod call;
pub mod center;
pub mod error;
pub mod operation;
pub mod phone;
pub mod queue;

pub use broadcast::Broadcast;
pub use broadcast_center::BroadcastCenter;
pub use call::CallStep;
pub use center::TelephoneCenter;
pub use operation::{CallCenter, MakeCallOn, TelephoneOperation};
pub use phone::Phone;
