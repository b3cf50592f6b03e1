//! The bounded channels that events go through, and what they answer.

use vstd::prelude::*;

verus! {

#[verifier::external_type_specification]
#[verifier::external_body]
#[verifier::reject_recursive_types(T)]
pub struct ExSender<T>(tokio::sync::mpsc::Sender<T>);

/// What became of an event that was offered to a channel.
#[derive(Debug)]
pub enum Offer<T> {
    /// The channel took it.
    Sent,
    /// The channel is full; the event is handed back.
    Full(T),
    /// The receiver is gone; the event is handed back.
    Closed(T),
}

} // verus!
