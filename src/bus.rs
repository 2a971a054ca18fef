//! The shared broadcast bus: tokio's broadcast channel carrying relay texts.
//!
//! The channel itself is tokio's, synchronised internally and shared by every
//! session task; this module adds the bus's construction rule and the reading
//! of a publish result in which "no subscriber" is not a failure.

use tokio::sync::broadcast::Sender;
use vstd::prelude::*;

verus! {

#[verifier::external_type_specification]
#[verifier::external_body]
#[verifier::reject_recursive_types(T)]
pub struct ExSender<T>(Sender<T>);

/// The largest per-subscriber capacity the channel accepts.
pub const MAX_CAPACITY: usize = usize::MAX >> 1;

/// A capacity the channel can be built with.
pub open spec fn valid_capacity(capacity: usize) -> bool {
    0 < capacity && capacity <= MAX_CAPACITY
}

/// What a publish came to. Finding no subscriber is an outcome, not an error:
/// the message is dropped and the publisher carries on.
#[derive(Clone, Copy, Debug, PartialEq, Eq, Structural)]
pub enum PublishOutcome {
    /// The message was queued for this many subscribers (at least one).
    Delivered(usize),
    /// No subscriber existed; the message was discarded.
    NoSubscribers,
}

/// Relies on tokio's `broadcast::Sender::new`: it builds a channel with no
/// receiver, and panics unless `0 < capacity <= usize::MAX / 2`.
#[verifier::external_body]
fn new_sender(capacity: usize) -> (r: Sender<String>)
    requires
        valid_capacity(capacity),
{
    Sender::new(capacity)
}

/// Relies on tokio's `broadcast::Sender::send`: it fails, handing the value
/// back, exactly when no receiver exists; otherwise it returns the number of
/// receivers the value was queued for, which is at least one.
#[verifier::external_body]
fn send_on(bus: &Sender<String>, message: String) -> (r: Result<usize, String>)
    ensures
        r is Ok ==> r->Ok_0 >= 1,
        r is Err ==> r->Err_0@ == message@,
{
    bus.send(message).map_err(|e| e.0)
}

/// Creates the bus with `capacity` buffered messages per subscriber, or
/// `None` when the capacity is zero or beyond what the channel accepts.
pub fn create_bus(capacity: usize) -> (r: Option<Sender<String>>)
    ensures
        r is Some <==> valid_capacity(capacity),
{
    if 0 < capacity && capacity <= MAX_CAPACITY {
        Some(new_sender(capacity))
    } else {
        None
    }
}

/// Reads the channel's answer to a send: a count of receivers is a delivery,
/// a value handed back means no subscriber existed.
pub fn outcome_of(sent: Result<usize, String>) -> (r: PublishOutcome)
    ensures
        sent is Ok ==> r == PublishOutcome::Delivered(sent->Ok_0),
        sent is Err ==> r == PublishOutcome::NoSubscribers,
{
    match sent {
        Ok(n) => PublishOutcome::Delivered(n),
        Err(_) => PublishOutcome::NoSubscribers,
    }
}

/// Publishes `message` to every current subscriber. With no subscriber the
/// message is dropped and `NoSubscribers` is returned; this never fails.
pub fn publish(bus: &Sender<String>, message: String) -> (r: PublishOutcome)
    ensures
        r matches PublishOutcome::Delivered(n) ==> n >= 1,
{
    outcome_of(send_on(bus, message))
}

} // verus!
