//! The event bus: a broadcast channel on which every subscriber receives
//! every event that is sent after it subscribed.
//!
//! The bus is a `tokio::sync::broadcast` channel. Only its sending side is
//! used here, and nothing is known here of what the channel holds or of who
//! listens: a send reports how many receivers were subscribed, or hands the
//! event back if there was none.

use vstd::prelude::*;
use tokio::sync::broadcast::Sender;
use crate::event::{CommandEvent, EventView};

verus! {

/// The sending side of a `tokio::sync::broadcast` channel, carried through
/// as it is: nothing is known here of what is inside.
#[verifier::external_type_specification]
#[verifier::external_body]
#[verifier::reject_recursive_types(T)]
pub struct ExSender<T>(tokio::sync::broadcast::Sender<T>);

/// Sends `event` with `tokio::sync::broadcast::Sender::send`.
///
/// Taken on trust from that function: when it succeeds it reports the number
/// of receivers that were subscribed at that moment, which is at least one;
/// when no receiver is subscribed it sends nothing and returns the value it
/// was given.
#[verifier::external_body]
fn send(bus: &Sender<CommandEvent>, event: CommandEvent) -> (sent: Result<usize, CommandEvent>)
    ensures
        sent matches Ok(receivers) ==> receivers >= 1,
        sent matches Err(back) ==> back@ == event@,
{
    match bus.send(event) {
        Ok(receivers) => Ok(receivers),
        Err(error) => Err(error.0),
    }
}

/// What a call of [`publish`] with `event` may return: zero receivers if there
/// was nothing to send; otherwise the number of receivers the event was sent
/// to, which is at least one, or the event itself if nobody was subscribed.
pub open spec fn is_outcome_of(sent: Result<usize, CommandEvent>, event: Option<EventView>) -> bool {
    match event {
        None => sent == Ok::<usize, CommandEvent>(0),
        Some(due) => match sent {
            Ok(receivers) => receivers >= 1,
            Err(back) => back@ == due,
        },
    }
}

/// Sends `event` on the bus, if there is one to send.
///
/// Returns the number of receivers that were subscribed when the event was
/// sent, and zero if there was no event. If there was an event and no
/// receiver, nothing is sent and the event comes back as the error.
pub fn publish(bus: &Sender<CommandEvent>, event: Option<CommandEvent>) -> (sent: Result<
    usize,
    CommandEvent,
>)
    ensures
        is_outcome_of(sent, event.deep_view()),
{
    match event {
        Some(due) => send(bus, due),
        None => Ok(0),
    }
}

} // verus!
