//! The server's event system: a broadcast channel on which the server
//! announces events, such as a player joining, to every registered listener.

use vstd::prelude::*;
use tokio::sync::broadcast::{Receiver, Sender};

verus! {

/// A player's name and UUID.
pub type NameUUID = (String, u128);

/// An event of the server.
#[derive(Debug)]
pub enum Event {
    /// Emitted when a new player joins the server.
    PlayerJoin(NameUUID),
}

impl Clone for Event {
    fn clone(&self) -> (r: Event)
        ensures
            r == *self,
    {
        match self {
            Event::PlayerJoin(id) => Event::PlayerJoin((id.0.clone(), id.1)),
        }
    }
}

/// The receiving end of the event channel.
pub type EventListener = Receiver<Event>;

/// The sending end of the event channel.
pub type EventEmitter = Sender<Event>;

/// How many events the channel holds for a listener that has not read them yet.
pub const EVENT_CAPACITY: usize = 256;

#[verifier::external_type_specification]
#[verifier::external_body]
#[verifier::reject_recursive_types(T)]
pub struct ExBroadcastSender<T>(Sender<T>);

#[verifier::external_type_specification]
#[verifier::external_body]
#[verifier::reject_recursive_types(T)]
pub struct ExBroadcastReceiver<T>(Receiver<T>);

/// How many events the channel of `sender` holds: the size of its buffer,
/// fixed when the channel is made.
pub uninterp spec fn broadcast_capacity(sender: Sender<Event>) -> nat;

/// The least power of two that is at least `n` (1 for 0), as
/// `usize::next_power_of_two` computes it.
pub open spec fn next_power_of_two(n: nat) -> nat
    decreases n,
{
    if n <= 1 {
        1
    } else {
        2 * next_power_of_two(((n + 1) / 2) as nat)
    }
}

/// `tokio::sync::broadcast::channel`: a new broadcast channel of events with
/// room for `capacity` events. Its documentation says that it panics when the
/// capacity is 0 or exceeds `usize::MAX / 2`, which `requires` leaves out.
/// Claimed, as its source shows: the capacity is rounded up to a power of two
/// and the buffer made of that size. Nothing else is claimed of the two ends.
#[verifier::external_body]
fn event_channel(capacity: usize) -> (r: (Sender<Event>, Receiver<Event>))
    requires
        0 < capacity <= usize::MAX / 2,
    ensures
        broadcast_capacity(r.0) == next_power_of_two(capacity as nat),
{
    tokio::sync::broadcast::channel(capacity)
}

/// Whether `outcome` is what a send of `event` on the channel of `sender`
/// gave: the number of receivers that the event was queued for, or the event
/// handed back when no receiver was alive. Receivers come and go with other
/// tasks, so this is a relation that every outcome satisfies, not a function.
pub uninterp spec fn send_outcome(sender: Sender<Event>, event: Event, outcome: Result<usize, Event>) -> bool;

/// Whether `receiver` receives the events sent on the channel of `sender`.
pub uninterp spec fn receives_from(receiver: Receiver<Event>, sender: Sender<Event>) -> bool;

/// `tokio::sync::broadcast::Sender::send`: sends `event` to every receiver.
/// Claimed, as its documentation and source show: the outcome is that of
/// sending this event on this sender's channel; on success it gives the number
/// of receivers, at least one; on failure (no receiver) it gives the event back.
#[verifier::external_body]
fn send_event(sender: &Sender<Event>, event: Event) -> (r: Result<usize, Event>)
    ensures
        send_outcome(*sender, event, r),
        r matches Ok(n) ==> n >= 1,
        r matches Err(e) ==> e == event,
{
    match sender.send(event) {
        Ok(n) => Ok(n),
        Err(e) => Err(e.0),
    }
}

/// `tokio::sync::broadcast::Sender::subscribe`: a new receiver of the events
/// sent from now on. Claimed, as its source shows (the receiver shares the
/// sender's channel): it receives from this sender's channel.
#[verifier::external_body]
fn subscribe_events(sender: &Sender<Event>) -> (r: Receiver<Event>)
    ensures
        receives_from(r, *sender),
{
    sender.subscribe()
}

/// Whether `n` is a count that was taken of the receivers alive on the channel
/// of `sender`. Receivers come and go with other tasks, so this is a relation
/// that every count satisfies, not a function.
pub uninterp spec fn receivers_counted(sender: Sender<Event>, n: usize) -> bool;

/// `tokio::sync::broadcast::Sender::receiver_count`: the number of receivers
/// alive. Claimed: it is a count of this sender's channel. Receivers are
/// dropped by other tasks at any time, so no number is claimed.
#[verifier::external_body]
fn count_receivers(sender: &Sender<Event>) -> (n: usize)
    ensures
        receivers_counted(*sender, n),
{
    sender.receiver_count()
}

/// The event system of a server.
pub struct EventSystem {
    emitter: EventEmitter,
}

impl EventSystem {
    /// How many events the system's channel holds for a listener that has not
    /// read them yet.
    pub closed spec fn capacity(&self) -> nat {
        broadcast_capacity(self.emitter)
    }

    /// An event system without listeners, whose channel holds 256 events.
    pub fn new() -> (s: Self)
        ensures
            s.capacity() == EVENT_CAPACITY,
    {
        let (emitter, _) = event_channel(EVENT_CAPACITY);
        proof {
            reveal_with_fuel(next_power_of_two, 10);
        }
        Self { emitter }
    }

    /// Whether `outcome` is what emitting `event` on this system gave.
    pub closed spec fn emitted(&self, event: Event, outcome: Result<usize, Event>) -> bool {
        send_outcome(self.emitter, event, outcome)
    }

    /// Whether `listener` receives the events of this system.
    pub closed spec fn listens(&self, listener: EventListener) -> bool {
        receives_from(listener, self.emitter)
    }

    /// Sends `event` to every listener on this system's channel. Gives the
    /// number of listeners it was sent to, at least one, or, when no listener
    /// is alive, the event back: emitting with nobody listening is an error the
    /// caller sees, not a crash.
    pub fn emit(&self, event: Event) -> (r: Result<usize, Event>)
        ensures
            self.emitted(event, r),
            r matches Ok(n) ==> n >= 1,
            r matches Err(e) ==> e == event,
    {
        send_event(&self.emitter, event)
    }

    /// A new listener, which receives the events emitted from now on.
    pub fn register_listener(&self) -> (l: EventListener)
        ensures
            self.listens(l),
    {
        subscribe_events(&self.emitter)
    }

    /// Whether `n` is a count taken of the listeners alive on this system.
    pub closed spec fn counted(&self, n: usize) -> bool {
        receivers_counted(self.emitter, n)
    }

    /// The number of listeners alive on this system's channel.
    pub fn listener_count(&self) -> (n: usize)
        ensures
            self.counted(n),
    {
        count_receivers(&self.emitter)
    }
}

} // verus!
