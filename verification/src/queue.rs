//! The queue of fight events: the engine's event queue, used on its own.
//!
//! Events are sent to the back of the queue and all of them are drained at
//! once, the oldest first. Nothing of the queue is proved here; what the
//! functions below promise is taken from the engine's source.

use crate::combat::FightEvent;
use bevy::ecs::event::Events;
use vstd::prelude::*;

verus! {

/// A queue of fight events, kept in a `bevy::ecs::event::Events`. The
/// verifier does not look inside it: what it holds is named by [`queued`].
#[verifier::external_body]
#[derive(Debug)]
pub struct FightQueue {
    events: Events<FightEvent>,
}

/// The events that wait in the queue, the oldest first.
pub uninterp spec fn queued(queue: FightQueue) -> Seq<FightEvent>;

/// How many events have ever been sent to the queue. The engine numbers its
/// events with a `usize`, so that this count has to stay below its maximum.
pub uninterp spec fn ever_sent(queue: FightQueue) -> nat;

impl View for FightQueue {
    type V = Seq<FightEvent>;

    open spec fn view(&self) -> Seq<FightEvent> {
        queued(*self)
    }
}

/// Makes a queue with `Events::default`.
///
/// Trusted: the new queue is empty and has numbered no event.
#[verifier::external_body]
pub(crate) fn new_queue() -> (queue: FightQueue)
    ensures
        queued(queue) == Seq::<FightEvent>::empty(),
        ever_sent(queue) == 0,
{
    FightQueue { events: Events::default() }
}

/// Calls `Events::send`.
///
/// Trusted: the event is put behind those that wait, and the count of the
/// events ever sent goes up by one. The engine adds one to that count with
/// `+=`, which is why the count must not be at its maximum.
#[verifier::external_body]
pub(crate) fn send(queue: &mut FightQueue, event: FightEvent)
    requires
        ever_sent(*old(queue)) < usize::MAX,
    ensures
        queued(*final(queue)) == queued(*old(queue)).push(event),
        ever_sent(*final(queue)) == ever_sent(*old(queue)) + 1,
{
    queue.events.send(event);
}

/// Calls `Events::len`.
///
/// Trusted: the result is the number of events that wait.
#[verifier::external_body]
pub(crate) fn waiting(queue: &FightQueue) -> (n: usize)
    ensures
        n == queued(*queue).len(),
{
    queue.events.len()
}

/// Calls `Events::drain` and collects what it yields.
///
/// Trusted: all events that wait come out, the oldest first, and none is
/// left in the queue; the count of the events ever sent stays.
#[verifier::external_body]
pub(crate) fn drain(queue: &mut FightQueue) -> (drained: Vec<FightEvent>)
    ensures
        drained@ == queued(*old(queue)),
        queued(*final(queue)) == Seq::<FightEvent>::empty(),
        ever_sent(*final(queue)) == ever_sent(*old(queue)),
{
    queue.events.drain().collect()
}

} // verus!
