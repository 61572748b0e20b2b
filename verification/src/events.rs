//! The queue of events for the host, first in, first out.

use std::collections::VecDeque;
use vstd::prelude::*;

verus! {

/// The kinds of event that the input core produces.
#[derive(Clone, Copy, Debug, PartialEq, Eq, Structural)]
pub enum EventType {
    TrackedDeviceActivated,
    TrackedDeviceDeactivated,
    ButtonPress,
    ButtonUnpress,
    ButtonTouch,
    ButtonUntouch,
}

impl EventType {
    /// The number by which the host knows the kind of event.
    pub open spec fn code(self) -> u32 {
        match self {
            EventType::TrackedDeviceActivated => 100,
            EventType::TrackedDeviceDeactivated => 101,
            EventType::ButtonPress => 200,
            EventType::ButtonUnpress => 201,
            EventType::ButtonTouch => 202,
            EventType::ButtonUntouch => 203,
        }
    }

    /// Reads the number by which the host knows the kind of event.
    pub fn number(self) -> (r: u32)
        ensures
            r == self.code(),
    {
        match self {
            EventType::TrackedDeviceActivated => 100,
            EventType::TrackedDeviceDeactivated => 101,
            EventType::ButtonPress => 200,
            EventType::ButtonUnpress => 201,
            EventType::ButtonTouch => 202,
            EventType::ButtonUntouch => 203,
        }
    }
}

/// An event: its kind, the device it is about and, for a button event, the
/// number of the button.
#[derive(Clone, Copy, Debug, PartialEq, Eq)]
pub struct InputEvent {
    pub ty: EventType,
    pub index: u32,
    pub button: u32,
}

/// The events that the host has not polled yet.
pub struct EventQueue {
    events: VecDeque<InputEvent>,
}

impl View for EventQueue {
    type V = Seq<InputEvent>;

    closed spec fn view(&self) -> Seq<InputEvent> {
        self.events@
    }
}

impl EventQueue {
    /// An empty queue.
    pub fn new() -> (r: EventQueue)
        ensures
            r@ == Seq::<InputEvent>::empty(),
    {
        EventQueue { events: VecDeque::new() }
    }

    /// The number of events waiting.
    pub fn len(&self) -> (n: usize)
        ensures
            n == self@.len(),
    {
        self.events.len()
    }

    /// Appends an event behind all that are waiting.
    pub fn push_back(&mut self, event: InputEvent)
        ensures
            final(self)@ == old(self)@.push(event),
    {
        self.events.push_back(event);
    }

    /// Takes the event that has waited longest, if any.
    pub fn pop_front(&mut self) -> (r: Option<InputEvent>)
        ensures
            old(self)@.len() == 0 ==> r.is_none() && final(self)@ == old(self)@,
            old(self)@.len() > 0 ==> r == Some(old(self)@[0]) && final(self)@
                == old(self)@.subrange(1, old(self)@.len() as int),
    {
        self.events.pop_front()
    }
}

/// Events leave the queue in the order in which they entered it: after
/// `first` and `second` have been pushed onto any queue, `first` is polled
/// before `second`, and both only after everything that waited before.
pub proof fn lemma_fifo(waiting: Seq<InputEvent>, first: InputEvent, second: InputEvent)
    ensures
        waiting.push(first).push(second).subrange(0, waiting.len() as int) == waiting,
        waiting.push(first).push(second)[waiting.len() as int] == first,
        waiting.push(first).push(second)[waiting.len() as int + 1] == second,
{
    assert(waiting.push(first).push(second).subrange(0, waiting.len() as int) =~= waiting);
}

} // verus!
