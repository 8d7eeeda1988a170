//! The queue that carries events from hook callbacks to the handle's owner.
use vstd::prelude::*;

use std::collections::VecDeque;

use crate::event::{InputEvent, KeyboardEvent, MouseEvent};

verus! {

/// Why no event could be received.
#[derive(Copy, Clone, PartialEq, Eq, Structural, Debug)]
pub enum TryRecvError {
    /// No event is waiting at the moment.
    Empty,
    /// The handle is not the one that owns the active hooks.
    Disconnected,
}

/// The outcome of one non-blocking receive on a queue, and the queue after it.
pub open spec fn take_front(q: Seq<InputEvent>) -> (Result<InputEvent, TryRecvError>, Seq<InputEvent>) {
    if q.len() == 0 {
        (Err(TryRecvError::Empty), q)
    } else {
        (Ok(q[0]), q.drop_first())
    }
}

/// A first-in first-out queue of events. Its view is the sequence of events
/// not yet received, oldest first.
pub struct HookChannels {
    events: VecDeque<InputEvent>,
}

impl View for HookChannels {
    type V = Seq<InputEvent>;

    closed spec fn view(&self) -> Seq<InputEvent> {
        self.events@
    }
}

impl HookChannels {
    pub fn new() -> (r: HookChannels)
        ensures
            r@ == Seq::<InputEvent>::empty(),
    {
        HookChannels { events: VecDeque::new() }
    }

    /// Appends a keyboard event behind those already waiting.
    pub fn send_keyboard_event(&mut self, ke: KeyboardEvent)
        ensures
            final(self)@ == old(self)@.push(InputEvent::Keyboard(ke)),
    {
        self.events.push_back(InputEvent::Keyboard(ke));
    }

    /// Appends a mouse event behind those already waiting.
    pub fn send_mouse_event(&mut self, me: MouseEvent)
        ensures
            final(self)@ == old(self)@.push(InputEvent::Mouse(me)),
    {
        self.events.push_back(InputEvent::Mouse(me));
    }

    /// Takes the oldest waiting event, or reports `Empty`; never blocks.
    pub fn try_recv(&mut self) -> (r: Result<InputEvent, TryRecvError>)
        ensures
            (r, final(self)@) == take_front(old(self)@),
    {
        match self.events.pop_front() {
            Some(e) => Ok(e),
            None => Err(TryRecvError::Empty),
        }
    }

    /// Receives and discards every waiting event.
    pub fn drain(&mut self)
        ensures
            final(self)@ == Seq::<InputEvent>::empty(),
    {
        while self.try_recv().is_ok()
            invariant
                true,
            decreases self@.len(),
        {
        }
    }
}

} // verus!
