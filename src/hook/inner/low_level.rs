//! What the low-level hook callbacks do with each event the platform reports.
//!
//! The platform calls a callback on the hook's own thread with a code, a
//! message code and (most of the time) a record. The callback translates the
//! event and queues it for the handle, and never fails: a missing record
//! gives a partial event. Passing the event on to the next hook is the
//! caller's, after this returns.
use vstd::prelude::*;

use crate::event::details::{
    is_keyboard_translation, mouse_event_of, KeyboardHookData, MouseHookData,
};
use crate::event::{InputEvent, KeyboardEvent, MouseEvent};
use crate::hook::inner::{GlobalHooks, HooksView};

verus! {

/// The callback code that says the call carries an event to process.
pub const HC_ACTION: i32 = 0;

/// Handles one call of the keyboard callback. An event is queued only for a
/// call that carries one, and only while a session is open and holds a
/// keyboard hook; the queued event is returned.
pub fn keyboard_procedure(
    hooks: &mut GlobalHooks,
    code: i32,
    wm_key_code: usize,
    data: Option<KeyboardHookData>,
) -> (r: Option<KeyboardEvent>)
    ensures
        r is Some <==> (code == HC_ACTION && old(hooks)@.open && old(hooks)@.keyboard is Some),
        r is None ==> final(hooks)@ == old(hooks)@,
        r matches Some(e) ==> is_keyboard_translation(e, wm_key_code, data) && final(hooks)@ == (
        HooksView { events: old(hooks)@.events.push(InputEvent::Keyboard(e)), ..old(hooks)@ }),
{
    if code != HC_ACTION || !hooks.open || hooks.keyboard.is_none() {
        return None;
    }
    let keyboard_event = KeyboardEvent::new(wm_key_code, data);
    hooks.channel.send_keyboard_event(keyboard_event);
    Some(keyboard_event)
}

/// Handles one call of the mouse callback. An event is queued only for a
/// call whose code is not negative, and only while a session is open and
/// holds a mouse hook; the queued event is returned.
pub fn mouse_procedure(
    hooks: &mut GlobalHooks,
    code: i32,
    wm_mouse_param: usize,
    data: Option<MouseHookData>,
) -> (r: Option<MouseEvent>)
    ensures
        r is Some <==> (code >= 0 && old(hooks)@.open && old(hooks)@.mouse is Some),
        r is None ==> final(hooks)@ == old(hooks)@,
        r matches Some(e) ==> e == mouse_event_of(wm_mouse_param, data) && final(hooks)@ == (
        HooksView { events: old(hooks)@.events.push(InputEvent::Mouse(e)), ..old(hooks)@ }),
{
    if code < 0 || !hooks.open || hooks.mouse.is_none() {
        return None;
    }
    let mouse_event = MouseEvent::new(wm_mouse_param, data);
    hooks.channel.send_mouse_event(mouse_event);
    Some(mouse_event)
}

} // verus!
