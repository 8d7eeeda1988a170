//! Safe handles for listening to global keyboard and mouse events.
//!
//! The crate holds the logic of the hook lifecycle as verified code: which
//! handle may own the background hooks ([hook::GlobalHooks]), how each
//! background hook is torn down ([hook::inner::InnerHook]), how events are
//! queued and handed out ([hook::inner::channels::HookChannels]), and how raw
//! platform data becomes an [event::InputEvent].
pub mod event;
pub mod hook;
pub mod laws;

use vstd::prelude::*;

pub use event::{
    InputEvent, IsEventInjected, IsSystemKeyPress, KeyPress, KeyboardEvent, KeyboardKey,
    MouseButton, MouseButtonPress, MouseClick, MouseEvent, MouseEventType, MouseMoveEvent,
    MousePressEvent, MouseWheel, MouseWheelDirection, MouseWheelEvent, Point,
};
pub use hook::{GlobalHooks, Hook, HookBuilder};

use hook::{build_spec, hook_view};

verus! {

/// Builds a handle with a keyboard hook. See [Hook] and [HookBuilder].
pub fn keyboard_hook(hooks: &mut GlobalHooks) -> (r: Option<Hook>)
    ensures
        (final(hooks)@, hook_view(r)) == build_spec(old(hooks)@, true, false),
{
    HookBuilder::new().with_keyboard().build(hooks)
}

/// Builds a handle with a mouse hook. See [Hook] and [HookBuilder].
pub fn mouse_hook(hooks: &mut GlobalHooks) -> (r: Option<Hook>)
    ensures
        (final(hooks)@, hook_view(r)) == build_spec(old(hooks)@, false, true),
{
    HookBuilder::new().with_mouse().build(hooks)
}

/// Builds a handle with both a keyboard and a mouse hook. See [Hook] and [HookBuilder].
pub fn willhook(hooks: &mut GlobalHooks) -> (r: Option<Hook>)
    ensures
        (final(hooks)@, hook_view(r)) == build_spec(old(hooks)@, true, true),
{
    HookBuilder::new().with_keyboard().with_mouse().build(hooks)
}

} // verus!
