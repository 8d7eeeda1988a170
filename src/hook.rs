//! The hook handle and its builder.
//!
//! A [Hook] is the one handle that owns the active background hooks. It is
//! made by [HookBuilder::build] against a [GlobalHooks] registry, receives
//! events through [Hook::try_recv], and is destroyed by
//! [GlobalHooks::drop_hooks], which ends its session.
pub mod inner;

use vstd::prelude::*;

use crate::event::InputEvent;
use crate::hook::inner::channels::{take_front, TryRecvError};
use crate::hook::inner::{fresh_hook, next_session, HooksView};

pub use crate::hook::inner::GlobalHooks;

pub use crate::event;
pub use crate::hook::inner::channels;

verus! {

/// What is known of a handle: its session and the kinds of hook it asked for.
pub struct HookView {
    pub session: u64,
    pub keyboard: bool,
    pub mouse: bool,
}

/// Whether `h` is the live handle of the registry's open session.
pub open spec fn owns(g: HooksView, h: HookView) -> bool {
    g.open && g.session == h.session
}

/// A build request against a registry: the registry after it, and the handle made.
/// It fails where nothing is requested and where any hook is held, whatever
/// its kind, by a live handle or in teardown.
pub open spec fn build_spec(g: HooksView, keyboard: bool, mouse: bool) -> (HooksView, Option<HookView>) {
    if !keyboard && !mouse || g.is_active() {
        (g, None)
    } else {
        let s = next_session(g.session);
        (
            HooksView {
                keyboard: if keyboard { Some(fresh_hook()) } else { None },
                mouse: if mouse { Some(fresh_hook()) } else { None },
                events: Seq::empty(),
                session: s,
                open: true,
            },
            Some(HookView { session: s, keyboard, mouse }),
        )
    }
}

/// A receive through the handle `h`: the registry after it, and the outcome.
pub open spec fn recv_spec(g: HooksView, h: HookView) -> (HooksView, Result<InputEvent, TryRecvError>) {
    if owns(g, h) {
        (HooksView { events: take_front(g.events).1, ..g }, take_front(g.events).0)
    } else {
        (g, Err(TryRecvError::Disconnected))
    }
}

/// The registry after the handle `h` is destroyed: where `h` is the live
/// handle, its session closes and the queue is emptied; its hooks stay held
/// until their teardown ends.
pub open spec fn release_spec(g: HooksView, h: HookView) -> HooksView {
    if owns(g, h) {
        HooksView { events: Seq::empty(), open: false, ..g }
    } else {
        g
    }
}

/// The view of an optional handle.
pub open spec fn hook_view(r: Option<Hook>) -> Option<HookView> {
    match r {
        Some(h) => Some(h@),
        None => None,
    }
}

/// Handle to the low-level hooks of a session. Hand it back to
/// [GlobalHooks::drop_hooks] to close the session, then tear its hooks down
/// with [GlobalHooks::stop_hook] and [GlobalHooks::report_hook].
pub struct Hook {
    session: u64,
    keyboard: bool,
    mouse: bool,
}

impl View for Hook {
    type V = HookView;

    closed spec fn view(&self) -> HookView {
        HookView { session: self.session, keyboard: self.keyboard, mouse: self.mouse }
    }
}

impl Hook {
    /// Takes the oldest event that the hooks of this handle captured, or
    /// reports `Empty`; never blocks. `Disconnected` is reported where this
    /// handle is not the live handle of the registry's open session.
    pub fn try_recv(&self, hooks: &mut GlobalHooks) -> (r: Result<InputEvent, TryRecvError>)
        ensures
            (final(hooks)@, r) == recv_spec(old(hooks)@, self@),
    {
        hooks.receive(self.session)
    }

    /// Whether this handle asked for a keyboard hook.
    pub fn has_keyboard(&self) -> (r: bool)
        ensures
            r == self@.keyboard,
    {
        self.keyboard
    }

    /// Whether this handle asked for a mouse hook.
    pub fn has_mouse(&self) -> (r: bool)
        ensures
            r == self@.mouse,
    {
        self.mouse
    }
}

/// Builds a [Hook] with the kinds of hook chosen. At least one kind must be
/// chosen, and only one handle can be live at a time, whatever its kinds.
pub struct HookBuilder {
    mouse: bool,
    keyboard: bool,
}

impl View for HookBuilder {
    /// The kinds requested: keyboard, then mouse.
    type V = (bool, bool);

    closed spec fn view(&self) -> (bool, bool) {
        (self.keyboard, self.mouse)
    }
}

impl HookBuilder {
    pub fn new() -> (r: HookBuilder)
        ensures
            r@ == (false, false),
    {
        HookBuilder { mouse: false, keyboard: false }
    }

    /// Asks for a mouse hook as well.
    pub fn with_mouse(self) -> (r: HookBuilder)
        ensures
            r@ == (self@.0, true),
    {
        HookBuilder { mouse: true, ..self }
    }

    /// Asks for a keyboard hook as well.
    pub fn with_keyboard(self) -> (r: HookBuilder)
        ensures
            r@ == (true, self@.1),
    {
        HookBuilder { keyboard: true, ..self }
    }

    /// Starts a session holding a fresh background hook of each requested
    /// kind. Returns nothing where no kind was requested, or where any hook
    /// is held, whatever its kind. Once the hooks reported installation,
    /// [GlobalHooks::confirm_build] says whether the handle is kept.
    pub fn build(self, hooks: &mut GlobalHooks) -> (r: Option<Hook>)
        ensures
            (final(hooks)@, hook_view(r)) == build_spec(old(hooks)@, self@.0, self@.1),
    {
        if !self.keyboard && !self.mouse {
            return None;
        }
        if hooks.is_any_hook_present() {
            return None;
        }
        let session = hooks.open_session(self.keyboard, self.mouse);
        Some(Hook { session, keyboard: self.keyboard, mouse: self.mouse })
    }
}

} // verus!
