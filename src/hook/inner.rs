//! The registry of active hooks and the lifecycle of each background hook.
//!
//! A background hook runs on a thread of its own: the thread installs the
//! platform hook, records what it installed, signals that it is ready, and
//! waits for a message that tells it to quit. The thread and the platform
//! calls are the caller's to run; this module decides, step by step, what
//! has to happen next and keeps the records that the decisions rest on.
pub mod channels;
pub mod low_level;
pub mod raw;

use vstd::prelude::*;

use crate::event::InputEvent;
use crate::hook::inner::channels::{take_front, TryRecvError};
use crate::hook::{owns, release_spec, Hook};
use crate::hook::inner::channels::HookChannels;
use crate::hook::inner::raw::RawHook;

verus! {

/// The two kinds of low-level hook.
#[derive(Copy, Clone, PartialEq, Eq, Structural, Debug)]
pub enum HookKind {
    Keyboard,
    Mouse,
}

/// Where a background hook stands in its lifecycle.
#[derive(Copy, Clone, PartialEq, Eq, Structural, Debug)]
pub enum HookPhase {
    /// The thread was started; installation has not been reported yet.
    Starting,
    /// Installation was attempted; the thread waits for its quit message.
    Running,
    /// Teardown asked for the hook to be removed.
    Unhooking,
    /// The hook was removed; teardown asked for the thread to be woken.
    Waking,
    /// The thread was woken; teardown asked for it to be joined.
    Joining,
    /// Nothing is left to release.
    Stopped,
    /// A platform call failed during teardown; the thread is left alone,
    /// since joining a thread that was never woken would never return.
    Abandoned,
}

/// What the owner of a background hook has to do next to tear it down.
#[derive(Copy, Clone, PartialEq, Eq, Structural, Debug)]
pub enum StopAction {
    /// Nothing: teardown is over, or was never needed.
    Nothing,
    /// Remove the platform hook with this handle, then report whether that succeeded.
    Unhook(usize),
    /// Post the quit message to the thread with this id, then report whether that succeeded.
    PostQuit(u32),
    /// Join the background thread, then report that it was joined.
    Join,
}

/// What is known of one background hook.
pub struct InnerHookView {
    pub raw: RawHook,
    pub phase: HookPhase,
}

/// The record of a freshly started background hook.
pub open spec fn fresh_hook() -> InnerHookView {
    InnerHookView { raw: RawHook::empty(), phase: HookPhase::Starting }
}

/// The first teardown step: from a running hook to removing it, or to the end
/// where nothing was installed. Later phases are left as they are.
pub open spec fn stop_transition(h: InnerHookView) -> (InnerHookView, StopAction) {
    match h.phase {
        HookPhase::Starting | HookPhase::Running => if h.raw.is_installed() {
            (InnerHookView { phase: HookPhase::Unhooking, ..h }, StopAction::Unhook(h.raw.raw_handle))
        } else {
            (InnerHookView { phase: HookPhase::Stopped, ..h }, StopAction::Nothing)
        },
        _ => (h, StopAction::Nothing),
    }
}

/// The next teardown step once the last requested action reported back.
/// Each platform call is made only after the one before it succeeded.
pub open spec fn reply_transition(h: InnerHookView, succeeded: bool) -> (InnerHookView, StopAction) {
    match h.phase {
        HookPhase::Unhooking => if succeeded {
            (InnerHookView { phase: HookPhase::Waking, ..h }, StopAction::PostQuit(h.raw.thread_id))
        } else {
            (InnerHookView { phase: HookPhase::Abandoned, ..h }, StopAction::Nothing)
        },
        HookPhase::Waking => if succeeded {
            (InnerHookView { phase: HookPhase::Joining, ..h }, StopAction::Join)
        } else {
            (InnerHookView { phase: HookPhase::Abandoned, ..h }, StopAction::Nothing)
        },
        HookPhase::Joining => (InnerHookView { phase: HookPhase::Stopped, ..h }, StopAction::Nothing),
        _ => (h, StopAction::Nothing),
    }
}

/// Whether a phase ends the lifecycle: the hook was released, or left alone
/// after a platform call failed.
pub open spec fn is_final(p: HookPhase) -> bool {
    p is Stopped || p is Abandoned
}

/// One background hook: the record that its thread writes once, and where
/// its teardown stands.
pub struct InnerHook {
    hook_handle: RawHook,
    phase: HookPhase,
}

impl View for InnerHook {
    type V = InnerHookView;

    closed spec fn view(&self) -> InnerHookView {
        InnerHookView { raw: self.hook_handle, phase: self.phase }
    }
}

impl InnerHook {
    /// The record of a background hook whose thread was just started.
    pub fn new() -> (r: InnerHook)
        ensures
            r@ == fresh_hook(),
    {
        InnerHook { hook_handle: RawHook::new(), phase: HookPhase::Starting }
    }

    /// What the thread installed, as recorded.
    pub fn raw_hook(&self) -> (r: RawHook)
        ensures
            r == self@.raw,
    {
        self.hook_handle
    }

    pub fn phase(&self) -> (r: HookPhase)
        ensures
            r == self@.phase,
    {
        self.phase
    }

    /// Whether teardown is over: nothing of this hook is left to release.
    pub fn is_finished(&self) -> (r: bool)
        ensures
            r == is_final(self@.phase),
    {
        match self.phase {
            HookPhase::Stopped | HookPhase::Abandoned => true,
            _ => false,
        }
    }

    /// Records the outcome of installation, as the background thread reports
    /// it: a zero handle stands for a failed installation. The record is
    /// written once, while the hook is starting; a later report is ignored.
    pub fn record_install(&mut self, raw_handle: usize, thread_id: u32) -> (recorded: bool)
        ensures
            recorded == (old(self)@.phase == HookPhase::Starting),
            recorded ==> final(self)@ == (InnerHookView {
                raw: if raw_handle != 0 {
                    RawHook { raw_handle, thread_id }
                } else {
                    RawHook::empty()
                },
                phase: HookPhase::Running,
            }),
            !recorded ==> final(self)@ == old(self)@,
    {
        if self.phase == HookPhase::Starting {
            if raw_handle != 0 {
                self.hook_handle = RawHook { raw_handle, thread_id };
            } else {
                self.hook_handle = RawHook::new();
            }
            self.phase = HookPhase::Running;
            true
        } else {
            false
        }
    }

    /// Starts the teardown and says what to do first.
    pub fn stop(&mut self) -> (action: StopAction)
        ensures
            (final(self)@, action) == stop_transition(old(self)@),
    {
        match self.phase {
            HookPhase::Starting | HookPhase::Running => {
                if self.hook_handle.installed() {
                    self.phase = HookPhase::Unhooking;
                    StopAction::Unhook(self.hook_handle.raw_handle)
                } else {
                    self.phase = HookPhase::Stopped;
                    StopAction::Nothing
                }
            },
            _ => StopAction::Nothing,
        }
    }

    /// Takes the report of the last requested action and says what to do next.
    pub fn report(&mut self, succeeded: bool) -> (action: StopAction)
        ensures
            (final(self)@, action) == reply_transition(old(self)@, succeeded),
    {
        match self.phase {
            HookPhase::Unhooking => {
                if succeeded {
                    self.phase = HookPhase::Waking;
                    StopAction::PostQuit(self.hook_handle.thread_id)
                } else {
                    self.phase = HookPhase::Abandoned;
                    StopAction::Nothing
                }
            },
            HookPhase::Waking => {
                if succeeded {
                    self.phase = HookPhase::Joining;
                    StopAction::Join
                } else {
                    self.phase = HookPhase::Abandoned;
                    StopAction::Nothing
                }
            },
            HookPhase::Joining => {
                self.phase = HookPhase::Stopped;
                StopAction::Nothing
            },
            _ => StopAction::Nothing,
        }
    }
}

/// What is known of the registry: the background hook of each kind, the
/// events not yet received, the number of the current (or last) session, and
/// whether that session is open, that is, whether its handle is live.
pub struct HooksView {
    pub keyboard: Option<InnerHookView>,
    pub mouse: Option<InnerHookView>,
    pub events: Seq<InputEvent>,
    pub session: u64,
    pub open: bool,
}

impl HooksView {
    /// Whether a hook of either kind is held: by a live handle, or while it
    /// is torn down.
    pub open spec fn is_active(self) -> bool {
        self.keyboard is Some || self.mouse is Some
    }

    /// The hook held for one kind.
    pub open spec fn slot(self, kind: HookKind) -> Option<InnerHookView> {
        match kind {
            HookKind::Keyboard => self.keyboard,
            HookKind::Mouse => self.mouse,
        }
    }

    /// The registry with the hook held for one kind replaced.
    pub open spec fn with_slot(self, kind: HookKind, slot: Option<InnerHookView>) -> HooksView {
        match kind {
            HookKind::Keyboard => HooksView { keyboard: slot, ..self },
            HookKind::Mouse => HooksView { mouse: slot, ..self },
        }
    }
}

/// The number that follows a session number; it wraps after the largest.
pub open spec fn next_session(s: u64) -> u64 {
    if s == u64::MAX {
        0
    } else {
        (s + 1) as u64
    }
}

/// Recording what the background thread of one kind installed: the registry
/// after it and whether it was recorded. Only a hook still starting takes
/// the record; a zero handle stands for a failed installation.
pub open spec fn record_spec(g: HooksView, kind: HookKind, raw_handle: usize, thread_id: u32) -> (HooksView, bool) {
    match g.slot(kind) {
        Some(h) if h.phase == HookPhase::Starting => (
            g.with_slot(
                kind,
                Some(
                    InnerHookView {
                        raw: if raw_handle != 0 {
                            RawHook { raw_handle, thread_id }
                        } else {
                            RawHook::empty()
                        },
                        phase: HookPhase::Running,
                    },
                ),
            ),
            true,
        ),
        _ => (g, false),
    }
}

/// Whether a held hook of either kind was installed by the platform.
pub open spec fn some_installed(g: HooksView) -> bool {
    (g.keyboard matches Some(k) && k.raw.is_installed()) || (g.mouse matches Some(m)
        && m.raw.is_installed())
}

/// A hook after a teardown step: gone from its slot once its lifecycle ended.
pub open spec fn settle(h: InnerHookView) -> Option<InnerHookView> {
    if is_final(h.phase) {
        None
    } else {
        Some(h)
    }
}

/// The first teardown step for the hook of one kind: the registry after it
/// and the action asked for. Nothing happens while a session is open or
/// where no hook of that kind is held.
pub open spec fn stop_hook_spec(g: HooksView, kind: HookKind) -> (HooksView, StopAction) {
    match g.slot(kind) {
        Some(h) if !g.open => (g.with_slot(kind, settle(stop_transition(h).0)), stop_transition(h).1),
        _ => (g, StopAction::Nothing),
    }
}

/// A later teardown step for the hook of one kind, once the last action
/// reported back. Nothing happens while a session is open or where no hook
/// of that kind is held.
pub open spec fn report_hook_spec(g: HooksView, kind: HookKind, succeeded: bool) -> (HooksView, StopAction) {
    match g.slot(kind) {
        Some(h) if !g.open => (
            g.with_slot(kind, settle(reply_transition(h, succeeded).0)),
            reply_transition(h, succeeded).1,
        ),
        _ => (g, StopAction::Nothing),
    }
}

/// The check after installation, for the handle `h`: the registry after it,
/// and whether the handle is kept. A handle is kept where it owns the
/// registry and a hook of some kind was installed. Where it owns the registry
/// and nothing was installed, its session closes and, as nothing is left to
/// tear down, every slot is freed.
pub open spec fn confirm_spec(g: HooksView, h: crate::hook::HookView) -> (HooksView, bool) {
    if owns(g, h) && some_installed(g) {
        (g, true)
    } else if owns(g, h) {
        (HooksView { keyboard: None, mouse: None, events: Seq::empty(), session: g.session, open: false }, false)
    } else {
        (g, false)
    }
}

/// The view of an optional background hook.
pub open spec fn slot_view(slot: Option<InnerHook>) -> Option<InnerHookView> {
    match slot {
        Some(h) => Some(h@),
        None => None,
    }
}

/// The registry of active hooks: at most one background hook of each kind,
/// held from the build of a handle until that hook's teardown ends; the
/// queue of events for the live handle; and the number of its session.
/// Every access goes through `&mut`, so a registry shared between threads
/// sits behind one lock, held across each whole operation.
pub struct GlobalHooks {
    keyboard: Option<InnerHook>,
    mouse: Option<InnerHook>,
    channel: HookChannels,
    session: u64,
    open: bool,
}

impl View for GlobalHooks {
    type V = HooksView;

    closed spec fn view(&self) -> HooksView {
        HooksView {
            keyboard: slot_view(self.keyboard),
            mouse: slot_view(self.mouse),
            events: self.channel@,
            session: self.session,
            open: self.open,
        }
    }
}

impl GlobalHooks {
    /// A registry with no hook and no session yet.
    pub fn new() -> (r: GlobalHooks)
        ensures
            r@ == (HooksView { keyboard: None, mouse: None, events: Seq::empty(), session: 0, open: false }),
    {
        GlobalHooks { keyboard: None, mouse: None, channel: HookChannels::new(), session: 0, open: false }
    }

    /// Whether a hook of either kind is held, by a live handle or in teardown.
    pub fn is_any_hook_present(&self) -> (r: bool)
        ensures
            r == self@.is_active(),
    {
        self.keyboard.is_some() || self.mouse.is_some()
    }

    /// The number of the current session, or of the last one where none is open.
    pub fn session(&self) -> (r: u64)
        ensures
            r == self@.session,
    {
        self.session
    }

    /// Whether the session's handle is live.
    pub fn is_open(&self) -> (r: bool)
        ensures
            r == self@.open,
    {
        self.open
    }

    fn setup_keyboard_hook(&mut self)
        ensures
            final(self)@ == (HooksView { keyboard: Some(fresh_hook()), ..old(self)@ }),
    {
        self.keyboard = Some(InnerHook::new());
    }

    fn setup_mouse_hook(&mut self)
        ensures
            final(self)@ == (HooksView { mouse: Some(fresh_hook()), ..old(self)@ }),
    {
        self.mouse = Some(InnerHook::new());
    }

    /// Opens a new session that holds a fresh background hook of each
    /// requested kind and an empty queue; returns the session's number.
    pub(crate) fn open_session(&mut self, keyboard: bool, mouse: bool) -> (id: u64)
        requires
            !old(self)@.is_active(),
        ensures
            id == next_session(old(self)@.session),
            final(self)@ == (HooksView {
                keyboard: if keyboard { Some(fresh_hook()) } else { None },
                mouse: if mouse { Some(fresh_hook()) } else { None },
                events: Seq::empty(),
                session: id,
                open: true,
            }),
    {
        self.session = if self.session == u64::MAX { 0 } else { self.session + 1 };
        self.open = true;
        self.channel.drain();
        if keyboard {
            self.setup_keyboard_hook();
        }
        if mouse {
            self.setup_mouse_hook();
        }
        self.session
    }

    /// Receives for the handle of the given session.
    pub(crate) fn receive(&mut self, session: u64) -> (r: Result<InputEvent, TryRecvError>)
        ensures
            !(old(self)@.open && old(self)@.session == session) ==> r == Err::<
                InputEvent,
                TryRecvError,
            >(TryRecvError::Disconnected) && final(self)@ == old(self)@,
            old(self)@.open && old(self)@.session == session ==> (r, final(self)@.events)
                == take_front(old(self)@.events) && final(self)@ == (HooksView {
                events: final(self)@.events,
                ..old(self)@
            }),
    {
        if self.open && self.session == session {
            self.channel.try_recv()
        } else {
            Err(TryRecvError::Disconnected)
        }
    }

    /// Records what the background thread of the given kind installed; see
    /// [InnerHook::record_install]. Ignored where no hook of that kind is held.
    pub fn record_install(&mut self, kind: HookKind, raw_handle: usize, thread_id: u32) -> (recorded: bool)
        ensures
            (final(self)@, recorded) == record_spec(old(self)@, kind, raw_handle, thread_id),
    {
        match kind {
            HookKind::Keyboard => match &mut self.keyboard {
                Some(h) => h.record_install(raw_handle, thread_id),
                None => false,
            },
            HookKind::Mouse => match &mut self.mouse {
                Some(h) => h.record_install(raw_handle, thread_id),
                None => false,
            },
        }
    }

    /// Checks a freshly built handle once its hooks reported installation:
    /// the handle comes back where some hook was installed. Otherwise its
    /// session closes and it is gone, so that a failed installation shows at
    /// build time.
    pub fn confirm_build(&mut self, hook: Hook) -> (r: Option<Hook>)
        ensures
            (final(self)@, r is Some) == confirm_spec(old(self)@, hook@),
            r matches Some(h) ==> h@ == hook@,
    {
        let owned = self.open && self.session == hook.session;
        let installed = match &self.keyboard {
            Some(k) => k.raw_hook().installed(),
            None => false,
        } || match &self.mouse {
            Some(m) => m.raw_hook().installed(),
            None => false,
        };
        if owned && installed {
            Some(hook)
        } else {
            if owned {
                self.keyboard = None;
                self.mouse = None;
                self.open = false;
                self.channel.drain();
            }
            None
        }
    }

    /// Ends the session of `hook`, whose handle is destroyed, and discards
    /// every waiting event. Its hooks stay held until their teardown ends
    /// (see [GlobalHooks::stop_hook]), so no new handle can be built before.
    /// A handle of another session changes nothing. Says whether it ended a
    /// session.
    pub fn drop_hooks(&mut self, hook: Hook) -> (closed: bool)
        ensures
            final(self)@ == release_spec(old(self)@, hook@),
            closed == owns(old(self)@, hook@),
    {
        if self.open && self.session == hook.session {
            self.open = false;
            self.channel.drain();
            true
        } else {
            false
        }
    }

    /// Starts the teardown of the held hook of one kind, once its session
    /// closed; see [InnerHook::stop]. The slot is freed when the hook's
    /// lifecycle ends.
    pub fn stop_hook(&mut self, kind: HookKind) -> (action: StopAction)
        ensures
            (final(self)@, action) == stop_hook_spec(old(self)@, kind),
    {
        if self.open {
            return StopAction::Nothing;
        }
        match kind {
            HookKind::Keyboard => match self.keyboard.take() {
                Some(mut h) => {
                    let action = h.stop();
                    if !h.is_finished() {
                        self.keyboard = Some(h);
                    }
                    action
                },
                None => StopAction::Nothing,
            },
            HookKind::Mouse => match self.mouse.take() {
                Some(mut h) => {
                    let action = h.stop();
                    if !h.is_finished() {
                        self.mouse = Some(h);
                    }
                    action
                },
                None => StopAction::Nothing,
            },
        }
    }

    /// Takes the report of the last teardown action for the hook of one kind
    /// and says what to do next; see [InnerHook::report]. The slot is freed
    /// when the hook's lifecycle ends.
    pub fn report_hook(&mut self, kind: HookKind, succeeded: bool) -> (action: StopAction)
        ensures
            (final(self)@, action) == report_hook_spec(old(self)@, kind, succeeded),
    {
        if self.open {
            return StopAction::Nothing;
        }
        match kind {
            HookKind::Keyboard => match self.keyboard.take() {
                Some(mut h) => {
                    let action = h.report(succeeded);
                    if !h.is_finished() {
                        self.keyboard = Some(h);
                    }
                    action
                },
                None => StopAction::Nothing,
            },
            HookKind::Mouse => match self.mouse.take() {
                Some(mut h) => {
                    let action = h.report(succeeded);
                    if !h.is_finished() {
                        self.mouse = Some(h);
                    }
                    action
                },
                None => StopAction::Nothing,
            },
        }
    }
}

} // verus!
