//! Properties of the hook lifecycle that relate several operations.
//!
//! Each is stated over the same spec functions that the operations' own
//! contracts use ([build_spec], [recv_spec], [release_spec], [take_front]),
//! so it holds of every sequence of calls that the registry's lock
//! serializes.
use vstd::prelude::*;

use crate::event::InputEvent;
use crate::hook::inner::channels::{take_front, TryRecvError};
use crate::hook::inner::{
    confirm_spec, record_spec, report_hook_spec, stop_hook_spec, HookKind, reply_transition, stop_transition, HookPhase, HooksView, InnerHookView, StopAction,
};
use crate::hook::{build_spec, owns, recv_spec, release_spec, HookView};

verus! {

/// Build requests (keyboard, mouse) run one after another against a
/// registry: the registry after them, and how many of them made a handle.
pub open spec fn build_all(g: HooksView, reqs: Seq<(bool, bool)>) -> (HooksView, nat)
    decreases reqs.len(),
{
    if reqs.len() == 0 {
        (g, 0)
    } else {
        let first = build_spec(g, reqs[0].0, reqs[0].1);
        let rest = build_all(first.0, reqs.drop_first());
        (rest.0, rest.1 + if first.1 is Some { 1nat } else { 0nat })
    }
}

/// Whether some request asks for at least one kind of hook.
pub open spec fn some_request_nonempty(reqs: Seq<(bool, bool)>) -> bool {
    exists|i: int| 0 <= i < reqs.len() && (reqs[i].0 || reqs[i].1)
}

/// While a hook is active, no build request of any kind succeeds, and the
/// registry is left as it was.
pub proof fn lemma_active_blocks_builds(g: HooksView, reqs: Seq<(bool, bool)>)
    requires
        g.is_active(),
    ensures
        build_all(g, reqs) == (g, 0nat),
    decreases reqs.len(),
{
    if reqs.len() > 0 {
        lemma_active_blocks_builds(g, reqs.drop_first());
    }
}

/// Mutual exclusion: of any number of build requests that meet a registry
/// one at a time, exactly one succeeds where no hook was active and some
/// request asks for a hook; none succeeds where a hook was active.
pub proof fn lemma_one_build_succeeds(g: HooksView, reqs: Seq<(bool, bool)>)
    ensures
        g.is_active() ==> build_all(g, reqs).1 == 0,
        !g.is_active() ==> build_all(g, reqs).1 == if some_request_nonempty(reqs) {
            1nat
        } else {
            0nat
        },
    decreases reqs.len(),
{
    if g.is_active() {
        lemma_active_blocks_builds(g, reqs);
    } else if reqs.len() > 0 {
        let first = build_spec(g, reqs[0].0, reqs[0].1);
        let tail = reqs.drop_first();
        if reqs[0].0 || reqs[0].1 {
            lemma_active_blocks_builds(first.0, tail);
        } else {
            lemma_one_build_succeeds(g, tail);
            if some_request_nonempty(reqs) {
                let i = choose|i: int| 0 <= i < reqs.len() && (reqs[i].0 || reqs[i].1);
                assert(tail[i - 1] == reqs[i]);
            }
            if some_request_nonempty(tail) {
                let i = choose|i: int| 0 <= i < tail.len() && (tail[i].0 || tail[i].1);
                assert(reqs[i + 1] == tail[i]);
            }
        }
    }
}

/// The exclusion is global: a keyboard request fails while a mouse hook is
/// active, and a mouse request fails while a keyboard hook is active.
pub proof fn lemma_exclusion_across_kinds(g: HooksView)
    ensures
        g.mouse is Some ==> build_spec(g, true, false) == (g, None::<HookView>),
        g.keyboard is Some ==> build_spec(g, false, true) == (g, None::<HookView>),
{
}

/// Whether every held hook is still live: started or running, its teardown
/// not begun. So are the hooks of a live handle.
pub open spec fn hooks_live(g: HooksView) -> bool {
    (g.keyboard matches Some(k) ==> (k.phase is Starting || k.phase is Running)) && (g.mouse matches Some(
        m,
    ) ==> (m.phase is Starting || m.phase is Running))
}

/// The teardown of the hook of one kind as the caller runs it: `stop`, then
/// the report of the removal, of the wake-up, and of the join, whatever the
/// platform answered to the first two.
pub open spec fn tear_down_kind(g: HooksView, kind: HookKind, unhooked: bool, woken: bool) -> HooksView {
    let a = stop_hook_spec(g, kind).0;
    let b = report_hook_spec(a, kind, unhooked).0;
    let c = report_hook_spec(b, kind, woken).0;
    report_hook_spec(c, kind, true).0
}

/// The teardown of both kinds, keyboard first, with the platform's answers.
pub open spec fn tear_down_all(g: HooksView, answers: (bool, bool, bool, bool)) -> HooksView {
    tear_down_kind(tear_down_kind(g, HookKind::Keyboard, answers.0, answers.1), HookKind::Mouse, answers.2, answers.3)
}

proof fn lemma_tear_down_frees(g: HooksView, answers: (bool, bool, bool, bool))
    requires
        !g.open,
        hooks_live(g),
    ensures
        !tear_down_all(g, answers).is_active(),
        !tear_down_all(g, answers).open,
        tear_down_all(g, answers).events == g.events,
        tear_down_all(g, answers).session == g.session,
{
}

/// Re-acquiring: once the live handle is destroyed, no build succeeds while
/// its hooks are torn down; once their teardown has run, whatever the
/// platform answered, a build request of any kind succeeds.
pub proof fn lemma_reacquire_after_release(
    g: HooksView,
    h: HookView,
    keyboard: bool,
    mouse: bool,
    answers: (bool, bool, bool, bool),
)
    requires
        owns(g, h),
        hooks_live(g),
        keyboard || mouse,
    ensures
        g.is_active() ==> build_spec(release_spec(g, h), keyboard, mouse).1 is None,
        build_spec(tear_down_all(release_spec(g, h), answers), keyboard, mouse).1 is Some,
{
    lemma_tear_down_frees(release_spec(g, h), answers);
}

/// A failed installation shows at build time: where every requested hook
/// reported a zero handle, the check after installation drops the handle
/// and leaves no hook held, so the registry is free again.
pub proof fn lemma_failed_install_rejected(g: HooksView, keyboard: bool, mouse: bool, t1: u32, t2: u32)
    requires
        build_spec(g, keyboard, mouse).1 is Some,
    ensures
        ({
            let built = build_spec(g, keyboard, mouse);
            let recorded = record_spec(
                record_spec(built.0, HookKind::Keyboard, 0, t1).0,
                HookKind::Mouse,
                0,
                t2,
            ).0;
            let checked = confirm_spec(recorded, built.1->0);
            !checked.1 && !checked.0.is_active() && !checked.0.open
        }),
{
}

/// A build whose hooks were installed is kept by the check after installation.
pub proof fn lemma_installed_build_kept(g: HooksView, keyboard: bool, handle: usize, t: u32)
    requires
        build_spec(g, keyboard, !keyboard).1 is Some,
        handle != 0,
        t != 0,
    ensures
        ({
            let kind = if keyboard { HookKind::Keyboard } else { HookKind::Mouse };
            let built = build_spec(g, keyboard, !keyboard);
            let recorded = record_spec(built.0, kind, handle, t).0;
            confirm_spec(recorded, built.1->0) == (recorded, true)
        }),
{
}

/// Without an open session no handle receives anything: every receive
/// reports `Disconnected` and changes nothing.
pub proof fn lemma_no_receive_without_session(g: HooksView, h: HookView)
    requires
        !g.open,
    ensures
        recv_spec(g, h) == (g, Err::<InputEvent, TryRecvError>(TryRecvError::Disconnected)),
{
}

/// Events sent one after another onto a queue: the queue after them.
pub open spec fn send_all(q: Seq<InputEvent>, s: Seq<InputEvent>) -> Seq<InputEvent>
    decreases s.len(),
{
    if s.len() == 0 {
        q
    } else {
        send_all(q.push(s[0]), s.drop_first())
    }
}

/// The outcomes of `n` receives, one after another, on a queue.
pub open spec fn receive_n(q: Seq<InputEvent>, n: nat) -> Seq<Result<InputEvent, TryRecvError>>
    decreases n,
{
    if n == 0 {
        Seq::empty()
    } else {
        seq![take_front(q).0] + receive_n(take_front(q).1, (n - 1) as nat)
    }
}

proof fn lemma_send_all_appends(q: Seq<InputEvent>, s: Seq<InputEvent>)
    ensures
        send_all(q, s) == q + s,
    decreases s.len(),
{
    if s.len() > 0 {
        lemma_send_all_appends(q.push(s[0]), s.drop_first());
        assert(q.push(s[0]) + s.drop_first() =~= q + s);
    }
}

proof fn lemma_receive_all(q: Seq<InputEvent>)
    ensures
        receive_n(q, q.len() + 1) == q.map_values(|e: InputEvent| Ok::<InputEvent, TryRecvError>(e)).push(
            Err(TryRecvError::Empty),
        ),
    decreases q.len(),
{
    if q.len() == 0 {
        assert(receive_n(take_front(q).1, 0) == Seq::<Result<InputEvent, TryRecvError>>::empty());
        assert(receive_n(q, 1) =~= seq![Err::<InputEvent, TryRecvError>(TryRecvError::Empty)]);
        assert(q.map_values(|e: InputEvent| Ok::<InputEvent, TryRecvError>(e)).push(
            Err(TryRecvError::Empty),
        ) =~= seq![Err::<InputEvent, TryRecvError>(TryRecvError::Empty)]);
    } else {
        lemma_receive_all(q.drop_first());
        assert(receive_n(q, q.len() + 1) =~= q.map_values(
            |e: InputEvent| Ok::<InputEvent, TryRecvError>(e),
        ).push(Err(TryRecvError::Empty)));
    }
}

/// Ordering: events sent one after another onto an empty queue are received
/// in the order they were sent, each once, and then the queue reports `Empty`.
pub proof fn lemma_events_in_order(s: Seq<InputEvent>)
    ensures
        receive_n(send_all(Seq::empty(), s), s.len() + 1) == s.map_values(
            |e: InputEvent| Ok::<InputEvent, TryRecvError>(e),
        ).push(Err(TryRecvError::Empty)),
{
    lemma_send_all_appends(Seq::empty(), s);
    assert(Seq::<InputEvent>::empty() + s =~= s);
    lemma_receive_all(s);
}

/// The outcomes of `n` receives, one after another, through the handle `h`.
pub open spec fn recv_n(g: HooksView, h: HookView, n: nat) -> Seq<Result<InputEvent, TryRecvError>>
    decreases n,
{
    if n == 0 {
        Seq::empty()
    } else {
        seq![recv_spec(g, h).1] + recv_n(recv_spec(g, h).0, h, (n - 1) as nat)
    }
}

proof fn lemma_recv_all(g: HooksView, h: HookView)
    requires
        owns(g, h),
    ensures
        recv_n(g, h, g.events.len() + 1) == g.events.map_values(
            |e: InputEvent| Ok::<InputEvent, TryRecvError>(e),
        ).push(Err(TryRecvError::Empty)),
    decreases g.events.len(),
{
    let next = recv_spec(g, h).0;
    if g.events.len() == 0 {
        assert(recv_n(next, h, 0) == Seq::<Result<InputEvent, TryRecvError>>::empty());
        assert(recv_n(g, h, 1) =~= seq![Err::<InputEvent, TryRecvError>(TryRecvError::Empty)]);
        assert(g.events.map_values(|e: InputEvent| Ok::<InputEvent, TryRecvError>(e)).push(
            Err(TryRecvError::Empty),
        ) =~= seq![Err::<InputEvent, TryRecvError>(TryRecvError::Empty)]);
    } else {
        lemma_recv_all(next, h);
        assert(recv_n(g, h, g.events.len() + 1) =~= g.events.map_values(
            |e: InputEvent| Ok::<InputEvent, TryRecvError>(e),
        ).push(Err(TryRecvError::Empty)));
    }
}

/// Ordering through a handle: where the live handle's queue was empty and
/// events were then queued one after another, successive receives return
/// them in that order, each once, and then report `Empty`.
pub proof fn lemma_handle_receives_in_order(g: HooksView, h: HookView, s: Seq<InputEvent>)
    requires
        owns(g, h),
        g.events.len() == 0,
    ensures
        recv_n(HooksView { events: send_all(g.events, s), ..g }, h, s.len() + 1) == s.map_values(
            |e: InputEvent| Ok::<InputEvent, TryRecvError>(e),
        ).push(Err(TryRecvError::Empty)),
{
    lemma_send_all_appends(g.events, s);
    assert(g.events + s =~= s);
    lemma_recv_all(HooksView { events: s, ..g }, h);
}

/// Drain on teardown: when the live handle is destroyed its session closes
/// and the queue is emptied, so no event that was waiting for it reaches a
/// handle built after the teardown of its hooks.
pub proof fn lemma_no_stale_events(
    g: HooksView,
    h: HookView,
    keyboard: bool,
    mouse: bool,
    answers: (bool, bool, bool, bool),
)
    requires
        owns(g, h),
        hooks_live(g),
    ensures
        release_spec(g, h).events.len() == 0,
        !release_spec(g, h).open,
        build_spec(tear_down_all(release_spec(g, h), answers), keyboard, mouse).1 matches Some(h2)
            ==> recv_spec(build_spec(tear_down_all(release_spec(g, h), answers), keyboard, mouse).0, h2).1
            == Err::<InputEvent, TryRecvError>(TryRecvError::Empty),
{
    lemma_tear_down_frees(release_spec(g, h), answers);
}

/// A build request that asks for no kind of hook makes no handle and changes nothing.
pub proof fn lemma_empty_request_rejected(g: HooksView)
    ensures
        build_spec(g, false, false) == (g, None::<HookView>),
{
}

/// One call on a background hook's teardown: `None` for `stop`, `Some(b)`
/// for a `report` of `b`; the hook after it and the action asked for.
pub open spec fn teardown_step(h: InnerHookView, call: Option<bool>) -> (InnerHookView, StopAction) {
    match call {
        None => stop_transition(h),
        Some(succeeded) => reply_transition(h, succeeded),
    }
}

/// How many times a sequence of teardown calls asks for the thread to be joined.
pub open spec fn joins_in(h: InnerHookView, calls: Seq<Option<bool>>) -> nat
    decreases calls.len(),
{
    if calls.len() == 0 {
        0
    } else {
        let step = teardown_step(h, calls[0]);
        joins_in(step.0, calls.drop_first()) + if step.1 == StopAction::Join { 1nat } else { 0nat }
    }
}

/// Whether a hook in this phase may still have its thread joined.
pub open spec fn may_still_join(p: HookPhase) -> bool {
    p is Starting || p is Running || p is Unhooking || p is Waking
}

proof fn lemma_joins_bounded(h: InnerHookView, calls: Seq<Option<bool>>)
    ensures
        joins_in(h, calls) <= if may_still_join(h.phase) { 1nat } else { 0nat },
    decreases calls.len(),
{
    if calls.len() > 0 {
        lemma_joins_bounded(teardown_step(h, calls[0]).0, calls.drop_first());
    }
}

/// The background thread is joined at most once: from any record, whatever
/// calls of `stop` and `report` are made, in whatever order, the join is
/// asked for once at most, so a second teardown is a no-op.
pub proof fn lemma_join_at_most_once(h: InnerHookView, calls: Seq<Option<bool>>)
    ensures
        joins_in(h, calls) <= 1,
{
    lemma_joins_bounded(h, calls);
}

} // verus!
