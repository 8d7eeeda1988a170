use willhook::event::details::{
    KeyboardHookData, MouseHookData, LLKHF_INJECTED, LLMHF_INJECTED, WM_KEYDOWN, WM_KEYUP,
    WM_LBUTTONDOWN, WM_MBUTTONUP, WM_MOUSEMOVE, WM_MOUSEWHEEL, WM_SYSKEYDOWN, WM_SYSKEYUP,
};
use willhook::hook::channels::{HookChannels, TryRecvError};
use willhook::hook::inner::low_level::{keyboard_procedure, mouse_procedure, HC_ACTION};
use willhook::hook::inner::{HookKind, StopAction};
use willhook::hook::{GlobalHooks, Hook};
use willhook::{
    keyboard_hook, mouse_hook, willhook, InputEvent, IsEventInjected, IsSystemKeyPress, KeyPress,
    KeyboardEvent, KeyboardKey, MouseButton, MouseButtonPress, MouseClick, MouseEvent,
    MouseEventType, MousePressEvent, Point,
};

/// Destroys a handle and runs its hooks' teardown with every platform call
/// succeeding, as the process-wide runtime does.
fn release(hooks: &mut GlobalHooks, h: Hook) {
    hooks.drop_hooks(h);
    for kind in [HookKind::Keyboard, HookKind::Mouse] {
        let mut action = hooks.stop_hook(kind);
        while action != StopAction::Nothing {
            action = hooks.report_hook(kind, true);
        }
    }
}

fn injected_key(vk_code: u32) -> Option<KeyboardHookData> {
    Some(KeyboardHookData { vk_code, flags: LLKHF_INJECTED })
}

fn key_event(key: KeyboardKey, pressed: KeyPress) -> InputEvent {
    InputEvent::Keyboard(KeyboardEvent {
        pressed,
        key: Some(key),
        is_injected: Some(IsEventInjected::Injected),
    })
}

#[test]
fn injected_key_down_is_received_once() {
    let mut hooks = GlobalHooks::new();
    let h = keyboard_hook(&mut hooks).unwrap();
    let sent = keyboard_procedure(&mut hooks, HC_ACTION, WM_KEYDOWN as usize, injected_key(0x41));
    assert!(sent.is_some());
    assert_eq!(
        h.try_recv(&mut hooks),
        Ok(key_event(KeyboardKey::A, KeyPress::Down(IsSystemKeyPress::Normal)))
    );
    assert_eq!(h.try_recv(&mut hooks), Err(TryRecvError::Empty));
}

#[test]
fn new_handle_receives_nothing_at_first() {
    let mut hooks = GlobalHooks::new();
    let h = willhook(&mut hooks).unwrap();
    assert_eq!(h.try_recv(&mut hooks), Err(TryRecvError::Empty));
}

#[test]
fn destroyed_handle_is_disconnected() {
    let mut hooks = GlobalHooks::new();
    let first = mouse_hook(&mut hooks).unwrap();
    let session = first.try_recv(&mut hooks);
    assert_eq!(session, Err(TryRecvError::Empty));
    release(&mut hooks, first);
    let other = keyboard_hook(&mut hooks).unwrap();
    let mut elsewhere = GlobalHooks::new();
    assert_eq!(other.try_recv(&mut elsewhere), Err(TryRecvError::Disconnected));
}

#[test]
fn events_keep_their_order() {
    let mut hooks = GlobalHooks::new();
    let h = willhook(&mut hooks).unwrap();
    let codes = [0x41u32, 0x42, 0x43, 0x30, 0x5A];
    for c in codes.iter() {
        keyboard_procedure(&mut hooks, HC_ACTION, WM_KEYDOWN as usize, injected_key(*c));
    }
    let keys = [KeyboardKey::A, KeyboardKey::B, KeyboardKey::C, KeyboardKey::Number0, KeyboardKey::Z];
    for k in keys.iter() {
        assert_eq!(h.try_recv(&mut hooks), Ok(key_event(*k, KeyPress::Down(IsSystemKeyPress::Normal))));
    }
    assert_eq!(h.try_recv(&mut hooks), Err(TryRecvError::Empty));
}

#[test]
fn interleaved_producers_keep_each_order() {
    let mut hooks = GlobalHooks::new();
    let h = willhook(&mut hooks).unwrap();
    let press = Some(MouseHookData { pt: Point { x: 1, y: 2 }, mouse_data: 0, flags: LLMHF_INJECTED });
    keyboard_procedure(&mut hooks, HC_ACTION, WM_KEYDOWN as usize, injected_key(0x41));
    mouse_procedure(&mut hooks, HC_ACTION, WM_LBUTTONDOWN as usize, press);
    keyboard_procedure(&mut hooks, HC_ACTION, WM_KEYUP as usize, injected_key(0x41));
    mouse_procedure(&mut hooks, HC_ACTION, WM_MBUTTONUP as usize, press);
    assert_eq!(h.try_recv(&mut hooks), Ok(key_event(KeyboardKey::A, KeyPress::Down(IsSystemKeyPress::Normal))));
    assert_eq!(
        h.try_recv(&mut hooks),
        Ok(InputEvent::Mouse(MouseEvent {
            event: MouseEventType::Press(MousePressEvent {
                pressed: MouseButtonPress::Down,
                button: MouseButton::Left(MouseClick::SingleClick),
            }),
            is_injected: Some(IsEventInjected::Injected),
        }))
    );
    assert_eq!(h.try_recv(&mut hooks), Ok(key_event(KeyboardKey::A, KeyPress::Up(IsSystemKeyPress::Normal))));
    assert_eq!(
        h.try_recv(&mut hooks),
        Ok(InputEvent::Mouse(MouseEvent {
            event: MouseEventType::Press(MousePressEvent {
                pressed: MouseButtonPress::Up,
                button: MouseButton::Middle(MouseClick::SingleClick),
            }),
            is_injected: Some(IsEventInjected::Injected),
        }))
    );
    assert_eq!(h.try_recv(&mut hooks), Err(TryRecvError::Empty));
}

#[test]
fn second_handle_does_not_see_first_handles_events() {
    let mut hooks = GlobalHooks::new();
    let first = keyboard_hook(&mut hooks).unwrap();
    keyboard_procedure(&mut hooks, HC_ACTION, WM_KEYDOWN as usize, injected_key(0x58));
    assert_eq!(first.try_recv(&mut hooks), Ok(key_event(KeyboardKey::X, KeyPress::Down(IsSystemKeyPress::Normal))));
    keyboard_procedure(&mut hooks, HC_ACTION, WM_KEYUP as usize, injected_key(0x58));
    release(&mut hooks, first);
    let second = keyboard_hook(&mut hooks).unwrap();
    assert_eq!(second.try_recv(&mut hooks), Err(TryRecvError::Empty));
    keyboard_procedure(&mut hooks, HC_ACTION, WM_KEYDOWN as usize, injected_key(0x59));
    assert_eq!(second.try_recv(&mut hooks), Ok(key_event(KeyboardKey::Y, KeyPress::Down(IsSystemKeyPress::Normal))));
    assert_eq!(second.try_recv(&mut hooks), Err(TryRecvError::Empty));
}

#[test]
fn callbacks_without_action_or_hook_queue_nothing() {
    let mut hooks = GlobalHooks::new();
    assert!(keyboard_procedure(&mut hooks, HC_ACTION, WM_KEYDOWN as usize, None).is_none());
    let h = keyboard_hook(&mut hooks).unwrap();
    assert!(keyboard_procedure(&mut hooks, -1, WM_KEYDOWN as usize, None).is_none());
    assert!(keyboard_procedure(&mut hooks, 3, WM_KEYDOWN as usize, None).is_none());
    assert!(mouse_procedure(&mut hooks, HC_ACTION, WM_MOUSEMOVE as usize, None).is_none());
    assert_eq!(h.try_recv(&mut hooks), Err(TryRecvError::Empty));
}

#[test]
fn mouse_callback_takes_non_negative_codes() {
    let mut hooks = GlobalHooks::new();
    let h = mouse_hook(&mut hooks).unwrap();
    assert!(mouse_procedure(&mut hooks, -1, WM_MOUSEMOVE as usize, None).is_none());
    let e = mouse_procedure(&mut hooks, 2, WM_MOUSEWHEEL as usize, None).unwrap();
    assert_eq!(h.try_recv(&mut hooks), Ok(InputEvent::Mouse(e)));
}

#[test]
fn keyboard_callback_without_record_gives_partial_event() {
    let mut hooks = GlobalHooks::new();
    let h = keyboard_hook(&mut hooks).unwrap();
    keyboard_procedure(&mut hooks, HC_ACTION, WM_SYSKEYUP as usize, None);
    assert_eq!(
        h.try_recv(&mut hooks),
        Ok(InputEvent::Keyboard(KeyboardEvent {
            pressed: KeyPress::Up(IsSystemKeyPress::System),
            key: None,
            is_injected: None,
        }))
    );
}

#[test]
fn channel_drain_empties_queue() {
    let mut c = HookChannels::new();
    let ke = KeyboardEvent { pressed: KeyPress::Other(7), key: None, is_injected: None };
    c.send_keyboard_event(ke);
    c.send_keyboard_event(ke);
    c.drain();
    assert_eq!(c.try_recv(), Err(TryRecvError::Empty));
    c.send_keyboard_event(ke);
    assert_eq!(c.try_recv(), Ok(InputEvent::Keyboard(ke)));
}

fn run_invalid_kbd_ll_hook_struct(hooks: &mut GlobalHooks, h: &Hook, w_param: u32, press: KeyPress) {
    assert!(keyboard_procedure(hooks, HC_ACTION, w_param as usize, None).is_some());
    assert_eq!(
        h.try_recv(hooks),
        Ok(InputEvent::Keyboard(KeyboardEvent { pressed: press, key: None, is_injected: None }))
    );
    assert_eq!(h.try_recv(hooks), Err(TryRecvError::Empty));
}

#[test]
fn invalid_kbd_ll_hook_struct() {
    let mut hooks = GlobalHooks::new();
    let h = keyboard_hook(&mut hooks).unwrap();
    run_invalid_kbd_ll_hook_struct(&mut hooks, &h, WM_KEYDOWN, KeyPress::Down(IsSystemKeyPress::Normal));
    run_invalid_kbd_ll_hook_struct(&mut hooks, &h, WM_SYSKEYDOWN, KeyPress::Down(IsSystemKeyPress::System));
    run_invalid_kbd_ll_hook_struct(&mut hooks, &h, WM_KEYUP, KeyPress::Up(IsSystemKeyPress::Normal));
    run_invalid_kbd_ll_hook_struct(&mut hooks, &h, WM_SYSKEYUP, KeyPress::Up(IsSystemKeyPress::System));
}

#[test]
fn destroyed_handle_stops_queueing_events() {
    let mut hooks = GlobalHooks::new();
    let h = keyboard_hook(&mut hooks).unwrap();
    assert!(hooks.record_install(HookKind::Keyboard, 5, 6));
    hooks.drop_hooks(h);
    assert!(!hooks.is_open());
    assert!(hooks.is_any_hook_present());
    // The old hook is still installed until its teardown ends: its events are dropped.
    assert!(keyboard_procedure(&mut hooks, HC_ACTION, WM_KEYDOWN as usize, injected_key(0x58)).is_none());
    assert!(keyboard_hook(&mut hooks).is_none());
}
