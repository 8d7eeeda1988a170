use willhook::hook::inner::{HookKind, StopAction};
use willhook::hook::{GlobalHooks, Hook, HookBuilder};
use willhook::{keyboard_hook, mouse_hook, willhook};

/// Destroys a handle and runs its hooks' teardown with every platform call
/// succeeding, as the process-wide runtime does.
fn release(hooks: &mut GlobalHooks, h: Hook) {
    hooks.drop_hooks(h);
    for kind in [HookKind::Keyboard, HookKind::Mouse] {
        let mut action = hooks.stop_hook(kind);
        while action != StopAction::Nothing {
            action = hooks.report_hook(kind, true);
        }
    }
}

#[test]
fn default_build_fails() {
    let mut hooks = GlobalHooks::new();
    assert!(HookBuilder::new().build(&mut hooks).is_none());
}

#[test]
fn build_succeeds_with_at_least_one_hook() {
    let mut hooks = GlobalHooks::new();
    assert!(mouse_hook(&mut hooks).is_some())
}

#[test]
fn build_fails_if_hook_exists_1() {
    let mut hooks = GlobalHooks::new();
    let _existing = mouse_hook(&mut hooks);
    assert!(mouse_hook(&mut hooks).is_none());
}

#[test]
fn build_fails_if_hook_exists_2() {
    let mut hooks = GlobalHooks::new();
    let _existing = keyboard_hook(&mut hooks);
    assert!(keyboard_hook(&mut hooks).is_none());
}

#[test]
fn build_fails_if_hook_exists_3() {
    let mut hooks = GlobalHooks::new();
    let _existing = willhook(&mut hooks);
    assert!(willhook(&mut hooks).is_none());
}

#[test]
fn build_fails_if_different_type_of_hook_exists_1() {
    let mut hooks = GlobalHooks::new();
    let _existing = keyboard_hook(&mut hooks);
    assert!(mouse_hook(&mut hooks).is_none());
}

#[test]
fn build_fails_if_different_type_of_hook_exists_2() {
    let mut hooks = GlobalHooks::new();
    let _existing = keyboard_hook(&mut hooks);
    assert!(willhook(&mut hooks).is_none());
}

#[test]
fn build_fails_if_different_type_of_hook_exists_3() {
    let mut hooks = GlobalHooks::new();
    let _existing = mouse_hook(&mut hooks);
    assert!(keyboard_hook(&mut hooks).is_none());
}

#[test]
fn build_fails_if_different_type_of_hook_exists_4() {
    let mut hooks = GlobalHooks::new();
    let _existing = mouse_hook(&mut hooks);
    assert!(willhook(&mut hooks).is_none());
}

#[test]
fn build_fails_if_different_type_of_hook_exists_5() {
    let mut hooks = GlobalHooks::new();
    let _existing = willhook(&mut hooks);
    assert!(mouse_hook(&mut hooks).is_none());
}

#[test]
fn build_fails_if_different_type_of_hook_exists_6() {
    let mut hooks = GlobalHooks::new();
    let _existing = willhook(&mut hooks);
    assert!(keyboard_hook(&mut hooks).is_none());
}

#[test]
fn builder_without_request_leaves_registry_free() {
    let mut hooks = GlobalHooks::new();
    assert!(HookBuilder::new().build(&mut hooks).is_none());
    assert!(!hooks.is_any_hook_present());
    assert!(keyboard_hook(&mut hooks).is_some());
}

#[test]
fn only_one_of_many_sequential_builds_succeeds() {
    let mut hooks = GlobalHooks::new();
    let mut built = Vec::new();
    for i in 0..1000usize {
        let r = if i % 3 == 0 {
            keyboard_hook(&mut hooks)
        } else if i % 3 == 1 {
            mouse_hook(&mut hooks)
        } else {
            willhook(&mut hooks)
        };
        built.push(r);
    }
    assert_eq!(1, built.iter().filter(|h| h.is_some()).count());
    assert!(built[0].is_some());
}

#[test]
fn keyboard_then_mouse_then_release_then_mouse() {
    let mut hooks = GlobalHooks::new();
    let first = keyboard_hook(&mut hooks).unwrap();
    assert!(mouse_hook(&mut hooks).is_none());
    assert!(hooks.drop_hooks(first));
    // Until the keyboard hook's teardown ends, the registry stays taken.
    assert!(hooks.is_any_hook_present());
    assert!(mouse_hook(&mut hooks).is_none());
    assert_eq!(hooks.stop_hook(HookKind::Keyboard), StopAction::Nothing);
    assert!(!hooks.is_any_hook_present());
    assert!(mouse_hook(&mut hooks).is_some());
}

#[test]
fn reacquire_after_release_with_any_kind() {
    let mut hooks = GlobalHooks::new();
    let h = willhook(&mut hooks).unwrap();
    release(&mut hooks, h);
    let h = keyboard_hook(&mut hooks).unwrap();
    release(&mut hooks, h);
    let h = mouse_hook(&mut hooks).unwrap();
    assert!(h.has_mouse());
    assert!(!h.has_keyboard());
}

#[test]
fn builder_records_requested_kinds() {
    let mut hooks = GlobalHooks::new();
    let h = HookBuilder::new().with_mouse().with_keyboard().build(&mut hooks).unwrap();
    assert!(h.has_keyboard());
    assert!(h.has_mouse());
    assert_eq!(1, hooks.session());
}

#[test]
fn failed_installation_rejects_build() {
    let mut hooks = GlobalHooks::new();
    let h = willhook(&mut hooks).unwrap();
    assert!(hooks.record_install(HookKind::Keyboard, 0, 0));
    assert!(hooks.record_install(HookKind::Mouse, 0, 0));
    assert!(hooks.confirm_build(h).is_none());
    assert!(!hooks.is_any_hook_present());
    assert!(!hooks.is_open());
    assert!(keyboard_hook(&mut hooks).is_some());
}

#[test]
fn partly_installed_build_is_kept() {
    let mut hooks = GlobalHooks::new();
    let h = willhook(&mut hooks).unwrap();
    hooks.record_install(HookKind::Keyboard, 0, 0);
    hooks.record_install(HookKind::Mouse, 0x51, 8);
    let h = hooks.confirm_build(h).unwrap();
    assert!(h.has_keyboard() && h.has_mouse());
    assert!(hooks.is_open());
}

#[test]
fn installed_hook_blocks_builds_through_teardown() {
    let mut hooks = GlobalHooks::new();
    let h = keyboard_hook(&mut hooks).unwrap();
    hooks.record_install(HookKind::Keyboard, 0x77, 3);
    let h = hooks.confirm_build(h).unwrap();
    assert_eq!(hooks.stop_hook(HookKind::Keyboard), StopAction::Nothing);
    hooks.drop_hooks(h);
    assert_eq!(hooks.stop_hook(HookKind::Keyboard), StopAction::Unhook(0x77));
    assert!(mouse_hook(&mut hooks).is_none());
    assert_eq!(hooks.report_hook(HookKind::Keyboard, true), StopAction::PostQuit(3));
    assert!(mouse_hook(&mut hooks).is_none());
    assert_eq!(hooks.report_hook(HookKind::Keyboard, true), StopAction::Join);
    assert!(mouse_hook(&mut hooks).is_none());
    assert_eq!(hooks.report_hook(HookKind::Keyboard, true), StopAction::Nothing);
    assert!(mouse_hook(&mut hooks).is_some());
}

#[test]
fn failed_unhook_frees_slot() {
    let mut hooks = GlobalHooks::new();
    let h = mouse_hook(&mut hooks).unwrap();
    hooks.record_install(HookKind::Mouse, 0x9, 2);
    hooks.drop_hooks(h);
    assert_eq!(hooks.stop_hook(HookKind::Mouse), StopAction::Unhook(0x9));
    assert_eq!(hooks.report_hook(HookKind::Mouse, false), StopAction::Nothing);
    assert!(!hooks.is_any_hook_present());
}
