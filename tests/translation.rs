use willhook::event::details::{
    KeyboardHookData, MouseHookData, LLKHF_LOWER_IL_INJECTED, LLMHF_LOWER_IL_INJECTED,
    WM_KEYDOWN, WM_KEYUP, WM_MOUSEHWHEEL, WM_MOUSEMOVE, WM_MOUSEWHEEL, WM_RBUTTONDBLCLK,
    WM_SYSKEYDOWN, WM_XBUTTONDOWN, WM_XBUTTONUP,
};
use willhook::{
    IsEventInjected, IsSystemKeyPress, KeyPress, KeyboardEvent, KeyboardKey, MouseButton,
    MouseButtonPress, MouseClick, MouseEvent, MouseEventType, MouseMoveEvent, MousePressEvent,
    MouseWheel, MouseWheelDirection, MouseWheelEvent, Point,
};

fn record(mouse_data: u32, flags: u32) -> Option<MouseHookData> {
    Some(MouseHookData { pt: Point { x: 10, y: 15 }, mouse_data, flags })
}

#[test]
fn key_codes_name_keys() {
    assert_eq!(KeyboardKey::from_code(0x41), KeyboardKey::A);
    assert_eq!(KeyboardKey::from_code(0x39), KeyboardKey::Number9);
    assert_eq!(KeyboardKey::from_code(0x87), KeyboardKey::F24);
    assert_eq!(KeyboardKey::from_code(0xA4), KeyboardKey::LeftAlt);
    assert_eq!(KeyboardKey::from_code(0xDE), KeyboardKey::Apostrophe);
    assert_eq!(KeyboardKey::from_code(0xFF), KeyboardKey::Other(0xFF));
    assert_eq!(KeyboardKey::from_code(u32::MAX), KeyboardKey::Other(u32::MAX));
}

#[test]
fn key_press_codes() {
    assert_eq!(KeyPress::from_code(WM_KEYDOWN as usize), KeyPress::Down(IsSystemKeyPress::Normal));
    assert_eq!(KeyPress::from_code(WM_KEYUP as usize), KeyPress::Up(IsSystemKeyPress::Normal));
    assert_eq!(KeyPress::from_code(WM_SYSKEYDOWN as usize), KeyPress::Down(IsSystemKeyPress::System));
    assert_eq!(KeyPress::from_code(0x102), KeyPress::Other(0x102));
}

#[test]
fn keyboard_event_from_record() {
    let e = KeyboardEvent::new(WM_KEYUP as usize, Some(KeyboardHookData { vk_code: 0x0D, flags: LLKHF_LOWER_IL_INJECTED }));
    assert_eq!(e.pressed, KeyPress::Up(IsSystemKeyPress::Normal));
    assert_eq!(e.key, Some(KeyboardKey::Enter));
    assert_eq!(e.is_injected, Some(IsEventInjected::Injected));
    let e = KeyboardEvent::new(WM_KEYUP as usize, Some(KeyboardHookData { vk_code: 0x20, flags: 0x01 }));
    assert_eq!(e.is_injected, Some(IsEventInjected::NotInjected));
    assert_eq!(KeyboardKey::optionally_from(None), None);
}

#[test]
fn wheel_direction_from_high_word() {
    let fwd = MouseEvent::new(WM_MOUSEWHEEL as usize, record(120 << 16, 0));
    assert_eq!(
        fwd,
        MouseEvent {
            event: MouseEventType::Wheel(MouseWheelEvent {
                wheel: MouseWheel::Vertical,
                direction: Some(MouseWheelDirection::Forward),
            }),
            is_injected: Some(IsEventInjected::NotInjected),
        }
    );
    let back = MouseWheelEvent::new(WM_MOUSEHWHEEL as usize, record(0xFF88_0000, 0));
    assert_eq!(back.wheel, MouseWheel::Horizontal);
    assert_eq!(back.direction, Some(MouseWheelDirection::Backward));
    assert_eq!(MouseWheelDirection::optionally_from(record(5, 0)), Some(MouseWheelDirection::Unknown(5)));
    assert_eq!(MouseWheelDirection::optionally_from(None), None);
    assert_eq!(MouseWheel::new(3), MouseWheel::Unknown(3));
}

#[test]
fn extra_buttons_from_high_word() {
    assert_eq!(MouseButton::from(WM_XBUTTONDOWN as usize, record(1 << 16, 0)), MouseButton::X1(MouseClick::SingleClick));
    assert_eq!(MouseButton::from(WM_XBUTTONUP as usize, record(2 << 16, 0)), MouseButton::X2(MouseClick::SingleClick));
    assert_eq!(MouseButton::from(WM_XBUTTONUP as usize, record(3 << 16, 0)), MouseButton::UnkownX(MouseClick::SingleClick));
    assert_eq!(MouseButton::from(WM_XBUTTONDOWN as usize, None), MouseButton::UnkownX(MouseClick::SingleClick));
    assert_eq!(MouseButton::from(0x300, None), MouseButton::Other(0x300));
}

#[test]
fn double_click_press() {
    let p = MousePressEvent::new(WM_RBUTTONDBLCLK as usize, None);
    assert_eq!(p.pressed, MouseButtonPress::Other(WM_RBUTTONDBLCLK as usize));
    assert_eq!(p.button, MouseButton::Right(MouseClick::DoubleClick));
    assert_eq!(MouseClick::from_code(0x1_0000_0201), MouseClick::Other(0x201));
}

#[test]
fn move_records_point() {
    let e = MouseEvent::new(WM_MOUSEMOVE as usize, record(0, LLMHF_LOWER_IL_INJECTED));
    assert_eq!(e.event, MouseEventType::Move(MouseMoveEvent { point: Some(Point { x: 10, y: 15 }) }));
    assert_eq!(e.is_injected, Some(IsEventInjected::Injected));
    assert_eq!(MouseMoveEvent::new(None), MouseMoveEvent { point: None });
    assert_eq!(MouseEvent::new(0x2FF, None).event, MouseEventType::Other(0x2FF));
}

#[test]
fn key_press_back_to_code() {
    assert_eq!(KeyPress::Down(IsSystemKeyPress::System).to_code(), WM_SYSKEYDOWN as usize);
    assert_eq!(KeyPress::Up(IsSystemKeyPress::Normal).to_code(), WM_KEYUP as usize);
    assert_eq!(KeyPress::Other(0x999).to_code(), 0x999);
    let p = KeyPress::Up(IsSystemKeyPress::System);
    assert_eq!(KeyPress::from_code(p.to_code()), p);
}
