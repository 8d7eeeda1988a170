//! Translation of raw platform data into [InputEvent]s.
//!
//! The platform hands a hook callback a message code and, most of the time,
//! a record with details of the event. The record is modelled here by
//! [KeyboardHookData] and [MouseHookData]; a missing record is `None`, and
//! translation then gives a partial event rather than failing.
use vstd::prelude::*;

use crate::event::{
    IsEventInjected, IsSystemKeyPress, KeyPress, KeyboardEvent, KeyboardKey, MouseButton,
    MouseButtonPress, MouseClick, MouseEvent, MouseEventType, MouseMoveEvent, MousePressEvent,
    MouseWheel, MouseWheelDirection, MouseWheelEvent, Point,
};

verus! {

pub const WM_KEYDOWN: u32 = 0x0100;
pub const WM_KEYUP: u32 = 0x0101;
pub const WM_SYSKEYDOWN: u32 = 0x0104;
pub const WM_SYSKEYUP: u32 = 0x0105;
pub const WM_MOUSEMOVE: u32 = 0x0200;
pub const WM_LBUTTONDOWN: u32 = 0x0201;
pub const WM_LBUTTONUP: u32 = 0x0202;
pub const WM_LBUTTONDBLCLK: u32 = 0x0203;
pub const WM_RBUTTONDOWN: u32 = 0x0204;
pub const WM_RBUTTONUP: u32 = 0x0205;
pub const WM_RBUTTONDBLCLK: u32 = 0x0206;
pub const WM_MBUTTONDOWN: u32 = 0x0207;
pub const WM_MBUTTONUP: u32 = 0x0208;
pub const WM_MBUTTONDBLCLK: u32 = 0x0209;
pub const WM_MOUSEWHEEL: u32 = 0x020A;
pub const WM_XBUTTONDOWN: u32 = 0x020B;
pub const WM_XBUTTONUP: u32 = 0x020C;
pub const WM_XBUTTONDBLCLK: u32 = 0x020D;
pub const WM_MOUSEHWHEEL: u32 = 0x020E;

/// Keyboard record flag: the event was injected.
pub const LLKHF_INJECTED: u32 = 0x10;
/// Keyboard record flag: the event was injected from a lower integrity level.
pub const LLKHF_LOWER_IL_INJECTED: u32 = 0x02;
/// Mouse record flag: the event was injected.
pub const LLMHF_INJECTED: u32 = 0x01;
/// Mouse record flag: the event was injected from a lower integrity level.
pub const LLMHF_LOWER_IL_INJECTED: u32 = 0x02;

/// High word of the mouse data that names the first extra button.
pub const XBUTTON1: u32 = 0x0001;
/// High word of the mouse data that names the second extra button.
pub const XBUTTON2: u32 = 0x0002;

/// What a low-level keyboard callback reads from the platform's record.
#[derive(Copy, Clone, PartialEq, Eq, Structural, Debug)]
pub struct KeyboardHookData {
    /// The virtual-key code.
    pub vk_code: u32,
    /// The record's flags.
    pub flags: u32,
}

/// What a low-level mouse callback reads from the platform's record.
#[derive(Copy, Clone, PartialEq, Eq, Structural, Debug)]
pub struct MouseHookData {
    /// The cursor position.
    pub pt: Point,
    /// The mouse data word: wheel delta or extra button in its high word.
    pub mouse_data: u32,
    /// The record's flags.
    pub flags: u32,
}

/// The high word of a 32-bit value.
pub open spec fn high_word(v: u32) -> u32 {
    v / 0x10000
}

/// The key press that a keyboard message code stands for.
pub open spec fn key_press_of(code: usize) -> KeyPress {
    if code == WM_KEYDOWN as usize {
        KeyPress::Down(IsSystemKeyPress::Normal)
    } else if code == WM_KEYUP as usize {
        KeyPress::Up(IsSystemKeyPress::Normal)
    } else if code == WM_SYSKEYDOWN as usize {
        KeyPress::Down(IsSystemKeyPress::System)
    } else if code == WM_SYSKEYUP as usize {
        KeyPress::Up(IsSystemKeyPress::System)
    } else {
        KeyPress::Other(code)
    }
}

/// The virtual-key code of a named key; `None` for the others.
pub open spec fn virtual_key(k: KeyboardKey) -> Option<u32> {
    match k {
        KeyboardKey::BackSpace => Some(0x08u32),
        KeyboardKey::Tab => Some(0x09u32),
        KeyboardKey::Enter => Some(0x0Du32),
        KeyboardKey::Escape => Some(0x1Bu32),
        KeyboardKey::Space => Some(0x20u32),
        KeyboardKey::PageUp => Some(0x21u32),
        KeyboardKey::PageDown => Some(0x22u32),
        KeyboardKey::Home => Some(0x24u32),
        KeyboardKey::ArrowLeft => Some(0x25u32),
        KeyboardKey::ArrowUp => Some(0x26u32),
        KeyboardKey::ArrowRight => Some(0x27u32),
        KeyboardKey::ArrowDown => Some(0x28u32),
        KeyboardKey::Print => Some(0x2Au32),
        KeyboardKey::PrintScreen => Some(0x2Cu32),
        KeyboardKey::Insert => Some(0x2Du32),
        KeyboardKey::Delete => Some(0x2Eu32),
        KeyboardKey::Number0 => Some(0x30u32),
        KeyboardKey::Number1 => Some(0x31u32),
        KeyboardKey::Number2 => Some(0x32u32),
        KeyboardKey::Number3 => Some(0x33u32),
        KeyboardKey::Number4 => Some(0x34u32),
        KeyboardKey::Number5 => Some(0x35u32),
        KeyboardKey::Number6 => Some(0x36u32),
        KeyboardKey::Number7 => Some(0x37u32),
        KeyboardKey::Number8 => Some(0x38u32),
        KeyboardKey::Number9 => Some(0x39u32),
        KeyboardKey::A => Some(0x41u32),
        KeyboardKey::B => Some(0x42u32),
        KeyboardKey::C => Some(0x43u32),
        KeyboardKey::D => Some(0x44u32),
        KeyboardKey::E => Some(0x45u32),
        KeyboardKey::F => Some(0x46u32),
        KeyboardKey::G => Some(0x47u32),
        KeyboardKey::H => Some(0x48u32),
        KeyboardKey::I => Some(0x49u32),
        KeyboardKey::J => Some(0x4Au32),
        KeyboardKey::K => Some(0x4Bu32),
        KeyboardKey::L => Some(0x4Cu32),
        KeyboardKey::M => Some(0x4Du32),
        KeyboardKey::N => Some(0x4Eu32),
        KeyboardKey::O => Some(0x4Fu32),
        KeyboardKey::P => Some(0x50u32),
        KeyboardKey::Q => Some(0x51u32),
        KeyboardKey::R => Some(0x52u32),
        KeyboardKey::S => Some(0x53u32),
        KeyboardKey::T => Some(0x54u32),
        KeyboardKey::U => Some(0x55u32),
        KeyboardKey::V => Some(0x56u32),
        KeyboardKey::W => Some(0x57u32),
        KeyboardKey::X => Some(0x58u32),
        KeyboardKey::Y => Some(0x59u32),
        KeyboardKey::Z => Some(0x5Au32),
        KeyboardKey::LeftWindows => Some(0x5Bu32),
        KeyboardKey::RightWindows => Some(0x5Cu32),
        KeyboardKey::Numpad0 => Some(0x60u32),
        KeyboardKey::Numpad1 => Some(0x61u32),
        KeyboardKey::Numpad2 => Some(0x62u32),
        KeyboardKey::Numpad3 => Some(0x63u32),
        KeyboardKey::Numpad4 => Some(0x64u32),
        KeyboardKey::Numpad5 => Some(0x65u32),
        KeyboardKey::Numpad6 => Some(0x66u32),
        KeyboardKey::Numpad7 => Some(0x67u32),
        KeyboardKey::Numpad8 => Some(0x68u32),
        KeyboardKey::Numpad9 => Some(0x69u32),
        KeyboardKey::Multiply => Some(0x6Au32),
        KeyboardKey::Add => Some(0x6Bu32),
        KeyboardKey::Separator => Some(0x6Cu32),
        KeyboardKey::Subtract => Some(0x6Du32),
        KeyboardKey::Decimal => Some(0x6Eu32),
        KeyboardKey::Divide => Some(0x6Fu32),
        KeyboardKey::F1 => Some(0x70u32),
        KeyboardKey::F2 => Some(0x71u32),
        KeyboardKey::F3 => Some(0x72u32),
        KeyboardKey::F4 => Some(0x73u32),
        KeyboardKey::F5 => Some(0x74u32),
        KeyboardKey::F6 => Some(0x75u32),
        KeyboardKey::F7 => Some(0x76u32),
        KeyboardKey::F8 => Some(0x77u32),
        KeyboardKey::F9 => Some(0x78u32),
        KeyboardKey::F10 => Some(0x79u32),
        KeyboardKey::F11 => Some(0x7Au32),
        KeyboardKey::F12 => Some(0x7Bu32),
        KeyboardKey::F13 => Some(0x7Cu32),
        KeyboardKey::F14 => Some(0x7Du32),
        KeyboardKey::F15 => Some(0x7Eu32),
        KeyboardKey::F16 => Some(0x7Fu32),
        KeyboardKey::F17 => Some(0x80u32),
        KeyboardKey::F18 => Some(0x81u32),
        KeyboardKey::F19 => Some(0x82u32),
        KeyboardKey::F20 => Some(0x83u32),
        KeyboardKey::F21 => Some(0x84u32),
        KeyboardKey::F22 => Some(0x85u32),
        KeyboardKey::F23 => Some(0x86u32),
        KeyboardKey::F24 => Some(0x87u32),
        KeyboardKey::NumLock => Some(0x90u32),
        KeyboardKey::ScrollLock => Some(0x91u32),
        KeyboardKey::CapsLock => Some(0x14u32),
        KeyboardKey::LeftShift => Some(0xA0u32),
        KeyboardKey::RightShift => Some(0xA1u32),
        KeyboardKey::LeftControl => Some(0xA2u32),
        KeyboardKey::RightControl => Some(0xA3u32),
        KeyboardKey::LeftAlt => Some(0xA4u32),
        KeyboardKey::RightAlt => Some(0xA5u32),
        KeyboardKey::Period => Some(0xBEu32),
        KeyboardKey::Comma => Some(0xBCu32),
        KeyboardKey::SemiColon => Some(0xBAu32),
        KeyboardKey::Slash => Some(0xBFu32),
        KeyboardKey::Grave => Some(0xC0u32),
        KeyboardKey::LeftBrace => Some(0xDBu32),
        KeyboardKey::BackwardSlash => Some(0xDCu32),
        KeyboardKey::RightBrace => Some(0xDDu32),
        KeyboardKey::Apostrophe => Some(0xDEu32),
        KeyboardKey::Other(_) => None,
        KeyboardKey::InvalidKeyCodeReceived => None,
    }
}

/// No two named keys share a virtual-key code, so a code names at most one key.
pub proof fn lemma_virtual_key_injective(k1: KeyboardKey, k2: KeyboardKey)
    requires
        virtual_key(k1) == virtual_key(k2),
        virtual_key(k1) is Some,
    ensures
        k1 == k2,
{
}

/// Whether a set of flags marks an event as injected, given the two flag bits.
pub open spec fn injected_of(flags: u32, bit1: u32, bit2: u32) -> IsEventInjected {
    if flags & bit1 != 0 || flags & bit2 != 0 {
        IsEventInjected::Injected
    } else {
        IsEventInjected::NotInjected
    }
}

/// Whether `e` is the translation of a keyboard message code and optional
/// record: the press from the code; from the record, the key whose
/// virtual-key code it holds (or `Other` of that code, where no key has it)
/// and whether its flags mark the event as injected.
pub open spec fn is_keyboard_translation(e: KeyboardEvent, code: usize, data: Option<KeyboardHookData>) -> bool {
    &&& e.pressed == key_press_of(code)
    &&& data is None <==> e.key is None
    &&& data is None <==> e.is_injected is None
    &&& data matches Some(d) ==> {
        &&& e.is_injected == Some(injected_of(d.flags, LLKHF_INJECTED, LLKHF_LOWER_IL_INJECTED))
        &&& virtual_key(e.key->0) == Some(d.vk_code) || (e.key->0 == KeyboardKey::Other(d.vk_code)
            && forall|k: KeyboardKey| virtual_key(k) != Some(d.vk_code))
    }
}

/// Whether a mouse message code is one of the button messages.
pub open spec fn is_button_code(c: u32) -> bool {
    WM_LBUTTONDOWN <= c && c <= WM_MBUTTONDBLCLK || WM_XBUTTONDOWN <= c && c <= WM_XBUTTONDBLCLK
}

/// The way a wheel turned, read from the signed high word of the mouse data.
pub open spec fn wheel_direction_of(mouse_data: u32) -> MouseWheelDirection {
    let hi = high_word(mouse_data);
    if hi == 0 {
        MouseWheelDirection::Unknown(mouse_data)
    } else if hi < 0x8000 {
        MouseWheelDirection::Forward
    } else {
        MouseWheelDirection::Backward
    }
}

/// The click kind of a mouse message code.
pub open spec fn click_of(code: usize) -> MouseClick {
    if code > u32::MAX as usize {
        MouseClick::Other(code as u32)
    } else if code == WM_LBUTTONDOWN as usize || code == WM_RBUTTONDOWN as usize
        || code == WM_MBUTTONDOWN as usize || code == WM_XBUTTONDOWN as usize
        || code == WM_LBUTTONUP as usize || code == WM_RBUTTONUP as usize
        || code == WM_MBUTTONUP as usize || code == WM_XBUTTONUP as usize {
        MouseClick::SingleClick
    } else if code == WM_LBUTTONDBLCLK as usize || code == WM_RBUTTONDBLCLK as usize
        || code == WM_MBUTTONDBLCLK as usize || code == WM_XBUTTONDBLCLK as usize {
        MouseClick::DoubleClick
    } else {
        MouseClick::Other(code as u32)
    }
}

/// Whether a mouse button went down or up, by its message code.
pub open spec fn button_press_of(code: usize) -> MouseButtonPress {
    if code == WM_LBUTTONDOWN as usize || code == WM_RBUTTONDOWN as usize
        || code == WM_MBUTTONDOWN as usize || code == WM_XBUTTONDOWN as usize {
        MouseButtonPress::Down
    } else if code == WM_LBUTTONUP as usize || code == WM_RBUTTONUP as usize
        || code == WM_MBUTTONUP as usize || code == WM_XBUTTONUP as usize {
        MouseButtonPress::Up
    } else {
        MouseButtonPress::Other(code)
    }
}

/// Which button a mouse message code and the optional record name.
pub open spec fn button_of(code: usize, data: Option<MouseHookData>) -> MouseButton {
    let click = click_of(code);
    if code == WM_LBUTTONDOWN as usize || code == WM_LBUTTONUP as usize
        || code == WM_LBUTTONDBLCLK as usize {
        MouseButton::Left(click)
    } else if code == WM_RBUTTONDOWN as usize || code == WM_RBUTTONUP as usize
        || code == WM_RBUTTONDBLCLK as usize {
        MouseButton::Right(click)
    } else if code == WM_MBUTTONDOWN as usize || code == WM_MBUTTONUP as usize
        || code == WM_MBUTTONDBLCLK as usize {
        MouseButton::Middle(click)
    } else if code == WM_XBUTTONDOWN as usize || code == WM_XBUTTONUP as usize
        || code == WM_XBUTTONDBLCLK as usize {
        match data {
            None => MouseButton::UnkownX(click),
            Some(d) => if high_word(d.mouse_data) == XBUTTON1 {
                MouseButton::X1(click)
            } else if high_word(d.mouse_data) == XBUTTON2 {
                MouseButton::X2(click)
            } else {
                MouseButton::UnkownX(click)
            },
        }
    } else {
        MouseButton::Other(code)
    }
}

/// The wheel that a mouse message code names.
pub open spec fn wheel_of(code: usize) -> MouseWheel {
    if code == WM_MOUSEWHEEL as usize {
        MouseWheel::Vertical
    } else if code == WM_MOUSEHWHEEL as usize {
        MouseWheel::Horizontal
    } else {
        MouseWheel::Unknown(code)
    }
}

/// The kind of mouse event that a message code (read as 32 bits) stands for.
pub open spec fn mouse_event_type_of(code: usize, data: Option<MouseHookData>) -> MouseEventType {
    let c = code as u32;
    if is_button_code(c) {
        MouseEventType::Press(MousePressEvent { pressed: button_press_of(code), button: button_of(code, data) })
    } else if c == WM_MOUSEMOVE {
        MouseEventType::Move(MouseMoveEvent { point: match data { Some(d) => Some(d.pt), None => None } })
    } else if c == WM_MOUSEWHEEL || c == WM_MOUSEHWHEEL {
        MouseEventType::Wheel(MouseWheelEvent {
            wheel: wheel_of(code),
            direction: match data { Some(d) => Some(wheel_direction_of(d.mouse_data)), None => None },
        })
    } else {
        MouseEventType::Other(code)
    }
}

/// The translation of a mouse message code and optional record.
pub open spec fn mouse_event_of(code: usize, data: Option<MouseHookData>) -> MouseEvent {
    MouseEvent {
        event: mouse_event_type_of(code, data),
        is_injected: match data {
            Some(d) => Some(injected_of(d.flags, LLMHF_INJECTED, LLMHF_LOWER_IL_INJECTED)),
            None => None,
        },
    }
}

impl KeyPress {
    /// The key press for a keyboard message code.
    pub fn from_code(code: usize) -> (r: KeyPress)
        ensures
            r == key_press_of(code),
    {
        if code == WM_KEYDOWN as usize {
            KeyPress::Down(IsSystemKeyPress::Normal)
        } else if code == WM_KEYUP as usize {
            KeyPress::Up(IsSystemKeyPress::Normal)
        } else if code == WM_SYSKEYDOWN as usize {
            KeyPress::Down(IsSystemKeyPress::System)
        } else if code == WM_SYSKEYUP as usize {
            KeyPress::Up(IsSystemKeyPress::System)
        } else {
            KeyPress::Other(code)
        }
    }
}

impl KeyPress {
    /// The keyboard message code of a press or release; `Other` gives back its code.
    pub fn to_code(self) -> (r: usize)
        ensures
            self matches KeyPress::Other(c) ==> r == c,
            !(self is Other) ==> key_press_of(r) == self,
    {
        match self {
            KeyPress::Down(IsSystemKeyPress::Normal) => WM_KEYDOWN as usize,
            KeyPress::Up(IsSystemKeyPress::Normal) => WM_KEYUP as usize,
            KeyPress::Down(IsSystemKeyPress::System) => WM_SYSKEYDOWN as usize,
            KeyPress::Up(IsSystemKeyPress::System) => WM_SYSKEYUP as usize,
            KeyPress::Other(code) => code,
        }
    }
}

impl KeyboardKey {
    /// The key whose virtual-key code is `code`, or `Other(code)` where no key has it.
    pub fn from_code(code: u32) -> (r: KeyboardKey)
        ensures
            virtual_key(r) == Some(code) || (r == KeyboardKey::Other(code) && forall|k: KeyboardKey|
                virtual_key(k) != Some(code)),
    {
        match code {
            0x08 => KeyboardKey::BackSpace,
            0x09 => KeyboardKey::Tab,
            0x0D => KeyboardKey::Enter,
            0x1B => KeyboardKey::Escape,
            0x20 => KeyboardKey::Space,
            0x21 => KeyboardKey::PageUp,
            0x22 => KeyboardKey::PageDown,
            0x24 => KeyboardKey::Home,
            0x25 => KeyboardKey::ArrowLeft,
            0x26 => KeyboardKey::ArrowUp,
            0x27 => KeyboardKey::ArrowRight,
            0x28 => KeyboardKey::ArrowDown,
            0x2A => KeyboardKey::Print,
            0x2C => KeyboardKey::PrintScreen,
            0x2D => KeyboardKey::Insert,
            0x2E => KeyboardKey::Delete,
            0x30 => KeyboardKey::Number0,
            0x31 => KeyboardKey::Number1,
            0x32 => KeyboardKey::Number2,
            0x33 => KeyboardKey::Number3,
            0x34 => KeyboardKey::Number4,
            0x35 => KeyboardKey::Number5,
            0x36 => KeyboardKey::Number6,
            0x37 => KeyboardKey::Number7,
            0x38 => KeyboardKey::Number8,
            0x39 => KeyboardKey::Number9,
            0x41 => KeyboardKey::A,
            0x42 => KeyboardKey::B,
            0x43 => KeyboardKey::C,
            0x44 => KeyboardKey::D,
            0x45 => KeyboardKey::E,
            0x46 => KeyboardKey::F,
            0x47 => KeyboardKey::G,
            0x48 => KeyboardKey::H,
            0x49 => KeyboardKey::I,
            0x4A => KeyboardKey::J,
            0x4B => KeyboardKey::K,
            0x4C => KeyboardKey::L,
            0x4D => KeyboardKey::M,
            0x4E => KeyboardKey::N,
            0x4F => KeyboardKey::O,
            0x50 => KeyboardKey::P,
            0x51 => KeyboardKey::Q,
            0x52 => KeyboardKey::R,
            0x53 => KeyboardKey::S,
            0x54 => KeyboardKey::T,
            0x55 => KeyboardKey::U,
            0x56 => KeyboardKey::V,
            0x57 => KeyboardKey::W,
            0x58 => KeyboardKey::X,
            0x59 => KeyboardKey::Y,
            0x5A => KeyboardKey::Z,
            0x5B => KeyboardKey::LeftWindows,
            0x5C => KeyboardKey::RightWindows,
            0x60 => KeyboardKey::Numpad0,
            0x61 => KeyboardKey::Numpad1,
            0x62 => KeyboardKey::Numpad2,
            0x63 => KeyboardKey::Numpad3,
            0x64 => KeyboardKey::Numpad4,
            0x65 => KeyboardKey::Numpad5,
            0x66 => KeyboardKey::Numpad6,
            0x67 => KeyboardKey::Numpad7,
            0x68 => KeyboardKey::Numpad8,
            0x69 => KeyboardKey::Numpad9,
            0x6A => KeyboardKey::Multiply,
            0x6B => KeyboardKey::Add,
            0x6C => KeyboardKey::Separator,
            0x6D => KeyboardKey::Subtract,
            0x6E => KeyboardKey::Decimal,
            0x6F => KeyboardKey::Divide,
            0x70 => KeyboardKey::F1,
            0x71 => KeyboardKey::F2,
            0x72 => KeyboardKey::F3,
            0x73 => KeyboardKey::F4,
            0x74 => KeyboardKey::F5,
            0x75 => KeyboardKey::F6,
            0x76 => KeyboardKey::F7,
            0x77 => KeyboardKey::F8,
            0x78 => KeyboardKey::F9,
            0x79 => KeyboardKey::F10,
            0x7A => KeyboardKey::F11,
            0x7B => KeyboardKey::F12,
            0x7C => KeyboardKey::F13,
            0x7D => KeyboardKey::F14,
            0x7E => KeyboardKey::F15,
            0x7F => KeyboardKey::F16,
            0x80 => KeyboardKey::F17,
            0x81 => KeyboardKey::F18,
            0x82 => KeyboardKey::F19,
            0x83 => KeyboardKey::F20,
            0x84 => KeyboardKey::F21,
            0x85 => KeyboardKey::F22,
            0x86 => KeyboardKey::F23,
            0x87 => KeyboardKey::F24,
            0x90 => KeyboardKey::NumLock,
            0x91 => KeyboardKey::ScrollLock,
            0x14 => KeyboardKey::CapsLock,
            0xA0 => KeyboardKey::LeftShift,
            0xA1 => KeyboardKey::RightShift,
            0xA2 => KeyboardKey::LeftControl,
            0xA3 => KeyboardKey::RightControl,
            0xA4 => KeyboardKey::LeftAlt,
            0xA5 => KeyboardKey::RightAlt,
            0xBE => KeyboardKey::Period,
            0xBC => KeyboardKey::Comma,
            0xBA => KeyboardKey::SemiColon,
            0xBF => KeyboardKey::Slash,
            0xC0 => KeyboardKey::Grave,
            0xDB => KeyboardKey::LeftBrace,
            0xDC => KeyboardKey::BackwardSlash,
            0xDD => KeyboardKey::RightBrace,
            0xDE => KeyboardKey::Apostrophe,
            _ => KeyboardKey::Other(code),
        }
    }

    /// The key of a keyboard record, or `None` where there is no record.
    pub fn optionally_from(value: Option<KeyboardHookData>) -> (r: Option<KeyboardKey>)
        ensures
            value is None <==> r is None,
            value matches Some(d) ==> (virtual_key(r->0) == Some(d.vk_code) || (r->0 == KeyboardKey::Other(d.vk_code)
                && forall|k: KeyboardKey| virtual_key(k) != Some(d.vk_code))),
    {
        match value {
            None => None,
            Some(d) => Some(KeyboardKey::from_code(d.vk_code)),
        }
    }
}

impl IsEventInjected {
    /// Whether a keyboard record's flags mark the event as injected.
    pub fn from_keyboard_flags(flags: u32) -> (r: IsEventInjected)
        ensures
            r == injected_of(flags, LLKHF_INJECTED, LLKHF_LOWER_IL_INJECTED),
    {
        if flags & LLKHF_INJECTED != 0 || flags & LLKHF_LOWER_IL_INJECTED != 0 {
            IsEventInjected::Injected
        } else {
            IsEventInjected::NotInjected
        }
    }

    /// Whether a mouse record's flags mark the event as injected.
    pub fn from_mouse_flags(flags: u32) -> (r: IsEventInjected)
        ensures
            r == injected_of(flags, LLMHF_INJECTED, LLMHF_LOWER_IL_INJECTED),
    {
        if flags & LLMHF_INJECTED != 0 || flags & LLMHF_LOWER_IL_INJECTED != 0 {
            IsEventInjected::Injected
        } else {
            IsEventInjected::NotInjected
        }
    }
}

impl KeyboardEvent {
    /// Translates a keyboard callback's message code and optional record.
    pub fn new(wm_key_code: usize, data: Option<KeyboardHookData>) -> (r: KeyboardEvent)
        ensures
            is_keyboard_translation(r, wm_key_code, data),
    {
        let is_injected = match data {
            None => None,
            Some(d) => Some(IsEventInjected::from_keyboard_flags(d.flags)),
        };
        KeyboardEvent {
            pressed: KeyPress::from_code(wm_key_code),
            key: KeyboardKey::optionally_from(data),
            is_injected,
        }
    }
}

impl MouseClick {
    /// The click kind for a mouse message code.
    pub fn from_code(value: usize) -> (r: MouseClick)
        ensures
            r == click_of(value),
    {
        if value > u32::MAX as usize {
            MouseClick::Other(value as u32)
        } else if value == WM_LBUTTONDOWN as usize || value == WM_RBUTTONDOWN as usize
            || value == WM_MBUTTONDOWN as usize || value == WM_XBUTTONDOWN as usize
            || value == WM_LBUTTONUP as usize || value == WM_RBUTTONUP as usize
            || value == WM_MBUTTONUP as usize || value == WM_XBUTTONUP as usize {
            MouseClick::SingleClick
        } else if value == WM_LBUTTONDBLCLK as usize || value == WM_RBUTTONDBLCLK as usize
            || value == WM_MBUTTONDBLCLK as usize || value == WM_XBUTTONDBLCLK as usize {
            MouseClick::DoubleClick
        } else {
            MouseClick::Other(value as u32)
        }
    }
}

impl MouseButtonPress {
    /// Whether a mouse message code is a button going down or up.
    pub fn from_code(value: usize) -> (r: MouseButtonPress)
        ensures
            r == button_press_of(value),
    {
        if value == WM_LBUTTONDOWN as usize || value == WM_RBUTTONDOWN as usize
            || value == WM_MBUTTONDOWN as usize || value == WM_XBUTTONDOWN as usize {
            MouseButtonPress::Down
        } else if value == WM_LBUTTONUP as usize || value == WM_RBUTTONUP as usize
            || value == WM_MBUTTONUP as usize || value == WM_XBUTTONUP as usize {
            MouseButtonPress::Up
        } else {
            MouseButtonPress::Other(value)
        }
    }
}

impl MouseButton {
    /// The button that a mouse message code and the optional record name.
    pub fn from(wm_mouse_param: usize, data: Option<MouseHookData>) -> (r: MouseButton)
        ensures
            r == button_of(wm_mouse_param, data),
    {
        let click = MouseClick::from_code(wm_mouse_param);
        let p = wm_mouse_param;
        if p == WM_LBUTTONDOWN as usize || p == WM_LBUTTONUP as usize || p == WM_LBUTTONDBLCLK as usize {
            MouseButton::Left(click)
        } else if p == WM_RBUTTONDOWN as usize || p == WM_RBUTTONUP as usize
            || p == WM_RBUTTONDBLCLK as usize {
            MouseButton::Right(click)
        } else if p == WM_MBUTTONDOWN as usize || p == WM_MBUTTONUP as usize
            || p == WM_MBUTTONDBLCLK as usize {
            MouseButton::Middle(click)
        } else if p == WM_XBUTTONDOWN as usize || p == WM_XBUTTONUP as usize
            || p == WM_XBUTTONDBLCLK as usize {
            match data {
                None => MouseButton::UnkownX(click),
                Some(d) => MouseButton::into_extra(click, &d),
            }
        } else {
            MouseButton::Other(wm_mouse_param)
        }
    }

    /// The extra button that the high word of the record's mouse data names.
    fn into_extra(click: MouseClick, data: &MouseHookData) -> (r: MouseButton)
        ensures
            r == (if high_word(data.mouse_data) == XBUTTON1 {
                MouseButton::X1(click)
            } else if high_word(data.mouse_data) == XBUTTON2 {
                MouseButton::X2(click)
            } else {
                MouseButton::UnkownX(click)
            }),
    {
        let hi = data.mouse_data / 0x10000;
        if hi == XBUTTON1 {
            MouseButton::X1(click)
        } else if hi == XBUTTON2 {
            MouseButton::X2(click)
        } else {
            MouseButton::UnkownX(click)
        }
    }
}

impl MousePressEvent {
    /// Translates a button message code and the optional record.
    pub fn new(wm_mouse_param: usize, data: Option<MouseHookData>) -> (r: MousePressEvent)
        ensures
            r.pressed == button_press_of(wm_mouse_param),
            r.button == button_of(wm_mouse_param, data),
    {
        MousePressEvent {
            pressed: MouseButtonPress::from_code(wm_mouse_param),
            button: MouseButton::from(wm_mouse_param, data),
        }
    }
}

impl MouseWheel {
    /// The wheel that a mouse message code names.
    pub fn new(wm_mouse_param: usize) -> (r: MouseWheel)
        ensures
            r == wheel_of(wm_mouse_param),
    {
        if wm_mouse_param == WM_MOUSEWHEEL as usize {
            MouseWheel::Vertical
        } else if wm_mouse_param == WM_MOUSEHWHEEL as usize {
            MouseWheel::Horizontal
        } else {
            MouseWheel::Unknown(wm_mouse_param)
        }
    }
}

impl MouseWheelDirection {
    /// The way the wheel turned, or `None` where there is no record.
    pub fn optionally_from(data: Option<MouseHookData>) -> (r: Option<MouseWheelDirection>)
        ensures
            r == (match data {
                Some(d) => Some(wheel_direction_of(d.mouse_data)),
                None => None,
            }),
    {
        match data {
            None => None,
            Some(d) => Some(MouseWheelDirection::new(&d)),
        }
    }

    /// The way the wheel turned: the sign of the high word of the mouse data.
    fn new(data: &MouseHookData) -> (r: MouseWheelDirection)
        ensures
            r == wheel_direction_of(data.mouse_data),
    {
        let hi = data.mouse_data / 0x10000;
        if hi == 0 {
            MouseWheelDirection::Unknown(data.mouse_data)
        } else if hi < 0x8000 {
            MouseWheelDirection::Forward
        } else {
            MouseWheelDirection::Backward
        }
    }
}

impl MouseWheelEvent {
    /// Translates a wheel message code and the optional record.
    pub fn new(wm_mouse_param: usize, data: Option<MouseHookData>) -> (r: MouseWheelEvent)
        ensures
            r.wheel == wheel_of(wm_mouse_param),
            r.direction == (match data {
                Some(d) => Some(wheel_direction_of(d.mouse_data)),
                None => None,
            }),
    {
        MouseWheelEvent {
            wheel: MouseWheel::new(wm_mouse_param),
            direction: MouseWheelDirection::optionally_from(data),
        }
    }
}

impl MouseMoveEvent {
    /// Translates a move record: the cursor position, where there is a record.
    pub fn new(data: Option<MouseHookData>) -> (r: MouseMoveEvent)
        ensures
            r.point == (match data {
                Some(d) => Some(d.pt),
                None => None,
            }),
    {
        match data {
            None => MouseMoveEvent { point: None },
            Some(d) => MouseMoveEvent { point: Some(d.pt) },
        }
    }
}

impl MouseEvent {
    /// Translates a mouse callback's message code and optional record.
    pub fn new(wm_mouse_param: usize, data: Option<MouseHookData>) -> (r: MouseEvent)
        ensures
            r == mouse_event_of(wm_mouse_param, data),
    {
        let is_injected = match data {
            None => None,
            Some(d) => Some(IsEventInjected::from_mouse_flags(d.flags)),
        };
        let c = wm_mouse_param as u32;
        let event = if WM_LBUTTONDOWN <= c && c <= WM_MBUTTONDBLCLK || WM_XBUTTONDOWN <= c && c
            <= WM_XBUTTONDBLCLK {
            MouseEventType::Press(MousePressEvent::new(wm_mouse_param, data))
        } else if c == WM_MOUSEMOVE {
            MouseEventType::Move(MouseMoveEvent::new(data))
        } else if c == WM_MOUSEWHEEL || c == WM_MOUSEHWHEEL {
            MouseEventType::Wheel(MouseWheelEvent::new(wm_mouse_param, data))
        } else {
            MouseEventType::Other(wm_mouse_param)
        };
        MouseEvent { event, is_injected }
    }
}

} // verus!
