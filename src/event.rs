//! The semantic input events that a hook hands to its owner.
pub mod details;

use vstd::prelude::*;

verus! {

/// Main event sent by a hook to the thread that owns the handle.
#[derive(Copy, Clone, PartialEq, Eq, Structural, Debug, Hash, PartialOrd, Ord)]
pub enum InputEvent {
    /// A keyboard event; the inner value holds the details.
    Keyboard(KeyboardEvent),
    /// A mouse event; the inner value holds the details.
    Mouse(MouseEvent),
    /// Data of an unexpected kind; the event type is kept for reference.
    Other(u32),
}

/// Whether the event was injected by software or came from real hardware.
#[derive(Copy, Clone, PartialEq, Eq, Structural, Debug, Hash, PartialOrd, Ord)]
pub enum IsEventInjected {
    /// Event was injected by software.
    Injected,
    /// Input comes from real hardware.
    NotInjected,
}

/// Keyboard event: press or release, which key, and whether it was injected.
#[derive(Copy, Clone, PartialEq, Eq, Structural, Debug, Hash, PartialOrd, Ord)]
pub struct KeyboardEvent {
    /// Whether this is a press or a release.
    pub pressed: KeyPress,
    /// The key that triggered the event, when the platform reported it.
    pub key: Option<KeyboardKey>,
    /// Whether the event was injected by software, when the platform reported it.
    pub is_injected: Option<IsEventInjected>,
}

/// Distinguishes a system key press (one made while ALT is held) from a normal one.
#[derive(Copy, Clone, PartialEq, Eq, Structural, Debug, Hash, PartialOrd, Ord)]
pub enum IsSystemKeyPress {
    /// A key pressed or released while ALT is also held.
    System,
    /// A key pressed or released while ALT is not held.
    Normal,
}

/// Whether a [KeyboardKey] was pressed down or released.
#[derive(Copy, Clone, PartialEq, Eq, Structural, Debug, Hash, PartialOrd, Ord)]
pub enum KeyPress {
    /// Pressed down.
    Down(IsSystemKeyPress),
    /// Released.
    Up(IsSystemKeyPress),
    /// A message code that is neither; the code is kept.
    Other(usize),
}

/// A key on the keyboard.
#[derive(Copy, Clone, PartialEq, Eq, Structural, Debug, Hash, PartialOrd, Ord)]
pub enum KeyboardKey {
    A,
    B,
    C,
    D,
    E,
    F,
    G,
    H,
    I,
    J,
    K,
    L,
    M,
    N,
    O,
    P,
    Q,
    R,
    S,
    T,
    U,
    V,
    W,
    X,
    Y,
    Z,
    Number0,
    Number1,
    Number2,
    Number3,
    Number4,
    Number5,
    Number6,
    Number7,
    Number8,
    Number9,
    LeftAlt,
    RightAlt,
    LeftShift,
    RightShift,
    LeftControl,
    RightControl,
    BackSpace,
    Tab,
    Enter,
    Escape,
    Space,
    PageUp,
    PageDown,
    Home,
    ArrowLeft,
    ArrowUp,
    ArrowRight,
    ArrowDown,
    Print,
    PrintScreen,
    Insert,
    Delete,
    LeftWindows,
    RightWindows,
    /// , (with shift <)
    Comma,
    /// . (with shift >)
    Period,
    /// / (with shift ?)
    Slash,
    /// ; (with shift :)
    SemiColon,
    /// ' (with shift ")
    Apostrophe,
    /// [ (with shift {)
    LeftBrace,
    /// \ (with shift |)
    BackwardSlash,
    /// ] (with shift })
    RightBrace,
    /// ` (with shift ~)
    Grave,
    F1,
    F2,
    F3,
    F4,
    F5,
    F6,
    F7,
    F8,
    F9,
    F10,
    F11,
    F12,
    F13,
    F14,
    F15,
    F16,
    F17,
    F18,
    F19,
    F20,
    F21,
    F22,
    F23,
    F24,
    NumLock,
    ScrollLock,
    CapsLock,
    Numpad0,
    Numpad1,
    Numpad2,
    Numpad3,
    Numpad4,
    Numpad5,
    Numpad6,
    Numpad7,
    Numpad8,
    Numpad9,
    Multiply,
    Add,
    Separator,
    Subtract,
    Decimal,
    Divide,
    /// A virtual-key code with no name here; the code is kept.
    Other(u32),
    InvalidKeyCodeReceived,
}

/// Mouse event: what happened, and whether it was injected.
#[derive(Copy, Clone, PartialEq, Eq, Structural, Debug, Hash, PartialOrd, Ord)]
pub struct MouseEvent {
    /// What happened.
    pub event: MouseEventType,
    /// Whether the event was injected by software, when the platform reported it.
    pub is_injected: Option<IsEventInjected>,
}

/// The kind of a mouse event.
#[derive(Copy, Clone, PartialEq, Eq, Structural, Debug, Hash, PartialOrd, Ord)]
pub enum MouseEventType {
    /// A button was pressed or released.
    Press(MousePressEvent),
    /// The cursor moved.
    Move(MouseMoveEvent),
    /// A wheel turned.
    Wheel(MouseWheelEvent),
    /// A message code of another kind; the code is kept.
    Other(usize),
}

/// A button press or release.
#[derive(Copy, Clone, PartialEq, Eq, Structural, Debug, Hash, PartialOrd, Ord)]
pub struct MousePressEvent {
    pub pressed: MouseButtonPress,
    pub button: MouseButton,
}

/// Which wheel turned.
#[derive(Copy, Clone, PartialEq, Eq, Structural, Debug, Hash, PartialOrd, Ord)]
pub enum MouseWheel {
    Horizontal,
    Vertical,
    Unknown(usize),
}

/// Which way a wheel turned.
#[derive(Copy, Clone, PartialEq, Eq, Structural, Debug, Hash, PartialOrd, Ord)]
pub enum MouseWheelDirection {
    Forward,
    Backward,
    /// Neither way; the raw mouse data is kept.
    Unknown(u32),
}

/// A wheel event.
#[derive(Copy, Clone, PartialEq, Eq, Structural, Debug, Hash, PartialOrd, Ord)]
pub struct MouseWheelEvent {
    pub wheel: MouseWheel,
    pub direction: Option<MouseWheelDirection>,
}

/// A point on the screen.
#[derive(Copy, Clone, PartialEq, Eq, Structural, Debug, Hash, PartialOrd, Ord)]
pub struct Point {
    pub x: i32,
    pub y: i32,
}

/// A cursor move event.
#[derive(Copy, Clone, PartialEq, Eq, Structural, Debug, Hash, PartialOrd, Ord)]
pub struct MouseMoveEvent {
    pub point: Option<Point>,
}

/// Whether a mouse button went down or up.
#[derive(Copy, Clone, PartialEq, Eq, Structural, Debug, Hash, PartialOrd, Ord)]
pub enum MouseButtonPress {
    Down,
    Up,
    Other(usize),
}

/// Whether a button message belongs to a single or a double click.
#[derive(Copy, Clone, PartialEq, Eq, Structural, Debug, Hash, PartialOrd, Ord)]
pub enum MouseClick {
    SingleClick,
    DoubleClick,
    Other(u32),
}

/// Which mouse button.
#[derive(Copy, Clone, PartialEq, Eq, Structural, Debug, Hash, PartialOrd, Ord)]
pub enum MouseButton {
    Left(MouseClick),
    Right(MouseClick),
    Middle(MouseClick),
    /// The first extra button.
    X1(MouseClick),
    /// The second extra button.
    X2(MouseClick),
    /// One of the two extra buttons, which one is not known.
    UnkownX(MouseClick),
    Other(usize),
}

} // verus!
