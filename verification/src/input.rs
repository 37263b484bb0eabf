//! Input events of a fixed shape, produced by the platform's input
//! translation layer and forwarded unchanged on the event channel.
//!
//! The engine core does not interpret input semantics; these types only give
//! input a stable, platform-independent form.  Fractional mouse coordinates
//! and deltas are carried as their raw bit patterns (`u32` fields named
//! `*_bits`), so that the core itself stays free of floating point; the
//! boundary that produces or consumes them converts.

use vstd::prelude::*;

verus! {

/// A keyboard key: the platform scancode, and the name of the key when it
/// is one this crate knows.
#[derive(Debug, PartialEq, Eq, Clone, Copy, Structural)]
pub struct Key {
    pub scancode: u32,
    pub keycode: Option<KeyCode>,
}

/// A set of named keys based on a US 104-key QWERTY keyboard.
#[derive(Debug, PartialEq, Eq, Clone, Copy, Structural)]
pub enum KeyCode {
    Escape,
    F1,
    F2,
    F3,
    F4,
    F5,
    F6,
    F7,
    F8,
    F9,
    F10,
    F11,
    F12,
    PrintScreen,
    ScrollLock,
    Pause,
    Grave,
    Num1,
    Num2,
    Num3,
    Num4,
    Num5,
    Num6,
    Num7,
    Num8,
    Num9,
    Num0,
    Minus,
    Equals,
    BackSlash,
    Backspace,
    Insert,
    Home,
    PageUp,
    NumLock,
    NumpadDivide,
    NumpadMultiply,
    NumpadSubtract,
    Tab,
    Q,
    W,
    E,
    R,
    T,
    Y,
    U,
    I,
    O,
    P,
    LeftBracket,
    RightBracket,
    Delete,
    End,
    PageDown,
    Numpad7,
    Numpad8,
    Numpad9,
    NumpadAdd,
    CapsLock,
    A,
    S,
    D,
    F,
    G,
    H,
    J,
    K,
    L,
    Semicolon,
    Quote,
    Enter,
    Numpad4,
    Numpad5,
    Numpad6,
    LeftShift,
    Z,
    X,
    C,
    V,
    B,
    N,
    M,
    Comma,
    Period,
    ForwardSlash,
    RightShift,
    UpArrow,
    Numpad1,
    Numpad2,
    Numpad3,
    NumpadEnter,
    LeftControl,
    LeftSuper,
    LeftAlt,
    Space,
    RightAlt,
    RightSuper,
    RightControl,
    LeftArrow,
    DownArrow,
    RightArrow,
    Numpad0,
    NumpadDecimal,
}

/// The current state of a button input.
#[derive(Debug, Copy, Clone, PartialEq, Eq, Structural)]
pub enum ButtonState {
    Down,
    Up,
}

/// Identifies a mouse button.
#[derive(Debug, Copy, Clone, PartialEq, Eq, Structural)]
pub enum MouseButton {
    Left,
    Middle,
    Right,
    Forward,
    Back,
    Other(u32),
}

/// A common input event.
#[derive(Debug, PartialEq, Eq, Clone, Copy, Structural)]
pub enum Input {
    /// A keyboard button was pressed.  `is_repeat` marks the repeated
    /// key-down events some platforms emit while a key is held.
    KeyPressed { key: Key, is_repeat: bool },
    /// A keyboard button was released.
    KeyReleased { key: Key },
    /// The mouse moved to a point in the window, given as coordinate bit
    /// patterns.
    MouseMovedTo { x_bits: u32, y_bits: u32 },
    /// The mouse moved by a delta, given as coordinate bit patterns.
    MouseMoved { delta_x_bits: u32, delta_y_bits: u32 },
    /// A mouse button was pressed.
    MouseButtonPressed { button: MouseButton },
    /// A mouse button was released.
    MouseButtonReleased { button: MouseButton },
    /// The mouse wheel was scrolled by a delta, given as bit patterns.
    MouseScrolled { delta_x_bits: u32, delta_y_bits: u32 },
}

} // verus!
