//! The events that a window can receive.

use crate::types::{Point, Size};
use vstd::prelude::*;

verus! {

/// The modifier keys of a hot key.
#[derive(Debug, Clone, Copy, PartialEq, Eq, Structural)]
pub struct HotKeyFlags {
    pub alt: bool,
    pub ctrl: bool,
    pub shift: bool,
    pub win: bool,
}

impl Default for HotKeyFlags {
    fn default() -> (flags: HotKeyFlags)
        ensures
            flags == (HotKeyFlags { alt: false, ctrl: false, shift: false, win: false }),
    {
        HotKeyFlags { alt: false, ctrl: false, shift: false, win: false }
    }
}

/// All events that can reach an element of the user interface.
#[derive(Debug, Clone, Copy, PartialEq, Eq, Structural)]
pub enum Event {
    /// A key has been pressed; `sys` tells whether it is a system key.
    KeyPressed { key: KeyCode, sys: bool },
    /// A key has been released; `sys` tells whether it is a system key.
    KeyReleased { key: KeyCode, sys: bool },
    /// The mouse cursor has moved to `pos`.
    MouseMoved { pos: Point, mk: ModifierKey },
    /// A mouse button has been pressed at `pos`.
    MouseButtonPressed { button: MouseButton, pos: Point, mk: ModifierKey },
    /// A mouse button has been released at `pos`.
    MouseButtonReleased { button: MouseButton, pos: Point, mk: ModifierKey },
    /// The mouse wheel has been scrolled at `pos`.
    MouseWheelScrolled { wheel: MouseWheel, pos: Point, mk: ModifierKey },
    /// A mouse button has been double-clicked at `pos`.
    MouseDoubleClicked { button: MouseButton, pos: Point, mk: ModifierKey },
    /// A window has been created.
    WindowCreated,
    /// A window has been destroyed.
    WindowDestroyed,
    /// A window has been moved to `pos`.
    WindowMoved { pos: Point },
    /// A window has been disabled.
    WindowDisable,
    /// A window has been enabled.
    WindowEnable,
    /// A window has been resized to `size`.
    WindowResized { size: Size, ty: WindowSize },
    /// A character has been typed.
    Input { ch: char },
    /// A hot key has been pressed.
    HotKey { key: KeyCode, modifiers: HotKeyFlags },
    /// The timer `id` has fired.
    Timer { id: usize },
    /// The mouse cursor rests over an element.
    Hover { pos: Point, mk: ModifierKey },
    /// The mouse cursor has left an element.
    Leave,
}

/// The keys of keyboard and mouse.
#[derive(Debug, Clone, Copy, PartialEq, Eq, Structural)]
pub enum KeyCode {
    /// Alphabetic keys A-Z.
    Alpha(char),
    /// Numeric keys 0-9.
    N(char),
    /// Function keys F1-F12.
    F(u8),
    /// Numeric keypad keys 0-9.
    Num(u8),
    Shift,
    Ctrl,
    Alt,
    /// The symbol keys, each named by the symbol it gives without Shift:
    /// `` ` , . / ; ' [ ] \ - = ``.
    Symbol(char),
    /// The + key on the numeric keypad.
    NumAdd,
    /// The - key on the numeric keypad.
    NumSub,
    /// The * key on the numeric keypad.
    NumMul,
    /// The / key on the numeric keypad.
    NumDiv,
    /// The . key on the numeric keypad.
    NumDot,
    Tab,
    Space,
    Enter,
    Backspace,
    Esc,
    CapsLock,
    LeftCtrl,
    LeftShift,
    LeftAlt,
    RightCtrl,
    RightShift,
    RightAlt,
    ScrollLock,
    NumLock,
    Delete,
    Insert,
    Home,
    End,
    PageUp,
    PageDown,
    /// The Clear key (Num 5).
    Clear,
    LeftButton,
    RightButton,
    MiddleButton,
    /// Mouse extension button 1.
    X1Button,
    /// Mouse extension button 2.
    X2Button,
    Left,
    Right,
    Up,
    Down,
    /// Any other key, with its raw key code.
    Unknown(i32),
}

/// The buttons of a mouse.
#[derive(Debug, Clone, Copy, PartialEq, Eq, Structural)]
pub enum MouseButton {
    Left,
    Right,
    Middle,
    /// Any other button, with its raw code.
    Other(u16),
}

/// The directions in which a mouse wheel turns.
#[derive(Debug, Clone, Copy, PartialEq, Eq, Structural)]
pub enum MouseWheel {
    Up,
    Down,
}

/// The key or button that was held while a mouse event occurred.
#[derive(Debug, Clone, Copy, PartialEq, Eq, Structural)]
pub enum ModifierKey {
    Shift,
    Ctrl,
    Alt,
    Win,
    Mouse(MouseButton),
    /// Nothing was held.
    NoModifier,
}

/// How a window came to its new size.
#[derive(Debug, Clone, Copy, PartialEq, Eq, Structural)]
pub enum WindowSize {
    Resize,
    Minimize,
    Maximize,
    Restore,
    /// Another window was maximized and hides this one.
    MaxHide,
    /// Another window was restored and shows this one again.
    MaxShow,
}

} // verus!
