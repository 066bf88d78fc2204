//! The callback interface of a window: one method for each kind of event.
//!
//! A window that is driven by callbacks does not receive `Event` values.
//! Its procedure calls one method for a mouse button going down, another
//! for a key coming up, and so on. `callback_of` reads a window message and
//! says which method is due, with the arguments to call it with.

use crate::event::KeyCode;
use crate::keys::{key_of, vk_to_key, VK_CLEAR};
use crate::message::{
    high_word, low_word, position, position_of, signed, signed_low, size_of, MK_CONTROL,
    MK_LBUTTON, MK_MBUTTON, MK_RBUTTON, MK_SHIFT, MK_XBUTTON1, MK_XBUTTON2, SIZE_MAXHIDE, SIZE_MAXIMIZED, SIZE_MAXSHOW,
    SIZE_MINIMIZED, SIZE_RESTORED, WM_CHAR, WM_DESTROY, WM_KEYDOWN, WM_KEYUP, WM_LBUTTONDBLCLK,
    WM_LBUTTONDOWN, WM_LBUTTONUP, WM_MBUTTONDBLCLK, WM_MBUTTONDOWN, WM_MBUTTONUP, WM_MOUSEMOVE,
    WM_MOUSEWHEEL, WM_MOVE, WM_PAINT, WM_RBUTTONDBLCLK, WM_RBUTTONDOWN, WM_RBUTTONUP, WM_SIZE,
    WM_TIMER,
};
use crate::types::{Point, Size};
use vstd::prelude::*;

verus! {

/// A mouse button with the place of the mouse at the time of the event.
#[derive(Debug, Clone, Copy, PartialEq, Eq, Structural)]
pub enum Button {
    Left(Point),
    Right(Point),
    Middle(Point),
}

/// A turn of the mouse wheel with its distance.
#[derive(Debug, Clone, Copy, PartialEq, Eq, Structural)]
pub enum Wheel {
    Up(i16),
    Down(i16),
    /// The wheel did not turn.
    Still,
}

/// The directional keys.
#[derive(Debug, Clone, Copy, PartialEq, Eq, Structural)]
pub enum ArrowType {
    Left,
    Right,
    Up,
    Down,
}

/// The keys as the callbacks know them.
#[derive(Debug, Clone, Copy, PartialEq, Eq, Structural)]
pub enum Key {
    /// A-Z
    Alpha(char),
    /// 0-9
    N(char),
    /// F1-F12
    F(u8),
    /// NumPad 0-9
    Num(u8),
    Shift,
    Ctrl,
    Alt,
    /// The symbol keys, each named by the symbol it gives without Shift.
    Symbol(char),
    NumAdd,
    NumSub,
    NumMul,
    NumDiv,
    NumDot,
    Tab,
    Space,
    Enter,
    Backspace,
    Esc,
    CapsLock,
    LeftCtrl,
    LeftShift,
    LeftAlt,
    RightCtrl,
    RightShift,
    RightAlt,
    ScrollLock,
    NumLock,
    Delete,
    Insert,
    Home,
    End,
    PageUp,
    PageDown,
    LeftButton,
    RightButton,
    MiddleButton,
    X1Button,
    X2Button,
    Arrow(ArrowType),
    /// Any other key, with its raw key code.
    Unknown(i32),
}

/// How a window came to its size.
#[derive(Debug, Clone, Copy, PartialEq, Eq, Structural)]
pub enum SizeType {
    Maximized,
    Minimized,
    Restored,
    MaxHide,
    MaxShow,
    Unknown,
}

/// The method of a window that is due, with its arguments.
#[derive(Debug, Clone, Copy, PartialEq, Eq, Structural)]
pub enum Callback {
    Destroy,
    Draw,
    Timer(usize),
    ButtonDown(Button),
    ButtonUp(Button),
    ButtonDblclk(Button),
    KeyDown(Key),
    KeyUp(Key),
    /// A character was typed; the code of the character.
    Input(u32),
    MouseMove(Point, Option<Key>),
    MouseWheel(Point, Wheel, Option<Key>),
    WindowResize(Size, SizeType),
    WindowMove(Point),
    /// No method is due.
    Nothing,
}

/// What the window procedure is to do with a message: which method to
/// call, and whether the message is done with that or default processing
/// follows.
#[derive(Debug, Clone, Copy, PartialEq, Eq, Structural)]
pub struct Dispatch {
    pub callback: Callback,
    pub done: bool,
}

/// The key of the callbacks that stands for a key of the events. The
/// arrows are gathered under `Arrow`; the Clear key is not among the
/// callbacks' keys and keeps its raw code.
pub open spec fn key_from(code: KeyCode) -> Key {
    match code {
        KeyCode::Alpha(c) => Key::Alpha(c),
        KeyCode::N(c) => Key::N(c),
        KeyCode::F(n) => Key::F(n),
        KeyCode::Num(n) => Key::Num(n),
        KeyCode::Symbol(c) => Key::Symbol(c),
        KeyCode::Shift => Key::Shift,
        KeyCode::Ctrl => Key::Ctrl,
        KeyCode::Alt => Key::Alt,
        KeyCode::NumAdd => Key::NumAdd,
        KeyCode::NumSub => Key::NumSub,
        KeyCode::NumMul => Key::NumMul,
        KeyCode::NumDiv => Key::NumDiv,
        KeyCode::NumDot => Key::NumDot,
        KeyCode::Tab => Key::Tab,
        KeyCode::Space => Key::Space,
        KeyCode::Enter => Key::Enter,
        KeyCode::Backspace => Key::Backspace,
        KeyCode::Esc => Key::Esc,
        KeyCode::CapsLock => Key::CapsLock,
        KeyCode::LeftCtrl => Key::LeftCtrl,
        KeyCode::LeftShift => Key::LeftShift,
        KeyCode::LeftAlt => Key::LeftAlt,
        KeyCode::RightCtrl => Key::RightCtrl,
        KeyCode::RightShift => Key::RightShift,
        KeyCode::RightAlt => Key::RightAlt,
        KeyCode::ScrollLock => Key::ScrollLock,
        KeyCode::NumLock => Key::NumLock,
        KeyCode::Delete => Key::Delete,
        KeyCode::Insert => Key::Insert,
        KeyCode::Home => Key::Home,
        KeyCode::End => Key::End,
        KeyCode::PageUp => Key::PageUp,
        KeyCode::PageDown => Key::PageDown,
        KeyCode::LeftButton => Key::LeftButton,
        KeyCode::RightButton => Key::RightButton,
        KeyCode::MiddleButton => Key::MiddleButton,
        KeyCode::X1Button => Key::X1Button,
        KeyCode::X2Button => Key::X2Button,
        KeyCode::Left => Key::Arrow(ArrowType::Left),
        KeyCode::Right => Key::Arrow(ArrowType::Right),
        KeyCode::Up => Key::Arrow(ArrowType::Up),
        KeyCode::Down => Key::Arrow(ArrowType::Down),
        KeyCode::Clear => Key::Unknown(VK_CLEAR),
        KeyCode::Unknown(vk) => Key::Unknown(vk),
    }
}

impl Key {
    /// The key of the callbacks that stands for a key of the events.
    pub fn from_code(code: KeyCode) -> (key: Key)
        ensures
            key == key_from(code),
    {
        match code {
            KeyCode::Alpha(c) => Key::Alpha(c),
            KeyCode::N(c) => Key::N(c),
            KeyCode::F(n) => Key::F(n),
            KeyCode::Num(n) => Key::Num(n),
            KeyCode::Symbol(c) => Key::Symbol(c),
            KeyCode::Shift => Key::Shift,
            KeyCode::Ctrl => Key::Ctrl,
            KeyCode::Alt => Key::Alt,
            KeyCode::NumAdd => Key::NumAdd,
            KeyCode::NumSub => Key::NumSub,
            KeyCode::NumMul => Key::NumMul,
            KeyCode::NumDiv => Key::NumDiv,
            KeyCode::NumDot => Key::NumDot,
            KeyCode::Tab => Key::Tab,
            KeyCode::Space => Key::Space,
            KeyCode::Enter => Key::Enter,
            KeyCode::Backspace => Key::Backspace,
            KeyCode::Esc => Key::Esc,
            KeyCode::CapsLock => Key::CapsLock,
            KeyCode::LeftCtrl => Key::LeftCtrl,
            KeyCode::LeftShift => Key::LeftShift,
            KeyCode::LeftAlt => Key::LeftAlt,
            KeyCode::RightCtrl => Key::RightCtrl,
            KeyCode::RightShift => Key::RightShift,
            KeyCode::RightAlt => Key::RightAlt,
            KeyCode::ScrollLock => Key::ScrollLock,
            KeyCode::NumLock => Key::NumLock,
            KeyCode::Delete => Key::Delete,
            KeyCode::Insert => Key::Insert,
            KeyCode::Home => Key::Home,
            KeyCode::End => Key::End,
            KeyCode::PageUp => Key::PageUp,
            KeyCode::PageDown => Key::PageDown,
            KeyCode::LeftButton => Key::LeftButton,
            KeyCode::RightButton => Key::RightButton,
            KeyCode::MiddleButton => Key::MiddleButton,
            KeyCode::X1Button => Key::X1Button,
            KeyCode::X2Button => Key::X2Button,
            KeyCode::Left => Key::Arrow(ArrowType::Left),
            KeyCode::Right => Key::Arrow(ArrowType::Right),
            KeyCode::Up => Key::Arrow(ArrowType::Up),
            KeyCode::Down => Key::Arrow(ArrowType::Down),
            KeyCode::Clear => Key::Unknown(VK_CLEAR),
            KeyCode::Unknown(vk) => Key::Unknown(vk),
        }
    }

    /// The key that the virtual-key code `vk` stands for.
    pub fn from_vk(vk: i32) -> (key: Key)
        ensures
            key == key_from(key_of(vk)),
    {
        Key::from_code(vk_to_key(vk))
    }
}

/// The key or button held during a mouse event, if exactly one was held.
pub open spec fn held_of(state: u64) -> Option<Key> {
    if state == MK_CONTROL {
        Some(Key::Ctrl)
    } else if state == MK_LBUTTON {
        Some(Key::LeftButton)
    } else if state == MK_MBUTTON {
        Some(Key::MiddleButton)
    } else if state == MK_RBUTTON {
        Some(Key::RightButton)
    } else if state == MK_SHIFT {
        Some(Key::Shift)
    } else if state == MK_XBUTTON1 {
        Some(Key::X1Button)
    } else if state == MK_XBUTTON2 {
        Some(Key::X2Button)
    } else {
        None
    }
}

/// Bits 16 to 31 of a word, read as a signed number.
pub open spec fn signed_high(v: u64) -> i16 {
    let high = high_word(v);
    if high <= i16::MAX {
        high as i16
    } else {
        (high - 0x1_0000) as i16
    }
}

/// The turn of the wheel that a wheel message tells of.
pub open spec fn turn_of(wparam: u64) -> Wheel {
    if signed_high(wparam) > 0 {
        Wheel::Up(signed_high(wparam))
    } else {
        Wheel::Down(signed_high(wparam))
    }
}

/// How a window came to its size.
pub open spec fn size_type_of(wparam: u64) -> SizeType {
    if wparam == SIZE_MAXIMIZED {
        SizeType::Maximized
    } else if wparam == SIZE_MINIMIZED {
        SizeType::Minimized
    } else if wparam == SIZE_RESTORED {
        SizeType::Restored
    } else if wparam == SIZE_MAXHIDE {
        SizeType::MaxHide
    } else if wparam == SIZE_MAXSHOW {
        SizeType::MaxShow
    } else {
        SizeType::Unknown
    }
}

/// The button of a mouse button message, with the place of the mouse.
pub open spec fn pressed_of(msg: u32, lparam: u64) -> Button {
    if msg == WM_LBUTTONDOWN || msg == WM_LBUTTONUP || msg == WM_LBUTTONDBLCLK {
        Button::Left(position_of(lparam))
    } else if msg == WM_MBUTTONDOWN || msg == WM_MBUTTONUP || msg == WM_MBUTTONDBLCLK {
        Button::Middle(position_of(lparam))
    } else {
        Button::Right(position_of(lparam))
    }
}

/// The method that is due for a message, and whether the message is done
/// with it.
pub open spec fn dispatch_of(msg: u32, wparam: u64, lparam: u64) -> Dispatch {
    if msg == WM_DESTROY {
        Dispatch { callback: Callback::Destroy, done: true }
    } else if msg == WM_PAINT {
        Dispatch { callback: Callback::Draw, done: true }
    } else if msg == WM_TIMER {
        Dispatch { callback: Callback::Timer(wparam as usize), done: false }
    } else if msg == WM_LBUTTONDOWN || msg == WM_MBUTTONDOWN || msg == WM_RBUTTONDOWN {
        Dispatch { callback: Callback::ButtonDown(pressed_of(msg, lparam)), done: true }
    } else if msg == WM_LBUTTONUP || msg == WM_MBUTTONUP || msg == WM_RBUTTONUP {
        Dispatch { callback: Callback::ButtonUp(pressed_of(msg, lparam)), done: true }
    } else if msg == WM_LBUTTONDBLCLK || msg == WM_MBUTTONDBLCLK || msg == WM_RBUTTONDBLCLK {
        Dispatch { callback: Callback::ButtonDblclk(pressed_of(msg, lparam)), done: true }
    } else if msg == WM_KEYDOWN {
        Dispatch { callback: Callback::KeyDown(key_from(key_of(signed_low(wparam)))), done: true }
    } else if msg == WM_KEYUP {
        Dispatch { callback: Callback::KeyUp(key_from(key_of(signed_low(wparam)))), done: true }
    } else if msg == WM_CHAR {
        Dispatch {
            callback: Callback::Input((wparam as int % 0x1_0000_0000) as u32),
            done: false,
        }
    } else if msg == WM_MOUSEMOVE {
        Dispatch {
            callback: Callback::MouseMove(position_of(lparam), held_of(wparam)),
            done: false,
        }
    } else if msg == WM_MOUSEWHEEL {
        Dispatch {
            callback: Callback::MouseWheel(
                position_of(lparam),
                turn_of(wparam),
                held_of(low_word(wparam) as u64),
            ),
            done: false,
        }
    } else if msg == WM_SIZE {
        Dispatch {
            callback: Callback::WindowResize(size_of(lparam), size_type_of(wparam)),
            done: false,
        }
    } else if msg == WM_MOVE {
        Dispatch { callback: Callback::WindowMove(position_of(lparam)), done: false }
    } else {
        Dispatch { callback: Callback::Nothing, done: false }
    }
}

/// The key or button held during a mouse event.
fn held(state: u64) -> (key: Option<Key>)
    ensures
        key == held_of(state),
{
    if state == MK_CONTROL {
        Some(Key::Ctrl)
    } else if state == MK_LBUTTON {
        Some(Key::LeftButton)
    } else if state == MK_MBUTTON {
        Some(Key::MiddleButton)
    } else if state == MK_RBUTTON {
        Some(Key::RightButton)
    } else if state == MK_SHIFT {
        Some(Key::Shift)
    } else if state == MK_XBUTTON1 {
        Some(Key::X1Button)
    } else if state == MK_XBUTTON2 {
        Some(Key::X2Button)
    } else {
        None
    }
}

/// The method that is due for a mouse button message.
pub fn handle_mouse_event(msg: u32, lparam: u64) -> (dispatch: Dispatch)
    ensures
        dispatch == if msg == WM_LBUTTONDOWN || msg == WM_LBUTTONUP || msg == WM_LBUTTONDBLCLK
            || msg == WM_MBUTTONDOWN || msg == WM_MBUTTONUP || msg == WM_MBUTTONDBLCLK || msg
            == WM_RBUTTONDOWN || msg == WM_RBUTTONUP || msg == WM_RBUTTONDBLCLK {
            dispatch_of(msg, 0, lparam)
        } else {
            Dispatch { callback: Callback::Nothing, done: false }
        },
{
    let point = position(lparam);
    if msg == WM_LBUTTONDOWN {
        Dispatch { callback: Callback::ButtonDown(Button::Left(point)), done: true }
    } else if msg == WM_LBUTTONUP {
        Dispatch { callback: Callback::ButtonUp(Button::Left(point)), done: true }
    } else if msg == WM_LBUTTONDBLCLK {
        Dispatch { callback: Callback::ButtonDblclk(Button::Left(point)), done: true }
    } else if msg == WM_MBUTTONDOWN {
        Dispatch { callback: Callback::ButtonDown(Button::Middle(point)), done: true }
    } else if msg == WM_MBUTTONUP {
        Dispatch { callback: Callback::ButtonUp(Button::Middle(point)), done: true }
    } else if msg == WM_MBUTTONDBLCLK {
        Dispatch { callback: Callback::ButtonDblclk(Button::Middle(point)), done: true }
    } else if msg == WM_RBUTTONDOWN {
        Dispatch { callback: Callback::ButtonDown(Button::Right(point)), done: true }
    } else if msg == WM_RBUTTONUP {
        Dispatch { callback: Callback::ButtonUp(Button::Right(point)), done: true }
    } else if msg == WM_RBUTTONDBLCLK {
        Dispatch { callback: Callback::ButtonDblclk(Button::Right(point)), done: true }
    } else {
        Dispatch { callback: Callback::Nothing, done: false }
    }
}

/// The method that is due for a key message.
pub fn handle_key_event(msg: u32, wparam: u64) -> (dispatch: Dispatch)
    ensures
        dispatch == if msg == WM_KEYDOWN || msg == WM_KEYUP {
            dispatch_of(msg, wparam, 0)
        } else {
            Dispatch { callback: Callback::Nothing, done: false }
        },
{
    let key = Key::from_vk(signed(wparam));
    if msg == WM_KEYDOWN {
        Dispatch { callback: Callback::KeyDown(key), done: true }
    } else if msg == WM_KEYUP {
        Dispatch { callback: Callback::KeyUp(key), done: true }
    } else {
        Dispatch { callback: Callback::Nothing, done: false }
    }
}

/// Says which method of a window is due for the message `msg` and its two
/// words.
pub fn callback_of(msg: u32, wparam: u64, lparam: u64) -> (dispatch: Dispatch)
    ensures
        dispatch == dispatch_of(msg, wparam, lparam),
{
    if msg == WM_DESTROY {
        Dispatch { callback: Callback::Destroy, done: true }
    } else if msg == WM_PAINT {
        Dispatch { callback: Callback::Draw, done: true }
    } else if msg == WM_TIMER {
        Dispatch { callback: Callback::Timer(#[verifier::truncate] (wparam as usize)), done: false }
    } else if msg == WM_LBUTTONDBLCLK || msg == WM_LBUTTONDOWN || msg == WM_LBUTTONUP || msg
        == WM_MBUTTONDBLCLK || msg == WM_MBUTTONDOWN || msg == WM_MBUTTONUP || msg
        == WM_RBUTTONDBLCLK || msg == WM_RBUTTONDOWN || msg == WM_RBUTTONUP {
        handle_mouse_event(msg, lparam)
    } else if msg == WM_KEYDOWN || msg == WM_KEYUP {
        handle_key_event(msg, wparam)
    } else if msg == WM_CHAR {
        Dispatch { callback: Callback::Input((wparam % 0x1_0000_0000) as u32), done: false }
    } else if msg == WM_MOUSEMOVE {
        Dispatch { callback: Callback::MouseMove(position(lparam), held(wparam)), done: false }
    } else if msg == WM_MOUSEWHEEL {
        let high: u64 = (wparam / 0x1_0000) % 0x1_0000;
        let delta: i16 = if high <= 0x7fff {
            high as i16
        } else {
            (high as i64 - 0x1_0000) as i16
        };
        let wheel = if delta > 0 {
            Wheel::Up(delta)
        } else {
            Wheel::Down(delta)
        };
        Dispatch {
            callback: Callback::MouseWheel(position(lparam), wheel, held(wparam % 0x1_0000)),
            done: false,
        }
    } else if msg == WM_SIZE {
        let size = Size {
            width: (lparam % 0x1_0000) as i32,
            height: ((lparam / 0x1_0000) % 0x1_0000) as i32,
        };
        let st = if wparam == SIZE_MAXIMIZED {
            SizeType::Maximized
        } else if wparam == SIZE_MINIMIZED {
            SizeType::Minimized
        } else if wparam == SIZE_RESTORED {
            SizeType::Restored
        } else if wparam == SIZE_MAXHIDE {
            SizeType::MaxHide
        } else if wparam == SIZE_MAXSHOW {
            SizeType::MaxShow
        } else {
            SizeType::Unknown
        };
        Dispatch { callback: Callback::WindowResize(size, st), done: false }
    } else if msg == WM_MOVE {
        Dispatch { callback: Callback::WindowMove(position(lparam)), done: false }
    } else {
        Dispatch { callback: Callback::Nothing, done: false }
    }
}

} // verus!
