//! Virtual-key codes and the keys they stand for.

use crate::event::KeyCode;
use vstd::prelude::*;

verus! {

/// The code of F1; F2 to F12 follow it.
pub const VK_F1: i32 = 0x70;

/// The code of 0 on the numeric keypad; 1 to 9 follow it.
pub const VK_NUMPAD0: i32 = 0x60;

pub const VK_SHIFT: i32 = 0x10;

pub const VK_CONTROL: i32 = 0x11;

pub const VK_MENU: i32 = 0x12;

pub const VK_OEM_1: i32 = 0xBA;

pub const VK_OEM_2: i32 = 0xBF;

pub const VK_OEM_3: i32 = 0xC0;

pub const VK_OEM_4: i32 = 0xDB;

pub const VK_OEM_5: i32 = 0xDC;

pub const VK_OEM_6: i32 = 0xDD;

pub const VK_OEM_7: i32 = 0xDE;

pub const VK_OEM_PLUS: i32 = 0xBB;

pub const VK_OEM_COMMA: i32 = 0xBC;

pub const VK_OEM_MINUS: i32 = 0xBD;

pub const VK_OEM_PERIOD: i32 = 0xBE;

pub const VK_ADD: i32 = 0x6B;

pub const VK_SUBTRACT: i32 = 0x6D;

pub const VK_MULTIPLY: i32 = 0x6A;

pub const VK_DIVIDE: i32 = 0x6F;

pub const VK_DECIMAL: i32 = 0x6E;

pub const VK_BACK: i32 = 0x08;

pub const VK_TAB: i32 = 0x09;

pub const VK_RETURN: i32 = 0x0D;

pub const VK_SPACE: i32 = 0x20;

pub const VK_ESCAPE: i32 = 0x1B;

pub const VK_CAPITAL: i32 = 0x14;

pub const VK_LCONTROL: i32 = 0xA2;

pub const VK_LSHIFT: i32 = 0xA0;

pub const VK_LMENU: i32 = 0xA4;

pub const VK_RCONTROL: i32 = 0xA3;

pub const VK_RSHIFT: i32 = 0xA1;

pub const VK_RMENU: i32 = 0xA5;

pub const VK_SCROLL: i32 = 0x91;

pub const VK_NUMLOCK: i32 = 0x90;

pub const VK_DELETE: i32 = 0x2E;

pub const VK_INSERT: i32 = 0x2D;

pub const VK_HOME: i32 = 0x24;

pub const VK_END: i32 = 0x23;

pub const VK_PRIOR: i32 = 0x21;

pub const VK_NEXT: i32 = 0x22;

pub const VK_CLEAR: i32 = 0x0C;

pub const VK_LBUTTON: i32 = 0x01;

pub const VK_RBUTTON: i32 = 0x02;

pub const VK_MBUTTON: i32 = 0x04;

pub const VK_XBUTTON1: i32 = 0x05;

pub const VK_XBUTTON2: i32 = 0x06;

pub const VK_LEFT: i32 = 0x25;

pub const VK_UP: i32 = 0x26;

pub const VK_RIGHT: i32 = 0x27;

pub const VK_DOWN: i32 = 0x28;

/// The key that the virtual-key code `vk` stands for; `Unknown` with the
/// code itself for a code that stands for no key of `KeyCode`.
pub open spec fn key_of(vk: i32) -> KeyCode {
    if 0x41 <= vk <= 0x5A {
        KeyCode::Alpha(vk as u8 as char)
    } else if 0x30 <= vk <= 0x39 {
        KeyCode::N(vk as u8 as char)
    } else if VK_F1 <= vk <= VK_F1 + 11 {
        KeyCode::F((vk - VK_F1 + 1) as u8)
    } else if VK_NUMPAD0 <= vk <= VK_NUMPAD0 + 9 {
        KeyCode::Num((vk - VK_NUMPAD0) as u8)
    } else if vk == VK_SHIFT {
        KeyCode::Shift
    } else if vk == VK_CONTROL {
        KeyCode::Ctrl
    } else if vk == VK_MENU {
        KeyCode::Alt
    } else if vk == VK_OEM_1 {
        KeyCode::Symbol(';')
    } else if vk == VK_OEM_2 {
        KeyCode::Symbol('/')
    } else if vk == VK_OEM_3 {
        KeyCode::Symbol('`')
    } else if vk == VK_OEM_4 {
        KeyCode::Symbol('[')
    } else if vk == VK_OEM_5 {
        KeyCode::Symbol('\\')
    } else if vk == VK_OEM_6 {
        KeyCode::Symbol(']')
    } else if vk == VK_OEM_7 {
        KeyCode::Symbol('\'')
    } else if vk == VK_OEM_PLUS {
        KeyCode::Symbol('+')
    } else if vk == VK_OEM_COMMA {
        KeyCode::Symbol(',')
    } else if vk == VK_OEM_MINUS {
        KeyCode::Symbol('-')
    } else if vk == VK_OEM_PERIOD {
        KeyCode::Symbol('.')
    } else if vk == VK_ADD {
        KeyCode::NumAdd
    } else if vk == VK_SUBTRACT {
        KeyCode::NumSub
    } else if vk == VK_MULTIPLY {
        KeyCode::NumMul
    } else if vk == VK_DIVIDE {
        KeyCode::NumDiv
    } else if vk == VK_DECIMAL {
        KeyCode::NumDot
    } else if vk == VK_BACK {
        KeyCode::Backspace
    } else if vk == VK_TAB {
        KeyCode::Tab
    } else if vk == VK_RETURN {
        KeyCode::Enter
    } else if vk == VK_SPACE {
        KeyCode::Space
    } else if vk == VK_ESCAPE {
        KeyCode::Esc
    } else if vk == VK_CAPITAL {
        KeyCode::CapsLock
    } else if vk == VK_LCONTROL {
        KeyCode::LeftCtrl
    } else if vk == VK_LSHIFT {
        KeyCode::LeftShift
    } else if vk == VK_LMENU {
        KeyCode::LeftAlt
    } else if vk == VK_RCONTROL {
        KeyCode::RightCtrl
    } else if vk == VK_RSHIFT {
        KeyCode::RightShift
    } else if vk == VK_RMENU {
        KeyCode::RightAlt
    } else if vk == VK_SCROLL {
        KeyCode::ScrollLock
    } else if vk == VK_NUMLOCK {
        KeyCode::NumLock
    } else if vk == VK_DELETE {
        KeyCode::Delete
    } else if vk == VK_INSERT {
        KeyCode::Insert
    } else if vk == VK_HOME {
        KeyCode::Home
    } else if vk == VK_END {
        KeyCode::End
    } else if vk == VK_PRIOR {
        KeyCode::PageUp
    } else if vk == VK_NEXT {
        KeyCode::PageDown
    } else if vk == VK_CLEAR {
        KeyCode::Clear
    } else if vk == VK_LBUTTON {
        KeyCode::LeftButton
    } else if vk == VK_RBUTTON {
        KeyCode::RightButton
    } else if vk == VK_MBUTTON {
        KeyCode::MiddleButton
    } else if vk == VK_XBUTTON1 {
        KeyCode::X1Button
    } else if vk == VK_XBUTTON2 {
        KeyCode::X2Button
    } else if vk == VK_LEFT {
        KeyCode::Left
    } else if vk == VK_UP {
        KeyCode::Up
    } else if vk == VK_RIGHT {
        KeyCode::Right
    } else if vk == VK_DOWN {
        KeyCode::Down
    } else {
        KeyCode::Unknown(vk)
    }
}

/// The virtual-key code of `key`, or zero for a key that has none.
pub open spec fn code_of(key: KeyCode) -> i32 {
    match key {
        KeyCode::Alpha(c) => c as i32,
        KeyCode::N(c) => c as i32,
        KeyCode::F(n) => if 1 <= n && n <= 12 {
            (VK_F1 + (n as i32 - 1)) as i32
        } else {
            0
        },
        KeyCode::Num(n) => if n <= 9 {
            (VK_NUMPAD0 + n as i32) as i32
        } else {
            0
        },
        KeyCode::Symbol(c) => {
            if c == ';' {
                VK_OEM_1
            } else if c == '/' {
                VK_OEM_2
            } else if c == '`' {
                VK_OEM_3
            } else if c == '[' {
                VK_OEM_4
            } else if c == '\\' {
                VK_OEM_5
            } else if c == ']' {
                VK_OEM_6
            } else if c == '\'' {
                VK_OEM_7
            } else if c == '+' {
                VK_OEM_PLUS
            } else if c == ',' {
                VK_OEM_COMMA
            } else if c == '-' {
                VK_OEM_MINUS
            } else if c == '.' {
                VK_OEM_PERIOD
            } else {
                0
            }
        },
        KeyCode::Shift => VK_SHIFT,
        KeyCode::Ctrl => VK_CONTROL,
        KeyCode::Alt => VK_MENU,
        KeyCode::NumAdd => VK_ADD,
        KeyCode::NumSub => VK_SUBTRACT,
        KeyCode::NumMul => VK_MULTIPLY,
        KeyCode::NumDiv => VK_DIVIDE,
        KeyCode::NumDot => VK_DECIMAL,
        KeyCode::Backspace => VK_BACK,
        KeyCode::Tab => VK_TAB,
        KeyCode::Enter => VK_RETURN,
        KeyCode::Space => VK_SPACE,
        KeyCode::Esc => VK_ESCAPE,
        KeyCode::CapsLock => VK_CAPITAL,
        KeyCode::LeftCtrl => VK_LCONTROL,
        KeyCode::LeftShift => VK_LSHIFT,
        KeyCode::LeftAlt => VK_LMENU,
        KeyCode::RightCtrl => VK_RCONTROL,
        KeyCode::RightShift => VK_RSHIFT,
        KeyCode::RightAlt => VK_RMENU,
        KeyCode::ScrollLock => VK_SCROLL,
        KeyCode::NumLock => VK_NUMLOCK,
        KeyCode::Delete => VK_DELETE,
        KeyCode::Insert => VK_INSERT,
        KeyCode::Home => VK_HOME,
        KeyCode::End => VK_END,
        KeyCode::PageUp => VK_PRIOR,
        KeyCode::PageDown => VK_NEXT,
        KeyCode::Clear => VK_CLEAR,
        KeyCode::LeftButton => VK_LBUTTON,
        KeyCode::RightButton => VK_RBUTTON,
        KeyCode::MiddleButton => VK_MBUTTON,
        KeyCode::X1Button => VK_XBUTTON1,
        KeyCode::X2Button => VK_XBUTTON2,
        KeyCode::Left => VK_LEFT,
        KeyCode::Up => VK_UP,
        KeyCode::Right => VK_RIGHT,
        KeyCode::Down => VK_DOWN,
        KeyCode::Unknown(_) => 0,
    }
}

/// The key for a virtual-key code.
pub fn vk_to_key(vk: i32) -> (key: KeyCode)
    ensures
        key == key_of(vk),
{
    if 0x41 <= vk && vk <= 0x5A {
        KeyCode::Alpha(vk as u8 as char)
    } else if 0x30 <= vk && vk <= 0x39 {
        KeyCode::N(vk as u8 as char)
    } else if VK_F1 <= vk && vk <= VK_F1 + 11 {
        KeyCode::F((vk - VK_F1 + 1) as u8)
    } else if VK_NUMPAD0 <= vk && vk <= VK_NUMPAD0 + 9 {
        KeyCode::Num((vk - VK_NUMPAD0) as u8)
    } else if vk == VK_SHIFT {
        KeyCode::Shift
    } else if vk == VK_CONTROL {
        KeyCode::Ctrl
    } else if vk == VK_MENU {
        KeyCode::Alt
    } else if vk == VK_OEM_1 {
        KeyCode::Symbol(';')
    } else if vk == VK_OEM_2 {
        KeyCode::Symbol('/')
    } else if vk == VK_OEM_3 {
        KeyCode::Symbol('`')
    } else if vk == VK_OEM_4 {
        KeyCode::Symbol('[')
    } else if vk == VK_OEM_5 {
        KeyCode::Symbol('\\')
    } else if vk == VK_OEM_6 {
        KeyCode::Symbol(']')
    } else if vk == VK_OEM_7 {
        KeyCode::Symbol('\'')
    } else if vk == VK_OEM_PLUS {
        KeyCode::Symbol('+')
    } else if vk == VK_OEM_COMMA {
        KeyCode::Symbol(',')
    } else if vk == VK_OEM_MINUS {
        KeyCode::Symbol('-')
    } else if vk == VK_OEM_PERIOD {
        KeyCode::Symbol('.')
    } else if vk == VK_ADD {
        KeyCode::NumAdd
    } else if vk == VK_SUBTRACT {
        KeyCode::NumSub
    } else if vk == VK_MULTIPLY {
        KeyCode::NumMul
    } else if vk == VK_DIVIDE {
        KeyCode::NumDiv
    } else if vk == VK_DECIMAL {
        KeyCode::NumDot
    } else if vk == VK_BACK {
        KeyCode::Backspace
    } else if vk == VK_TAB {
        KeyCode::Tab
    } else if vk == VK_RETURN {
        KeyCode::Enter
    } else if vk == VK_SPACE {
        KeyCode::Space
    } else if vk == VK_ESCAPE {
        KeyCode::Esc
    } else if vk == VK_CAPITAL {
        KeyCode::CapsLock
    } else if vk == VK_LCONTROL {
        KeyCode::LeftCtrl
    } else if vk == VK_LSHIFT {
        KeyCode::LeftShift
    } else if vk == VK_LMENU {
        KeyCode::LeftAlt
    } else if vk == VK_RCONTROL {
        KeyCode::RightCtrl
    } else if vk == VK_RSHIFT {
        KeyCode::RightShift
    } else if vk == VK_RMENU {
        KeyCode::RightAlt
    } else if vk == VK_SCROLL {
        KeyCode::ScrollLock
    } else if vk == VK_NUMLOCK {
        KeyCode::NumLock
    } else if vk == VK_DELETE {
        KeyCode::Delete
    } else if vk == VK_INSERT {
        KeyCode::Insert
    } else if vk == VK_HOME {
        KeyCode::Home
    } else if vk == VK_END {
        KeyCode::End
    } else if vk == VK_PRIOR {
        KeyCode::PageUp
    } else if vk == VK_NEXT {
        KeyCode::PageDown
    } else if vk == VK_CLEAR {
        KeyCode::Clear
    } else if vk == VK_LBUTTON {
        KeyCode::LeftButton
    } else if vk == VK_RBUTTON {
        KeyCode::RightButton
    } else if vk == VK_MBUTTON {
        KeyCode::MiddleButton
    } else if vk == VK_XBUTTON1 {
        KeyCode::X1Button
    } else if vk == VK_XBUTTON2 {
        KeyCode::X2Button
    } else if vk == VK_LEFT {
        KeyCode::Left
    } else if vk == VK_UP {
        KeyCode::Up
    } else if vk == VK_RIGHT {
        KeyCode::Right
    } else if vk == VK_DOWN {
        KeyCode::Down
    } else {
        KeyCode::Unknown(vk)
    }
}

/// The virtual-key code for a key; zero for a key without one.
pub fn key_to_vk(key: KeyCode) -> (vk: i32)
    ensures
        vk == code_of(key),
{
    match key {
        KeyCode::Alpha(c) => c as i32,
        KeyCode::N(c) => c as i32,
        KeyCode::F(n) => if 1 <= n && n <= 12 {
            VK_F1 + (n as i32 - 1)
        } else {
            0
        },
        KeyCode::Num(n) => if n <= 9 {
            VK_NUMPAD0 + n as i32
        } else {
            0
        },
        KeyCode::Symbol(c) => {
            if c == ';' {
                VK_OEM_1
            } else if c == '/' {
                VK_OEM_2
            } else if c == '`' {
                VK_OEM_3
            } else if c == '[' {
                VK_OEM_4
            } else if c == '\\' {
                VK_OEM_5
            } else if c == ']' {
                VK_OEM_6
            } else if c == '\'' {
                VK_OEM_7
            } else if c == '+' {
                VK_OEM_PLUS
            } else if c == ',' {
                VK_OEM_COMMA
            } else if c == '-' {
                VK_OEM_MINUS
            } else if c == '.' {
                VK_OEM_PERIOD
            } else {
                0
            }
        },
        KeyCode::Shift => VK_SHIFT,
        KeyCode::Ctrl => VK_CONTROL,
        KeyCode::Alt => VK_MENU,
        KeyCode::NumAdd => VK_ADD,
        KeyCode::NumSub => VK_SUBTRACT,
        KeyCode::NumMul => VK_MULTIPLY,
        KeyCode::NumDiv => VK_DIVIDE,
        KeyCode::NumDot => VK_DECIMAL,
        KeyCode::Backspace => VK_BACK,
        KeyCode::Tab => VK_TAB,
        KeyCode::Enter => VK_RETURN,
        KeyCode::Space => VK_SPACE,
        KeyCode::Esc => VK_ESCAPE,
        KeyCode::CapsLock => VK_CAPITAL,
        KeyCode::LeftCtrl => VK_LCONTROL,
        KeyCode::LeftShift => VK_LSHIFT,
        KeyCode::LeftAlt => VK_LMENU,
        KeyCode::RightCtrl => VK_RCONTROL,
        KeyCode::RightShift => VK_RSHIFT,
        KeyCode::RightAlt => VK_RMENU,
        KeyCode::ScrollLock => VK_SCROLL,
        KeyCode::NumLock => VK_NUMLOCK,
        KeyCode::Delete => VK_DELETE,
        KeyCode::Insert => VK_INSERT,
        KeyCode::Home => VK_HOME,
        KeyCode::End => VK_END,
        KeyCode::PageUp => VK_PRIOR,
        KeyCode::PageDown => VK_NEXT,
        KeyCode::Clear => VK_CLEAR,
        KeyCode::LeftButton => VK_LBUTTON,
        KeyCode::RightButton => VK_RBUTTON,
        KeyCode::MiddleButton => VK_MBUTTON,
        KeyCode::X1Button => VK_XBUTTON1,
        KeyCode::X2Button => VK_XBUTTON2,
        KeyCode::Left => VK_LEFT,
        KeyCode::Up => VK_UP,
        KeyCode::Right => VK_RIGHT,
        KeyCode::Down => VK_DOWN,
        KeyCode::Unknown(_) => 0,
    }
}

/// A code that stands for a key is the code of that key: taking it to
/// a key and back gives the same code.
pub proof fn law_code_round_trip(vk: i32)
    requires
        !(key_of(vk) is Unknown),
    ensures
        code_of(key_of(vk)) == vk,
{
}

/// A key that some code stands for is the key of its own code, and that
/// code is not zero.
pub proof fn law_key_round_trip(vk: i32)
    requires
        !(key_of(vk) is Unknown),
    ensures
        code_of(key_of(vk)) != 0,
        key_of(code_of(key_of(vk))) == key_of(vk),
{
}

} // verus!
