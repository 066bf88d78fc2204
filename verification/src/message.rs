//! What a window message means to the toolkit.
//!
//! The window procedure receives a message number and two machine words.
//! `decode` reads them and says what the procedure is to do; the procedure
//! itself, which does it, lives with the windowing system.

use crate::event::{Event, HotKeyFlags, ModifierKey, MouseButton, MouseWheel, WindowSize};
use crate::keys::{key_of, vk_to_key};
use crate::style::read_hotkey;
use crate::types::{half, Point, Size};
use crate::window::Window;
use vstd::prelude::*;

verus! {

pub const WM_CREATE: u32 = 0x0001;

pub const WM_DESTROY: u32 = 0x0002;

pub const WM_MOVE: u32 = 0x0003;

pub const WM_SIZE: u32 = 0x0005;

pub const WM_ENABLE: u32 = 0x000A;

pub const WM_PAINT: u32 = 0x000F;

pub const WM_GETMINMAXINFO: u32 = 0x0024;

pub const WM_KEYDOWN: u32 = 0x0100;

pub const WM_KEYUP: u32 = 0x0101;

pub const WM_CHAR: u32 = 0x0102;

pub const WM_SYSKEYDOWN: u32 = 0x0104;

pub const WM_SYSKEYUP: u32 = 0x0105;

pub const WM_TIMER: u32 = 0x0113;

pub const WM_MOUSEMOVE: u32 = 0x0200;

pub const WM_LBUTTONDOWN: u32 = 0x0201;

pub const WM_LBUTTONUP: u32 = 0x0202;

pub const WM_LBUTTONDBLCLK: u32 = 0x0203;

pub const WM_RBUTTONDOWN: u32 = 0x0204;

pub const WM_RBUTTONUP: u32 = 0x0205;

pub const WM_RBUTTONDBLCLK: u32 = 0x0206;

pub const WM_MBUTTONDOWN: u32 = 0x0207;

pub const WM_MBUTTONUP: u32 = 0x0208;

pub const WM_MBUTTONDBLCLK: u32 = 0x0209;

pub const WM_MOUSEWHEEL: u32 = 0x020A;

pub const WM_XBUTTONDOWN: u32 = 0x020B;

pub const WM_XBUTTONUP: u32 = 0x020C;

pub const WM_XBUTTONDBLCLK: u32 = 0x020D;

pub const WM_MOUSEHOVER: u32 = 0x02A1;

pub const WM_MOUSELEAVE: u32 = 0x02A3;

pub const WM_HOTKEY: u32 = 0x0312;

/// A message that carries an object for the element.
pub const USER_DEF_MSG: u32 = 0x0401;

/// The message that tells a window that its element is ready.
pub const WINDOW_CREATED_MSG: u32 = 0x0402;

pub const MK_LBUTTON: u64 = 0x0001;

pub const MK_RBUTTON: u64 = 0x0002;

pub const MK_SHIFT: u64 = 0x0004;

pub const MK_CONTROL: u64 = 0x0008;

pub const MK_MBUTTON: u64 = 0x0010;

pub const MK_XBUTTON1: u64 = 0x0020;

pub const MK_XBUTTON2: u64 = 0x0040;

pub const SIZE_RESTORED: u64 = 0;

pub const SIZE_MINIMIZED: u64 = 1;

pub const SIZE_MAXIMIZED: u64 = 2;

pub const SIZE_MAXSHOW: u64 = 3;

pub const SIZE_MAXHIDE: u64 = 4;

/// What the window procedure is to do with a message.
#[derive(Debug, Clone, Copy, PartialEq, Eq, Structural)]
pub enum Reaction {
    /// The window is being created: remember its element, count the window
    /// and start to track the mouse. Default processing follows.
    Adopt,
    /// The window is being destroyed: hand `WindowDestroyed` to the
    /// element, count the window out and end the application with the last
    /// one. The message is done.
    Retire,
    /// Let the element draw. The message is done.
    Paint,
    /// Hand the event to the element. The message is done.
    Deliver(Event),
    /// Hand the event to the element and track the mouse anew. The message
    /// is done.
    Track(Event),
    /// Hand the event to the element and remember whether the mouse now
    /// rests over it. The message is done.
    Rest { event: Event, hover: bool },
    /// Fill in the bounds of the window's size. The message is done.
    Bound,
    /// Hand the object that came with the message to the element. Default
    /// processing follows.
    Message,
    /// Hand the event to the element. Default processing follows.
    Announce(Event),
    /// Nothing to hand out. The message is done.
    Done,
    /// Default processing only.
    Pass,
}

/// The lower 16 bits of a word.
pub open spec fn low_word(v: u64) -> int {
    v as int % 0x1_0000
}

/// Bits 16 to 31 of a word.
pub open spec fn high_word(v: u64) -> int {
    (v as int / 0x1_0000) % 0x1_0000
}

/// The position that a message carries in its second word: x in the lower
/// 16 bits, y in the next 16, both taken as not negative.
pub open spec fn position_of(lparam: u64) -> Point {
    Point { x: low_word(lparam) as i32, y: high_word(lparam) as i32 }
}

/// The size that a message carries in its second word: width in the lower
/// 16 bits, height in the next 16.
pub open spec fn size_of(lparam: u64) -> Size {
    Size { width: low_word(lparam) as i32, height: high_word(lparam) as i32 }
}

/// What was held during a mouse event, read from the key state: one key or
/// button if exactly that one was held, nothing otherwise.
pub open spec fn modifier_of(state: u64) -> ModifierKey {
    if state == MK_LBUTTON {
        ModifierKey::Mouse(MouseButton::Left)
    } else if state == MK_RBUTTON {
        ModifierKey::Mouse(MouseButton::Right)
    } else if state == MK_MBUTTON {
        ModifierKey::Mouse(MouseButton::Middle)
    } else if state == MK_XBUTTON1 {
        ModifierKey::Mouse(MouseButton::Other(1))
    } else if state == MK_XBUTTON2 {
        ModifierKey::Mouse(MouseButton::Other(2))
    } else if state == MK_CONTROL {
        ModifierKey::Ctrl
    } else if state == MK_SHIFT {
        ModifierKey::Shift
    } else {
        ModifierKey::NoModifier
    }
}

/// How a window came to its size, read from the first word of a size
/// message.
pub open spec fn resize_of(wparam: u64) -> WindowSize {
    if wparam == SIZE_MAXIMIZED {
        WindowSize::Maximize
    } else if wparam == SIZE_MINIMIZED {
        WindowSize::Minimize
    } else if wparam == SIZE_RESTORED {
        WindowSize::Restore
    } else if wparam == SIZE_MAXHIDE {
        WindowSize::MaxHide
    } else if wparam == SIZE_MAXSHOW {
        WindowSize::MaxShow
    } else {
        WindowSize::Resize
    }
}

/// The message tells of a mouse button going down.
pub open spec fn is_button_down(msg: u32) -> bool {
    msg == WM_LBUTTONDOWN || msg == WM_RBUTTONDOWN || msg == WM_MBUTTONDOWN || msg
        == WM_XBUTTONDOWN
}

/// The message tells of a mouse button coming up.
pub open spec fn is_button_up(msg: u32) -> bool {
    msg == WM_LBUTTONUP || msg == WM_RBUTTONUP || msg == WM_MBUTTONUP || msg == WM_XBUTTONUP
}

/// The message tells of a double click.
pub open spec fn is_double_click(msg: u32) -> bool {
    msg == WM_LBUTTONDBLCLK || msg == WM_RBUTTONDBLCLK || msg == WM_MBUTTONDBLCLK || msg
        == WM_XBUTTONDBLCLK
}

/// The button that a mouse button message is about. Of the extension
/// buttons the first word tells which one it is.
pub open spec fn button_of(msg: u32, wparam: u64) -> MouseButton {
    if msg == WM_LBUTTONDOWN || msg == WM_LBUTTONUP || msg == WM_LBUTTONDBLCLK {
        MouseButton::Left
    } else if msg == WM_RBUTTONDOWN || msg == WM_RBUTTONUP || msg == WM_RBUTTONDBLCLK {
        MouseButton::Right
    } else if msg == WM_MBUTTONDOWN || msg == WM_MBUTTONUP || msg == WM_MBUTTONDBLCLK {
        MouseButton::Middle
    } else if high_word(wparam) == 1 {
        MouseButton::Other(1)
    } else if high_word(wparam) == 2 {
        MouseButton::Other(2)
    } else {
        MouseButton::Other(0)
    }
}

/// The event of a mouse button message.
pub open spec fn button_event(msg: u32, wparam: u64, lparam: u64) -> Event {
    let button = button_of(msg, wparam);
    let pos = position_of(lparam);
    let mk = modifier_of(wparam);
    if is_button_down(msg) {
        Event::MouseButtonPressed { button, pos, mk }
    } else if is_button_up(msg) {
        Event::MouseButtonReleased { button, pos, mk }
    } else {
        Event::MouseDoubleClicked { button, pos, mk }
    }
}

/// The lower 32 bits of a word, read as a signed number.
pub open spec fn signed_low(v: u64) -> i32 {
    let low = v as int % 0x1_0000_0000;
    if low <= i32::MAX {
        low as i32
    } else {
        (low - 0x1_0000_0000) as i32
    }
}

/// The event of a key message.
pub open spec fn key_event(msg: u32, wparam: u64) -> Event {
    let key = key_of(signed_low(wparam));
    if msg == WM_KEYDOWN {
        Event::KeyPressed { key, sys: false }
    } else if msg == WM_KEYUP {
        Event::KeyReleased { key, sys: false }
    } else if msg == WM_SYSKEYDOWN {
        Event::KeyPressed { key, sys: true }
    } else {
        Event::KeyReleased { key, sys: true }
    }
}

/// The wheel turned away from the user: the distance in bits 16 to 31 of
/// the first word, read as a signed number, is positive.
pub open spec fn wheel_of(wparam: u64) -> MouseWheel {
    if 1 <= high_word(wparam) <= 0x7fff {
        MouseWheel::Up
    } else {
        MouseWheel::Down
    }
}

/// A number is the code of a character: a Unicode scalar value.
pub open spec fn is_scalar(code: int) -> bool {
    0 <= code < 0xD800 || 0xDFFF < code <= 0x10_FFFF
}

/// The character that a character message carries.
pub open spec fn code_of_char(wparam: u64) -> int {
    wparam as int % 0x1_0000_0000
}

/// What the window procedure is to do with the message `msg` and its two
/// words, where `hover` tells whether the mouse already rests over the
/// window. A character message is not covered here: what it delivers is
/// the character whose code it carries.
pub open spec fn reaction_of(msg: u32, wparam: u64, lparam: u64, hover: bool) -> Reaction {
    if msg == WM_CREATE {
        Reaction::Adopt
    } else if msg == WM_DESTROY {
        Reaction::Retire
    } else if msg == WM_PAINT {
        Reaction::Paint
    } else if is_button_down(msg) || is_button_up(msg) || is_double_click(msg) {
        Reaction::Deliver(button_event(msg, wparam, lparam))
    } else if msg == WM_MOUSEMOVE {
        Reaction::Track(
            Event::MouseMoved {
                pos: position_of(lparam),
                mk: modifier_of((low_word(wparam)) as u64),
            },
        )
    } else if msg == WM_MOUSEWHEEL {
        Reaction::Deliver(
            Event::MouseWheelScrolled {
                wheel: wheel_of(wparam),
                pos: position_of(lparam),
                mk: modifier_of((low_word(wparam)) as u64),
            },
        )
    } else if msg == WM_SIZE {
        Reaction::Deliver(Event::WindowResized { size: size_of(lparam), ty: resize_of(wparam) })
    } else if msg == WM_MOVE {
        Reaction::Deliver(Event::WindowMoved { pos: position_of(lparam) })
    } else if msg == WM_KEYDOWN || msg == WM_KEYUP || msg == WM_SYSKEYDOWN || msg == WM_SYSKEYUP {
        Reaction::Deliver(key_event(msg, wparam))
    } else if msg == WM_HOTKEY {
        Reaction::Deliver(
            Event::HotKey {
                key: key_of(high_word(lparam) as i32),
                modifiers: HotKeyFlags::read(low_word(lparam) as u32),
            },
        )
    } else if msg == WM_ENABLE {
        Reaction::Deliver(
            if wparam != 0 {
                Event::WindowEnable
            } else {
                Event::WindowDisable
            },
        )
    } else if msg == WM_TIMER {
        Reaction::Deliver(Event::Timer { id: wparam as usize })
    } else if msg == WM_MOUSELEAVE {
        if hover {
            Reaction::Rest { event: Event::Leave, hover: false }
        } else {
            Reaction::Done
        }
    } else if msg == WM_MOUSEHOVER {
        if !hover {
            Reaction::Rest {
                event: Event::Hover { pos: position_of(lparam), mk: modifier_of(wparam) },
                hover: true,
            }
        } else {
            Reaction::Done
        }
    } else if msg == WM_GETMINMAXINFO {
        Reaction::Bound
    } else if msg == USER_DEF_MSG {
        Reaction::Message
    } else if msg == WINDOW_CREATED_MSG {
        Reaction::Announce(Event::WindowCreated)
    } else {
        Reaction::Pass
    }
}

/// Converts a number into the character with that code.
///
/// Wraps `char::from_u32` of the standard library, which returns the
/// character with the given code if the code is a Unicode scalar value,
/// that is, not above `0x10FFFF` and not a surrogate, and `None` if it is
/// not.
#[verifier::external_body]
fn character(code: u32) -> (c: Option<char>)
    ensures
        c is Some <==> is_scalar(code as int),
        c is Some ==> c->0 as u32 == code,
{
    char::from_u32(code)
}

/// The lower 16 bits of a word.
fn low(v: u64) -> (w: u32)
    ensures
        w == low_word(v),
{
    (v % 0x1_0000) as u32
}

/// Bits 16 to 31 of a word.
fn high(v: u64) -> (w: u32)
    ensures
        w == high_word(v),
{
    ((v / 0x1_0000) % 0x1_0000) as u32
}

/// The position in the second word of a message.
pub(crate) fn position(lparam: u64) -> (p: Point)
    ensures
        p == position_of(lparam),
{
    Point { x: low(lparam) as i32, y: high(lparam) as i32 }
}

/// What was held during a mouse event.
fn modifier(state: u64) -> (mk: ModifierKey)
    ensures
        mk == modifier_of(state),
{
    if state == MK_LBUTTON {
        ModifierKey::Mouse(MouseButton::Left)
    } else if state == MK_RBUTTON {
        ModifierKey::Mouse(MouseButton::Right)
    } else if state == MK_MBUTTON {
        ModifierKey::Mouse(MouseButton::Middle)
    } else if state == MK_XBUTTON1 {
        ModifierKey::Mouse(MouseButton::Other(1))
    } else if state == MK_XBUTTON2 {
        ModifierKey::Mouse(MouseButton::Other(2))
    } else if state == MK_CONTROL {
        ModifierKey::Ctrl
    } else if state == MK_SHIFT {
        ModifierKey::Shift
    } else {
        ModifierKey::NoModifier
    }
}

/// The lower 32 bits of a word, read as a signed number.
pub(crate) fn signed(v: u64) -> (n: i32)
    ensures
        n == signed_low(v),
{
    let low: u64 = v % 0x1_0000_0000;
    if low <= 0x7fff_ffff {
        low as i32
    } else {
        (low as i64 - 0x1_0000_0000) as i32
    }
}

/// The event of a mouse button message; none for any other message.
pub fn handle_mouse_event(msg: u32, wparam: u64, lparam: u64) -> (event: Option<Event>)
    ensures
        event == if is_button_down(msg) || is_button_up(msg) || is_double_click(msg) {
            Some(button_event(msg, wparam, lparam))
        } else {
            None
        },
{
    let button = if msg == WM_LBUTTONDOWN || msg == WM_LBUTTONUP || msg == WM_LBUTTONDBLCLK {
        MouseButton::Left
    } else if msg == WM_RBUTTONDOWN || msg == WM_RBUTTONUP || msg == WM_RBUTTONDBLCLK {
        MouseButton::Right
    } else if msg == WM_MBUTTONDOWN || msg == WM_MBUTTONUP || msg == WM_MBUTTONDBLCLK {
        MouseButton::Middle
    } else if high(wparam) == 1 {
        MouseButton::Other(1)
    } else if high(wparam) == 2 {
        MouseButton::Other(2)
    } else {
        MouseButton::Other(0)
    };
    let pos = position(lparam);
    let mk = modifier(wparam);
    if msg == WM_LBUTTONDOWN || msg == WM_RBUTTONDOWN || msg == WM_MBUTTONDOWN || msg
        == WM_XBUTTONDOWN {
        Some(Event::MouseButtonPressed { button, pos, mk })
    } else if msg == WM_LBUTTONUP || msg == WM_RBUTTONUP || msg == WM_MBUTTONUP || msg
        == WM_XBUTTONUP {
        Some(Event::MouseButtonReleased { button, pos, mk })
    } else if msg == WM_LBUTTONDBLCLK || msg == WM_RBUTTONDBLCLK || msg == WM_MBUTTONDBLCLK || msg
        == WM_XBUTTONDBLCLK {
        Some(Event::MouseDoubleClicked { button, pos, mk })
    } else {
        None
    }
}

/// The event of a key message; none for any other message.
pub fn handle_key_event(msg: u32, wparam: u64) -> (event: Option<Event>)
    ensures
        event == if msg == WM_KEYDOWN || msg == WM_KEYUP || msg == WM_SYSKEYDOWN || msg
            == WM_SYSKEYUP {
            Some(key_event(msg, wparam))
        } else {
            None
        },
{
    let key = vk_to_key(signed(wparam));
    if msg == WM_KEYDOWN {
        Some(Event::KeyPressed { key, sys: false })
    } else if msg == WM_KEYUP {
        Some(Event::KeyReleased { key, sys: false })
    } else if msg == WM_SYSKEYDOWN {
        Some(Event::KeyPressed { key, sys: true })
    } else if msg == WM_SYSKEYUP {
        Some(Event::KeyReleased { key, sys: true })
    } else {
        None
    }
}

/// Whether `decode` may be called on a message: a character message must
/// carry the code of a character.
pub fn decodable(msg: u32, wparam: u64) -> (ok: bool)
    ensures
        ok == (msg == WM_CHAR ==> is_scalar(code_of_char(wparam))),
{
    if msg == WM_CHAR {
        character((wparam % 0x1_0000_0000) as u32).is_some()
    } else {
        true
    }
}

/// Says what the window procedure is to do with the message `msg` and its
/// two words. `hover` tells whether the mouse already rests over the
/// window, so that resting and leaving are told to the element once each.
pub fn decode(msg: u32, wparam: u64, lparam: u64, hover: bool) -> (reaction: Reaction)
    requires
        msg == WM_CHAR ==> is_scalar(code_of_char(wparam)),
    ensures
        msg != WM_CHAR ==> reaction == reaction_of(msg, wparam, lparam, hover),
        msg == WM_CHAR ==> (reaction matches Reaction::Deliver(Event::Input { ch }) && ch as u32
            == code_of_char(wparam)),
{
    if msg == WM_CREATE {
        Reaction::Adopt
    } else if msg == WM_DESTROY {
        Reaction::Retire
    } else if msg == WM_PAINT {
        Reaction::Paint
    } else if msg == WM_LBUTTONDOWN || msg == WM_RBUTTONDOWN || msg == WM_MBUTTONDOWN || msg
        == WM_XBUTTONDOWN || msg == WM_LBUTTONUP || msg == WM_RBUTTONUP || msg == WM_MBUTTONUP
        || msg == WM_XBUTTONUP || msg == WM_LBUTTONDBLCLK || msg == WM_RBUTTONDBLCLK || msg
        == WM_MBUTTONDBLCLK || msg == WM_XBUTTONDBLCLK {
        match handle_mouse_event(msg, wparam, lparam) {
            Some(event) => Reaction::Deliver(event),
            None => Reaction::Pass,
        }
    } else if msg == WM_MOUSEMOVE {
        Reaction::Track(
            Event::MouseMoved { pos: position(lparam), mk: modifier(low(wparam) as u64) },
        )
    } else if msg == WM_MOUSEWHEEL {
        let distance = high(wparam);
        let wheel = if 1 <= distance && distance <= 0x7fff {
            MouseWheel::Up
        } else {
            MouseWheel::Down
        };
        Reaction::Deliver(
            Event::MouseWheelScrolled {
                wheel,
                pos: position(lparam),
                mk: modifier(low(wparam) as u64),
            },
        )
    } else if msg == WM_SIZE {
        let size = Size { width: low(lparam) as i32, height: high(lparam) as i32 };
        let ty = if wparam == SIZE_MAXIMIZED {
            WindowSize::Maximize
        } else if wparam == SIZE_MINIMIZED {
            WindowSize::Minimize
        } else if wparam == SIZE_RESTORED {
            WindowSize::Restore
        } else if wparam == SIZE_MAXHIDE {
            WindowSize::MaxHide
        } else if wparam == SIZE_MAXSHOW {
            WindowSize::MaxShow
        } else {
            WindowSize::Resize
        };
        Reaction::Deliver(Event::WindowResized { size, ty })
    } else if msg == WM_MOVE {
        Reaction::Deliver(Event::WindowMoved { pos: position(lparam) })
    } else if msg == WM_KEYDOWN || msg == WM_KEYUP || msg == WM_SYSKEYDOWN || msg == WM_SYSKEYUP {
        match handle_key_event(msg, wparam) {
            Some(event) => Reaction::Deliver(event),
            None => Reaction::Pass,
        }
    } else if msg == WM_CHAR {
        match character((wparam % 0x1_0000_0000) as u32) {
            Some(ch) => Reaction::Deliver(Event::Input { ch }),
            None => Reaction::Pass,
        }
    } else if msg == WM_HOTKEY {
        Reaction::Deliver(
            Event::HotKey {
                key: vk_to_key(high(lparam) as i32),
                modifiers: read_hotkey(low(lparam)),
            },
        )
    } else if msg == WM_ENABLE {
        Reaction::Deliver(
            if wparam != 0 {
                Event::WindowEnable
            } else {
                Event::WindowDisable
            },
        )
    } else if msg == WM_TIMER {
        Reaction::Deliver(Event::Timer { id: #[verifier::truncate] (wparam as usize) })
    } else if msg == WM_MOUSELEAVE {
        if hover {
            Reaction::Rest { event: Event::Leave, hover: false }
        } else {
            Reaction::Done
        }
    } else if msg == WM_MOUSEHOVER {
        if !hover {
            Reaction::Rest {
                event: Event::Hover { pos: position(lparam), mk: modifier(wparam) },
                hover: true,
            }
        } else {
            Reaction::Done
        }
    } else if msg == WM_GETMINMAXINFO {
        Reaction::Bound
    } else if msg == USER_DEF_MSG {
        Reaction::Message
    } else if msg == WINDOW_CREATED_MSG {
        Reaction::Announce(Event::WindowCreated)
    } else {
        Reaction::Pass
    }
}

/// The bounds that the windowing system is told for a window: the least
/// and the greatest size to which it can be dragged, and size and place of
/// the maximized window.
#[derive(Debug, Clone, Copy, PartialEq, Eq, Structural)]
pub struct TrackBounds {
    pub min_track: Size,
    pub max_track: Size,
    pub max_size: Size,
    pub max_position: Point,
}

/// The value of a bound, or `otherwise` where the bound is lifted.
pub open spec fn bound_or(bound: Option<i32>, otherwise: i32) -> i32 {
    match bound {
        Some(v) => v,
        None => otherwise,
    }
}

/// The bounds of a window on a screen of size `screen`: a lifted minimum
/// is zero, a lifted maximum is the screen, and the maximized window is
/// centred on the screen.
pub open spec fn bounds_of(window: Window, screen: Size) -> TrackBounds {
    let most = Size {
        width: bound_or(window.max_width, screen.width),
        height: bound_or(window.max_height, screen.height),
    };
    TrackBounds {
        min_track: Size {
            width: bound_or(window.min_width, 0),
            height: bound_or(window.min_height, 0),
        },
        max_track: most,
        max_size: most,
        max_position: Point {
            x: half(screen.width - most.width) as i32,
            y: half(screen.height - most.height) as i32,
        },
    }
}

/// Half of the difference of two coordinates, rounded toward zero.
fn half_between(a: i32, b: i32) -> (h: i32)
    ensures
        h == half(a - b),
{
    ((a as i64 - b as i64) / 2) as i32
}

/// Works out the bounds that the windowing system is told for `window` on
/// a screen of size `screen`.
pub fn track_bounds(window: &Window, screen: Size) -> (bounds: TrackBounds)
    ensures
        bounds == bounds_of(*window, screen),
{
    let min_width = match window.min_width {
        Some(v) => v,
        None => 0,
    };
    let min_height = match window.min_height {
        Some(v) => v,
        None => 0,
    };
    let max_width = match window.max_width {
        Some(v) => v,
        None => screen.width,
    };
    let max_height = match window.max_height {
        Some(v) => v,
        None => screen.height,
    };
    TrackBounds {
        min_track: Size { width: min_width, height: min_height },
        max_track: Size { width: max_width, height: max_height },
        max_size: Size { width: max_width, height: max_height },
        max_position: Point {
            x: half_between(screen.width, max_width),
            y: half_between(screen.height, max_height),
        },
    }
}

/// The mouse is told to rest over a window only while it does not, and to
/// leave it only while it rests: after either, the state has changed.
pub proof fn law_hover_alternates(msg: u32, wparam: u64, lparam: u64, hover: bool)
    requires
        msg == WM_MOUSEHOVER || msg == WM_MOUSELEAVE,
    ensures
        match reaction_of(msg, wparam, lparam, hover) {
            Reaction::Rest { event, hover: now } => now != hover && (now <==> event is Hover),
            Reaction::Done => hover == (msg == WM_MOUSEHOVER),
            _ => false,
        },
{
}

} // verus!
