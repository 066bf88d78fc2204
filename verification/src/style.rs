//! The frame of a window and the modifiers of a hot key, and the flag words
//! that the windowing system knows them by.

use crate::event::HotKeyFlags;
use vstd::prelude::*;

verus! {

/// What the frame of a window offers.
#[derive(Debug, Clone, Copy, PartialEq, Eq, Structural)]
pub struct WindowStyle {
    pub border: bool,
    pub resize: bool,
    pub caption: bool,
    pub child: bool,
    pub sysmenu: bool,
    pub maxbox: bool,
    pub minbox: bool,
    pub topmost: bool,
}

impl Default for WindowStyle {
    /// An ordinary top-level window: resizable, with a caption, a system
    /// menu and both boxes.
    fn default() -> (style: WindowStyle)
        ensures
            style == WindowStyle::ordinary(),
    {
        WindowStyle {
            border: false,
            resize: true,
            caption: true,
            child: false,
            sysmenu: true,
            maxbox: true,
            minbox: true,
            topmost: false,
        }
    }
}

pub const WS_MAXIMIZEBOX: u32 = 0x0001_0000;

pub const WS_MINIMIZEBOX: u32 = 0x0002_0000;

pub const WS_THICKFRAME: u32 = 0x0004_0000;

pub const WS_SYSMENU: u32 = 0x0008_0000;

pub const WS_BORDER: u32 = 0x0080_0000;

/// A caption, which comes with a border.
pub const WS_CAPTION: u32 = 0x00C0_0000;

pub const WS_CHILD: u32 = 0x4000_0000;

pub const WS_EX_TOPMOST: u32 = 0x0000_0008;

pub const MOD_ALT: u32 = 0x0001;

pub const MOD_CONTROL: u32 = 0x0002;

pub const MOD_SHIFT: u32 = 0x0004;

pub const MOD_WIN: u32 = 0x0008;

/// Holding the hot key down does not repeat it.
pub const MOD_NOREPEAT: u32 = 0x4000;

/// `flag` where `on` holds, else no bit.
pub open spec fn bit_if(on: bool, flag: u32) -> u32 {
    if on {
        flag
    } else {
        0
    }
}

/// Whether `word` has a bit in common with `flag`.
pub open spec fn has_any(word: u32, flag: u32) -> bool {
    word & flag != 0
}

impl WindowStyle {
    /// The style of an ordinary top-level window.
    pub open spec fn ordinary() -> WindowStyle {
        WindowStyle {
            border: false,
            resize: true,
            caption: true,
            child: false,
            sysmenu: true,
            maxbox: true,
            minbox: true,
            topmost: false,
        }
    }

    /// The style word of a window with this frame. Whether the window
    /// stays on top is not part of the word.
    pub open spec fn word(self) -> u32 {
        bit_if(self.border, WS_BORDER) | bit_if(self.caption, WS_CAPTION) | bit_if(
            self.child,
            WS_CHILD,
        ) | bit_if(self.resize, WS_THICKFRAME) | bit_if(self.sysmenu, WS_SYSMENU) | bit_if(
            self.minbox,
            WS_MINIMIZEBOX,
        ) | bit_if(self.maxbox, WS_MAXIMIZEBOX)
    }

    /// The frame that a style word and an extended style word describe,
    /// read on top of the ordinary style: a flag that is set switches its
    /// part on, a flag that is clear leaves the part as the ordinary style
    /// has it.
    pub open spec fn read(style: u32, ex_style: u32) -> WindowStyle {
        WindowStyle {
            border: has_any(style, WS_BORDER),
            resize: true,
            caption: true,
            child: has_any(style, WS_CHILD),
            sysmenu: true,
            maxbox: true,
            minbox: true,
            topmost: has_any(ex_style, WS_EX_TOPMOST),
        }
    }
}

/// The style word with which a window of `style` is created.
pub fn style_word(style: WindowStyle) -> (word: u32)
    ensures
        word == style.word(),
{
    let mut word: u32 = 0;
    if style.border {
        word = word | WS_BORDER;
    }
    if style.caption {
        word = word | WS_CAPTION;
    }
    if style.child {
        word = word | WS_CHILD;
    }
    if style.resize {
        word = word | WS_THICKFRAME;
    }
    if style.sysmenu {
        word = word | WS_SYSMENU;
    }
    if style.minbox {
        word = word | WS_MINIMIZEBOX;
    }
    if style.maxbox {
        word = word | WS_MAXIMIZEBOX;
    }
    assert(word == style.word()) by {
        assert(forall|a: u32| #[trigger] (0u32 | a) == a) by (bit_vector);
        assert(forall|a: u32| #[trigger] (a | 0u32) == a) by (bit_vector);
    }
    word
}

/// Reads the frame of a window from its style word and its extended style
/// word.
pub fn read_style(style: u32, ex_style: u32) -> (frame: WindowStyle)
    ensures
        frame == WindowStyle::read(style, ex_style),
{
    let mut frame = WindowStyle {
        border: false,
        resize: true,
        caption: true,
        child: false,
        sysmenu: true,
        maxbox: true,
        minbox: true,
        topmost: false,
    };
    if style & WS_BORDER != 0 {
        frame.border = true;
    }
    if style & WS_CAPTION != 0 {
        frame.caption = true;
    }
    if style & WS_CHILD != 0 {
        frame.child = true;
    }
    if style & WS_THICKFRAME != 0 {
        frame.resize = true;
    }
    if style & WS_SYSMENU != 0 {
        frame.sysmenu = true;
    }
    if style & WS_MINIMIZEBOX != 0 {
        frame.minbox = true;
    }
    if style & WS_MAXIMIZEBOX != 0 {
        frame.maxbox = true;
    }
    if ex_style & WS_EX_TOPMOST != 0 {
        frame.topmost = true;
    }
    frame
}

/// The style word of a window without its maximize box.
pub fn without_maximize(style: u32) -> (word: u32)
    ensures
        word == style & !WS_MAXIMIZEBOX,
        !has_any(word, WS_MAXIMIZEBOX),
{
    let word = style & !WS_MAXIMIZEBOX;
    assert(word & 0x0001_0000u32 == 0) by (bit_vector)
        requires
            word == style & !0x0001_0000u32,
    ;
    word
}

/// The style word of a window with its maximize box.
pub fn with_maximize(style: u32) -> (word: u32)
    ensures
        word == style | WS_MAXIMIZEBOX,
        has_any(word, WS_MAXIMIZEBOX),
{
    let word = style | WS_MAXIMIZEBOX;
    assert(word & 0x0001_0000u32 != 0) by (bit_vector)
        requires
            word == style | 0x0001_0000u32,
    ;
    word
}

/// The style word of a window whose frame cannot be dragged to a new size.
pub fn without_sizing(style: u32) -> (word: u32)
    ensures
        word == style & !WS_THICKFRAME,
        !has_any(word, WS_THICKFRAME),
{
    let word = style & !WS_THICKFRAME;
    assert(word & 0x0004_0000u32 == 0) by (bit_vector)
        requires
            word == style & !0x0004_0000u32,
    ;
    word
}

impl HotKeyFlags {
    /// The modifier word of a hot key that does not repeat.
    pub open spec fn word(self) -> u32 {
        bit_if(self.alt, MOD_ALT) | bit_if(self.ctrl, MOD_CONTROL) | bit_if(self.shift, MOD_SHIFT)
            | bit_if(self.win, MOD_WIN) | MOD_NOREPEAT
    }

    /// The modifiers that a modifier word names.
    pub open spec fn read(word: u32) -> HotKeyFlags {
        HotKeyFlags {
            alt: has_any(word, MOD_ALT),
            ctrl: has_any(word, MOD_CONTROL),
            shift: has_any(word, MOD_SHIFT),
            win: has_any(word, MOD_WIN),
        }
    }
}

/// The modifier word with which a hot key is registered.
pub fn hotkey_word(flags: HotKeyFlags) -> (word: u32)
    ensures
        word == flags.word(),
{
    let alt: u32 = if flags.alt {
        MOD_ALT
    } else {
        0
    };
    let ctrl: u32 = if flags.ctrl {
        MOD_CONTROL
    } else {
        0
    };
    let shift: u32 = if flags.shift {
        MOD_SHIFT
    } else {
        0
    };
    let win: u32 = if flags.win {
        MOD_WIN
    } else {
        0
    };
    alt | ctrl | shift | win | MOD_NOREPEAT
}

/// Reads the modifiers of a hot key from a modifier word.
pub fn read_hotkey(word: u32) -> (flags: HotKeyFlags)
    ensures
        flags == HotKeyFlags::read(word),
{
    HotKeyFlags {
        alt: (word & MOD_ALT) != 0,
        ctrl: (word & MOD_CONTROL) != 0,
        shift: (word & MOD_SHIFT) != 0,
        win: (word & MOD_WIN) != 0,
    }
}

/// The modifiers of a hot key can be read back from the word with which it
/// was registered.
pub proof fn law_hotkey_round_trip(flags: HotKeyFlags)
    ensures
        HotKeyFlags::read(flags.word()) == flags,
{
    let a = bit_if(flags.alt, MOD_ALT);
    let c = bit_if(flags.ctrl, MOD_CONTROL);
    let s = bit_if(flags.shift, MOD_SHIFT);
    let w = bit_if(flags.win, MOD_WIN);
    let word = flags.word();
    assert((word & 1 != 0) == (a != 0) && (word & 2 != 0) == (c != 0) && (word & 4 != 0) == (s
        != 0) && (word & 8 != 0) == (w != 0)) by (bit_vector)
        requires
            word == a | c | s | w | 0x4000u32,
            a == 0 || a == 1,
            c == 0 || c == 2,
            s == 0 || s == 4,
            w == 0 || w == 8,
    ;
}

/// The parts of a frame that a style word can switch on are read back from
/// the word of a frame that has them.
pub proof fn law_style_round_trip(style: WindowStyle)
    ensures
        WindowStyle::read(style.word(), 0).child == style.child,
        style.border ==> WindowStyle::read(style.word(), 0).border,
        !style.border && !style.caption ==> !WindowStyle::read(style.word(), 0).border,
{
    let b = bit_if(style.border, WS_BORDER);
    let c = bit_if(style.caption, WS_CAPTION);
    let h = bit_if(style.child, WS_CHILD);
    let r = bit_if(style.resize, WS_THICKFRAME);
    let s = bit_if(style.sysmenu, WS_SYSMENU);
    let n = bit_if(style.minbox, WS_MINIMIZEBOX);
    let x = bit_if(style.maxbox, WS_MAXIMIZEBOX);
    let word = style.word();
    assert((word & 0x4000_0000 != 0) == (h != 0) && (b != 0 ==> word & 0x0080_0000 != 0) && (b == 0
        && c == 0 ==> word & 0x0080_0000 == 0)) by (bit_vector)
        requires
            word == b | c | h | r | s | n | x,
            b == 0 || b == 0x0080_0000,
            c == 0 || c == 0x00C0_0000,
            h == 0 || h == 0x4000_0000,
            r == 0 || r == 0x0004_0000,
            s == 0 || s == 0x0008_0000,
            n == 0 || n == 0x0002_0000,
            x == 0 || x == 0x0001_0000,
    ;
}

} // verus!
