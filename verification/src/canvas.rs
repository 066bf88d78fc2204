//! The styles of pens, fonts and text, and the numbers that the graphics
//! interface knows them by.

use crate::types::Color;
use vstd::prelude::*;

verus! {

/// The `LineStyle` is used to specify the style of the line.
#[derive(Debug, Clone, Copy, PartialEq, Eq, Structural)]
pub enum LineStyle {
    /// Solid line
    Solid,
    /// Dashed line
    Dash,
    /// Dotted line
    Dot,
    /// Dashed-dotted line
    DashDot,
    /// Dashed-dot-dotted line
    DashDotDot,
    /// Empty line (it will not be drawn)
    Null,
}

/// The `JoinStyle` is used to specify the style of the join between two
/// lines.
#[derive(Debug, Clone, Copy, PartialEq, Eq, Structural)]
pub enum JoinStyle {
    Miter,
    Round,
    Bevel,
}

/// The `CapStyle` is used to specify the style of the end caps of a line.
#[derive(Debug, Clone, Copy, PartialEq, Eq, Structural)]
pub enum CapStyle {
    Flat,
    Square,
    Round,
}

/// The `PenStyle` is used to specify the style of the pen.
#[derive(Debug, Clone, Copy, PartialEq, Eq, Structural)]
pub struct PenStyle {
    pub line_style: LineStyle,
    pub width: u32,
    pub color: Color,
    pub join_style: JoinStyle,
    pub cap_style: CapStyle,
}

impl Default for PenStyle {
    fn default() -> (style: PenStyle)
        ensures
            style == (PenStyle {
                line_style: LineStyle::Solid,
                width: 1,
                color: Color { red: 0, green: 0, blue: 0, alpha: 255 },
                join_style: JoinStyle::Miter,
                cap_style: CapStyle::Flat,
            }),
    {
        PenStyle {
            line_style: LineStyle::Solid,
            width: 1,
            color: Color { red: 0, green: 0, blue: 0, alpha: 255 },
            join_style: JoinStyle::Miter,
            cap_style: CapStyle::Flat,
        }
    }
}

/// How heavy the strokes of a font are.
#[derive(Debug, Clone, Copy, PartialEq, Eq, Structural)]
pub enum FontWeight {
    Default,
    Thin,
    ExtraLight,
    Light,
    Normal,
    Medium,
    SemiBold,
    Bold,
    ExtraBold,
    Black,
}

impl FontWeight {
    /// The weight on the scale from 100 (thin) to 900 (black); 0 leaves the
    /// choice to the system.
    pub open spec fn spec_value(self) -> i32 {
        match self {
            FontWeight::Default => 0,
            FontWeight::Thin => 100,
            FontWeight::ExtraLight => 200,
            FontWeight::Light => 300,
            FontWeight::Normal => 400,
            FontWeight::Medium => 500,
            FontWeight::SemiBold => 600,
            FontWeight::Bold => 700,
            FontWeight::ExtraBold => 800,
            FontWeight::Black => 900,
        }
    }

    /// The weight on the scale from 100 (thin) to 900 (black).
    pub fn value(self) -> (v: i32)
        ensures
            v == self.spec_value(),
    {
        match self {
            FontWeight::Default => 0,
            FontWeight::Thin => 100,
            FontWeight::ExtraLight => 200,
            FontWeight::Light => 300,
            FontWeight::Normal => 400,
            FontWeight::Medium => 500,
            FontWeight::SemiBold => 600,
            FontWeight::Bold => 700,
            FontWeight::ExtraBold => 800,
            FontWeight::Black => 900,
        }
    }
}

/// The `TextAlign` is used to specify the alignment of the text.
#[derive(Debug, Clone, Copy, PartialEq, Eq, Structural)]
pub enum TextAlign {
    LeftTop,
    LeftMiddle,
    LeftBottom,
    CenterTop,
    Center,
    CenterBottom,
    RightTop,
    RightMiddle,
    RightBottom,
}

impl Default for TextAlign {
    fn default() -> (align: TextAlign)
        ensures
            align == TextAlign::LeftTop,
    {
        TextAlign::LeftTop
    }
}

pub const PS_SOLID: u32 = 0;

pub const PS_DASH: u32 = 1;

pub const PS_DOT: u32 = 2;

pub const PS_DASHDOT: u32 = 3;

pub const PS_DASHDOTDOT: u32 = 4;

pub const PS_NULL: u32 = 5;

pub const PS_ENDCAP_ROUND: u32 = 0x0000;

pub const PS_ENDCAP_SQUARE: u32 = 0x0100;

pub const PS_ENDCAP_FLAT: u32 = 0x0200;

pub const PS_JOIN_ROUND: u32 = 0x0000;

pub const PS_JOIN_BEVEL: u32 = 0x1000;

pub const PS_JOIN_MITER: u32 = 0x2000;

pub const PS_GEOMETRIC: u32 = 0x0001_0000;

pub const DT_TOP: u32 = 0x00;

pub const DT_LEFT: u32 = 0x00;

pub const DT_CENTER: u32 = 0x01;

pub const DT_RIGHT: u32 = 0x02;

pub const DT_VCENTER: u32 = 0x04;

pub const DT_BOTTOM: u32 = 0x08;

pub const DT_SINGLELINE: u32 = 0x20;

pub const TA_LEFT: u32 = 0;

pub const TA_RIGHT: u32 = 2;

pub const TA_CENTER: u32 = 6;

pub const TA_TOP: u32 = 0;

pub const TA_BOTTOM: u32 = 8;

impl LineStyle {
    /// The number of the line style.
    pub open spec fn bits(self) -> u32 {
        match self {
            LineStyle::Solid => PS_SOLID,
            LineStyle::Dash => PS_DASH,
            LineStyle::Dot => PS_DOT,
            LineStyle::DashDot => PS_DASHDOT,
            LineStyle::DashDotDot => PS_DASHDOTDOT,
            LineStyle::Null => PS_NULL,
        }
    }
}

impl JoinStyle {
    /// The flag of the join style.
    pub open spec fn bits(self) -> u32 {
        match self {
            JoinStyle::Miter => PS_JOIN_MITER,
            JoinStyle::Bevel => PS_JOIN_BEVEL,
            JoinStyle::Round => PS_JOIN_ROUND,
        }
    }
}

impl CapStyle {
    /// The flag of the cap style.
    pub open spec fn bits(self) -> u32 {
        match self {
            CapStyle::Flat => PS_ENDCAP_FLAT,
            CapStyle::Square => PS_ENDCAP_SQUARE,
            CapStyle::Round => PS_ENDCAP_ROUND,
        }
    }
}

/// The style word of a geometric pen: line style, end cap and join in
/// their own digits, one beside the other.
pub open spec fn pen_word(style: PenStyle) -> u32 {
    (PS_GEOMETRIC + style.join_style.bits() + style.cap_style.bits() + style.line_style.bits()) as u32
}

/// The style word with which a pen of `style` is created.
pub fn pen_flags(style: PenStyle) -> (flags: u32)
    ensures
        flags == pen_word(style),
        flags & 0x000f == style.line_style.bits(),
        flags & 0x0f00 == style.cap_style.bits(),
        flags & 0xf000 == style.join_style.bits(),
        flags & 0x000f_0000 == PS_GEOMETRIC,
{
    let end_cap: u32 = match style.cap_style {
        CapStyle::Flat => PS_ENDCAP_FLAT,
        CapStyle::Square => PS_ENDCAP_SQUARE,
        CapStyle::Round => PS_ENDCAP_ROUND,
    };
    let join: u32 = match style.join_style {
        JoinStyle::Miter => PS_JOIN_MITER,
        JoinStyle::Bevel => PS_JOIN_BEVEL,
        JoinStyle::Round => PS_JOIN_ROUND,
    };
    let line: u32 = match style.line_style {
        LineStyle::Solid => PS_SOLID,
        LineStyle::Dash => PS_DASH,
        LineStyle::Dot => PS_DOT,
        LineStyle::DashDot => PS_DASHDOT,
        LineStyle::DashDotDot => PS_DASHDOTDOT,
        LineStyle::Null => PS_NULL,
    };
    let flags = line | end_cap | join | PS_GEOMETRIC;
    assert(flags == 0x0001_0000 + join + end_cap + line && flags & 0x000f == line && flags & 0x0f00
        == end_cap && flags & 0xf000 == join && flags & 0x000f_0000 == 0x0001_0000)
        by (bit_vector)
        requires
            flags == line | end_cap | join | 0x0001_0000u32,
            line <= 5,
            end_cap == 0 || end_cap == 0x100 || end_cap == 0x200,
            join == 0 || join == 0x1000 || join == 0x2000,
    ;
    flags
}

/// A colour as the graphics interface packs it: red in the lowest byte,
/// then green, then blue.
pub open spec fn packed(color: Color) -> u32 {
    (color.red + 0x100 * color.green + 0x1_0000 * color.blue) as u32
}

/// Packs a colour into one word. The alpha channel is not part of it.
pub fn colorref(color: Color) -> (word: u32)
    ensures
        word == packed(color),
{
    let r = color.red as u32;
    let g = color.green as u32;
    let b = color.blue as u32;
    let word = r | (g << 8) | (b << 16);
    assert(word == r + 0x100 * g + 0x1_0000 * b) by (bit_vector)
        requires
            word == r | (g << 8) | (b << 16),
            r < 0x100,
            g < 0x100,
            b < 0x100,
    ;
    word
}

/// The opaque colour that a word packs.
pub open spec fn unpacked(word: u32) -> Color {
    Color {
        red: (word % 0x100) as u8,
        green: ((word / 0x100) % 0x100) as u8,
        blue: ((word / 0x1_0000) % 0x100) as u8,
        alpha: 255,
    }
}

/// Unpacks a colour from a word; the colour is opaque.
pub fn from_colorref(word: u32) -> (color: Color)
    ensures
        color == unpacked(word),
{
    let r = word & 0xff;
    let g = (word >> 8) & 0xff;
    let b = (word >> 16) & 0xff;
    assert(r == word % 0x100 && g == (word / 0x100) % 0x100 && b == (word / 0x1_0000) % 0x100)
        by (bit_vector)
        requires
            r == word & 0xff,
            g == (word >> 8) & 0xff,
            b == (word >> 16) & 0xff,
    ;
    Color { red: r as u8, green: g as u8, blue: b as u8, alpha: 255 }
}

/// Packing a colour and unpacking it gives the colour back, but for its
/// alpha channel.
pub proof fn law_colorref_round_trip(color: Color)
    ensures
        unpacked(packed(color)) == (Color { alpha: 255, ..color }),
{
}

impl TextAlign {
    /// The text is anchored at an edge or a corner, not at a middle.
    pub open spec fn at_edge(self) -> bool {
        !(self is LeftMiddle || self is Center || self is RightMiddle)
    }

    /// The format flags of text drawn on one line into a rectangle.
    pub open spec fn rect_flags(self) -> u32 {
        (DT_SINGLELINE + match self {
            TextAlign::LeftTop => DT_LEFT + DT_TOP,
            TextAlign::LeftMiddle => DT_LEFT + DT_VCENTER,
            TextAlign::LeftBottom => DT_LEFT + DT_BOTTOM,
            TextAlign::CenterTop => DT_CENTER + DT_TOP,
            TextAlign::Center => DT_CENTER + DT_VCENTER,
            TextAlign::CenterBottom => DT_CENTER + DT_BOTTOM,
            TextAlign::RightTop => DT_RIGHT + DT_TOP,
            TextAlign::RightMiddle => DT_RIGHT + DT_VCENTER,
            TextAlign::RightBottom => DT_RIGHT + DT_BOTTOM,
        }) as u32
    }

    /// The alignment flags of text drawn at a point.
    pub open spec fn point_flags(self) -> u32
        recommends
            self.at_edge(),
    {
        (match self {
            TextAlign::LeftTop => TA_LEFT + TA_TOP,
            TextAlign::LeftBottom => TA_LEFT + TA_BOTTOM,
            TextAlign::CenterTop => TA_CENTER + TA_TOP,
            TextAlign::CenterBottom => TA_CENTER + TA_BOTTOM,
            TextAlign::RightTop => TA_RIGHT + TA_TOP,
            TextAlign::RightBottom => TA_RIGHT + TA_BOTTOM,
            _ => 0,
        }) as u32
    }
}

/// The format flags with which text is drawn on one line into a rectangle.
pub fn rect_text_flags(align: TextAlign) -> (flags: u32)
    ensures
        flags == align.rect_flags(),
{
    let place: u32 = match align {
        TextAlign::LeftTop => DT_LEFT + DT_TOP,
        TextAlign::LeftMiddle => DT_LEFT + DT_VCENTER,
        TextAlign::LeftBottom => DT_LEFT + DT_BOTTOM,
        TextAlign::CenterTop => DT_CENTER + DT_TOP,
        TextAlign::Center => DT_CENTER + DT_VCENTER,
        TextAlign::CenterBottom => DT_CENTER + DT_BOTTOM,
        TextAlign::RightTop => DT_RIGHT + DT_TOP,
        TextAlign::RightMiddle => DT_RIGHT + DT_VCENTER,
        TextAlign::RightBottom => DT_RIGHT + DT_BOTTOM,
    };
    place + DT_SINGLELINE
}

/// The alignment flags with which text is drawn at a point. Text at a
/// point can be anchored at its left, centre or right and at its top or
/// bottom, but not at its middle line.
pub fn point_text_flags(align: TextAlign) -> (flags: u32)
    requires
        align.at_edge(),
    ensures
        flags == align.point_flags(),
{
    match align {
        TextAlign::LeftTop => TA_LEFT + TA_TOP,
        TextAlign::LeftBottom => TA_LEFT + TA_BOTTOM,
        TextAlign::CenterTop => TA_CENTER + TA_TOP,
        TextAlign::CenterBottom => TA_CENTER + TA_BOTTOM,
        TextAlign::RightTop => TA_RIGHT + TA_TOP,
        _ => TA_RIGHT + TA_BOTTOM,
    }
}

} // verus!
