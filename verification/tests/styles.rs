use rusty_gui::canvas::{
    colorref, from_colorref, pen_flags, point_text_flags, rect_text_flags,
};
use rusty_gui::log::should_log;
use rusty_gui::style::{
    hotkey_word, read_hotkey, read_style, style_word, with_maximize, without_maximize,
    without_sizing,
};
use rusty_gui::{
    rgb, rgba, size, CapStyle, Color, FontWeight, HotKeyFlags, JoinStyle, LineStyle, LogLevel,
    PenStyle, TextAlign, Window, WindowID, WindowStyle,
};

#[test]
fn default_pen() {
    let pen = PenStyle::default();
    assert_eq!(pen.line_style, LineStyle::Solid);
    assert_eq!(pen.width, 1);
    assert_eq!(pen.color, Color::black());
    assert_eq!(pen.join_style, JoinStyle::Miter);
    assert_eq!(pen.cap_style, CapStyle::Flat);
    assert_eq!(pen_flags(pen), 0x0001_2200);
}

#[test]
fn pen_words() {
    let pen = |line_style, join_style, cap_style| PenStyle {
        line_style,
        join_style,
        cap_style,
        ..PenStyle::default()
    };
    assert_eq!(pen_flags(pen(LineStyle::Solid, JoinStyle::Round, CapStyle::Round)), 0x0001_0000);
    assert_eq!(pen_flags(pen(LineStyle::Dash, JoinStyle::Bevel, CapStyle::Square)), 0x0001_1101);
    assert_eq!(pen_flags(pen(LineStyle::Dot, JoinStyle::Miter, CapStyle::Flat)), 0x0001_2202);
    assert_eq!(pen_flags(pen(LineStyle::DashDot, JoinStyle::Round, CapStyle::Flat)), 0x0001_0203);
    assert_eq!(pen_flags(pen(LineStyle::DashDotDot, JoinStyle::Bevel, CapStyle::Round)), 0x0001_1004);
    assert_eq!(pen_flags(pen(LineStyle::Null, JoinStyle::Miter, CapStyle::Square)), 0x0001_2105);
}

#[test]
fn packed_colours() {
    assert_eq!(colorref(rgb(0x12, 0x34, 0x56)), 0x0056_3412);
    assert_eq!(colorref(rgba(255, 0, 0, 7)), 0x0000_00ff);
    assert_eq!(colorref(Color::white()), 0x00ff_ffff);
    assert_eq!(from_colorref(0x0056_3412), rgb(0x12, 0x34, 0x56));
    assert_eq!(from_colorref(0xff00_0000), rgb(0, 0, 0));
    assert_eq!(from_colorref(colorref(rgba(9, 8, 7, 6))), rgb(9, 8, 7));
}

#[test]
fn font_weights() {
    let weights = [
        (FontWeight::Default, 0),
        (FontWeight::Thin, 100),
        (FontWeight::ExtraLight, 200),
        (FontWeight::Light, 300),
        (FontWeight::Normal, 400),
        (FontWeight::Medium, 500),
        (FontWeight::SemiBold, 600),
        (FontWeight::Bold, 700),
        (FontWeight::ExtraBold, 800),
        (FontWeight::Black, 900),
    ];
    for (weight, value) in weights {
        assert_eq!(weight.value(), value);
    }
}

#[test]
fn text_flags() {
    assert_eq!(TextAlign::default(), TextAlign::LeftTop);
    let in_rect = [
        (TextAlign::LeftTop, 0x20),
        (TextAlign::LeftMiddle, 0x24),
        (TextAlign::LeftBottom, 0x28),
        (TextAlign::CenterTop, 0x21),
        (TextAlign::Center, 0x25),
        (TextAlign::CenterBottom, 0x29),
        (TextAlign::RightTop, 0x22),
        (TextAlign::RightMiddle, 0x26),
        (TextAlign::RightBottom, 0x2a),
    ];
    for (align, flags) in in_rect {
        assert_eq!(rect_text_flags(align), flags);
    }
    let at_point = [
        (TextAlign::LeftTop, 0),
        (TextAlign::LeftBottom, 8),
        (TextAlign::CenterTop, 6),
        (TextAlign::CenterBottom, 14),
        (TextAlign::RightTop, 2),
        (TextAlign::RightBottom, 10),
    ];
    for (align, flags) in at_point {
        assert_eq!(point_text_flags(align), flags);
    }
}

#[test]
fn window_style_words() {
    let ordinary = WindowStyle::default();
    assert!(ordinary.resize && ordinary.caption && ordinary.sysmenu);
    assert!(ordinary.maxbox && ordinary.minbox);
    assert!(!ordinary.border && !ordinary.child && !ordinary.topmost);
    assert_eq!(style_word(ordinary), 0x00CF_0000);
    let child = WindowStyle {
        border: true,
        resize: false,
        caption: false,
        child: true,
        sysmenu: false,
        maxbox: false,
        minbox: false,
        topmost: true,
    };
    assert_eq!(style_word(child), 0x4080_0000);
    let none = WindowStyle { border: false, child: false, ..child };
    assert_eq!(style_word(none), 0);
}

#[test]
fn window_styles_read_on_top_of_the_ordinary_one() {
    assert_eq!(read_style(0, 0), WindowStyle::default());
    assert_eq!(
        read_style(0x4080_0000, 0x8),
        WindowStyle { border: true, child: true, topmost: true, ..WindowStyle::default() }
    );
    // a caption comes with a border
    assert!(read_style(0x00C0_0000, 0).border);
    assert!(!read_style(0x0040_0000, 0).border);
    assert!(!read_style(0xffff_ffff, 0xffff_fff7).topmost);
}

#[test]
fn boxes_and_frames() {
    assert_eq!(without_maximize(0x00CF_0000), 0x00CE_0000);
    assert_eq!(without_maximize(0x00CE_0000), 0x00CE_0000);
    assert_eq!(with_maximize(0x00CE_0000), 0x00CF_0000);
    assert_eq!(with_maximize(0), 0x0001_0000);
    assert_eq!(without_sizing(0x00CF_0000), 0x00CB_0000);
    assert_eq!(without_sizing(0xffff_ffff), 0xfffb_ffff);
}

#[test]
fn hot_key_words() {
    assert_eq!(HotKeyFlags::default(), HotKeyFlags { alt: false, ctrl: false, shift: false, win: false });
    assert_eq!(hotkey_word(HotKeyFlags::default()), 0x4000);
    let all = HotKeyFlags { alt: true, ctrl: true, shift: true, win: true };
    assert_eq!(hotkey_word(all), 0x400f);
    assert_eq!(hotkey_word(HotKeyFlags { ctrl: true, ..HotKeyFlags::default() }), 0x4002);
    assert_eq!(hotkey_word(HotKeyFlags { shift: true, ..HotKeyFlags::default() }), 0x4004);
    for word in 0..16 {
        let flags = read_hotkey(word);
        assert_eq!(hotkey_word(flags), word | 0x4000);
        assert_eq!(read_hotkey(hotkey_word(flags)), flags);
    }
    assert_eq!(read_hotkey(0xffff_fff0), HotKeyFlags::default());
}

#[test]
fn log_levels() {
    let levels = [LogLevel::Debug, LogLevel::Info, LogLevel::Warn, LogLevel::Error, LogLevel::Fatal];
    for (i, threshold) in levels.iter().enumerate() {
        assert_eq!(threshold.rank() as usize, i);
        for (j, level) in levels.iter().enumerate() {
            assert_eq!(should_log(*threshold, *level), i <= j);
        }
    }
    assert_eq!(LogLevel::Debug.tag(), "[DEBUG]");
    assert_eq!(LogLevel::Info.tag(), "[INFO]");
    assert_eq!(LogLevel::Warn.tag(), "[WARN]");
    assert_eq!(LogLevel::Error.tag(), "[ERROR]");
    assert_eq!(LogLevel::Fatal.tag(), "[FATAL]");
    assert!(!LogLevel::Warn.is_error());
    assert!(LogLevel::Error.is_error());
    assert!(LogLevel::Fatal.is_error());
}

#[test]
fn bounds_of_a_window() {
    let placeholder = Window::default();
    assert!(placeholder.is_default());
    assert_eq!(placeholder.min_width, None);
    let mut window = Window::with_id(WindowID { hwnd: 0x1234 });
    assert!(!window.is_default());
    assert_eq!(window.get_id(), WindowID { hwnd: 0x1234 });
    window.set_min_width(10);
    window.set_min_height(20);
    window.set_max_width(30);
    window.set_max_height(40);
    assert_eq!(
        window,
        Window {
            id: WindowID { hwnd: 0x1234 },
            min_width: Some(10),
            min_height: Some(20),
            max_width: Some(30),
            max_height: Some(40),
        }
    );
    window.set_min_size(size(1, 2));
    window.set_max_size(size(3, 4));
    assert_eq!((window.min_width, window.min_height), (Some(1), Some(2)));
    assert_eq!((window.max_width, window.max_height), (Some(3), Some(4)));
    window.lift_min_width();
    window.lift_max_height();
    assert_eq!((window.min_width, window.min_height), (None, Some(2)));
    assert_eq!((window.max_width, window.max_height), (Some(3), None));
    window.lift_min_height();
    window.lift_max_width();
    assert_eq!(window, Window::with_id(WindowID { hwnd: 0x1234 }));
}
