use rusty_gui::keys::{VK_CLEAR, VK_DOWN, VK_F1, VK_LBUTTON, VK_NUMPAD0, VK_OEM_5, VK_OEM_7, VK_RMENU};
use rusty_gui::message::{
    decodable, decode, handle_key_event, handle_mouse_event, track_bounds, Reaction, TrackBounds,
    USER_DEF_MSG, WINDOW_CREATED_MSG, WM_CHAR, WM_CREATE, WM_DESTROY, WM_ENABLE,
    WM_GETMINMAXINFO, WM_HOTKEY, WM_KEYDOWN, WM_KEYUP, WM_LBUTTONDOWN, WM_MBUTTONDBLCLK,
    WM_MOUSEHOVER, WM_MOUSELEAVE, WM_MOUSEMOVE, WM_MOUSEWHEEL, WM_MOVE, WM_PAINT, WM_RBUTTONUP,
    WM_SIZE, WM_SYSKEYDOWN, WM_SYSKEYUP, WM_TIMER, WM_XBUTTONDOWN, WM_XBUTTONUP,
};
use rusty_gui::{
    key_to_vk, pos, size, vk_to_key, Event, HotKeyFlags, KeyCode, ModifierKey, MouseButton,
    MouseWheel, Window, WindowID, WindowSize,
};

#[test]
fn letters_digits_and_numbered_keys() {
    assert_eq!(vk_to_key(0x41), KeyCode::Alpha('A'));
    assert_eq!(vk_to_key(0x5A), KeyCode::Alpha('Z'));
    assert_eq!(vk_to_key(0x30), KeyCode::N('0'));
    assert_eq!(vk_to_key(0x39), KeyCode::N('9'));
    assert_eq!(vk_to_key(VK_F1), KeyCode::F(1));
    assert_eq!(vk_to_key(0x7B), KeyCode::F(12));
    assert_eq!(vk_to_key(0x7C), KeyCode::Unknown(0x7C));
    assert_eq!(vk_to_key(VK_NUMPAD0), KeyCode::Num(0));
    assert_eq!(vk_to_key(0x69), KeyCode::Num(9));
    assert_eq!(vk_to_key(0x40), KeyCode::Unknown(0x40));
    assert_eq!(vk_to_key(0x5B), KeyCode::Unknown(0x5B));
    assert_eq!(vk_to_key(0), KeyCode::Unknown(0));
    assert_eq!(vk_to_key(-1), KeyCode::Unknown(-1));
    assert_eq!(vk_to_key(i32::MAX), KeyCode::Unknown(i32::MAX));
}

#[test]
fn named_keys() {
    assert_eq!(vk_to_key(0x10), KeyCode::Shift);
    assert_eq!(vk_to_key(0x11), KeyCode::Ctrl);
    assert_eq!(vk_to_key(0x12), KeyCode::Alt);
    assert_eq!(vk_to_key(0xBA), KeyCode::Symbol(';'));
    assert_eq!(vk_to_key(VK_OEM_5), KeyCode::Symbol('\\'));
    assert_eq!(vk_to_key(VK_OEM_7), KeyCode::Symbol('\''));
    assert_eq!(vk_to_key(0x6B), KeyCode::NumAdd);
    assert_eq!(vk_to_key(0x6A), KeyCode::NumMul);
    assert_eq!(vk_to_key(0x08), KeyCode::Backspace);
    assert_eq!(vk_to_key(0x0D), KeyCode::Enter);
    assert_eq!(vk_to_key(0x1B), KeyCode::Esc);
    assert_eq!(vk_to_key(VK_RMENU), KeyCode::RightAlt);
    assert_eq!(vk_to_key(0x21), KeyCode::PageUp);
    assert_eq!(vk_to_key(VK_CLEAR), KeyCode::Clear);
    assert_eq!(vk_to_key(VK_LBUTTON), KeyCode::LeftButton);
    assert_eq!(vk_to_key(0x06), KeyCode::X2Button);
    assert_eq!(vk_to_key(0x25), KeyCode::Left);
    assert_eq!(vk_to_key(0x26), KeyCode::Up);
    assert_eq!(vk_to_key(0x27), KeyCode::Right);
    assert_eq!(vk_to_key(VK_DOWN), KeyCode::Down);
}

#[test]
fn codes_of_keys() {
    assert_eq!(key_to_vk(KeyCode::Alpha('Q')), 0x51);
    assert_eq!(key_to_vk(KeyCode::N('7')), 0x37);
    assert_eq!(key_to_vk(KeyCode::F(1)), 0x70);
    assert_eq!(key_to_vk(KeyCode::F(12)), 0x7B);
    assert_eq!(key_to_vk(KeyCode::F(0)), 0);
    assert_eq!(key_to_vk(KeyCode::F(13)), 0);
    assert_eq!(key_to_vk(KeyCode::Num(0)), 0x60);
    assert_eq!(key_to_vk(KeyCode::Num(9)), 0x69);
    assert_eq!(key_to_vk(KeyCode::Num(10)), 0);
    assert_eq!(key_to_vk(KeyCode::Symbol('`')), 0xC0);
    assert_eq!(key_to_vk(KeyCode::Symbol('[')), 0xDB);
    assert_eq!(key_to_vk(KeyCode::Symbol('=')), 0);
    assert_eq!(key_to_vk(KeyCode::Space), 0x20);
    assert_eq!(key_to_vk(KeyCode::Delete), 0x2E);
    assert_eq!(key_to_vk(KeyCode::Unknown(0x41)), 0);
}

#[test]
fn every_code_with_a_key_comes_back() {
    let mut known = 0;
    for vk in -300..600 {
        let key = vk_to_key(vk);
        if let KeyCode::Unknown(raw) = key {
            assert_eq!(raw, vk);
        } else {
            known += 1;
            assert_eq!(key_to_vk(key), vk);
            assert_eq!(vk_to_key(key_to_vk(key)), key);
        }
    }
    assert_eq!(known, 26 + 10 + 12 + 10 + 49);
}

fn words(x: u64, y: u64) -> u64 {
    x | (y << 16)
}

#[test]
fn handlers_pass_over_messages_of_another_kind() {
    assert_eq!(handle_mouse_event(WM_KEYDOWN, 1, 2), None);
    assert_eq!(handle_mouse_event(WM_MOUSEMOVE, 1, 2), None);
    assert_eq!(handle_mouse_event(0, 0, 0), None);
    assert_eq!(handle_key_event(WM_LBUTTONDOWN, 0x41), None);
    assert_eq!(handle_key_event(WM_CHAR, 0x41), None);
    assert_eq!(handle_key_event(u32::MAX, 0x41), None);
}

#[test]
fn window_life() {
    assert_eq!(decode(WM_CREATE, 0, 0, false), Reaction::Adopt);
    assert_eq!(decode(WM_DESTROY, 0, 0, true), Reaction::Retire);
    assert_eq!(decode(WM_PAINT, 7, 9, false), Reaction::Paint);
    assert_eq!(decode(WM_GETMINMAXINFO, 0, 0, false), Reaction::Bound);
    assert_eq!(decode(USER_DEF_MSG, 0, 12345, false), Reaction::Message);
    assert_eq!(decode(WINDOW_CREATED_MSG, 0, 0, false), Reaction::Announce(Event::WindowCreated));
    assert_eq!(decode(0x0400, 0, 0, false), Reaction::Pass);
    assert_eq!(decode(0, 1, 2, true), Reaction::Pass);
    assert_eq!(decode(u32::MAX, u64::MAX, u64::MAX, true), Reaction::Pass);
}

#[test]
fn mouse_buttons() {
    assert_eq!(
        decode(WM_LBUTTONDOWN, 0x0001, words(30, 40), false),
        Reaction::Deliver(Event::MouseButtonPressed {
            button: MouseButton::Left,
            pos: pos(30, 40),
            mk: ModifierKey::Mouse(MouseButton::Left),
        })
    );
    assert_eq!(
        decode(WM_RBUTTONUP, 0x0008, words(0xffff, 0), true),
        Reaction::Deliver(Event::MouseButtonReleased {
            button: MouseButton::Right,
            pos: pos(65_535, 0),
            mk: ModifierKey::Ctrl,
        })
    );
    assert_eq!(
        handle_mouse_event(WM_MBUTTONDBLCLK, 0x0004 | 0x0010, words(1, 2)),
        Some(Event::MouseDoubleClicked {
            button: MouseButton::Middle,
            pos: pos(1, 2),
            mk: ModifierKey::NoModifier,
        })
    );
    assert_eq!(
        handle_mouse_event(WM_XBUTTONDOWN, words(0x0020, 1), words(5, 6)),
        Some(Event::MouseButtonPressed {
            button: MouseButton::Other(1),
            pos: pos(5, 6),
            mk: ModifierKey::NoModifier,
        })
    );
    assert_eq!(
        handle_mouse_event(WM_XBUTTONUP, words(0, 2), 0),
        Some(Event::MouseButtonReleased {
            button: MouseButton::Other(2),
            pos: pos(0, 0),
            mk: ModifierKey::NoModifier,
        })
    );
    assert_eq!(
        handle_mouse_event(WM_XBUTTONUP, 0x0040, u64::MAX),
        Some(Event::MouseButtonReleased {
            button: MouseButton::Other(0),
            pos: pos(65_535, 65_535),
            mk: ModifierKey::Mouse(MouseButton::Other(2)),
        })
    );
}

#[test]
fn mouse_moves_and_wheel() {
    assert_eq!(
        decode(WM_MOUSEMOVE, words(0x0004, 9), words(100, 200), false),
        Reaction::Track(Event::MouseMoved { pos: pos(100, 200), mk: ModifierKey::Shift })
    );
    assert_eq!(
        decode(WM_MOUSEWHEEL, words(0x0002, 120), words(3, 4), false),
        Reaction::Deliver(Event::MouseWheelScrolled {
            wheel: MouseWheel::Up,
            pos: pos(3, 4),
            mk: ModifierKey::Mouse(MouseButton::Right),
        })
    );
    for (distance, wheel) in [
        (0u64, MouseWheel::Down),
        (1, MouseWheel::Up),
        (0x7fff, MouseWheel::Up),
        (0x8000, MouseWheel::Down),
        (0xff88, MouseWheel::Down),
    ] {
        assert_eq!(
            decode(WM_MOUSEWHEEL, words(0, distance), 0, false),
            Reaction::Deliver(Event::MouseWheelScrolled {
                wheel,
                pos: pos(0, 0),
                mk: ModifierKey::NoModifier,
            })
        );
    }
}

#[test]
fn resting_and_leaving_are_told_once() {
    let rest = Reaction::Rest {
        event: Event::Hover { pos: pos(8, 9), mk: ModifierKey::Mouse(MouseButton::Other(1)) },
        hover: true,
    };
    assert_eq!(decode(WM_MOUSEHOVER, 0x0020, words(8, 9), false), rest);
    assert_eq!(decode(WM_MOUSEHOVER, 0x0020, words(8, 9), true), Reaction::Done);
    assert_eq!(
        decode(WM_MOUSELEAVE, 0, 0, true),
        Reaction::Rest { event: Event::Leave, hover: false }
    );
    assert_eq!(decode(WM_MOUSELEAVE, 0, 0, false), Reaction::Done);
}

#[test]
fn sizes_and_places() {
    for (how, ty) in [
        (0u64, WindowSize::Restore),
        (1, WindowSize::Minimize),
        (2, WindowSize::Maximize),
        (3, WindowSize::MaxShow),
        (4, WindowSize::MaxHide),
        (5, WindowSize::Resize),
    ] {
        assert_eq!(
            decode(WM_SIZE, how, words(800, 600), false),
            Reaction::Deliver(Event::WindowResized { size: size(800, 600), ty })
        );
    }
    assert_eq!(
        decode(WM_MOVE, 0, words(0xfff0, 7) | (1 << 40), false),
        Reaction::Deliver(Event::WindowMoved { pos: pos(0xfff0, 7) })
    );
    assert_eq!(decode(WM_ENABLE, 1, 0, false), Reaction::Deliver(Event::WindowEnable));
    assert_eq!(decode(WM_ENABLE, 0, 0, false), Reaction::Deliver(Event::WindowDisable));
    assert_eq!(decode(WM_TIMER, 42, 0, false), Reaction::Deliver(Event::Timer { id: 42 }));
}

#[test]
fn keys_pressed_and_released() {
    assert_eq!(
        decode(WM_KEYDOWN, 0x41, 0, false),
        Reaction::Deliver(Event::KeyPressed { key: KeyCode::Alpha('A'), sys: false })
    );
    assert_eq!(
        handle_key_event(WM_KEYUP, 0x0D),
        Some(Event::KeyReleased { key: KeyCode::Enter, sys: false })
    );
    assert_eq!(
        handle_key_event(WM_SYSKEYDOWN, 0x12),
        Some(Event::KeyPressed { key: KeyCode::Alt, sys: true })
    );
    assert_eq!(
        handle_key_event(WM_SYSKEYUP, 0x79),
        Some(Event::KeyReleased { key: KeyCode::F(10), sys: true })
    );
    assert_eq!(
        handle_key_event(WM_KEYDOWN, 0xffff_ffff),
        Some(Event::KeyPressed { key: KeyCode::Unknown(-1), sys: false })
    );
    assert_eq!(
        handle_key_event(WM_KEYDOWN, 0x1_0000_0041),
        Some(Event::KeyPressed { key: KeyCode::Alpha('A'), sys: false })
    );
}

#[test]
fn characters() {
    assert!(decodable(WM_CHAR, 0x61));
    assert_eq!(decode(WM_CHAR, 0x61, 0, false), Reaction::Deliver(Event::Input { ch: 'a' }));
    assert_eq!(decode(WM_CHAR, 0x4F60, 0, false), Reaction::Deliver(Event::Input { ch: '你' }));
    assert_eq!(decode(WM_CHAR, 0x10FFFF, 0, false), Reaction::Deliver(Event::Input { ch: '\u{10FFFF}' }));
    assert_eq!(decode(WM_CHAR, 0xD7FF, 0, false), Reaction::Deliver(Event::Input { ch: '\u{D7FF}' }));
    assert!(!decodable(WM_CHAR, 0xD800));
    assert!(!decodable(WM_CHAR, 0xDFFF));
    assert!(decodable(WM_CHAR, 0xE000));
    assert!(!decodable(WM_CHAR, 0x110000));
    assert!(decodable(WM_KEYDOWN, 0xD800));
    assert!(decodable(WM_CHAR, 0x1_0000_0041));
    assert_eq!(decode(WM_CHAR, 0x1_0000_0041, 0, false), Reaction::Deliver(Event::Input { ch: 'A' }));
}

#[test]
fn hot_keys() {
    assert_eq!(
        decode(WM_HOTKEY, 0, words(0x0001 | 0x0002, 0x4C), false),
        Reaction::Deliver(Event::HotKey {
            key: KeyCode::Alpha('L'),
            modifiers: HotKeyFlags { alt: true, ctrl: true, shift: false, win: false },
        })
    );
    assert_eq!(
        decode(WM_HOTKEY, 0, words(0x0004 | 0x0008 | 0x4000, 0x70), false),
        Reaction::Deliver(Event::HotKey {
            key: KeyCode::F(1),
            modifiers: HotKeyFlags { alt: false, ctrl: false, shift: true, win: true },
        })
    );
}

#[test]
fn bounds_of_a_window_on_a_screen() {
    let mut window = Window::with_id(WindowID { hwnd: 1 });
    assert_eq!(
        track_bounds(&window, size(1920, 1080)),
        TrackBounds {
            min_track: size(0, 0),
            max_track: size(1920, 1080),
            max_size: size(1920, 1080),
            max_position: pos(0, 0),
        }
    );
    window.set_min_size(size(200, 100));
    window.set_max_width(1001);
    assert_eq!(
        track_bounds(&window, size(1920, 1080)),
        TrackBounds {
            min_track: size(200, 100),
            max_track: size(1001, 1080),
            max_size: size(1001, 1080),
            max_position: pos(459, 0),
        }
    );
    window.set_max_size(size(3000, 2001));
    assert_eq!(track_bounds(&window, size(1920, 1080)).max_position, pos(-540, -460));
    window.set_max_size(size(i32::MIN, i32::MAX));
    assert_eq!(
        track_bounds(&window, size(i32::MAX, i32::MIN)).max_position,
        pos(i32::MAX, -i32::MAX)
    );
}
