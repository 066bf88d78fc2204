use rusty_gui::{gray, pos, rect, rgb, rgba, size, Color, Point, Rect, Size};

#[test]
fn points_within_a_rectangle() {
    let r = rect(10, 20, 30, 40);
    assert!(pos(10, 20).within(&r));
    assert!(pos(39, 59).within(&r));
    assert!(!pos(40, 59).within(&r));
    assert!(!pos(39, 60).within(&r));
    assert!(!pos(9, 20).within(&r));
    assert!(!pos(10, 19).within(&r));
    assert!(!pos(10, 20).within(&rect(10, 20, 0, 5)));
    assert!(!pos(0, 0).within(&rect(5, 5, -10, -10)));
    assert!(pos(i32::MAX, i32::MAX).within(&rect(i32::MAX, i32::MAX, i32::MAX, 1)));
}

#[test]
fn area_of_a_size() {
    assert_eq!(size(800, 600).area(), 480_000);
    assert_eq!(size(-3, 7).area(), -21);
    assert_eq!(size(0, i32::MAX).area(), 0);
    assert_eq!(size(46_340, 46_340).area(), 2_147_395_600);
}

#[test]
fn rectangles_that_contain_others() {
    let outer = rect(0, 0, 100, 100);
    assert!(outer.contains(&rect(0, 0, 100, 100)));
    assert!(outer.contains(&rect(10, 10, 90, 90)));
    assert!(!outer.contains(&rect(10, 10, 91, 90)));
    assert!(!outer.contains(&rect(-1, 0, 50, 50)));
    assert!(!outer.contains(&rect(0, 0, 101, 1)));
    assert!(outer.contains(&rect(100, 100, 0, 0)));
    assert!(!rect(0, 0, 10, 10).contains(&rect(5, 5, 10, 10)));
    let far = rect(i32::MAX, i32::MAX, i32::MAX, i32::MAX);
    assert!(far.contains(&rect(i32::MAX, i32::MAX, 1, 1)));
    assert!(!rect(i32::MIN, 0, i32::MAX, 10).contains(&far));
}

#[test]
fn centres_round_toward_zero() {
    assert_eq!(rect(10, 20, 100, 50).center(), pos(60, 45));
    assert_eq!(rect(0, 0, 5, 7).center(), pos(2, 3));
    assert_eq!(rect(0, 0, -5, -7).center(), pos(-2, -3));
    assert_eq!(rect(-10, -10, 3, 0).center(), pos(-9, -10));
}

#[test]
fn a_rectangle_centred_in_another() {
    assert_eq!(rect(0, 0, 100, 100).center_rect(size(20, 10)), rect(40, 45, 20, 10));
    assert_eq!(rect(10, 10, 5, 5).center_rect(size(7, 9)), rect(9, 8, 7, 9));
    assert_eq!(rect(0, 0, 10, 10).center_rect(size(-3, -5)), rect(6, 7, -3, -5));
}

#[test]
fn edges_and_corners() {
    let r = rect(10, 20, 30, 40);
    assert_eq!(r.top(), 20);
    assert_eq!(r.bottom(), 60);
    assert_eq!(r.left(), 10);
    assert_eq!(r.right(), 40);
    assert_eq!(r.top_left(), pos(10, 20));
    assert_eq!(r.top_right(), pos(40, 20));
    assert_eq!(r.bottom_left(), pos(10, 60));
    assert_eq!(r.bottom_right(), pos(40, 60));
    let back = rect(0, 0, -4, -6);
    assert_eq!(back.right(), -4);
    assert_eq!(back.bottom(), -6);
}

#[test]
fn sums_and_differences() {
    assert_eq!(pos(1, 2) + pos(30, 40), pos(31, 42));
    assert_eq!(pos(1, 2) - pos(30, 40), pos(-29, -38));
    assert_eq!(size(1, 2) + size(30, 40), size(31, 42));
    assert_eq!(size(1, 2) - size(30, 40), size(-29, -38));
    assert_eq!(pos(i32::MAX, 0) + pos(0, i32::MIN), pos(i32::MAX, i32::MIN));
}

#[test]
fn intersections() {
    let a = rect(0, 0, 10, 10);
    assert_eq!(a & rect(5, 5, 10, 10), Some(rect(5, 5, 5, 5)));
    assert_eq!(a & rect(2, 3, 4, 5), Some(rect(2, 3, 4, 5)));
    assert_eq!(a & a, Some(a));
    assert_eq!(a & rect(10, 0, 10, 10), None);
    assert_eq!(a & rect(0, 10, 10, 10), None);
    assert_eq!(a & rect(20, 20, 5, 5), None);
    assert_eq!(a & rect(5, 5, 0, 3), None);
    assert_eq!(a & rect(8, 8, -4, -4), None);
    let far = rect(i32::MAX, i32::MAX, i32::MAX, i32::MAX);
    assert_eq!(far & rect(i32::MAX - 1, i32::MAX - 1, 3, 3), Some(rect(i32::MAX, i32::MAX, 2, 2)));
    assert_eq!(rect(i32::MIN, i32::MIN, 1, 1) & far, None);
}

#[test]
fn hulls() {
    let a = rect(0, 0, 10, 10);
    assert_eq!(a | rect(5, 5, 10, 10), rect(0, 0, 15, 15));
    assert_eq!(a | rect(2, 3, 4, 5), a);
    assert_eq!(a | rect(-20, 30, 5, 5), rect(-20, 0, 30, 35));
    assert_eq!(rect(3, 3, 0, 0) | rect(7, 9, 0, 0), rect(3, 3, 4, 6));
}

#[test]
fn tuples() {
    assert_eq!(Rect::from((1, 2, 3, 4)), rect(1, 2, 3, 4));
    assert_eq!(Size::from((3, 4)), size(3, 4));
    assert_eq!(Point::from((1, 2)), pos(1, 2));
    assert_eq!(rect(1, 2, 3, 4).into_tuple(), (1, 2, 3, 4));
    assert_eq!(size(3, 4).into_tuple(), (3, 4));
    assert_eq!(pos(1, 2).into_tuple(), (1, 2));
    let r: Rect = (5, 6, 7, 8).into();
    assert_eq!(r, rect(5, 6, 7, 8));
}

#[test]
fn colours() {
    assert_eq!(rgb(1, 2, 3), Color { red: 1, green: 2, blue: 3, alpha: 255 });
    assert_eq!(rgba(1, 2, 3, 4), Color { red: 1, green: 2, blue: 3, alpha: 4 });
    assert_eq!(gray(160), Color::gray());
    assert_eq!(Color::black(), rgb(0, 0, 0));
    assert_eq!(Color::white(), rgb(255, 255, 255));
    assert_eq!(Color::red(), rgb(255, 0, 0));
    assert_eq!(Color::green(), rgb(0, 255, 0));
    assert_eq!(Color::blue(), rgb(0, 0, 255));
    assert_eq!(Color::yellow(), rgb(255, 255, 0));
    assert_eq!(Color::cyan(), rgb(0, 255, 255));
    assert_eq!(Color::magenta(), rgb(255, 0, 255));
    assert_eq!(Color::transparent(), rgba(0, 0, 0, 0));
    assert_eq!(Color::light_gray(), gray(210));
    assert_eq!(Color::dark_gray(), gray(85));
}
