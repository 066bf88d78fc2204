use rusty_gui::widgets::axis::Span;
use rusty_gui::widgets::bounds::{derive_limits, Limits};
use rusty_gui::widgets::solver::{fits_budget, solve};
use rusty_gui::{
    rect, size, Column, Event, LayoutMode, Outcome, Row, Trigger, Window, WindowID, WindowSize,
};

fn id(hwnd: usize) -> WindowID {
    WindowID { hwnd }
}

fn child(hwnd: usize) -> Window {
    Window::with_id(id(hwnd))
}

fn range(min: Option<i32>, max: Option<i32>, ratio: u32) -> LayoutMode {
    LayoutMode::Range { min, max, ratio }
}

fn extents(spans: &[Span]) -> Vec<i32> {
    spans.iter().map(|s| s.extent).collect()
}

fn offsets(spans: &[Span]) -> Vec<i32> {
    spans.iter().map(|s| s.offset).collect()
}

#[test]
fn ss_demo() {}

#[test]
fn ratio_next_to_a_range_that_hits_its_maximum() {
    let entries = vec![LayoutMode::Ratio(2), range(Some(150), Some(400), 2)];
    assert!(fits_budget(&entries, 1000, 5, 5, 3));
    let spans = solve(&entries, 1000, 5, 5, 3);
    assert_eq!(
        spans,
        vec![Span { offset: 5, extent: 587 }, Span { offset: 595, extent: 400 }]
    );
}

#[test]
fn equal_ratios_split_evenly_and_round_down() {
    let entries = vec![LayoutMode::Ratio(2), LayoutMode::Ratio(2)];
    let spans = solve(&entries, 1000, 5, 5, 3);
    assert_eq!(extents(&spans), vec![493, 493]);
    assert_eq!(offsets(&spans), vec![5, 501]);
}

#[test]
fn shares_follow_the_weights() {
    let entries = vec![LayoutMode::Ratio(1), LayoutMode::Ratio(3), LayoutMode::Fixed(100)];
    let spans = solve(&entries, 500, 0, 0, 0);
    assert_eq!(extents(&spans), vec![100, 300, 100]);
    assert_eq!(offsets(&spans), vec![0, 100, 400]);
}

#[test]
fn spans_follow_each_other_with_one_gap() {
    let entries = vec![
        LayoutMode::Fixed(40),
        LayoutMode::Ratio(1),
        range(Some(10), Some(60), 1),
        LayoutMode::Fixed(0),
        LayoutMode::Ratio(5),
    ];
    for container in [0, 1, 99, 100, 250, 1000, 65_535] {
        let spans = solve(&entries, container, 7, 9, 4);
        assert_eq!(spans.len(), entries.len());
        assert_eq!(spans[0].offset, 7);
        for pair in spans.windows(2) {
            assert_eq!(pair[1].offset, pair[0].offset + pair[0].extent + 4);
            assert!(pair[0].offset + pair[0].extent <= pair[1].offset);
        }
        for span in &spans {
            assert!(span.extent >= 0);
        }
    }
}

#[test]
fn fixed_entries_keep_their_extent_in_any_container() {
    let entries = vec![LayoutMode::Fixed(120), LayoutMode::Fixed(0), LayoutMode::Fixed(35)];
    for container in [-50, 0, 10, 155, 1000, 1_000_000] {
        let spans = solve(&entries, container, 5, 5, 3);
        assert_eq!(extents(&spans), vec![120, 0, 35]);
        assert_eq!(offsets(&spans), vec![5, 128, 131]);
    }
}

#[test]
fn fixed_entry_keeps_its_extent_among_others() {
    let entries = vec![LayoutMode::Ratio(1), LayoutMode::Fixed(77), range(None, Some(10), 4)];
    for container in [0, 80, 500] {
        let spans = solve(&entries, container, 0, 0, 0);
        assert_eq!(spans[1].extent, 77);
    }
}

#[test]
fn range_entry_stays_between_its_bounds() {
    let entries = vec![range(Some(100), Some(400), 1)];
    let expected = [(0, 100), (50, 100), (100, 100), (101, 101), (250, 250), (400, 400), (401, 400), (5000, 400)];
    for (container, extent) in expected {
        let spans = solve(&entries, container, 0, 0, 0);
        assert_eq!(spans[0].extent, extent, "container {}", container);
    }
}

#[test]
fn range_entry_with_neighbours_stays_between_its_bounds() {
    let entries = vec![LayoutMode::Ratio(3), range(Some(100), Some(400), 1), LayoutMode::Fixed(50)];
    for container in 0..3000 {
        let spans = solve(&entries, container, 2, 2, 1);
        assert!(100 <= spans[1].extent && spans[1].extent <= 400);
        let room = container - 6 - 50;
        let share = if room > 0 { room / 4 } else { 0 };
        if (100..=400).contains(&share) {
            assert_eq!(spans[1].extent, share);
            assert_eq!(spans[0].extent, room * 3 / 4);
        }
    }
}

#[test]
fn one_sided_ranges() {
    let at_least = vec![range(Some(300), None, 1), LayoutMode::Ratio(1)];
    assert_eq!(extents(&solve(&at_least, 400, 0, 0, 0)), vec![300, 100]);
    assert_eq!(extents(&solve(&at_least, 1000, 0, 0, 0)), vec![500, 500]);
    let at_most = vec![range(None, Some(300), 1), LayoutMode::Ratio(1)];
    assert_eq!(extents(&solve(&at_most, 400, 0, 0, 0)), vec![200, 200]);
    assert_eq!(extents(&solve(&at_most, 1000, 0, 0, 0)), vec![300, 700]);
}

#[test]
fn settling_one_entry_can_push_another_out_of_its_range() {
    let entries = vec![range(None, Some(100), 1), range(None, Some(350), 1), LayoutMode::Ratio(1)];
    let spans = solve(&entries, 900, 0, 0, 0);
    assert_eq!(extents(&spans), vec![100, 350, 450]);
    assert_eq!(offsets(&spans), vec![0, 100, 450]);
}

#[test]
fn contradictory_bounds_settle_at_the_maximum_first() {
    let entries = vec![range(Some(300), Some(100), 1)];
    assert_eq!(extents(&solve(&entries, 200, 0, 0, 0)), vec![100]);
    assert_eq!(extents(&solve(&entries, 50, 0, 0, 0)), vec![300]);
    assert_eq!(extents(&solve(&entries, 1000, 0, 0, 0)), vec![100]);
}

#[test]
fn no_room_gives_weighted_entries_nothing() {
    let entries = vec![LayoutMode::Fixed(300), LayoutMode::Ratio(1), LayoutMode::Ratio(2)];
    let spans = solve(&entries, 100, 5, 5, 3);
    assert_eq!(extents(&spans), vec![300, 0, 0]);
    assert_eq!(offsets(&spans), vec![5, 308, 311]);
}

#[test]
fn zero_weights_give_zero_shares() {
    let entries = vec![LayoutMode::Ratio(0), LayoutMode::Ratio(0)];
    assert_eq!(extents(&solve(&entries, 500, 0, 0, 0)), vec![0, 0]);
    let mixed = vec![LayoutMode::Ratio(0), LayoutMode::Ratio(4)];
    assert_eq!(extents(&solve(&mixed, 500, 0, 0, 0)), vec![0, 500]);
}

#[test]
fn no_entries_no_spans() {
    let entries: Vec<LayoutMode> = Vec::new();
    assert!(fits_budget(&entries, 1000, 5, 5, 3));
    assert_eq!(solve(&entries, 1000, 5, 5, 3), Vec::new());
}

#[test]
fn solving_twice_gives_the_same_spans() {
    let entries = vec![
        LayoutMode::Ratio(2),
        range(Some(150), Some(400), 2),
        LayoutMode::Fixed(31),
        range(None, Some(90), 7),
    ];
    let first = solve(&entries, 1234, 5, 6, 7);
    let second = solve(&entries, 1234, 5, 6, 7);
    assert_eq!(first, second);
}

#[test]
fn budget_is_the_sum_of_all_distances() {
    let entries = vec![LayoutMode::Fixed(1000), range(Some(-200), Some(100), 1), LayoutMode::Ratio(9)];
    // 1000 + 200 for the entries, three gaps of 10, paddings 5 and 7
    let rest = 0x3fff_ffff - (1000 + 200 + 30 + 5 + 7);
    assert!(fits_budget(&entries, rest, 5, -7, -10));
    assert!(fits_budget(&entries, -rest, 5, -7, -10));
    assert!(!fits_budget(&entries, rest + 1, 5, -7, -10));
    assert!(!fits_budget(&entries, i32::MIN, 0, 0, 0));
    assert!(!fits_budget(&vec![LayoutMode::Fixed(i32::MIN)], 0, 0, 0, 0));
}

#[test]
fn largest_problem_within_the_budget() {
    let entries = vec![LayoutMode::Ratio(u32::MAX), LayoutMode::Ratio(u32::MAX)];
    assert!(fits_budget(&entries, 0x3fff_ffff, 0, 0, 0));
    let spans = solve(&entries, 0x3fff_ffff, 0, 0, 0);
    assert_eq!(extents(&spans), vec![0x1fff_ffff, 0x1fff_ffff]);
}

#[test]
fn derived_bounds_of_fixed_entries() {
    let entries = vec![LayoutMode::Fixed(100), LayoutMode::Fixed(50), LayoutMode::Fixed(25)];
    let limits = derive_limits(&entries, 5, 5, 3);
    assert_eq!(limits, Limits { min: Some(191), max: Some(191) });
}

#[test]
fn derived_bounds_of_nothing_but_empty_fixed_entries() {
    let entries = vec![LayoutMode::Fixed(0), LayoutMode::Fixed(0)];
    let limits = derive_limits(&entries, 5, 5, 3);
    assert_eq!(limits, Limits { min: None, max: Some(13) });
}

#[test]
fn derived_bounds_of_mixed_entries() {
    let bounded = vec![LayoutMode::Fixed(100), range(Some(20), Some(300), 1), range(None, Some(40), 1)];
    assert_eq!(derive_limits(&bounded, 1, 2, 10), Limits { min: Some(143), max: Some(463) });
    let open = vec![LayoutMode::Fixed(100), range(Some(20), None, 1)];
    assert_eq!(derive_limits(&open, 0, 0, 0), Limits { min: Some(120), max: None });
    let ratio = vec![LayoutMode::Ratio(1)];
    assert_eq!(derive_limits(&ratio, 5, 5, 3), Limits { min: None, max: None });
}

#[test]
fn row_places_children_and_derives_bounds() {
    let mut row = Row::new();
    row.add_layout(id(1), LayoutMode::Ratio(2));
    row.add_layout(id(2), range(Some(150), Some(400), 2));
    let children = vec![child(1), child(2)];
    assert!(row.can_update(size(1000, 300), &children));
    let pass = row.update(size(1000, 300), &children).unwrap();
    assert_eq!(
        pass.placements,
        vec![(id(1), rect(5, 5, 587, 290)), (id(2), rect(595, 5, 400, 290))]
    );
    assert_eq!(pass.width, Limits { min: Some(163), max: None });
    assert_eq!(pass.height, Limits { min: None, max: None });
}

#[test]
fn column_places_children_and_derives_bounds() {
    let mut column = Column::new();
    column.set_padding(10);
    column.set_spacing(0);
    column.add_layout(id(7), LayoutMode::Fixed(30));
    column.add_layout(id(8), LayoutMode::Ratio(1));
    let children = vec![child(8), child(7), child(9)];
    let pass = column.update(size(200, 100), &children).unwrap();
    assert_eq!(
        pass.placements,
        vec![(id(8), rect(10, 40, 180, 50)), (id(7), rect(10, 10, 180, 30))]
    );
    assert_eq!(pass.height, Limits { min: Some(50), max: None });
    assert_eq!(pass.width, Limits { min: None, max: None });
}

#[test]
fn a_bare_ratio_takes_the_width_bounds_of_its_child() {
    let mut narrow = child(1);
    narrow.set_max_width(120);
    let mut wide = child(2);
    wide.set_min_width(700);
    let mut row = Row::new();
    row.set_padding(0);
    row.set_spacing(0);
    row.add_layout(id(1), LayoutMode::Ratio(1));
    row.add_layout(id(2), LayoutMode::Ratio(1));
    row.add_layout(id(3), LayoutMode::Ratio(1));
    let children = vec![narrow, wide, child(3)];
    let pass = row.update(size(900, 10), &children).unwrap();
    assert_eq!(
        pass.placements,
        vec![
            (id(1), rect(0, 0, 120, 10)),
            (id(2), rect(120, 0, 700, 10)),
            (id(3), rect(820, 0, 80, 10)),
        ]
    );
    // the table itself still holds bare ratios: the bounds are derived from them
    assert_eq!(pass.width, Limits { min: None, max: None });
    let mut column = Column::new();
    column.set_padding(0);
    column.set_spacing(0);
    column.add_layout(id(1), LayoutMode::Ratio(1));
    column.add_layout(id(3), LayoutMode::Ratio(1));
    let pass = column.update(size(50, 400), &children).unwrap();
    assert_eq!(
        pass.placements,
        vec![(id(1), rect(0, 0, 50, 120)), (id(3), rect(0, 120, 50, 280))]
    );
}

#[test]
fn cross_bounds_are_the_tightest_of_the_children() {
    let mut a = child(1);
    a.set_min_height(20);
    a.set_max_height(500);
    let mut b = child(2);
    b.set_min_height(35);
    let mut c = child(3);
    c.set_max_height(90);
    let mut outsider = child(4);
    outsider.set_min_height(1000);
    outsider.set_max_height(1);
    let mut row = Row::new();
    row.add_layout(id(1), LayoutMode::Fixed(10));
    row.add_layout(id(2), LayoutMode::Fixed(10));
    row.add_layout(id(3), LayoutMode::Fixed(10));
    let pass = row.update(size(100, 100), &vec![a, outsider, b, c]).unwrap();
    assert_eq!(pass.height, Limits { min: Some(35), max: Some(90) });
    assert_eq!(pass.width, Limits { min: Some(46), max: Some(46) });
    assert_eq!(pass.placements.len(), 3);
}

#[test]
fn the_last_layout_of_a_child_places_it() {
    let mut row = Row::new();
    row.set_padding(0);
    row.set_spacing(0);
    row.add_layout(id(1), LayoutMode::Fixed(10));
    row.add_layout(id(2), LayoutMode::Fixed(20));
    row.add_layout(id(1), LayoutMode::Fixed(30));
    let pass = row.update(size(100, 8), &vec![child(1), child(2)]).unwrap();
    assert_eq!(
        pass.placements,
        vec![(id(1), rect(30, 0, 30, 8)), (id(2), rect(10, 0, 20, 8))]
    );
}

#[test]
fn removing_a_layout_removes_every_entry_of_the_child() {
    let mut row = Row::new();
    row.set_padding(0);
    row.set_spacing(0);
    row.add_layout(id(1), LayoutMode::Fixed(10));
    row.add_layout(id(2), LayoutMode::Fixed(20));
    row.add_layout(id(1), LayoutMode::Fixed(30));
    row.remove_layout(&id(1));
    let children = vec![child(1), child(2)];
    let pass = row.update(size(100, 8), &children).unwrap();
    assert_eq!(pass.placements, vec![(id(2), rect(0, 0, 20, 8))]);
    row.remove_layout(&id(5));
    assert_eq!(row.update(size(100, 8), &children).unwrap().placements.len(), 1);
    row.remove_layout(&id(2));
    assert_eq!(row.update(size(100, 8), &children), None);
}

#[test]
fn paddings_can_be_set_side_by_side() {
    let mut row = Row::new();
    row.set_left_padding(1);
    row.set_top_padding(2);
    row.set_right_padding(3);
    row.set_bottom_padding(4);
    row.set_spacing(0);
    row.add_layout(id(1), LayoutMode::Ratio(1));
    let pass = row.update(size(100, 50), &vec![child(1)]).unwrap();
    assert_eq!(pass.placements, vec![(id(1), rect(1, 2, 96, 44))]);
    let mut column = Column::new();
    column.set_left_padding(1);
    column.set_top_padding(2);
    column.set_right_padding(3);
    column.set_bottom_padding(4);
    column.add_layout(id(1), LayoutMode::Ratio(1));
    let pass = column.update(size(100, 50), &vec![child(1)]).unwrap();
    assert_eq!(pass.placements, vec![(id(1), rect(1, 2, 96, 44))]);
}

#[test]
fn empty_column_asks_for_nothing() {
    let column = Column::new();
    let children = vec![child(1)];
    for (w, h) in [(0, 0), (640, 480), (-3, 70_000), (0, i32::MAX), (i32::MIN, i32::MIN)] {
        assert!(column.can_update(size(w, h), &children));
        assert_eq!(column.update(size(w, h), &children), None);
        let resized = Event::WindowResized { size: size(w, h), ty: WindowSize::Resize };
        assert_eq!(column.on_event(&resized, &children), None);
    }
    assert_eq!(Row::new().update(size(10, 10), &Vec::new()), None);
}

#[test]
fn only_a_resize_lays_out_anew() {
    let mut row = Row::new();
    row.add_layout(id(1), LayoutMode::Ratio(1));
    let children = vec![child(1)];
    let resized = Event::WindowResized { size: size(110, 60), ty: WindowSize::Maximize };
    let pass = row.on_event(&resized, &children).unwrap();
    assert_eq!(pass.placements, vec![(id(1), rect(5, 5, 100, 50))]);
    assert_eq!(row.on_event(&Event::WindowCreated, &children), None);
    assert_eq!(row.on_event(&Event::Leave, &children), None);
}

#[test]
fn sizes_beyond_the_budget_are_told_apart() {
    let mut row = Row::new();
    row.add_layout(id(1), LayoutMode::Ratio(1));
    let children = vec![child(1)];
    assert!(row.can_update(size(0x3fff_0000, 100), &children));
    assert!(!row.can_update(size(i32::MAX, 100), &children));
    assert!(!row.can_update(size(100, i32::MIN), &children));
    let mut greedy = child(1);
    greedy.set_min_width(i32::MAX);
    assert!(!row.can_update(size(100, 100), &vec![greedy]));
}

fn placements(outcome: Outcome) -> Vec<(WindowID, rusty_gui::Rect)> {
    match outcome {
        Outcome::Laid(pass) => pass.placements,
        other => panic!("no layout: {:?}", other),
    }
}

#[test]
fn every_trigger_lays_the_row_out_at_once() {
    let children = vec![child(1), child(2)];
    let last = size(110, 60);
    let mut row = Row::new();
    assert_eq!(row.react(Trigger::SetSpacing(10), last, &children), Outcome::Idle);
    assert_eq!(row.react(Trigger::Resized(size(500, 500)), last, &children), Outcome::Idle);
    let outcome = row.react(Trigger::AddLayout(id(1), LayoutMode::Ratio(1)), last, &children);
    assert_eq!(placements(outcome), vec![(id(1), rect(5, 5, 100, 50))]);
    let outcome = row.react(Trigger::AddLayout(id(2), LayoutMode::Fixed(30)), last, &children);
    assert_eq!(
        placements(outcome),
        vec![(id(1), rect(5, 5, 60, 50)), (id(2), rect(75, 5, 30, 50))]
    );
    let outcome = row.react(Trigger::SetPadding(0), last, &children);
    assert_eq!(
        placements(outcome),
        vec![(id(1), rect(0, 0, 70, 60)), (id(2), rect(80, 0, 30, 60))]
    );
    let outcome = row.react(Trigger::SetLeftPadding(1), last, &children);
    assert_eq!(placements(outcome)[0], (id(1), rect(1, 0, 69, 60)));
    let outcome = row.react(Trigger::SetTopPadding(2), last, &children);
    assert_eq!(placements(outcome)[0], (id(1), rect(1, 2, 69, 58)));
    let outcome = row.react(Trigger::SetRightPadding(3), last, &children);
    assert_eq!(placements(outcome)[1], (id(2), rect(77, 2, 30, 58)));
    let outcome = row.react(Trigger::SetBottomPadding(4), last, &children);
    assert_eq!(placements(outcome)[1], (id(2), rect(77, 2, 30, 54)));
    let outcome = row.react(Trigger::Resized(size(210, 106)), last, &children);
    assert_eq!(
        placements(outcome),
        vec![(id(1), rect(1, 2, 166, 100)), (id(2), rect(177, 2, 30, 100))]
    );
    let outcome = row.react(Trigger::RemoveLayout(id(1)), last, &children);
    assert_eq!(placements(outcome), vec![(id(2), rect(1, 2, 30, 54))]);
    assert_eq!(row.react(Trigger::RemoveLayout(id(2)), last, &children), Outcome::Idle);
}

#[test]
fn a_trigger_beyond_the_budget_changes_the_table_and_writes_nothing() {
    let children = vec![child(1)];
    let last = size(100, 100);
    let mut column = Column::new();
    let outcome = column.react(Trigger::AddLayout(id(1), LayoutMode::Fixed(i32::MAX)), last, &children);
    assert_eq!(outcome, Outcome::TooLarge);
    assert_eq!(column.react(Trigger::Resized(size(10, 10)), last, &children), Outcome::TooLarge);
    assert_eq!(column.react(Trigger::RemoveLayout(id(1)), last, &children), Outcome::Idle);
    assert_eq!(column.react(Trigger::SetSpacing(i32::MIN), last, &children), Outcome::Idle);
    let outcome = column.react(Trigger::AddLayout(id(1), LayoutMode::Ratio(1)), last, &children);
    assert_eq!(outcome, Outcome::TooLarge);
    let outcome = column.react(Trigger::SetSpacing(0), last, &children);
    assert_eq!(placements(outcome), vec![(id(1), rect(5, 5, 90, 90))]);
    assert_eq!(
        column.react(Trigger::Resized(size(50, i32::MAX)), last, &children),
        Outcome::TooLarge
    );
    let outcome = column.react(Trigger::Resized(size(i32::MAX, 50)), last, &children);
    assert_eq!(placements(outcome), vec![(id(1), rect(5, 5, i32::MAX - 10, 40))]);
}

#[test]
fn weighted_children_fill_the_container_up_to_rounding() {
    let entries = vec![
        LayoutMode::Ratio(3),
        LayoutMode::Fixed(40),
        LayoutMode::Ratio(5),
        range(Some(10), None, 7),
    ];
    for container in 100..400 {
        let spans = solve(&entries, container, 6, 8, 2);
        let last = spans.last().unwrap();
        let end = last.offset + last.extent;
        assert!(end <= container - 8);
        assert!(container - 8 - end < 3);
    }
}

#[test]
fn an_empty_table_is_idle_in_any_size() {
    let children = vec![child(1)];
    let mut column = Column::new();
    let huge = size(0, i32::MAX);
    assert_eq!(column.react(Trigger::Resized(huge), size(1, 1), &children), Outcome::Idle);
    assert_eq!(column.react(Trigger::SetPadding(i32::MIN), huge, &children), Outcome::Idle);
    assert_eq!(column.react(Trigger::SetSpacing(i32::MAX), huge, &children), Outcome::Idle);
    assert!(column.can_update(size(i32::MAX, i32::MIN), &children));
    assert_eq!(column.update(size(i32::MAX, i32::MIN), &children), None);
    let mut row = Row::new();
    assert_eq!(row.react(Trigger::Resized(size(i32::MAX, 0)), huge, &children), Outcome::Idle);
    assert_eq!(row.react(Trigger::RemoveLayout(id(1)), huge, &children), Outcome::Idle);
}
