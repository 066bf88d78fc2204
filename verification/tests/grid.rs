use rusty_gui::widgets::grid::clamp;
use rusty_gui::{rect, size, Event, Grid, GridTrigger, Rect, Window, WindowID, WindowSize};

fn id(hwnd: usize) -> WindowID {
    WindowID { hwnd }
}

fn child(hwnd: usize) -> Window {
    Window::with_id(id(hwnd))
}

fn bare(columns: i32, rows: i32) -> Grid {
    let mut grid = Grid::new();
    grid.set_padding(0);
    grid.set_spacing(0);
    grid.set_size(size(columns, rows));
    grid
}

#[test]
fn block_of_two_columns_in_a_grid_of_three_by_three() {
    let mut grid = bare(3, 3);
    grid.add_layout(id(1), rect(1, 0, 2, 1));
    assert!(grid.can_update(size(600, 600)));
    let placements = grid.update(size(600, 600), &vec![child(1)]);
    assert_eq!(placements, vec![(id(1), rect(200, 0, 400, 200))]);
}

#[test]
fn cells_with_padding_and_spacing() {
    let mut grid = Grid::new();
    grid.set_size(size(4, 2));
    grid.add_layout(id(1), rect(0, 0, 1, 1));
    grid.add_layout(id(2), rect(1, 1, 3, 1));
    grid.add_layout(id(3), rect(3, 0, 1, 2));
    // usable width 200 - 10 - 9 = 181, 45 per cell; usable height 100 - 10 - 3 = 87, 43 per cell
    let placements = grid.update(size(200, 100), &vec![child(3), child(2), child(1), child(4)]);
    assert_eq!(
        placements,
        vec![
            (id(3), rect(5 + 3 * 48, 5, 45, 89)),
            (id(2), rect(5 + 48, 5 + 46, 141, 43)),
            (id(1), rect(5, 5, 45, 43)),
        ]
    );
}

#[test]
fn separate_paddings_and_spacings() {
    let mut grid = Grid::new();
    grid.set_size(size(2, 2));
    grid.set_left_padding(1);
    grid.set_top_padding(2);
    grid.set_right_padding(3);
    grid.set_bottom_padding(4);
    grid.set_horizontal_spacing(6);
    grid.set_vertical_spacing(8);
    grid.add_layout(id(1), rect(1, 1, 1, 1));
    // cells of (110 - 4 - 6) / 2 = 50 by (114 - 6 - 8) / 2 = 50
    let placements = grid.update(size(110, 114), &vec![child(1)]);
    assert_eq!(placements, vec![(id(1), rect(57, 60, 50, 50))]);
}

#[test]
fn grid_without_cells_asks_for_nothing() {
    let mut grid = Grid::new();
    grid.add_layout(id(1), rect(0, 0, 1, 1));
    let children = vec![child(1)];
    assert!(grid.can_update(size(i32::MAX, i32::MIN)));
    assert_eq!(grid.update(size(600, 600), &children), Vec::new());
    grid.set_size(size(3, 0));
    assert_eq!(grid.update(size(600, 600), &children), Vec::new());
    grid.set_size(size(0, 3));
    assert_eq!(grid.update(size(600, 600), &children), Vec::new());
}

#[test]
fn assignments_are_clamped_to_the_grid() {
    let grid = size(3, 4);
    assert_eq!(clamp(rect(1, 2, 1, 1), grid), rect(1, 2, 1, 1));
    assert_eq!(clamp(rect(5, 9, 1, 1), grid), rect(2, 3, 1, 1));
    assert_eq!(clamp(rect(-2, -1, 2, 2), grid), rect(0, 0, 2, 2));
    assert_eq!(clamp(rect(1, 1, 7, 7), grid), rect(1, 1, 2, 3));
    assert_eq!(clamp(rect(0, 0, -1, -5), grid), rect(0, 0, 0, 0));
    assert_eq!(clamp(rect(-4, 0, 9, 1), grid), rect(0, 0, 3, 1));
    assert_eq!(clamp(rect(i32::MAX, i32::MIN, i32::MAX, i32::MIN), grid), rect(2, 0, 1, 0));
    assert_eq!(clamp(rect(2, 2, 2, 2), size(0, -3)), rect(0, 0, 0, 0));
    let once = clamp(rect(7, -7, 7, 7), grid);
    assert_eq!(clamp(once, grid), once);
}

#[test]
fn an_assignment_is_clamped_when_it_is_added() {
    let mut grid = bare(2, 2);
    grid.add_layout(id(1), rect(1, 1, 5, 5));
    grid.set_size(size(4, 4));
    // clamped to one cell of the grid of two by two when it was added
    let placements = grid.update(size(400, 400), &vec![child(1)]);
    assert_eq!(placements, vec![(id(1), rect(100, 100, 100, 100))]);
}

#[test]
fn a_shrunken_grid_clamps_the_assignments_it_finds() {
    let mut grid = bare(4, 4);
    grid.add_layout(id(1), rect(3, 3, 1, 1));
    grid.add_layout(id(2), rect(0, 0, 4, 1));
    grid.set_size(size(2, 2));
    let placements = grid.update(size(400, 400), &vec![child(1), child(2)]);
    assert_eq!(
        placements,
        vec![(id(1), rect(200, 200, 200, 200)), (id(2), rect(0, 0, 400, 200))]
    );
}

#[test]
fn a_later_assignment_replaces_an_earlier_one() {
    let mut grid = bare(2, 2);
    grid.add_layout(id(1), rect(0, 0, 1, 1));
    grid.add_layout(id(1), rect(1, 1, 1, 1));
    let children = vec![child(1), child(1)];
    assert_eq!(
        grid.update(size(100, 100), &children),
        vec![(id(1), rect(50, 50, 50, 50)), (id(1), rect(50, 50, 50, 50))]
    );
    grid.remove_layout(id(1));
    assert_eq!(grid.update(size(100, 100), &children), Vec::new());
    grid.remove_layout(id(1));
    assert_eq!(grid.update(size(100, 100), &children), Vec::new());
}

#[test]
fn cells_divide_toward_zero() {
    let mut grid = bare(3, 3);
    grid.add_layout(id(1), rect(2, 2, 1, 1));
    assert_eq!(grid.update(size(100, 101), &vec![child(1)]), vec![(id(1), rect(66, 66, 33, 33))]);
    // a container smaller than its padding: usable width -10, cells of -3
    grid.set_left_padding(14);
    assert_eq!(grid.update(size(4, 0), &vec![child(1)]), vec![(id(1), rect(8, 0, -3, 0))]);
}

#[test]
fn an_empty_block_reaches_back_by_one_gap() {
    let mut grid = bare(2, 2);
    grid.set_spacing(4);
    grid.add_layout(id(1), rect(1, 0, 0, 1));
    // cells of (100 - 4) / 2 = 48
    assert_eq!(grid.update(size(100, 100), &vec![child(1)]), vec![(id(1), rect(52, 0, -4, 48))]);
}

#[test]
fn only_a_resize_partitions_anew() {
    let mut grid = bare(2, 1);
    grid.add_layout(id(1), rect(1, 0, 1, 1));
    let children = vec![child(1)];
    let resized = Event::WindowResized { size: size(80, 20), ty: WindowSize::Restore };
    assert_eq!(grid.on_event(&resized, &children), vec![(id(1), rect(40, 0, 40, 20))]);
    assert_eq!(grid.on_event(&Event::WindowDestroyed, &children), Vec::new());
}

#[test]
fn grid_sizes_beyond_the_budget_are_told_apart() {
    let grid = bare(3, 3);
    assert!(grid.can_update(size(0x3fff_ffff, 0x3fff_ffff)));
    assert!(!grid.can_update(size(0x4000_0000, 10)));
    assert!(!grid.can_update(size(10, -0x4000_0000)));
    let mut spaced = bare(1000, 1);
    spaced.set_horizontal_spacing(2_000_000);
    assert!(!spaced.can_update(size(10, 10)));
    let empty: Vec<(WindowID, Rect)> = Vec::new();
    assert_eq!(grid.update(size(0x3fff_ffff, 0x3fff_ffff), &Vec::new()), empty);
}

#[test]
fn every_trigger_lays_the_grid_out_at_once() {
    let children = vec![child(1), child(2)];
    let last = size(100, 100);
    let mut grid = Grid::new();
    assert_eq!(grid.react(GridTrigger::AddLayout(id(1), rect(1, 1, 1, 1)), last, &children), Some(vec![]));
    assert_eq!(grid.react(GridTrigger::SetSize(size(2, 2)), last, &children).unwrap(), vec![(id(1), rect(5, 5, -3, -3))]);
    assert_eq!(grid.react(GridTrigger::AddLayout(id(1), rect(1, 1, 1, 1)), last, &children).unwrap(), vec![(id(1), rect(51, 51, 43, 43))]);
    assert_eq!(grid.react(GridTrigger::SetPadding(0), last, &children).unwrap(), vec![(id(1), rect(51, 51, 48, 48))]);
    assert_eq!(grid.react(GridTrigger::SetSpacing(0), last, &children).unwrap(), vec![(id(1), rect(50, 50, 50, 50))]);
    assert_eq!(grid.react(GridTrigger::SetHorizontalSpacing(10), last, &children).unwrap(), vec![(id(1), rect(55, 50, 45, 50))]);
    assert_eq!(grid.react(GridTrigger::SetVerticalSpacing(20), last, &children).unwrap(), vec![(id(1), rect(55, 60, 45, 40))]);
    assert_eq!(grid.react(GridTrigger::SetLeftPadding(10), last, &children).unwrap(), vec![(id(1), rect(60, 60, 40, 40))]);
    assert_eq!(grid.react(GridTrigger::SetTopPadding(20), last, &children).unwrap(), vec![(id(1), rect(60, 70, 40, 30))]);
    assert_eq!(grid.react(GridTrigger::SetRightPadding(10), last, &children).unwrap(), vec![(id(1), rect(55, 70, 35, 30))]);
    assert_eq!(grid.react(GridTrigger::SetBottomPadding(20), last, &children).unwrap(), vec![(id(1), rect(55, 60, 35, 20))]);
    assert_eq!(grid.react(GridTrigger::Resized(size(200, 200)), last, &children).unwrap(), vec![(id(1), rect(105, 110, 85, 70))]);
    assert_eq!(grid.react(GridTrigger::AddLayout(id(2), rect(0, 0, 2, 1)), last, &children).unwrap(), vec![(id(1), rect(55, 60, 35, 20)), (id(2), rect(10, 20, 80, 20))]);
    assert_eq!(grid.react(GridTrigger::RemoveLayout(id(1)), last, &children).unwrap(), vec![(id(2), rect(10, 20, 80, 20))]);
    assert_eq!(grid.react(GridTrigger::Resized(size(i32::MAX, 1)), last, &children), None);
    assert_eq!(grid.react(GridTrigger::SetSize(size(0, 2)), size(i32::MAX, 1), &children), Some(vec![]));
}

#[test]
fn a_grid_that_shrinks_and_grows_keeps_the_clamped_assignments() {
    let mut grid = bare(3, 3);
    grid.add_layout(id(1), rect(2, 2, 1, 1));
    grid.add_layout(id(2), rect(0, 1, 3, 2));
    let children = vec![child(1), child(2)];
    assert_eq!(
        grid.update(size(600, 600), &children),
        vec![(id(1), rect(400, 400, 200, 200)), (id(2), rect(0, 200, 600, 400))]
    );
    grid.set_size(size(2, 2));
    assert_eq!(
        grid.update(size(600, 600), &children),
        vec![(id(1), rect(300, 300, 300, 300)), (id(2), rect(0, 300, 600, 300))]
    );
    grid.set_size(size(3, 3));
    assert_eq!(
        grid.update(size(600, 600), &children),
        vec![(id(1), rect(200, 200, 200, 200)), (id(2), rect(0, 200, 400, 200))]
    );
    grid.set_size(size(0, 5));
    grid.set_size(size(3, 3));
    assert_eq!(
        grid.update(size(600, 600), &children),
        vec![(id(1), rect(0, 200, 0, 200)), (id(2), rect(0, 200, 0, 200))]
    );
}
