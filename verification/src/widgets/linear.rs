//! What `Row` and `Column` share: a table of children with their sizing
//! policies, laid out along one axis and stretched over the other.
//!
//! The container does not talk to the windowing system. A pass takes the
//! container's size and what is known of its direct children, and returns
//! the rectangle of every child in the table together with the bounds that
//! the container itself should declare.

use super::axis::{magnitude, magnitude_upto, solution, within_budget, Span};
use super::bounds::{as_int, derive_limits, derived_max, derived_min, Limits};
use super::solver::{fits_budget, solve};
use super::LayoutMode;
use crate::types::{fits_i32, Point, Rect, Size};
use crate::window::{Window, WindowID};
use vstd::prelude::*;

verus! {

/// The direction of a container's main axis.
#[derive(Debug, Clone, Copy, PartialEq, Eq, Structural)]
pub enum Axis {
    /// Children side by side, as in a `Row`.
    Horizontal,
    /// Children one below the other, as in a `Column`.
    Vertical,
}

/// The space kept free inside each edge of a container.
#[derive(Debug, Clone, Copy, PartialEq, Eq, Structural)]
pub struct Padding {
    pub left: i32,
    pub top: i32,
    pub right: i32,
    pub bottom: i32,
}

/// What one pass asks of the windowing system: the rectangle of each child
/// that takes part in the layout, and the bounds of the container itself.
#[derive(Debug, PartialEq, Eq)]
pub struct LayoutPass {
    /// The children to move, in the order in which they were listed.
    pub placements: Vec<(WindowID, Rect)>,
    /// The bounds on the container's width.
    pub width: Limits,
    /// The bounds on the container's height.
    pub height: Limits,
}

impl Axis {
    /// The container's extent along the main axis.
    pub open spec fn main_extent(self, size: Size) -> i32 {
        match self {
            Axis::Horizontal => size.width,
            Axis::Vertical => size.height,
        }
    }

    /// The container's extent across the main axis.
    pub open spec fn cross_extent(self, size: Size) -> i32 {
        match self {
            Axis::Horizontal => size.height,
            Axis::Vertical => size.width,
        }
    }

    /// The padding before the first child.
    pub open spec fn lead(self, padding: Padding) -> i32 {
        match self {
            Axis::Horizontal => padding.left,
            Axis::Vertical => padding.top,
        }
    }

    /// The padding after the last child.
    pub open spec fn trail(self, padding: Padding) -> i32 {
        match self {
            Axis::Horizontal => padding.right,
            Axis::Vertical => padding.bottom,
        }
    }

    /// The padding at the near edge across the main axis.
    pub open spec fn cross_lead(self, padding: Padding) -> i32 {
        match self {
            Axis::Horizontal => padding.top,
            Axis::Vertical => padding.left,
        }
    }

    /// The padding at the far edge across the main axis.
    pub open spec fn cross_trail(self, padding: Padding) -> i32 {
        match self {
            Axis::Horizontal => padding.bottom,
            Axis::Vertical => padding.right,
        }
    }

    /// The bounds that a child declares across the main axis.
    pub open spec fn cross_limits(self, child: Window) -> Limits {
        match self {
            Axis::Horizontal => child.height_limits(),
            Axis::Vertical => child.width_limits(),
        }
    }

    /// The extent that every child receives across the main axis: all of
    /// the container but its padding.
    pub open spec fn stretch(self, size: Size, padding: Padding) -> int {
        self.cross_extent(size) - self.cross_lead(padding) - self.cross_trail(padding)
    }

    /// The rectangle of a child that covers `span` along the main axis.
    pub open spec fn span_rect(self, span: Span, size: Size, padding: Padding) -> Rect {
        match self {
            Axis::Horizontal => Rect {
                pos: Point { x: span.offset, y: padding.top },
                size: Size { width: span.extent, height: self.stretch(size, padding) as i32 },
            },
            Axis::Vertical => Rect {
                pos: Point { x: padding.left, y: span.offset },
                size: Size { width: self.stretch(size, padding) as i32, height: span.extent },
            },
        }
    }
}

/// The sizing policies of a table, in entry order.
pub open spec fn modes(layouts: Seq<(WindowID, LayoutMode)>) -> Seq<LayoutMode> {
    Seq::new(layouts.len(), |i: int| layouts[i].1)
}

/// The position of the first child with identifier `id` at or after
/// `start`.
pub open spec fn child_from(children: Seq<Window>, id: WindowID, start: int) -> Option<int>
    decreases children.len() - start,
{
    if start < 0 || start >= children.len() {
        None
    } else if children[start].id == id {
        Some(start)
    } else {
        child_from(children, id, start + 1)
    }
}

/// The bounds that the child `id` declares on its width; none for an
/// identifier that is not among the children.
pub open spec fn declared_width(children: Seq<Window>, id: WindowID) -> Limits {
    match child_from(children, id, 0) {
        Some(k) => children[k].width_limits(),
        None => Limits { min: None, max: None },
    }
}

/// A bare ratio takes the given bounds and becomes a range; any other
/// policy stays as it is.
pub open spec fn lower(mode: LayoutMode, limits: Limits) -> LayoutMode {
    match mode {
        LayoutMode::Ratio(w) => LayoutMode::Range { min: limits.min, max: limits.max, ratio: w },
        _ => mode,
    }
}

/// The policies that a pass works on: those of the table, each bare ratio
/// bounded by the width that its child declares. The table itself is not
/// changed.
pub open spec fn lowered(layouts: Seq<(WindowID, LayoutMode)>, children: Seq<Window>) -> Seq<
    LayoutMode,
> {
    Seq::new(layouts.len(), |i: int| lower(layouts[i].1, declared_width(children, layouts[i].0)))
}

/// The position of the last entry for `id` among the first `end` entries.
pub open spec fn entry_before(layouts: Seq<(WindowID, LayoutMode)>, id: WindowID, end: int) -> Option<
    int,
>
    decreases end,
{
    if end <= 0 {
        None
    } else if layouts[end - 1].0 == id {
        Some(end - 1)
    } else {
        entry_before(layouts, id, end - 1)
    }
}

/// The entry that decides where the child `id` goes: the last one that
/// names it.
pub open spec fn entry_of(layouts: Seq<(WindowID, LayoutMode)>, id: WindowID) -> Option<int> {
    entry_before(layouts, id, layouts.len() as int)
}

/// The rectangle of every entry, in entry order.
pub open spec fn rects(
    axis: Axis,
    layouts: Seq<(WindowID, LayoutMode)>,
    padding: Padding,
    spacing: i32,
    size: Size,
    children: Seq<Window>,
) -> Seq<Rect> {
    let spans = solution(
        lowered(layouts, children),
        axis.main_extent(size) as int,
        axis.lead(padding) as int,
        axis.trail(padding) as int,
        spacing as int,
    );
    Seq::new(layouts.len(), |i: int| axis.span_rect(spans[i], size, padding))
}

/// The placements of the first `i` children: each child that the table
/// names, with the rectangle of its entry.
pub open spec fn placed_upto(
    children: Seq<Window>,
    layouts: Seq<(WindowID, LayoutMode)>,
    rects: Seq<Rect>,
    i: int,
) -> Seq<(WindowID, Rect)>
    decreases i,
{
    if i <= 0 {
        Seq::empty()
    } else {
        let before = placed_upto(children, layouts, rects, i - 1);
        match entry_of(layouts, children[i - 1].id) {
            Some(k) => before.push((children[i - 1].id, rects[k])),
            None => before,
        }
    }
}

/// The tighter of two pairs of bounds: the greater minimum and the lesser
/// maximum, a missing bound giving way to a present one.
pub open spec fn tighten(acc: Limits, child: Limits) -> Limits {
    Limits {
        min: match (acc.min, child.min) {
            (Some(a), Some(c)) => Some(if a >= c { a } else { c }),
            (None, Some(c)) => Some(c),
            (a, None) => a,
        },
        max: match (acc.max, child.max) {
            (Some(a), Some(c)) => Some(if a <= c { a } else { c }),
            (None, Some(c)) => Some(c),
            (a, None) => a,
        },
    }
}

/// The bounds across the main axis that the first `i` children put on the
/// container: the tightest of the bounds of those that the table names.
pub open spec fn cross_upto(
    axis: Axis,
    children: Seq<Window>,
    layouts: Seq<(WindowID, LayoutMode)>,
    i: int,
) -> Limits
    decreases i,
{
    if i <= 0 {
        Limits { min: None, max: None }
    } else {
        let before = cross_upto(axis, children, layouts, i - 1);
        if entry_of(layouts, children[i - 1].id) is Some {
            tighten(before, axis.cross_limits(children[i - 1]))
        } else {
            before
        }
    }
}

/// The bounds along the main axis that the policies put on the container.
pub open spec fn main_limits(
    axis: Axis,
    layouts: Seq<(WindowID, LayoutMode)>,
    padding: Padding,
    spacing: i32,
) -> (Option<int>, Option<int>) {
    (
        derived_min(
            modes(layouts),
            axis.lead(padding) as int,
            axis.trail(padding) as int,
            spacing as int,
        ),
        derived_max(
            modes(layouts),
            axis.lead(padding) as int,
            axis.trail(padding) as int,
            spacing as int,
        ),
    )
}

/// The pass can be computed in 32-bit coordinates: the table is empty, so
/// that nothing is computed, or the problem along the main axis is within
/// the budget and the extent across it is a coordinate.
pub open spec fn arrangeable(
    axis: Axis,
    layouts: Seq<(WindowID, LayoutMode)>,
    padding: Padding,
    spacing: i32,
    size: Size,
    children: Seq<Window>,
) -> bool {
    layouts.len() == 0 || (within_budget(
        lowered(layouts, children),
        axis.main_extent(size) as int,
        axis.lead(padding) as int,
        axis.trail(padding) as int,
        spacing as int,
    ) && fits_i32(axis.stretch(size, padding)))
}

/// `pass` is the outcome of laying `layouts` out in a container of `size`.
pub open spec fn is_pass(
    pass: LayoutPass,
    axis: Axis,
    layouts: Seq<(WindowID, LayoutMode)>,
    padding: Padding,
    spacing: i32,
    size: Size,
    children: Seq<Window>,
) -> bool {
    let main = match axis {
        Axis::Horizontal => pass.width,
        Axis::Vertical => pass.height,
    };
    let cross = match axis {
        Axis::Horizontal => pass.height,
        Axis::Vertical => pass.width,
    };
    &&& pass.placements@ == placed_upto(
        children,
        layouts,
        rects(axis, layouts, padding, spacing, size, children),
        children.len() as int,
    )
    &&& (as_int(main.min), as_int(main.max)) == main_limits(axis, layouts, padding, spacing)
    &&& cross == cross_upto(axis, children, layouts, children.len() as int)
}

/// Lowering a policy never makes its magnitude smaller.
proof fn lemma_lowering_grows(
    layouts: Seq<(WindowID, LayoutMode)>,
    children: Seq<Window>,
    i: int,
)
    requires
        0 <= i <= layouts.len(),
    ensures
        0 <= magnitude_upto(modes(layouts), i) <= magnitude_upto(lowered(layouts, children), i),
    decreases i,
{
    if i > 0 {
        lemma_lowering_grows(layouts, children, i - 1);
    }
}

/// The position of the first child with identifier `id`.
fn find_child(children: &Vec<Window>, id: WindowID) -> (found: Option<usize>)
    ensures
        match found {
            Some(k) => child_from(children@, id, 0) == Some(k as int) && k < children@.len(),
            None => child_from(children@, id, 0) is None,
        },
{
    let mut i: usize = 0;
    while i < children.len()
        invariant
            i <= children.len(),
            child_from(children@, id, 0) == child_from(children@, id, i as int),
        decreases children.len() - i,
    {
        if children[i].id == id {
            return Some(i);
        }
        i += 1;
    }
    None
}

/// The position of the last entry that names `id`.
fn find_entry(layouts: &Vec<(WindowID, LayoutMode)>, id: WindowID) -> (found: Option<usize>)
    ensures
        match found {
            Some(k) => entry_of(layouts@, id) == Some(k as int) && k < layouts@.len(),
            None => entry_of(layouts@, id) is None,
        },
{
    let mut i: usize = layouts.len();
    while i > 0
        invariant
            i <= layouts.len(),
            entry_of(layouts@, id) == entry_before(layouts@, id, i as int),
        decreases i,
    {
        if layouts[i - 1].0 == id {
            return Some(i - 1);
        }
        i -= 1;
    }
    None
}

/// The sizing policies of a table, in entry order.
fn modes_of(layouts: &Vec<(WindowID, LayoutMode)>) -> (entries: Vec<LayoutMode>)
    ensures
        entries@ == modes(layouts@),
{
    let mut entries: Vec<LayoutMode> = Vec::new();
    let mut i: usize = 0;
    while i < layouts.len()
        invariant
            i <= layouts.len(),
            entries@.len() == i,
            forall|j: int| 0 <= j < i ==> #[trigger] entries@[j] == layouts@[j].1,
        decreases layouts.len() - i,
    {
        entries.push(layouts[i].1);
        i += 1;
    }
    entries
}

/// The policies that a pass works on.
fn lower_all(layouts: &Vec<(WindowID, LayoutMode)>, children: &Vec<Window>) -> (entries: Vec<
    LayoutMode,
>)
    ensures
        entries@ == lowered(layouts@, children@),
{
    let mut entries: Vec<LayoutMode> = Vec::new();
    let mut i: usize = 0;
    while i < layouts.len()
        invariant
            i <= layouts.len(),
            entries@.len() == i,
            forall|j: int|
                0 <= j < i ==> #[trigger] entries@[j] == lower(
                    layouts@[j].1,
                    declared_width(children@, layouts@[j].0),
                ),
        decreases layouts.len() - i,
    {
        let (id, mode) = layouts[i];
        let entry = match mode {
            LayoutMode::Ratio(ratio) => match find_child(children, id) {
                Some(k) => LayoutMode::Range {
                    min: children[k].min_width,
                    max: children[k].max_width,
                    ratio,
                },
                None => LayoutMode::Range { min: None, max: None, ratio },
            },
            _ => mode,
        };
        entries.push(entry);
        i += 1;
    }
    entries
}

/// The tighter of two pairs of bounds.
fn tightened(acc: Limits, child: Limits) -> (limits: Limits)
    ensures
        limits == tighten(acc, child),
{
    let min = match (acc.min, child.min) {
        (Some(a), Some(c)) => Some(if a >= c { a } else { c }),
        (None, Some(c)) => Some(c),
        (a, None) => a,
    };
    let max = match (acc.max, child.max) {
        (Some(a), Some(c)) => Some(if a <= c { a } else { c }),
        (None, Some(c)) => Some(c),
        (a, None) => a,
    };
    Limits { min, max }
}

/// Whether `arrange` may be called on these arguments.
pub fn can_arrange(
    axis: Axis,
    layouts: &Vec<(WindowID, LayoutMode)>,
    padding: Padding,
    spacing: i32,
    size: Size,
    children: &Vec<Window>,
) -> (ok: bool)
    ensures
        ok == arrangeable(axis, layouts@, padding, spacing, size, children@),
{
    if layouts.len() == 0 {
        return true;
    }
    let entries = lower_all(layouts, children);
    match axis {
        Axis::Horizontal => {
            let stretch: i64 = size.height as i64 - padding.top as i64 - padding.bottom as i64;
            fits_budget(&entries, size.width, padding.left, padding.right, spacing) && -0x8000_0000
                <= stretch && stretch <= 0x7fff_ffff
        },
        Axis::Vertical => {
            let stretch: i64 = size.width as i64 - padding.left as i64 - padding.right as i64;
            fits_budget(&entries, size.height, padding.top, padding.bottom, spacing) && -0x8000_0000
                <= stretch && stretch <= 0x7fff_ffff
        },
    }
}

/// Lays the children of `layouts` out along `axis` in a container of
/// `size`, each stretched across the other axis, and derives the bounds of
/// the container.
///
/// `children` lists the container's direct children with the bounds they
/// declare. A table without entries asks for nothing: the result is `None`,
/// and neither a rectangle nor a bound is to be written.
pub fn arrange(
    axis: Axis,
    layouts: &Vec<(WindowID, LayoutMode)>,
    padding: Padding,
    spacing: i32,
    size: Size,
    children: &Vec<Window>,
) -> (pass: Option<LayoutPass>)
    requires
        arrangeable(axis, layouts@, padding, spacing, size, children@),
    ensures
        layouts@.len() == 0 <==> pass is None,
        pass is Some ==> is_pass(pass->0, axis, layouts@, padding, spacing, size, children@),
{
    if layouts.len() == 0 {
        return None;
    }
    let (container, lead, trail) = match axis {
        Axis::Horizontal => (size.width, padding.left, padding.right),
        Axis::Vertical => (size.height, padding.top, padding.bottom),
    };
    let stretch: i32 = match axis {
        Axis::Horizontal => (size.height as i64 - padding.top as i64 - padding.bottom as i64) as i32,
        Axis::Vertical => (size.width as i64 - padding.left as i64 - padding.right as i64) as i32,
    };
    let declared = modes_of(layouts);
    let entries = lower_all(layouts, children);
    proof {
        lemma_lowering_grows(layouts@, children@, layouts@.len() as int);
    }
    let main = derive_limits(&declared, lead, trail, spacing);
    let spans = solve(&entries, container, lead, trail, spacing);
    let ghost all = rects(axis, layouts@, padding, spacing, size, children@);
    let mut placements: Vec<(WindowID, Rect)> = Vec::new();
    let mut cross = Limits { min: None, max: None };
    let mut i: usize = 0;
    while i < children.len()
        invariant
            i <= children.len(),
            stretch == axis.stretch(size, padding),
            all == rects(axis, layouts@, padding, spacing, size, children@),
            spans@ == solution(
                lowered(layouts@, children@),
                axis.main_extent(size) as int,
                axis.lead(padding) as int,
                axis.trail(padding) as int,
                spacing as int,
            ),
            placements@ == placed_upto(children@, layouts@, all, i as int),
            cross == cross_upto(axis, children@, layouts@, i as int),
        decreases children.len() - i,
    {
        let child = children[i];
        match find_entry(layouts, child.id) {
            Some(k) => {
                let span = spans[k];
                let rect = match axis {
                    Axis::Horizontal => Rect {
                        pos: Point { x: span.offset, y: padding.top },
                        size: Size { width: span.extent, height: stretch },
                    },
                    Axis::Vertical => Rect {
                        pos: Point { x: padding.left, y: span.offset },
                        size: Size { width: stretch, height: span.extent },
                    },
                };
                placements.push((child.id, rect));
                let limits = match axis {
                    Axis::Horizontal => Limits { min: child.min_height, max: child.max_height },
                    Axis::Vertical => Limits { min: child.min_width, max: child.max_width },
                };
                cross = tightened(cross, limits);
            },
            None => {},
        }
        i += 1;
    }
    let pass = match axis {
        Axis::Horizontal => LayoutPass { placements, width: main, height: cross },
        Axis::Vertical => LayoutPass { placements, width: cross, height: main },
    };
    Some(pass)
}

/// The state of a `Row` or a `Column` as the contracts see it.
pub struct Table {
    /// The children that take part in the layout with their policies, in
    /// visual order.
    pub layouts: Seq<(WindowID, LayoutMode)>,
    pub padding: Padding,
    pub spacing: i32,
}

/// The first `i` entries of a table without those that name `id`.
pub open spec fn kept_upto(layouts: Seq<(WindowID, LayoutMode)>, id: WindowID, i: int) -> Seq<
    (WindowID, LayoutMode),
>
    decreases i,
{
    if i <= 0 {
        Seq::empty()
    } else {
        let before = kept_upto(layouts, id, i - 1);
        if layouts[i - 1].0 == id {
            before
        } else {
            before.push(layouts[i - 1])
        }
    }
}

/// The table without the entries that name `id`, the others in their order.
pub open spec fn without(layouts: Seq<(WindowID, LayoutMode)>, id: WindowID) -> Seq<
    (WindowID, LayoutMode),
> {
    kept_upto(layouts, id, layouts.len() as int)
}

/// The padding of a new container.
pub open spec fn default_padding() -> Padding {
    Padding { left: 5, top: 5, right: 5, bottom: 5 }
}

/// The same padding on all four sides.
pub open spec fn uniform(padding: i32) -> Padding {
    Padding { left: padding, top: padding, right: padding, bottom: padding }
}

/// Removes from `layouts` every entry that names `id`.
pub fn strip(layouts: &Vec<(WindowID, LayoutMode)>, id: WindowID) -> (kept: Vec<
    (WindowID, LayoutMode),
>)
    ensures
        kept@ == without(layouts@, id),
{
    let mut kept: Vec<(WindowID, LayoutMode)> = Vec::new();
    let mut i: usize = 0;
    while i < layouts.len()
        invariant
            i <= layouts.len(),
            kept@ == kept_upto(layouts@, id, i as int),
        decreases layouts.len() - i,
    {
        let entry = layouts[i];
        if entry.0 != id {
            kept.push(entry);
        }
        i += 1;
    }
    kept
}

/// After a removal no entry names the removed child, and no entry of
/// another child is lost or moved before one that preceded it.
pub proof fn law_without(layouts: Seq<(WindowID, LayoutMode)>, id: WindowID, i: int)
    requires
        0 <= i <= layouts.len(),
    ensures
        kept_upto(layouts, id, i).len() <= i,
        forall|k: int|
            0 <= k < kept_upto(layouts, id, i).len() ==> (#[trigger] kept_upto(layouts, id, i)[k]).0
                != id,
        forall|j: int|
            0 <= j < i && layouts[j].0 != id ==> exists|k: int|
                0 <= k < kept_upto(layouts, id, i).len() && #[trigger] kept_upto(layouts, id, i)[k]
                    == layouts[j],
        (forall|j: int| 0 <= j < i ==> (#[trigger] layouts[j]).0 != id) ==> kept_upto(
            layouts,
            id,
            i,
        ) == layouts.take(i),
    decreases i,
{
    if i > 0 {
        law_without(layouts, id, i - 1);
        let before = kept_upto(layouts, id, i - 1);
        let now = kept_upto(layouts, id, i);
        assert forall|j: int| 0 <= j < i && layouts[j].0 != id implies exists|k: int|
            0 <= k < now.len() && #[trigger] now[k] == layouts[j] by {
            if j < i - 1 {
                let k = choose|k: int| 0 <= k < before.len() && #[trigger] before[k] == layouts[j];
                assert(now[k] == layouts[j]);
            } else {
                assert(now[now.len() - 1] == layouts[j]);
            }
        }
    }
}

/// A pass depends on nothing but the table, the size and the children: two
/// passes over the same give the same placements and the same bounds.
pub proof fn law_pass_unique(
    first: LayoutPass,
    second: LayoutPass,
    axis: Axis,
    layouts: Seq<(WindowID, LayoutMode)>,
    padding: Padding,
    spacing: i32,
    size: Size,
    children: Seq<Window>,
)
    requires
        is_pass(first, axis, layouts, padding, spacing, size, children),
        is_pass(second, axis, layouts, padding, spacing, size, children),
    ensures
        first.placements@ == second.placements@,
        first.width == second.width,
        first.height == second.height,
{
}

/// Every child that a pass places is a child that the table names, and it
/// receives the rectangle of the last entry that names it.
pub proof fn law_placed_children(
    children: Seq<Window>,
    layouts: Seq<(WindowID, LayoutMode)>,
    rects: Seq<Rect>,
    i: int,
    k: int,
)
    requires
        0 <= i <= children.len(),
        0 <= k < placed_upto(children, layouts, rects, i).len(),
    ensures
        placed_upto(children, layouts, rects, i).len() <= i,
        entry_of(layouts, placed_upto(children, layouts, rects, i)[k].0) is Some,
        placed_upto(children, layouts, rects, i)[k].1 == rects[entry_of(
            layouts,
            placed_upto(children, layouts, rects, i)[k].0,
        )->0],
    decreases i,
{
    lemma_placed_count(children, layouts, rects, i);
    if i > 0 {
        let before = placed_upto(children, layouts, rects, i - 1);
        if k < before.len() {
            law_placed_children(children, layouts, rects, i - 1, k);
        }
    }
}

/// No more children are placed than were listed.
proof fn lemma_placed_count(
    children: Seq<Window>,
    layouts: Seq<(WindowID, LayoutMode)>,
    rects: Seq<Rect>,
    i: int,
)
    requires
        0 <= i,
    ensures
        placed_upto(children, layouts, rects, i).len() <= i,
    decreases i,
{
    if i > 0 {
        lemma_placed_count(children, layouts, rects, i - 1);
    }
}

/// What makes a `Row` or a `Column` lay itself out anew: a change of its
/// table, or a new size of its window.
#[derive(Debug, Clone, Copy, PartialEq, Eq, Structural)]
pub enum Trigger {
    /// A child joins the layout after those that take part already.
    AddLayout(WindowID, LayoutMode),
    /// A child leaves the layout.
    RemoveLayout(WindowID),
    /// The same padding on all four sides.
    SetPadding(i32),
    SetLeftPadding(i32),
    SetTopPadding(i32),
    SetRightPadding(i32),
    SetBottomPadding(i32),
    SetSpacing(i32),
    /// The window of the container has the size given.
    Resized(Size),
}

/// What a container found when it laid itself out.
#[derive(Debug, PartialEq, Eq)]
pub enum Outcome {
    /// No child takes part in the layout: nothing is to be written.
    Idle,
    /// The rectangles and bounds to write.
    Laid(LayoutPass),
    /// Children take part, and their layout cannot be computed in 32-bit
    /// coordinates. Nothing is to be written.
    TooLarge,
}

impl Table {
    /// The table after a trigger. A new size leaves the table as it is.
    pub open spec fn after(self, trigger: Trigger) -> Table {
        match trigger {
            Trigger::AddLayout(id, mode) => Table {
                layouts: self.layouts.push((id, mode)),
                ..self
            },
            Trigger::RemoveLayout(id) => Table { layouts: without(self.layouts, id), ..self },
            Trigger::SetPadding(p) => Table { padding: uniform(p), ..self },
            Trigger::SetLeftPadding(p) => Table { padding: Padding { left: p, ..self.padding }, ..self },
            Trigger::SetTopPadding(p) => Table { padding: Padding { top: p, ..self.padding }, ..self },
            Trigger::SetRightPadding(p) => Table {
                padding: Padding { right: p, ..self.padding },
                ..self
            },
            Trigger::SetBottomPadding(p) => Table {
                padding: Padding { bottom: p, ..self.padding },
                ..self
            },
            Trigger::SetSpacing(s) => Table { spacing: s, ..self },
            Trigger::Resized(_) => self,
        }
    }
}

impl Trigger {
    /// The size in which the container is laid out after the trigger: the
    /// new size if the trigger brings one, else the size last known.
    pub open spec fn extent(self, last: Size) -> Size {
        match self {
            Trigger::Resized(size) => size,
            _ => last,
        }
    }
}

/// `outcome` is what a container with the table `table` finds when it lays
/// itself out in `size`.
pub open spec fn is_outcome(
    outcome: Outcome,
    axis: Axis,
    table: Table,
    size: Size,
    children: Seq<Window>,
) -> bool {
    if table.layouts.len() == 0 {
        outcome is Idle
    } else if !arrangeable(axis, table.layouts, table.padding, table.spacing, size, children) {
        outcome is TooLarge
    } else {
        outcome matches Outcome::Laid(pass) && is_pass(
            pass,
            axis,
            table.layouts,
            table.padding,
            table.spacing,
            size,
            children,
        )
    }
}

} // verus!
