//! What holds of every pass of a `Row` or a `Column`.
//!
//! A pass writes to each child the rectangle of its entry. The laws here
//! speak of those rectangles, one per entry of the table, for every table,
//! size and list of children on which a pass can be computed.

use super::axis::{
    candidate, extents, initial_mode, initial_modes, is_solution, pin, solution, spaces,
};
use super::axis_laws::{
    law_entry_order, law_extents_non_negative, law_fixed_bounds, law_fixed_conservation,
    law_no_overlap, law_range_clamp, law_shares_in_range_are_kept, law_solution_within_budget,
};
use super::bounds::{max_upto, min_upto};
use super::linear::{arrangeable, lowered, main_limits, modes, rects, Axis, Padding};
use super::LayoutMode;
use crate::types::{Rect, Size};
use crate::window::{Window, WindowID};
use vstd::prelude::*;

verus! {

impl Axis {
    /// Where a rectangle begins along the main axis.
    pub open spec fn start(self, rect: Rect) -> i32 {
        match self {
            Axis::Horizontal => rect.pos.x,
            Axis::Vertical => rect.pos.y,
        }
    }

    /// How far a rectangle reaches along the main axis.
    pub open spec fn length(self, rect: Rect) -> i32 {
        match self {
            Axis::Horizontal => rect.size.width,
            Axis::Vertical => rect.size.height,
        }
    }

    /// Where a rectangle begins across the main axis.
    pub open spec fn cross_start(self, rect: Rect) -> i32 {
        match self {
            Axis::Horizontal => rect.pos.y,
            Axis::Vertical => rect.pos.x,
        }
    }

    /// How far a rectangle reaches across the main axis.
    pub open spec fn cross_length(self, rect: Rect) -> i32 {
        match self {
            Axis::Horizontal => rect.size.height,
            Axis::Vertical => rect.size.width,
        }
    }
}

/// The rectangles of a pass are those of the layout of the lowered policies:
/// there is one for each entry, and all that is stated of a layout holds of
/// them.
proof fn lemma_rects(
    axis: Axis,
    layouts: Seq<(WindowID, LayoutMode)>,
    padding: Padding,
    spacing: i32,
    size: Size,
    children: Seq<Window>,
)
    requires
        layouts.len() > 0,
        arrangeable(axis, layouts, padding, spacing, size, children),
    ensures
        rects(axis, layouts, padding, spacing, size, children).len() == layouts.len(),
        is_solution(
            solution(
                lowered(layouts, children),
                axis.main_extent(size) as int,
                axis.lead(padding) as int,
                axis.trail(padding) as int,
                spacing as int,
            ),
            lowered(layouts, children),
            axis.main_extent(size) as int,
            axis.lead(padding) as int,
            axis.trail(padding) as int,
            spacing as int,
        ),
        forall|i: int|
            0 <= i < layouts.len() ==> {
                let rect = #[trigger] rects(axis, layouts, padding, spacing, size, children)[i];
                let span = solution(
                    lowered(layouts, children),
                    axis.main_extent(size) as int,
                    axis.lead(padding) as int,
                    axis.trail(padding) as int,
                    spacing as int,
                )[i];
                &&& axis.start(rect) == span.offset
                &&& axis.length(rect) == span.extent
                &&& axis.cross_start(rect) == axis.cross_lead(padding)
                &&& axis.cross_length(rect) == axis.stretch(size, padding)
            },
{
    law_solution_within_budget(
        lowered(layouts, children),
        axis.main_extent(size) as int,
        axis.lead(padding) as int,
        axis.trail(padding) as int,
        spacing as int,
    );
}

/// The children lie along the main axis in entry order: the first begins at
/// the leading padding, each next one exactly one gap after the end of its
/// predecessor, and each covers the container across the axis but for the
/// padding.
pub proof fn law_rects_in_order(
    axis: Axis,
    layouts: Seq<(WindowID, LayoutMode)>,
    padding: Padding,
    spacing: i32,
    size: Size,
    children: Seq<Window>,
)
    requires
        layouts.len() > 0,
        arrangeable(axis, layouts, padding, spacing, size, children),
    ensures
        rects(axis, layouts, padding, spacing, size, children).len() == layouts.len(),
        axis.start(rects(axis, layouts, padding, spacing, size, children)[0]) == axis.lead(padding),
        forall|i: int|
            0 <= i < layouts.len() - 1 ==> axis.start(
                #[trigger] rects(axis, layouts, padding, spacing, size, children)[i + 1],
            ) == axis.start(rects(axis, layouts, padding, spacing, size, children)[i])
                + axis.length(rects(axis, layouts, padding, spacing, size, children)[i]) + spacing,
        forall|i: int|
            0 <= i < layouts.len() ==> axis.cross_start(
                #[trigger] rects(axis, layouts, padding, spacing, size, children)[i],
            ) == axis.cross_lead(padding) && axis.cross_length(
                rects(axis, layouts, padding, spacing, size, children)[i],
            ) == axis.stretch(size, padding),
{
    let all = rects(axis, layouts, padding, spacing, size, children);
    let entries = lowered(layouts, children);
    let spans = solution(
        entries,
        axis.main_extent(size) as int,
        axis.lead(padding) as int,
        axis.trail(padding) as int,
        spacing as int,
    );
    lemma_rects(axis, layouts, padding, spacing, size, children);
    law_entry_order(
        spans,
        entries,
        axis.main_extent(size) as int,
        axis.lead(padding) as int,
        axis.trail(padding) as int,
        spacing as int,
    );
    assert forall|i: int| 0 <= i < layouts.len() - 1 implies axis.start(#[trigger] all[i + 1])
        == axis.start(all[i]) + axis.length(all[i]) + spacing by {
        assert(axis.start(all[i]) == spans[i].offset);
        assert(spans[i + 1].offset == spans[i].offset + spans[i].extent + spacing);
    }
}

/// With a gap that is not negative, and where neither the policies nor the
/// bounds that the children declare on their widths name a negative extent,
/// no child has a negative extent and no two children overlap: each ends
/// before any later one begins.
pub proof fn law_rects_no_overlap(
    axis: Axis,
    layouts: Seq<(WindowID, LayoutMode)>,
    padding: Padding,
    spacing: i32,
    size: Size,
    children: Seq<Window>,
    i: int,
    j: int,
)
    requires
        arrangeable(axis, layouts, padding, spacing, size, children),
        spacing >= 0,
        forall|k: int|
            0 <= k < layouts.len() ==> (#[trigger] lowered(layouts, children)[k]).non_negative(),
        0 <= i < j < layouts.len(),
    ensures
        axis.length(rects(axis, layouts, padding, spacing, size, children)[i]) >= 0,
        axis.length(rects(axis, layouts, padding, spacing, size, children)[j]) >= 0,
        axis.start(rects(axis, layouts, padding, spacing, size, children)[i]) + axis.length(
            rects(axis, layouts, padding, spacing, size, children)[i],
        ) + spacing <= axis.start(rects(axis, layouts, padding, spacing, size, children)[j]),
{
    let all = rects(axis, layouts, padding, spacing, size, children);
    let entries = lowered(layouts, children);
    let spans = solution(
        entries,
        axis.main_extent(size) as int,
        axis.lead(padding) as int,
        axis.trail(padding) as int,
        spacing as int,
    );
    lemma_rects(axis, layouts, padding, spacing, size, children);
    law_extents_non_negative(
        spans,
        entries,
        axis.main_extent(size) as int,
        axis.lead(padding) as int,
        axis.trail(padding) as int,
        spacing as int,
    );
    law_no_overlap(
        spans,
        entries,
        axis.main_extent(size) as int,
        axis.lead(padding) as int,
        axis.trail(padding) as int,
        spacing as int,
        i,
        j,
    );
    assert(axis.length(all[i]) == spans[i].extent);
    assert(axis.length(all[j]) == spans[j].extent);
}

/// A child with a `Fixed` policy has exactly its declared extent, whatever
/// the size of the container.
pub proof fn law_rects_fixed(
    axis: Axis,
    layouts: Seq<(WindowID, LayoutMode)>,
    padding: Padding,
    spacing: i32,
    size: Size,
    children: Seq<Window>,
    k: int,
)
    requires
        arrangeable(axis, layouts, padding, spacing, size, children),
        0 <= k < layouts.len(),
        layouts[k].1 is Fixed,
    ensures
        axis.length(rects(axis, layouts, padding, spacing, size, children)[k])
            == layouts[k].1->Fixed_0,
{
    let all = rects(axis, layouts, padding, spacing, size, children);
    let entries = lowered(layouts, children);
    let spans = solution(
        entries,
        axis.main_extent(size) as int,
        axis.lead(padding) as int,
        axis.trail(padding) as int,
        spacing as int,
    );
    lemma_rects(axis, layouts, padding, spacing, size, children);
    assert(entries[k] == layouts[k].1);
    law_fixed_conservation(
        spans,
        entries,
        axis.main_extent(size) as int,
        axis.lead(padding) as int,
        axis.trail(padding) as int,
        spacing as int,
        k,
    );
    assert(axis.length(all[k]) == spans[k].extent);
}

/// A child with a `Range` policy is never under its minimum nor over its
/// maximum, where the two do not contradict each other.
pub proof fn law_rects_range(
    axis: Axis,
    layouts: Seq<(WindowID, LayoutMode)>,
    padding: Padding,
    spacing: i32,
    size: Size,
    children: Seq<Window>,
    k: int,
)
    requires
        arrangeable(axis, layouts, padding, spacing, size, children),
        0 <= k < layouts.len(),
        layouts[k].1 is Range,
    ensures
        ({
            let min = layouts[k].1->min;
            let max = layouts[k].1->max;
            let extent = axis.length(rects(axis, layouts, padding, spacing, size, children)[k]);
            &&& min is Some && (max is Some ==> min->0 <= max->0) ==> min->0 <= extent
            &&& max is Some && (min is Some ==> min->0 <= max->0) ==> extent <= max->0
        }),
{
    let all = rects(axis, layouts, padding, spacing, size, children);
    let entries = lowered(layouts, children);
    let spans = solution(
        entries,
        axis.main_extent(size) as int,
        axis.lead(padding) as int,
        axis.trail(padding) as int,
        spacing as int,
    );
    lemma_rects(axis, layouts, padding, spacing, size, children);
    assert(entries[k] == layouts[k].1);
    law_range_clamp(
        spans,
        entries,
        axis.main_extent(size) as int,
        axis.lead(padding) as int,
        axis.trail(padding) as int,
        spacing as int,
        k,
    );
    assert(axis.length(all[k]) == spans[k].extent);
}

/// Where the first share of every child lies within the child's range, no
/// child is settled at a bound: each weighted child has the share of the
/// space left by the fixed ones that its weight earns, rounded down.
pub proof fn law_rects_unclamped(
    axis: Axis,
    layouts: Seq<(WindowID, LayoutMode)>,
    padding: Padding,
    spacing: i32,
    size: Size,
    children: Seq<Window>,
    k: int,
)
    requires
        arrangeable(axis, layouts, padding, spacing, size, children),
        0 <= k < layouts.len(),
        forall|j: int|
            0 <= j < layouts.len() ==> pin(
                #[trigger] lowered(layouts, children)[j],
                initial_mode(lowered(layouts, children)[j]),
                candidate(
                    initial_modes(lowered(layouts, children)),
                    axis.main_extent(size) as int,
                    spaces(
                        layouts.len(),
                        axis.lead(padding) as int,
                        axis.trail(padding) as int,
                        spacing as int,
                    ),
                    j,
                ),
            ) == initial_mode(lowered(layouts, children)[j]),
    ensures
        axis.length(rects(axis, layouts, padding, spacing, size, children)[k]) == candidate(
            initial_modes(lowered(layouts, children)),
            axis.main_extent(size) as int,
            spaces(
                layouts.len(),
                axis.lead(padding) as int,
                axis.trail(padding) as int,
                spacing as int,
            ),
            k,
        ),
{
    let all = rects(axis, layouts, padding, spacing, size, children);
    let entries = lowered(layouts, children);
    let container = axis.main_extent(size) as int;
    let lead = axis.lead(padding) as int;
    let trail = axis.trail(padding) as int;
    let spans = solution(entries, container, lead, trail, spacing as int);
    lemma_rects(axis, layouts, padding, spacing, size, children);
    law_shares_in_range_are_kept(entries, container, lead, trail, spacing as int);
    assert(axis.length(all[k]) == spans[k].extent);
    assert(extents(entries, container, lead, trail, spacing as int)[k] == candidate(
        initial_modes(entries),
        container,
        spaces(entries.len(), lead, trail, spacing as int),
        k,
    ));
}

/// Sum of the extents of the first `i` entries, where all are `Fixed`.
pub open spec fn fixed_total(layouts: Seq<(WindowID, LayoutMode)>, i: int) -> int
    decreases i,
{
    if i <= 0 {
        0
    } else {
        fixed_total(layouts, i - 1) + layouts[i - 1].1->Fixed_0
    }
}

/// A container whose children are all `Fixed` can be no longer than the
/// children, the gaps and the padding together, and, if the children ask
/// for any space at all, no shorter.
pub proof fn law_pass_fixed_bounds(
    axis: Axis,
    layouts: Seq<(WindowID, LayoutMode)>,
    padding: Padding,
    spacing: i32,
)
    requires
        forall|k: int| 0 <= k < layouts.len() ==> (#[trigger] layouts[k]).1 is Fixed,
    ensures
        ({
            let total = fixed_total(layouts, layouts.len() as int);
            let taken = spaces(
                layouts.len(),
                axis.lead(padding) as int,
                axis.trail(padding) as int,
                spacing as int,
            );
            &&& main_limits(axis, layouts, padding, spacing).1 == Some(total + taken)
            &&& total > 0 ==> main_limits(axis, layouts, padding, spacing).0 == Some(total + taken)
            &&& total <= 0 ==> main_limits(axis, layouts, padding, spacing).0 is None
        }),
{
    let entries = modes(layouts);
    assert forall|k: int| 0 <= k < entries.len() implies (#[trigger] entries[k]) is Fixed by {
        assert(layouts[k].1 is Fixed);
    }
    law_fixed_bounds(
        entries,
        axis.lead(padding) as int,
        axis.trail(padding) as int,
        spacing as int,
    );
    lemma_fixed_total(layouts, layouts.len() as int);
}

/// The sum of the fixed extents is what the policies ask for and what they
/// allow.
proof fn lemma_fixed_total(layouts: Seq<(WindowID, LayoutMode)>, i: int)
    requires
        0 <= i <= layouts.len(),
        forall|k: int| 0 <= k < layouts.len() ==> (#[trigger] layouts[k]).1 is Fixed,
    ensures
        min_upto(modes(layouts), i) == fixed_total(layouts, i),
        max_upto(modes(layouts), i) == fixed_total(layouts, i),
    decreases i,
{
    if i > 0 {
        lemma_fixed_total(layouts, i - 1);
        assert(layouts[i - 1].1 is Fixed);
    }
}

} // verus!
