//! What holds of every layout that the solver produces.

use super::axis::{
    all_conform, candidate, candidates, conforms, count_ratio, extents, fixed_upto,
    initial_mode, initial_modes, is_solution, lemma_refine_settles, offset_at, pin, refine,
    resolve, room, settled, share, solution, spaces, sum_fixed, sum_ratio, within_budget,
    Effective, Span,
};
use super::axis_bounds::{
    lemma_layout_fits, lemma_share_bounds, lemma_shares_bounded, lemma_weight_within_total,
    shares_upto,
};
use super::bounds::{capped, derived_max, derived_min, max_upto, min_upto};
use super::LayoutMode;
use vstd::prelude::*;

verus! {

impl LayoutMode {
    /// The policy names no negative extent.
    pub open spec fn non_negative(self) -> bool {
        match self {
            LayoutMode::Fixed(v) => v >= 0,
            LayoutMode::Ratio(_) => true,
            LayoutMode::Range { min, max, .. } => (min is Some ==> min->0 >= 0) && (max is Some
                ==> max->0 >= 0),
        }
    }
}

/// A round keeps every entry within what its policy allows.
pub proof fn lemma_refine_conforms(
    entries: Seq<LayoutMode>,
    t: Seq<Effective>,
    container: int,
    taken: int,
)
    requires
        all_conform(entries, t),
    ensures
        all_conform(entries, refine(entries, t, container, taken)),
{
    let next = refine(entries, t, container, taken);
    assert forall|i: int| 0 <= i < next.len() implies conforms(#[trigger] entries[i], next[i]) by {}
}

/// The rounds come to rest on a working copy that conforms to the policies
/// and that a further round leaves as it is.
pub proof fn lemma_resolve_rests(
    entries: Seq<LayoutMode>,
    t: Seq<Effective>,
    container: int,
    taken: int,
)
    requires
        all_conform(entries, t),
    ensures
        all_conform(entries, resolve(entries, t, container, taken)),
        refine(entries, resolve(entries, t, container, taken), container, taken) =~= resolve(
            entries,
            t,
            container,
            taken,
        ),
    decreases count_ratio(t),
{
    let next = refine(entries, t, container, taken);
    lemma_refine_conforms(entries, t, container, taken);
    if !(next =~= t) {
        lemma_refine_settles(entries, t, container, taken);
        lemma_resolve_rests(entries, next, container, taken);
    }
}

/// The resolved working copy conforms to the policies and is at rest.
pub proof fn lemma_settled_rests(
    entries: Seq<LayoutMode>,
    container: int,
    lead: int,
    trail: int,
    spacing: int,
)
    ensures
        all_conform(entries, settled(entries, container, lead, trail, spacing)),
        refine(
            entries,
            settled(entries, container, lead, trail, spacing),
            container,
            spaces(entries.len(), lead, trail, spacing),
        ) =~= settled(entries, container, lead, trail, spacing),
{
    let t = initial_modes(entries);
    lemma_resolve_rests(entries, t, container, spaces(entries.len(), lead, trail, spacing));
}

/// Children lie along the main axis in entry order: the first starts at the
/// leading padding, and each next one starts exactly one gap after the end
/// of its predecessor.
pub proof fn law_entry_order(
    spans: Seq<Span>,
    entries: Seq<LayoutMode>,
    container: int,
    lead: int,
    trail: int,
    spacing: int,
)
    requires
        is_solution(spans, entries, container, lead, trail, spacing),
    ensures
        spans.len() > 0 ==> spans[0].offset == lead,
        forall|i: int|
            0 <= i < spans.len() - 1 ==> (#[trigger] spans[i + 1]).offset == spans[i].offset
                + spans[i].extent + spacing,
{
    let e = extents(entries, container, lead, trail, spacing);
    assert forall|i: int| 0 <= i < spans.len() - 1 implies (#[trigger] spans[i + 1]).offset
        == spans[i].offset + spans[i].extent + spacing by {
        assert(offset_at(e, lead, spacing, i + 1) == offset_at(e, lead, spacing, i) + e[i]
            + spacing);
    }
}

/// With policies that name no negative extent, no child has a negative
/// extent.
pub proof fn law_extents_non_negative(
    spans: Seq<Span>,
    entries: Seq<LayoutMode>,
    container: int,
    lead: int,
    trail: int,
    spacing: int,
)
    requires
        is_solution(spans, entries, container, lead, trail, spacing),
        forall|k: int| 0 <= k < entries.len() ==> (#[trigger] entries[k]).non_negative(),
    ensures
        forall|i: int| 0 <= i < spans.len() ==> (#[trigger] spans[i]).extent >= 0,
{
    let t = settled(entries, container, lead, trail, spacing);
    let taken = spaces(entries.len(), lead, trail, spacing);
    lemma_settled_rests(entries, container, lead, trail, spacing);
    assert forall|i: int| 0 <= i < spans.len() implies (#[trigger] spans[i]).extent >= 0 by {
        lemma_weight_within_total(t, i);
        lemma_share_bounds(room(t, container, taken), t[i].ratio_part(), sum_ratio(t));
    }
}

/// With a gap that is not negative and policies that name no negative
/// extent, the children do not overlap: each ends before any later one
/// starts.
pub proof fn law_no_overlap(
    spans: Seq<Span>,
    entries: Seq<LayoutMode>,
    container: int,
    lead: int,
    trail: int,
    spacing: int,
    i: int,
    j: int,
)
    requires
        is_solution(spans, entries, container, lead, trail, spacing),
        spacing >= 0,
        forall|k: int| 0 <= k < entries.len() ==> (#[trigger] entries[k]).non_negative(),
        0 <= i < j < spans.len(),
    ensures
        spans[i].offset + spans[i].extent + spacing <= spans[j].offset,
    decreases j - i,
{
    law_entry_order(spans, entries, container, lead, trail, spacing);
    law_extents_non_negative(spans, entries, container, lead, trail, spacing);
    if j > i + 1 {
        law_no_overlap(spans, entries, container, lead, trail, spacing, i, j - 1);
    }
}

/// A child with a `Fixed` policy receives exactly its declared extent,
/// whatever the container's extent and whatever its neighbours ask for.
pub proof fn law_fixed_conservation(
    spans: Seq<Span>,
    entries: Seq<LayoutMode>,
    container: int,
    lead: int,
    trail: int,
    spacing: int,
    k: int,
)
    requires
        is_solution(spans, entries, container, lead, trail, spacing),
        0 <= k < entries.len(),
        entries[k] is Fixed,
    ensures
        spans[k].extent == entries[k]->Fixed_0,
{
    lemma_settled_rests(entries, container, lead, trail, spacing);
}

/// The share that entry `k` earns by its weight once the rounds are over.
pub open spec fn final_share(
    entries: Seq<LayoutMode>,
    container: int,
    lead: int,
    trail: int,
    spacing: int,
    k: int,
) -> int {
    let t = settled(entries, container, lead, trail, spacing);
    share(
        room(t, container, spaces(entries.len(), lead, trail, spacing)),
        t[k].ratio_part(),
        sum_ratio(t),
    )
}

/// A child with a `Range` policy never ends up under its minimum nor over
/// its maximum, where the two do not contradict each other. While it is
/// not settled it has the share that its weight earns, and that share lies
/// in the range; once settled it sits on one of its bounds.
pub proof fn law_range_clamp(
    spans: Seq<Span>,
    entries: Seq<LayoutMode>,
    container: int,
    lead: int,
    trail: int,
    spacing: int,
    k: int,
)
    requires
        is_solution(spans, entries, container, lead, trail, spacing),
        0 <= k < entries.len(),
        entries[k] is Range,
    ensures
        ({
            let min = entries[k]->min;
            let max = entries[k]->max;
            let extent = spans[k].extent;
            let earned = final_share(entries, container, lead, trail, spacing, k);
            &&& min is Some && (max is Some ==> min->0 <= max->0) ==> min->0 <= extent
            &&& max is Some && (min is Some ==> min->0 <= max->0) ==> extent <= max->0
            &&& match settled(entries, container, lead, trail, spacing)[k] {
                Effective::Ratio(_) => extent == earned && (min is Some ==> min->0 <= extent) && (
                max is Some ==> extent <= max->0),
                Effective::Fixed(bound) => extent == bound && (min == Some(bound) || max == Some(
                    bound,
                )),
            }
        }),
{
    let t = settled(entries, container, lead, trail, spacing);
    let taken = spaces(entries.len(), lead, trail, spacing);
    lemma_settled_rests(entries, container, lead, trail, spacing);
    lemma_weight_within_total(t, k);
    lemma_share_bounds(room(t, container, taken), t[k].ratio_part(), sum_ratio(t));
}

/// Where the first shares already lie in every range, nothing is settled
/// and every weighted child has its share of the space that the fixed
/// children leave.
pub proof fn law_shares_in_range_are_kept(
    entries: Seq<LayoutMode>,
    container: int,
    lead: int,
    trail: int,
    spacing: int,
)
    requires
        forall|k: int|
            0 <= k < entries.len() ==> pin(
                #[trigger] entries[k],
                initial_mode(entries[k]),
                candidate(
                    initial_modes(entries),
                    container,
                    spaces(entries.len(), lead, trail, spacing),
                    k,
                ),
            ) == initial_mode(entries[k]),
    ensures
        settled(entries, container, lead, trail, spacing) == initial_modes(entries),
        extents(entries, container, lead, trail, spacing) == candidates(
            initial_modes(entries),
            container,
            spaces(entries.len(), lead, trail, spacing),
        ),
{
    let t = initial_modes(entries);
    let taken = spaces(entries.len(), lead, trail, spacing);
    let next = refine(entries, t, container, taken);
    assert forall|k: int| 0 <= k < t.len() implies next[k] == t[k] by {
        assert(pin(entries[k], initial_mode(entries[k]), candidate(t, container, taken, k))
            == initial_mode(entries[k]));
    }
}

/// The same problem has one layout only: solving it twice gives the same
/// spans.
pub proof fn law_solution_unique(
    first: Seq<Span>,
    second: Seq<Span>,
    entries: Seq<LayoutMode>,
    container: int,
    lead: int,
    trail: int,
    spacing: int,
)
    requires
        is_solution(first, entries, container, lead, trail, spacing),
        is_solution(second, entries, container, lead, trail, spacing),
    ensures
        first == second,
{
    assert forall|i: int| 0 <= i < first.len() implies first[i] == second[i] by {}
}

/// The sums over a prefix of `Fixed` policies agree: what the solver sets
/// aside for them is what they ask for and what they allow.
proof fn lemma_fixed_sums_agree(entries: Seq<LayoutMode>, i: int)
    requires
        0 <= i <= entries.len(),
        forall|k: int| 0 <= k < entries.len() ==> (#[trigger] entries[k]) is Fixed,
    ensures
        min_upto(entries, i) == fixed_upto(initial_modes(entries), i),
        max_upto(entries, i) == fixed_upto(initial_modes(entries), i),
    decreases i,
{
    if i > 0 {
        lemma_fixed_sums_agree(entries, i - 1);
    }
}

/// A container whose children are all `Fixed` can be neither wider nor, if
/// they ask for any space at all, narrower than the children, the gaps and
/// the padding together.
pub proof fn law_fixed_bounds(entries: Seq<LayoutMode>, lead: int, trail: int, spacing: int)
    requires
        forall|k: int| 0 <= k < entries.len() ==> (#[trigger] entries[k]) is Fixed,
    ensures
        derived_max(entries, lead, trail, spacing) == Some(
            sum_fixed(initial_modes(entries)) + spaces(entries.len(), lead, trail, spacing),
        ),
        sum_fixed(initial_modes(entries)) > 0 ==> derived_min(entries, lead, trail, spacing)
            == derived_max(entries, lead, trail, spacing),
        sum_fixed(initial_modes(entries)) <= 0 ==> derived_min(entries, lead, trail, spacing)
            is None,
{
    lemma_fixed_sums_agree(entries, entries.len() as int);
    assert forall|k: int| 0 <= k < entries.len() implies capped(#[trigger] entries[k]) by {}
}

/// An offset is the leading padding, the gaps and the extents before it:
/// those of the settled entries and the shares of the others.
pub proof fn lemma_offset_sum(
    t: Seq<Effective>,
    container: int,
    taken: int,
    lead: int,
    spacing: int,
    i: int,
)
    requires
        0 <= i <= t.len(),
    ensures
        offset_at(candidates(t, container, taken), lead, spacing, i) == lead + spacing * i
            + fixed_upto(t, i) + shares_upto(t, container, taken, i),
    decreases i,
{
    if i > 0 {
        lemma_offset_sum(t, container, taken, lead, spacing, i - 1);
        assert(spacing * i == spacing * (i - 1) + spacing) by (nonlinear_arith);
    } else {
        assert(spacing * 0 == 0);
    }
}

/// Where the settled children leave any room at all, the children stay
/// inside the container: the last one ends no later than the trailing
/// padding begins.
pub proof fn law_children_fit(
    spans: Seq<Span>,
    entries: Seq<LayoutMode>,
    container: int,
    lead: int,
    trail: int,
    spacing: int,
)
    requires
        is_solution(spans, entries, container, lead, trail, spacing),
        entries.len() >= 1,
        room(
            settled(entries, container, lead, trail, spacing),
            container,
            spaces(entries.len(), lead, trail, spacing),
        ) >= 0,
    ensures
        spans.last().offset + spans.last().extent <= container - trail,
{
    let t = settled(entries, container, lead, trail, spacing);
    let taken = spaces(entries.len(), lead, trail, spacing);
    let n = entries.len() as int;
    let e = extents(entries, container, lead, trail, spacing);
    lemma_settled_rests(entries, container, lead, trail, spacing);
    lemma_offset_sum(t, container, taken, lead, spacing, n);
    lemma_shares_bounded(t, container, taken, n);
    assert(offset_at(e, lead, spacing, n) == offset_at(e, lead, spacing, n - 1) + e[n - 1]
        + spacing);
    assert(spacing * n - spacing == spacing * (n - 1)) by (nonlinear_arith);
}

/// Within the budget every coordinate of the layout fits 32 bits, so the
/// spans that `solution` names are the layout: all that is stated of a
/// layout holds of them.
pub proof fn law_solution_within_budget(
    entries: Seq<LayoutMode>,
    container: int,
    lead: int,
    trail: int,
    spacing: int,
)
    requires
        within_budget(entries, container, lead, trail, spacing),
    ensures
        is_solution(
            solution(entries, container, lead, trail, spacing),
            entries,
            container,
            lead,
            trail,
            spacing,
        ),
{
    let t = settled(entries, container, lead, trail, spacing);
    lemma_settled_rests(entries, container, lead, trail, spacing);
    lemma_layout_fits(entries, t, container, lead, trail, spacing);
    let e = extents(entries, container, lead, trail, spacing);
    let spans = solution(entries, container, lead, trail, spacing);
    assert forall|i: int| 0 <= i < spans.len() implies (#[trigger] spans[i]).extent == e[i]
        && spans[i].offset == offset_at(e, lead, spacing, i) by {
        assert(e[i] == candidate(t, container, spaces(entries.len(), lead, trail, spacing), i));
    }
}

} // verus!
