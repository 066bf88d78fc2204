//! Why a layout problem within its budget never leaves 32-bit coordinates.

use super::axis::{
    abs, all_conform, budget, candidate, candidates, conforms, fixed_upto, gaps, magnitude,
    magnitude_upto, offset_at, ratio_upto, room, share, spaces, sum_ratio, within_budget,
    Effective, BUDGET_LIMIT,
};
use super::LayoutMode;
use vstd::prelude::*;

verus! {

/// `room` where it is positive, else zero.
pub open spec fn usable(room: int) -> int {
    if room < 0 {
        0
    } else {
        room
    }
}

/// A share is never negative, never more than the room there is, and the
/// shares of weights that add up to `total` add up to no more than the room.
pub proof fn lemma_share_bounds(room: int, weight: int, total: int)
    requires
        0 <= weight <= total,
    ensures
        0 <= share(room, weight, total) <= usable(room),
        share(room, weight, total) * total <= usable(room) * weight,
        room <= 0 || total <= 0 ==> share(room, weight, total) == 0,
        room > 0 && total > 0 ==> share(room, weight, total) == room * weight / total,
{
    if total > 0 {
        let p = room * weight;
        let q = p / total;
        vstd::arithmetic::div_mod::lemma_fundamental_div_mod(p, total);
        vstd::arithmetic::div_mod::lemma_mod_bound(p, total);
        let r = p % total;
        if room <= 0 {
            assert(p <= 0) by (nonlinear_arith)
                requires
                    room <= 0,
                    weight >= 0,
                    p == room * weight,
            ;
            assert(q <= 0) by (nonlinear_arith)
                requires
                    total > 0,
                    total * q + r <= 0,
                    0 <= r,
            ;
            assert(0 * total == 0);
        } else {
            assert(0 <= p && p <= room * total) by (nonlinear_arith)
                requires
                    room > 0,
                    0 <= weight <= total,
                    p == room * weight,
            ;
            assert(q >= 0) by (nonlinear_arith)
                requires
                    total > 0,
                    total * q + r >= 0,
                    r < total,
            ;
            assert(q <= room) by (nonlinear_arith)
                requires
                    total > 0,
                    total * q + r <= room * total,
                    0 <= r,
            ;
            assert(q * total <= room * weight) by (nonlinear_arith)
                requires
                    room * weight == total * q + r,
                    0 <= r,
            ;
        }
    } else {
        assert(usable(room) * weight >= 0) by (nonlinear_arith)
            requires
                usable(room) >= 0,
                weight >= 0,
        ;
    }
}

/// The weights of a prefix are non-negative and grow with the prefix.
pub proof fn lemma_ratio_upto_monotone(t: Seq<Effective>, i: int, j: int)
    requires
        0 <= i <= j,
    ensures
        0 <= ratio_upto(t, i) <= ratio_upto(t, j),
    decreases j,
{
    if j > 0 {
        if i == j {
            lemma_ratio_upto_monotone(t, i - 1, j - 1);
        } else {
            lemma_ratio_upto_monotone(t, i, j - 1);
        }
    }
}

/// No weight exceeds the sum of all weights.
pub proof fn lemma_weight_within_total(t: Seq<Effective>, i: int)
    requires
        0 <= i < t.len(),
    ensures
        0 <= t[i].ratio_part() <= sum_ratio(t),
{
    lemma_ratio_upto_monotone(t, i, i);
    lemma_ratio_upto_monotone(t, i + 1, t.len() as int);
}

/// The magnitudes of a prefix are non-negative and grow with the prefix.
pub proof fn lemma_magnitude_upto_monotone(entries: Seq<LayoutMode>, i: int, j: int)
    requires
        0 <= i <= j,
    ensures
        0 <= magnitude_upto(entries, i) <= magnitude_upto(entries, j),
    decreases j,
{
    if j > 0 {
        if i == j {
            lemma_magnitude_upto_monotone(entries, i - 1, j - 1);
        } else {
            lemma_magnitude_upto_monotone(entries, i, j - 1);
        }
    }
}

/// A settled extent is no larger than its policy's magnitude.
pub proof fn lemma_conforming_fixed_part(entry: LayoutMode, slot: Effective)
    requires
        conforms(entry, slot),
    ensures
        abs(slot.fixed_part()) <= magnitude(entry),
{
}

/// The settled extents of a conforming prefix stay within the magnitudes of
/// its policies.
pub proof fn lemma_fixed_upto_bounded(entries: Seq<LayoutMode>, t: Seq<Effective>, i: int)
    requires
        all_conform(entries, t),
        0 <= i <= t.len(),
    ensures
        abs(fixed_upto(t, i)) <= magnitude_upto(entries, i),
    decreases i,
{
    if i > 0 {
        lemma_fixed_upto_bounded(entries, t, i - 1);
        lemma_conforming_fixed_part(entries[i - 1], t[i - 1]);
    }
}

/// `i` gaps are no wider than `count` gaps where `i` is at most `count`.
pub proof fn lemma_gaps_bounded(count: int, i: int, spacing: int)
    requires
        0 <= i <= count,
    ensures
        abs(spacing * i) <= count * abs(spacing),
        spacing * (i + 1) == spacing * i + spacing,
{
    assert(abs(spacing * i) <= count * abs(spacing)) by (nonlinear_arith)
        requires
            0 <= i <= count,
    ;
    assert(spacing * (i + 1) == spacing * i + spacing) by (nonlinear_arith);
}

/// Gaps and padding are no wider than one gap per entry and the padding.
pub proof fn lemma_spaces_bounded(count: nat, lead: int, trail: int, spacing: int)
    ensures
        abs(spaces(count, lead, trail, spacing)) <= abs(lead) + abs(trail) + count * abs(spacing),
        abs(spacing * gaps(count)) <= count * abs(spacing),
        gaps(count) <= count,
{
    lemma_gaps_bounded(count as int, gaps(count), spacing);
}

/// The room left for the weighted entries lies within the budget.
pub proof fn lemma_room_bounded(
    entries: Seq<LayoutMode>,
    t: Seq<Effective>,
    container: int,
    lead: int,
    trail: int,
    spacing: int,
)
    requires
        all_conform(entries, t),
    ensures
        abs(spaces(entries.len(), lead, trail, spacing)) <= abs(lead) + abs(trail)
            + entries.len() * abs(spacing),
        abs(room(t, container, spaces(entries.len(), lead, trail, spacing))) <= budget(
            entries,
            container,
            lead,
            trail,
            spacing,
        ),
{
    let n = entries.len() as int;
    lemma_gaps_bounded(n, gaps(entries.len()), spacing);
    lemma_fixed_upto_bounded(entries, t, n);
}

/// Sum of the shares that the weighted entries among the first `i` receive.
pub open spec fn shares_upto(t: Seq<Effective>, container: int, taken: int, i: int) -> int
    decreases i,
{
    if i <= 0 {
        0
    } else {
        shares_upto(t, container, taken, i - 1) + if t[i - 1] is Ratio {
            candidate(t, container, taken, i - 1)
        } else {
            0
        }
    }
}

/// The shares handed out never add up to more than the room there is.
pub proof fn lemma_shares_bounded(t: Seq<Effective>, container: int, taken: int, i: int)
    requires
        0 <= i <= t.len(),
    ensures
        0 <= shares_upto(t, container, taken, i) <= usable(room(t, container, taken)),
        shares_upto(t, container, taken, i) * sum_ratio(t) <= usable(room(t, container, taken))
            * ratio_upto(t, i),
    decreases i,
{
    let total = sum_ratio(t);
    let u = usable(room(t, container, taken));
    lemma_ratio_upto_monotone(t, i, t.len() as int);
    if i > 0 {
        lemma_shares_bounded(t, container, taken, i - 1);
        let before = shares_upto(t, container, taken, i - 1);
        let weights = ratio_upto(t, i - 1);
        lemma_weight_within_total(t, i - 1);
        match t[i - 1] {
            Effective::Ratio(w) => {
                let c = candidate(t, container, taken, i - 1);
                lemma_share_bounds(room(t, container, taken), w as int, total);
                assert((before + c) * total <= u * (weights + w)) by (nonlinear_arith)
                    requires
                        before * total <= u * weights,
                        c * total <= u * w,
                ;
            },
            Effective::Fixed(_) => {},
        }
    }
    let now = shares_upto(t, container, taken, i);
    let upto = ratio_upto(t, i);
    if total > 0 {
        assert(now <= u) by (nonlinear_arith)
            requires
                now * total <= u * upto,
                0 <= upto <= total,
                0 < total,
                0 <= u,
        ;
    } else {
        lemma_shares_vanish(t, container, taken, i);
    }
}

/// With no weight at all, no share is handed out.
pub proof fn lemma_shares_vanish(t: Seq<Effective>, container: int, taken: int, i: int)
    requires
        0 <= i <= t.len(),
        sum_ratio(t) <= 0,
    ensures
        shares_upto(t, container, taken, i) == 0,
    decreases i,
{
    if i > 0 {
        lemma_shares_vanish(t, container, taken, i - 1);
    }
}

/// An offset differs from the padding and the gaps before it by no more
/// than the magnitudes of the settled entries and the shares of the others.
pub proof fn lemma_offset_bounded(
    entries: Seq<LayoutMode>,
    t: Seq<Effective>,
    container: int,
    taken: int,
    lead: int,
    spacing: int,
    i: int,
)
    requires
        all_conform(entries, t),
        0 <= i <= t.len(),
    ensures
        abs(offset_at(candidates(t, container, taken), lead, spacing, i) - lead - spacing * i)
            <= magnitude_upto(entries, i) + shares_upto(t, container, taken, i),
    decreases i,
{
    if i > 0 {
        lemma_offset_bounded(entries, t, container, taken, lead, spacing, i - 1);
        lemma_gaps_bounded(i, i - 1, spacing);
        lemma_conforming_fixed_part(entries[i - 1], t[i - 1]);
        lemma_weight_within_total(t, i - 1);
        lemma_share_bounds(room(t, container, taken), t[i - 1].ratio_part(), sum_ratio(t));
    } else {
        assert(spacing * 0 == 0);
    }
}

/// Within the budget, every extent and every offset of a conforming working
/// copy is a 32-bit coordinate.
pub proof fn lemma_layout_fits(
    entries: Seq<LayoutMode>,
    t: Seq<Effective>,
    container: int,
    lead: int,
    trail: int,
    spacing: int,
)
    requires
        all_conform(entries, t),
        within_budget(entries, container, lead, trail, spacing),
    ensures
        abs(room(t, container, spaces(entries.len(), lead, trail, spacing))) <= BUDGET_LIMIT,
        forall|i: int|
            0 <= i < t.len() ==> 0 - BUDGET_LIMIT <= #[trigger] candidate(
                t,
                container,
                spaces(entries.len(), lead, trail, spacing),
                i,
            ) <= BUDGET_LIMIT,
        forall|i: int|
            0 <= i <= t.len() ==> i32::MIN <= #[trigger] offset_at(
                candidates(t, container, spaces(entries.len(), lead, trail, spacing)),
                lead,
                spacing,
                i,
            ) <= i32::MAX,
{
    let n = entries.len() as int;
    let taken = spaces(entries.len(), lead, trail, spacing);
    lemma_room_bounded(entries, t, container, lead, trail, spacing);
    assert forall|i: int| 0 <= i < t.len() implies 0 - BUDGET_LIMIT <= #[trigger] candidate(
        t,
        container,
        taken,
        i,
    ) <= BUDGET_LIMIT by {
        lemma_conforming_fixed_part(entries[i], t[i]);
        lemma_magnitude_upto_monotone(entries, i, i);
        lemma_magnitude_upto_monotone(entries, i + 1, n);
        lemma_weight_within_total(t, i);
        lemma_share_bounds(room(t, container, taken), t[i].ratio_part(), sum_ratio(t));
    }
    assert forall|i: int| 0 <= i <= t.len() implies i32::MIN <= #[trigger] offset_at(
        candidates(t, container, taken),
        lead,
        spacing,
        i,
    ) <= i32::MAX by {
        lemma_offset_bounded(entries, t, container, taken, lead, spacing, i);
        lemma_shares_bounded(t, container, taken, i);
        lemma_magnitude_upto_monotone(entries, i, n);
        lemma_gaps_bounded(n, i, spacing);
    }
}

} // verus!
