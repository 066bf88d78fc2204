//! The executable resolution of a main axis.

use super::axis::{
    abs, abs_bound, all_conform, candidate, conforms, count_ratio, extents, fixed_upto,
    initial_mode, initial_modes, is_solution, lemma_refine_settles, magnitude_upto,
    offset_at, pin, ratio_upto, refine, resolve, room, settled, share, solution, spaces,
    sum_fixed, sum_ratio, within_budget, Effective, Span, BUDGET_LIMIT,
};
use super::axis_bounds::{
    lemma_gaps_bounded, lemma_layout_fits, lemma_magnitude_upto_monotone, lemma_share_bounds,
    lemma_weight_within_total,
};
use super::LayoutMode;
use vstd::prelude::*;

verus! {

/// The working copy before the first round.
fn initial(entries: &Vec<LayoutMode>) -> (t: Vec<Effective>)
    ensures
        t@ == initial_modes(entries@),
        all_conform(entries@, t@),
{
    let mut t: Vec<Effective> = Vec::new();
    let mut i: usize = 0;
    while i < entries.len()
        invariant
            i <= entries.len(),
            t@.len() == i,
            forall|j: int| 0 <= j < i ==> t@[j] == initial_mode(#[trigger] entries@[j]),
        decreases entries.len() - i,
    {
        let slot = match entries[i] {
            LayoutMode::Fixed(v) => Effective::Fixed(v),
            LayoutMode::Ratio(w) => Effective::Ratio(w),
            LayoutMode::Range { ratio, .. } => Effective::Ratio(ratio),
        };
        t.push(slot);
        i += 1;
    }
    t
}

/// Sum of the settled extents.
fn total_fixed(t: &Vec<Effective>) -> (sum: i128)
    ensures
        sum == sum_fixed(t@),
{
    let mut sum: i128 = 0;
    let mut i: usize = 0;
    while i < t.len()
        invariant
            i <= t.len(),
            sum == fixed_upto(t@, i as int),
            -(i * 0x8000_0000) <= sum <= i * 0x8000_0000,
        decreases t.len() - i,
    {
        match t[i] {
            Effective::Fixed(v) => {
                sum = sum + v as i128;
            },
            Effective::Ratio(_) => {},
        }
        i += 1;
    }
    sum
}

/// Sum of the weights of the entries that are not settled.
fn total_ratio(t: &Vec<Effective>) -> (sum: i128)
    ensures
        sum == sum_ratio(t@),
        0 <= sum,
{
    let mut sum: i128 = 0;
    let mut i: usize = 0;
    while i < t.len()
        invariant
            i <= t.len(),
            sum == ratio_upto(t@, i as int),
            0 <= sum <= i * 0xffff_ffff,
        decreases t.len() - i,
    {
        match t[i] {
            Effective::Fixed(_) => {},
            Effective::Ratio(w) => {
                sum = sum + w as i128;
            },
        }
        i += 1;
    }
    sum
}

/// The extent that one entry receives in a round.
fn round_extent(slot: Effective, room: i128, total: i128) -> (c: i32)
    requires
        0 - BUDGET_LIMIT <= room <= BUDGET_LIMIT,
        0 <= slot.ratio_part() <= total,
    ensures
        c == match slot {
            Effective::Fixed(v) => v as int,
            Effective::Ratio(w) => share(room as int, w as int, total as int),
        },
{
    match slot {
        Effective::Fixed(v) => v,
        Effective::Ratio(w) => {
            proof {
                lemma_share_bounds(room as int, w as int, total as int);
            }
            if total == 0 || room <= 0 {
                0
            } else {
                assert(0 <= room * w <= 0x3fff_ffff * 0xffff_ffff) by (nonlinear_arith)
                    requires
                        0 < room <= 0x3fff_ffff,
                        0 <= w <= 0xffff_ffff,
                ;
                let q: i128 = room * (w as i128) / total;
                q as i32
            }
        },
    }
}

/// One entry after a round.
fn settle(entry: LayoutMode, slot: Effective, cand: i32) -> (next: Effective)
    ensures
        next == pin(entry, slot, cand as int),
{
    match slot {
        Effective::Fixed(_) => slot,
        Effective::Ratio(_) => match entry {
            LayoutMode::Range { min, max, .. } => {
                let mut next = slot;
                if let Some(low) = min {
                    if cand < low {
                        next = Effective::Fixed(low);
                    }
                }
                if let Some(high) = max {
                    if cand > high {
                        next = Effective::Fixed(high);
                    }
                }
                next
            },
            _ => slot,
        },
    }
}

/// Lays the extents out from the leading padding, one gap after each.
fn place(cands: &Vec<i32>, lead: i32, spacing: i32, Ghost(e): Ghost<Seq<int>>) -> (spans: Vec<
    Span,
>)
    requires
        e.len() == cands@.len(),
        forall|i: int| 0 <= i < e.len() ==> #[trigger] cands@[i] == e[i],
        forall|i: int|
            0 <= i <= e.len() ==> i32::MIN <= #[trigger] offset_at(
                e,
                lead as int,
                spacing as int,
                i,
            ) <= i32::MAX,
    ensures
        spans@.len() == e.len(),
        forall|i: int|
            0 <= i < spans@.len() ==> (#[trigger] spans@[i]).extent == e[i] && spans@[i].offset
                == offset_at(e, lead as int, spacing as int, i),
{
    let mut spans: Vec<Span> = Vec::new();
    let mut x: i64 = lead as i64;
    let mut i: usize = 0;
    while i < cands.len()
        invariant
            i <= cands.len(),
            e.len() == cands@.len(),
            spans@.len() == i,
            x == offset_at(e, lead as int, spacing as int, i as int),
            forall|j: int| 0 <= j < e.len() ==> #[trigger] cands@[j] == e[j],
            forall|j: int|
                0 <= j <= e.len() ==> i32::MIN <= #[trigger] offset_at(
                    e,
                    lead as int,
                    spacing as int,
                    j,
                ) <= i32::MAX,
            forall|j: int|
                0 <= j < i ==> (#[trigger] spans@[j]).extent == e[j] && spans@[j].offset
                    == offset_at(e, lead as int, spacing as int, j),
        decreases cands.len() - i,
    {
        let extent = cands[i];
        spans.push(Span { offset: x as i32, extent });
        x = x + extent as i64 + spacing as i64;
        i += 1;
    }
    spans
}

/// Resolves the sizing policies `entries` of a container whose main axis is
/// `container` pixels long, with `lead` pixels of padding before the first
/// child, `trail` after the last and `spacing` between neighbours.
///
/// The result holds one span per entry, in entry order. Entries with a
/// `Fixed` policy keep their extent; the others share the space that is left
/// by weight, and an entry of a `Range` policy whose share leaves the range
/// is settled at the bound it crossed, after which the rest is shared anew.
pub fn solve(
    entries: &Vec<LayoutMode>,
    container: i32,
    lead: i32,
    trail: i32,
    spacing: i32,
) -> (spans: Vec<Span>)
    requires
        within_budget(entries@, container as int, lead as int, trail as int, spacing as int),
    ensures
        is_solution(spans@, entries@, container as int, lead as int, trail as int, spacing as int),
        spans@ == solution(entries@, container as int, lead as int, trail as int, spacing as int),
{
    let n = entries.len();
    if n == 0 {
        let spans: Vec<Span> = Vec::new();
        assert(spans@ =~= solution(
            entries@,
            container as int,
            lead as int,
            trail as int,
            spacing as int,
        ));
        return spans;
    }
    proof {
        lemma_gaps_bounded(n as int, n - 1, spacing as int);
        lemma_magnitude_upto_monotone(entries@, 0, n as int);
    }
    let taken: i128 = spacing as i128 * (n as i128 - 1) + lead as i128 + trail as i128;
    let mut t = initial(entries);
    let mut cands: Vec<i32> = Vec::new();
    loop
        invariant_except_break
            resolve(entries@, t@, container as int, taken as int) == settled(
                entries@,
                container as int,
                lead as int,
                trail as int,
                spacing as int,
            ),
        invariant
            n == entries@.len(),
            n >= 1,
            taken == spaces(entries@.len(), lead as int, trail as int, spacing as int),
            0 - BUDGET_LIMIT <= taken <= BUDGET_LIMIT,
            all_conform(entries@, t@),
            within_budget(entries@, container as int, lead as int, trail as int, spacing as int),
        ensures
            cands@.len() == n,
            t@ == settled(
                entries@,
                container as int,
                lead as int,
                trail as int,
                spacing as int,
            ),
            forall|j: int|
                0 <= j < n ==> #[trigger] cands@[j] == candidate(
                    t@,
                    container as int,
                    taken as int,
                    j,
                ),
        decreases count_ratio(t@),
    {
        let sum_f = total_fixed(&t);
        let sum_r = total_ratio(&t);
        proof {
            lemma_layout_fits(
                entries@,
                t@,
                container as int,
                lead as int,
                trail as int,
                spacing as int,
            );
        }
        let left: i128 = container as i128 - taken - sum_f;
        let mut next: Vec<Effective> = Vec::new();
        let mut changed = false;
        let ghost mut witness: int = 0;
        cands = Vec::new();
        let mut i: usize = 0;
        while i < n
            invariant
                i <= n,
                n == entries@.len(),
                n == t@.len(),
                next@.len() == i,
                cands@.len() == i,
                sum_r == sum_ratio(t@),
                left == room(t@, container as int, taken as int),
                0 - BUDGET_LIMIT <= left <= BUDGET_LIMIT,
                forall|j: int|
                    0 <= j < i ==> #[trigger] cands@[j] == candidate(
                        t@,
                        container as int,
                        taken as int,
                        j,
                    ),
                forall|j: int|
                    0 <= j < i ==> #[trigger] next@[j] == pin(
                        entries@[j],
                        t@[j],
                        candidate(t@, container as int, taken as int, j),
                    ),
                changed ==> 0 <= witness < i && next@[witness] != t@[witness],
                !changed ==> forall|j: int| 0 <= j < i ==> #[trigger] next@[j] == t@[j],
            decreases n - i,
        {
            proof {
                lemma_weight_within_total(t@, i as int);
            }
            let c = round_extent(t[i], left, sum_r);
            let s = settle(entries[i], t[i], c);
            if s != t[i] {
                changed = true;
                proof {
                    witness = i as int;
                }
            }
            cands.push(c);
            next.push(s);
            i += 1;
        }
        proof {
            let r = refine(entries@, t@, container as int, taken as int);
            assert(next@ =~= r);
            lemma_refine_settles(entries@, t@, container as int, taken as int);
            assert forall|j: int| 0 <= j < next@.len() implies conforms(
                #[trigger] entries@[j],
                next@[j],
            ) by {}
        }
        if !changed {
            break ;
        }
        t = next;
    }
    let ghost e = extents(entries@, container as int, lead as int, trail as int, spacing as int);
    proof {
        lemma_layout_fits(
            entries@,
            t@,
            container as int,
            lead as int,
            trail as int,
            spacing as int,
        );
    }
    let spans = place(&cands, lead, spacing, Ghost(e));
    assert(spans@ =~= solution(
        entries@,
        container as int,
        lead as int,
        trail as int,
        spacing as int,
    ));
    spans
}

/// The absolute value of a coordinate.
fn distance(v: i32) -> (d: i128)
    ensures
        d == abs(v as int),
{
    if v < 0 {
        -(v as i128)
    } else {
        v as i128
    }
}

/// The absolute value of a bound, zero where there is none.
fn bound_distance(b: Option<i32>) -> (d: i128)
    ensures
        d == abs_bound(b),
{
    match b {
        Some(v) => distance(v),
        None => 0,
    }
}

/// Whether a layout problem is within the budget, so that `solve` may be
/// called on it.
pub fn fits_budget(
    entries: &Vec<LayoutMode>,
    container: i32,
    lead: i32,
    trail: i32,
    spacing: i32,
) -> (ok: bool)
    ensures
        ok == within_budget(
            entries@,
            container as int,
            lead as int,
            trail as int,
            spacing as int,
        ),
{
    let n = entries.len();
    let mut sum: i128 = 0;
    let mut i: usize = 0;
    while i < n
        invariant
            i <= n,
            n == entries@.len(),
            sum == magnitude_upto(entries@, i as int),
            0 <= sum <= i * 0x8000_0000,
        decreases n - i,
    {
        let m = match entries[i] {
            LayoutMode::Fixed(v) => distance(v),
            LayoutMode::Ratio(_) => 0,
            LayoutMode::Range { min, max, .. } => {
                let low = bound_distance(min);
                let high = bound_distance(max);
                if low >= high {
                    low
                } else {
                    high
                }
            },
        };
        sum = sum + m;
        i += 1;
    }
    let gap = distance(spacing);
    assert(0 <= n * gap <= 0x1_0000_0000_0000_0000 * 0x8000_0000) by (nonlinear_arith)
        requires
            0 <= n <= 0x1_0000_0000_0000_0000,
            0 <= gap <= 0x8000_0000,
    ;
    let total: i128 = distance(container) + distance(lead) + distance(trail) + (n as i128) * gap
        + sum;
    total <= BUDGET_LIMIT as i128
}

} // verus!
