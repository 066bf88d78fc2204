//! The one-dimensional solver shared by `Row` and `Column`.
//!
//! Given the container's extent along its main axis, the padding before and
//! after the children, the gap between them and the children's sizing
//! policies in visual order, the solver gives every child an offset and an
//! extent along that axis.

use super::LayoutMode;
use vstd::prelude::*;

verus! {

/// The mode in which an entry currently takes part in the resolution: with a
/// settled extent, or with a weight in the space that is left.
#[derive(Debug, Clone, Copy, PartialEq, Eq, Structural)]
pub enum Effective {
    Fixed(i32),
    Ratio(u32),
}

/// Where a child lies along the main axis.
#[derive(Debug, Clone, Copy, PartialEq, Eq, Structural)]
pub struct Span {
    pub offset: i32,
    pub extent: i32,
}

impl Effective {
    /// What the entry adds to the settled extent.
    pub open spec fn fixed_part(self) -> int {
        match self {
            Effective::Fixed(v) => v as int,
            Effective::Ratio(_) => 0,
        }
    }

    /// What the entry adds to the sum of weights.
    pub open spec fn ratio_part(self) -> int {
        match self {
            Effective::Fixed(_) => 0,
            Effective::Ratio(w) => w as int,
        }
    }
}

/// The mode in which an entry enters the resolution: a fixed entry is
/// settled, every other entry takes part with its weight.
pub open spec fn initial_mode(entry: LayoutMode) -> Effective {
    match entry {
        LayoutMode::Fixed(v) => Effective::Fixed(v),
        LayoutMode::Ratio(w) => Effective::Ratio(w),
        LayoutMode::Range { ratio, .. } => Effective::Ratio(ratio),
    }
}

/// The working copy before the first round.
pub open spec fn initial_modes(entries: Seq<LayoutMode>) -> Seq<Effective> {
    Seq::new(entries.len(), |i: int| initial_mode(entries[i]))
}

/// Sum of the settled extents of the first `i` entries of a working copy.
pub open spec fn fixed_upto(t: Seq<Effective>, i: int) -> int
    decreases i,
{
    if i <= 0 {
        0
    } else {
        fixed_upto(t, i - 1) + t[i - 1].fixed_part()
    }
}

/// Sum of the weights of the first `i` entries of a working copy.
pub open spec fn ratio_upto(t: Seq<Effective>, i: int) -> int
    decreases i,
{
    if i <= 0 {
        0
    } else {
        ratio_upto(t, i - 1) + t[i - 1].ratio_part()
    }
}

/// Sum of the settled extents of a working copy.
pub open spec fn sum_fixed(t: Seq<Effective>) -> int {
    fixed_upto(t, t.len() as int)
}

/// Sum of the weights of the entries that are not settled.
pub open spec fn sum_ratio(t: Seq<Effective>) -> int {
    ratio_upto(t, t.len() as int)
}

/// Number of entries that are not settled.
pub open spec fn count_ratio(t: Seq<Effective>) -> nat
    decreases t.len(),
{
    if t.len() == 0 {
        0
    } else {
        count_ratio(t.drop_last()) + if t.last() is Ratio { 1nat } else { 0nat }
    }
}

/// Number of gaps between `count` children laid out in a line.
pub open spec fn gaps(count: nat) -> int {
    if count == 0 {
        0
    } else {
        count - 1
    }
}

/// Main-axis space that the children cannot use: the gaps between `count`
/// children and the padding at both ends.
pub open spec fn spaces(count: nat, lead: int, trail: int, spacing: int) -> int {
    spacing * gaps(count) + lead + trail
}

/// The share of `room` that a weight of `weight` out of `total` receives,
/// rounded down and never negative. With no weight to divide by, the share
/// is zero.
pub open spec fn share(room: int, weight: int, total: int) -> int {
    if total <= 0 {
        0
    } else {
        let q = room * weight / total;
        if q < 0 {
            0
        } else {
            q
        }
    }
}

/// The space left for the weighted entries of `t` in a container of extent
/// `container`.
pub open spec fn room(t: Seq<Effective>, container: int, taken: int) -> int {
    container - taken - sum_fixed(t)
}

/// The extent that entry `i` receives from the working copy `t`.
pub open spec fn candidate(t: Seq<Effective>, container: int, taken: int, i: int) -> int {
    match t[i] {
        Effective::Fixed(v) => v as int,
        Effective::Ratio(w) => share(room(t, container, taken), w as int, sum_ratio(t)),
    }
}

/// The extents of all entries under the working copy `t`.
pub open spec fn candidates(t: Seq<Effective>, container: int, taken: int) -> Seq<int> {
    Seq::new(t.len(), |i: int| candidate(t, container, taken, i))
}

/// One entry after a round: a weighted entry of a `Range` policy whose
/// candidate extent `cand` left the range is settled at the bound it
/// crossed, the maximum winning where both are crossed. A settled entry
/// stays as it is.
pub open spec fn pin(entry: LayoutMode, slot: Effective, cand: int) -> Effective {
    match (entry, slot) {
        (LayoutMode::Range { min, max, .. }, Effective::Ratio(_)) => {
            if max is Some && cand > max->0 {
                Effective::Fixed(max->0)
            } else if min is Some && cand < min->0 {
                Effective::Fixed(min->0)
            } else {
                slot
            }
        },
        _ => slot,
    }
}

/// The working copy after one round.
pub open spec fn refine(
    entries: Seq<LayoutMode>,
    t: Seq<Effective>,
    container: int,
    taken: int,
) -> Seq<Effective> {
    Seq::new(t.len(), |i: int| pin(entries[i], t[i], candidate(t, container, taken, i)))
}

/// The working copy in which no entry leaves its range: rounds are repeated
/// from `t` until one changes nothing.
pub open spec fn resolve(
    entries: Seq<LayoutMode>,
    t: Seq<Effective>,
    container: int,
    taken: int,
) -> Seq<Effective>
    decreases count_ratio(t),
    via resolve_decreases
{
    let next = refine(entries, t, container, taken);
    if next =~= t {
        t
    } else {
        resolve(entries, next, container, taken)
    }
}

#[via_fn]
proof fn resolve_decreases(
    entries: Seq<LayoutMode>,
    t: Seq<Effective>,
    container: int,
    taken: int,
) {
    let next = refine(entries, t, container, taken);
    if !(next =~= t) {
        lemma_refine_settles(entries, t, container, taken);
    }
}

/// A round that changes the working copy settles at least one entry and
/// releases none.
pub proof fn lemma_refine_settles(
    entries: Seq<LayoutMode>,
    t: Seq<Effective>,
    container: int,
    taken: int,
)
    ensures
        count_ratio(refine(entries, t, container, taken)) <= count_ratio(t),
        !(refine(entries, t, container, taken) =~= t) ==> count_ratio(
            refine(entries, t, container, taken),
        ) < count_ratio(t),
{
    let next = refine(entries, t, container, taken);
    lemma_count_ratio_settles(t, next);
}

/// Settling entries lowers the number of weighted ones, strictly if any
/// entry changed.
proof fn lemma_count_ratio_settles(a: Seq<Effective>, b: Seq<Effective>)
    requires
        a.len() == b.len(),
        forall|i: int|
            0 <= i < a.len() ==> (#[trigger] b[i] == a[i] || (a[i] is Ratio && b[i] is Fixed)),
    ensures
        count_ratio(b) <= count_ratio(a),
        !(a =~= b) ==> count_ratio(b) < count_ratio(a),
    decreases a.len(),
{
    if a.len() > 0 {
        lemma_count_ratio_settles(a.drop_last(), b.drop_last());
        if a.drop_last() =~= b.drop_last() && a.last() == b.last() {
            assert forall|i: int| 0 <= i < a.len() implies a[i] == b[i] by {
                if i < a.len() - 1 {
                    assert(a[i] == a.drop_last()[i]);
                }
            }
        }
    }
}

/// The working copy on which the rounds come to rest.
pub open spec fn settled(
    entries: Seq<LayoutMode>,
    container: int,
    lead: int,
    trail: int,
    spacing: int,
) -> Seq<Effective> {
    resolve(
        entries,
        initial_modes(entries),
        container,
        spaces(entries.len(), lead, trail, spacing),
    )
}

/// The extent of every entry, in entry order.
pub open spec fn extents(
    entries: Seq<LayoutMode>,
    container: int,
    lead: int,
    trail: int,
    spacing: int,
) -> Seq<int> {
    candidates(
        settled(entries, container, lead, trail, spacing),
        container,
        spaces(entries.len(), lead, trail, spacing),
    )
}

/// Where entry `i` starts: the first at the leading padding, each next one
/// after its predecessor and one gap.
pub open spec fn offset_at(extents: Seq<int>, lead: int, spacing: int, i: int) -> int
    decreases i,
{
    if i <= 0 {
        lead
    } else {
        offset_at(extents, lead, spacing, i - 1) + extents[i - 1] + spacing
    }
}

/// `spans` is the layout of `entries`: one span per entry, with the resolved
/// extents, laid out from the leading padding in entry order.
pub open spec fn is_solution(
    spans: Seq<Span>,
    entries: Seq<LayoutMode>,
    container: int,
    lead: int,
    trail: int,
    spacing: int,
) -> bool {
    let e = extents(entries, container, lead, trail, spacing);
    &&& spans.len() == entries.len()
    &&& forall|i: int|
        0 <= i < spans.len() ==> (#[trigger] spans[i]).extent == e[i] && spans[i].offset
            == offset_at(e, lead, spacing, i)
}

/// The layout of `entries` as spans. The coordinates are those of
/// `is_solution` wherever they fit 32 bits, which they do within the budget.
pub open spec fn solution(
    entries: Seq<LayoutMode>,
    container: int,
    lead: int,
    trail: int,
    spacing: int,
) -> Seq<Span> {
    let e = extents(entries, container, lead, trail, spacing);
    Seq::new(
        entries.len(),
        |i: int| Span { offset: offset_at(e, lead, spacing, i) as i32, extent: e[i] as i32 },
    )
}

/// Absolute value.
pub open spec fn abs(v: int) -> int {
    if v < 0 {
        -v
    } else {
        v
    }
}

/// Absolute value of a bound, zero where there is none.
pub open spec fn abs_bound(b: Option<i32>) -> int {
    match b {
        Some(v) => abs(v as int),
        None => 0,
    }
}

/// The largest absolute extent that a policy can settle an entry at.
pub open spec fn magnitude(entry: LayoutMode) -> int {
    match entry {
        LayoutMode::Fixed(v) => abs(v as int),
        LayoutMode::Ratio(_) => 0,
        LayoutMode::Range { min, max, .. } => if abs_bound(min) >= abs_bound(max) {
            abs_bound(min)
        } else {
            abs_bound(max)
        },
    }
}

/// Sum of the magnitudes of the first `i` entries.
pub open spec fn magnitude_upto(entries: Seq<LayoutMode>, i: int) -> int
    decreases i,
{
    if i <= 0 {
        0
    } else {
        magnitude_upto(entries, i - 1) + magnitude(entries[i - 1])
    }
}

/// Sum of the magnitudes of all entries.
pub open spec fn sum_magnitude(entries: Seq<LayoutMode>) -> int {
    magnitude_upto(entries, entries.len() as int)
}

/// The pixels that a layout problem speaks of, all taken as distances: the
/// container's extent, both paddings, one gap per entry and every entry's
/// magnitude.
pub open spec fn budget(
    entries: Seq<LayoutMode>,
    container: int,
    lead: int,
    trail: int,
    spacing: int,
) -> int {
    abs(container) + abs(lead) + abs(trail) + entries.len() * abs(spacing) + sum_magnitude(
        entries,
    )
}

/// The largest budget for which every offset and extent is certain to fit a
/// coordinate: half of `i32::MAX`.
pub const BUDGET_LIMIT: i32 = 0x3fff_ffff;

/// The problem is small enough for coordinates of 32 bits.
pub open spec fn within_budget(
    entries: Seq<LayoutMode>,
    container: int,
    lead: int,
    trail: int,
    spacing: int,
) -> bool {
    budget(entries, container, lead, trail, spacing) <= BUDGET_LIMIT
}

/// A working copy entry is one that its policy allows: a fixed entry is
/// settled at its extent, a weighted one carries the policy's weight, and a
/// settled entry of a range sits on one of its bounds.
pub open spec fn conforms(entry: LayoutMode, slot: Effective) -> bool {
    match (entry, slot) {
        (LayoutMode::Fixed(v), Effective::Fixed(u)) => u == v,
        (LayoutMode::Fixed(_), Effective::Ratio(_)) => false,
        (LayoutMode::Ratio(w), Effective::Ratio(u)) => u == w,
        (LayoutMode::Ratio(_), Effective::Fixed(_)) => false,
        (LayoutMode::Range { ratio, .. }, Effective::Ratio(u)) => u == ratio,
        (LayoutMode::Range { min, max, .. }, Effective::Fixed(u)) => min == Some(u) || max
            == Some(u),
    }
}

/// Every entry of the working copy conforms to its policy.
pub open spec fn all_conform(entries: Seq<LayoutMode>, t: Seq<Effective>) -> bool {
    &&& t.len() == entries.len()
    &&& forall|i: int| 0 <= i < t.len() ==> conforms(#[trigger] entries[i], t[i])
}

} // verus!
