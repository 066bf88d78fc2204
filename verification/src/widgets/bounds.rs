//! The bounds that a container's children put on the container itself.
//!
//! Along the main axis the bounds are sums over the sizing policies; along
//! the cross axis they are the tightest of the children's own bounds. A
//! bound that does not apply is `None`: the container's window has that
//! bound lifted, not set to some neutral number.

use super::axis::{abs, gaps, magnitude_upto, spaces, sum_magnitude, within_budget, BUDGET_LIMIT};
use super::axis_bounds::{lemma_magnitude_upto_monotone, lemma_spaces_bounded};
use super::LayoutMode;
use vstd::prelude::*;

verus! {

/// A lower and an upper bound on an extent, each of which may be absent.
#[derive(Debug, Clone, Copy, PartialEq, Eq, Structural)]
pub struct Limits {
    pub min: Option<i32>,
    pub max: Option<i32>,
}

/// An optional coordinate as an optional mathematical integer.
pub open spec fn as_int(v: Option<i32>) -> Option<int> {
    match v {
        Some(x) => Some(x as int),
        None => None,
    }
}

/// What a policy adds to the least extent of its container.
pub open spec fn min_part(entry: LayoutMode) -> int {
    match entry {
        LayoutMode::Fixed(v) => v as int,
        LayoutMode::Ratio(_) => 0,
        LayoutMode::Range { min, .. } => match min {
            Some(m) => m as int,
            None => 0,
        },
    }
}

/// What a policy adds to the greatest extent of its container.
pub open spec fn max_part(entry: LayoutMode) -> int {
    match entry {
        LayoutMode::Fixed(v) => v as int,
        LayoutMode::Ratio(_) => 0,
        LayoutMode::Range { max, .. } => match max {
            Some(m) => m as int,
            None => 0,
        },
    }
}

/// The policy keeps its child from growing without limit.
pub open spec fn capped(entry: LayoutMode) -> bool {
    match entry {
        LayoutMode::Fixed(_) => true,
        LayoutMode::Ratio(_) => false,
        LayoutMode::Range { max, .. } => max is Some,
    }
}

/// Sum of `min_part` over the first `i` entries.
pub open spec fn min_upto(entries: Seq<LayoutMode>, i: int) -> int
    decreases i,
{
    if i <= 0 {
        0
    } else {
        min_upto(entries, i - 1) + min_part(entries[i - 1])
    }
}

/// Sum of `max_part` over the first `i` entries.
pub open spec fn max_upto(entries: Seq<LayoutMode>, i: int) -> int
    decreases i,
{
    if i <= 0 {
        0
    } else {
        max_upto(entries, i - 1) + max_part(entries[i - 1])
    }
}

/// The least extent that the policies ask for, without gaps and padding.
pub open spec fn min_extent(entries: Seq<LayoutMode>) -> int {
    min_upto(entries, entries.len() as int)
}

/// The greatest extent that the policies allow, without gaps and padding.
pub open spec fn max_extent(entries: Seq<LayoutMode>) -> int {
    max_upto(entries, entries.len() as int)
}

/// Every policy is capped.
pub open spec fn all_capped(entries: Seq<LayoutMode>) -> bool {
    forall|i: int| 0 <= i < entries.len() ==> capped(#[trigger] entries[i])
}

/// The container's lower bound along its main axis: what the policies ask
/// for plus gaps and padding, or none if they ask for nothing.
pub open spec fn derived_min(entries: Seq<LayoutMode>, lead: int, trail: int, spacing: int) -> Option<
    int,
> {
    if min_extent(entries) > 0 {
        Some(min_extent(entries) + spaces(entries.len(), lead, trail, spacing))
    } else {
        None
    }
}

/// The container's upper bound along its main axis: what the policies allow
/// plus gaps and padding, or none if some child may grow without limit.
pub open spec fn derived_max(entries: Seq<LayoutMode>, lead: int, trail: int, spacing: int) -> Option<
    int,
> {
    if all_capped(entries) {
        Some(max_extent(entries) + spaces(entries.len(), lead, trail, spacing))
    } else {
        None
    }
}

/// The sums of a prefix stay within the magnitudes of its policies.
pub proof fn lemma_parts_bounded(entries: Seq<LayoutMode>, i: int)
    requires
        0 <= i <= entries.len(),
    ensures
        abs(min_upto(entries, i)) <= magnitude_upto(entries, i),
        abs(max_upto(entries, i)) <= magnitude_upto(entries, i),
    decreases i,
{
    if i > 0 {
        lemma_parts_bounded(entries, i - 1);
    }
}

/// Derives the main-axis bounds of a container from the policies of its
/// children.
pub fn derive_limits(entries: &Vec<LayoutMode>, lead: i32, trail: i32, spacing: i32) -> (limits: Limits)
    requires
        within_budget(entries@, 0, lead as int, trail as int, spacing as int),
    ensures
        as_int(limits.min) == derived_min(entries@, lead as int, trail as int, spacing as int),
        as_int(limits.max) == derived_max(entries@, lead as int, trail as int, spacing as int),
{
    let n = entries.len();
    let mut low: i64 = 0;
    let mut high: i64 = 0;
    let mut need_max = true;
    let mut i: usize = 0;
    proof {
        lemma_magnitude_upto_monotone(entries@, 0, n as int);
    }
    while i < n
        invariant
            i <= n,
            n == entries@.len(),
            low == min_upto(entries@, i as int),
            high == max_upto(entries@, i as int),
            need_max <==> forall|j: int| 0 <= j < i ==> capped(#[trigger] entries@[j]),
            sum_magnitude(entries@) <= BUDGET_LIMIT,
        decreases n - i,
    {
        proof {
            lemma_parts_bounded(entries@, i as int);
            lemma_parts_bounded(entries@, i + 1);
            lemma_magnitude_upto_monotone(entries@, i as int, n as int);
            lemma_magnitude_upto_monotone(entries@, i + 1, n as int);
        }
        match entries[i] {
            LayoutMode::Fixed(v) => {
                low = low + v as i64;
                high = high + v as i64;
            },
            LayoutMode::Ratio(_) => {
                need_max = false;
            },
            LayoutMode::Range { min, max, .. } => {
                if let Some(m) = min {
                    low = low + m as i64;
                }
                match max {
                    Some(m) => {
                        high = high + m as i64;
                    },
                    None => {
                        need_max = false;
                    },
                }
            },
        }
        i += 1;
    }
    proof {
        lemma_parts_bounded(entries@, n as int);
        lemma_spaces_bounded(n as nat, lead as int, trail as int, spacing as int);
    }
    let count: i128 = if n == 0 {
        0
    } else {
        n as i128 - 1
    };
    let taken: i128 = spacing as i128 * count + lead as i128 + trail as i128;
    let min = if low > 0 {
        Some((low as i128 + taken) as i32)
    } else {
        None
    };
    let max = if need_max {
        Some((high as i128 + taken) as i32)
    } else {
        None
    };
    Limits { min, max }
}

} // verus!
