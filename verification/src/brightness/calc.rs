//! Pure, platform-independent brightness stepping math.
use vstd::prelude::*;

verus! {

/// Default brightness change per key press, in percentage points.
pub const STEP: i8 = 10;

/// `x` limited to the closed range `lo..=hi` (for `lo <= hi`).
pub open spec fn clamp(x: int, lo: int, hi: int) -> int {
    if x < lo {
        lo
    } else if x > hi {
        hi
    } else {
        x
    }
}

/// The level of a step without supported levels: `current + delta` limited
/// to `0..=100`.
pub open spec fn continuous_step(current: u8, delta: i8) -> u8 {
    clamp(current + delta, 0, 100) as u8
}

/// Some supported level lies strictly above `current`.
pub open spec fn has_above(levels: Seq<u8>, current: u8) -> bool {
    exists|x: u8| levels.contains(x) && x > current
}

/// Some supported level lies strictly below `current`.
pub open spec fn has_below(levels: Seq<u8>, current: u8) -> bool {
    exists|x: u8| levels.contains(x) && x < current
}

/// `l` is the smallest supported level strictly greater than `current`.
pub open spec fn is_least_above(levels: Seq<u8>, current: u8, l: u8) -> bool {
    &&& levels.contains(l)
    &&& l > current
    &&& forall|x: u8| levels.contains(x) && x > current ==> l <= x
}

/// `l` is the largest supported level strictly less than `current`.
pub open spec fn is_greatest_below(levels: Seq<u8>, current: u8, l: u8) -> bool {
    &&& levels.contains(l)
    &&& l < current
    &&& forall|x: u8| levels.contains(x) && x < current ==> x <= l
}

/// `l` is the lowest supported level.
pub open spec fn is_lowest(levels: Seq<u8>, l: u8) -> bool {
    &&& levels.contains(l)
    &&& forall|x: u8| levels.contains(x) ==> l <= x
}

/// `l` is the highest supported level.
pub open spec fn is_highest(levels: Seq<u8>, l: u8) -> bool {
    &&& levels.contains(l)
    &&& forall|x: u8| levels.contains(x) ==> x <= l
}

/// `r` is the level reached by stepping from `current` by `delta` when the
/// panel accepts the levels in `levels` (any order, repeats allowed):
/// - no levels listed: `current + delta` limited to `0..=100`;
/// - `delta > 0`: the smallest level above `current`, or the highest level
///   when none lies above;
/// - `delta < 0`: the largest level below `current`, or the lowest level when
///   none lies below;
/// - `delta == 0`: `current` limited to the lowest..=highest levels.
pub open spec fn is_step_result(current: u8, delta: i8, levels: Seq<u8>, r: u8) -> bool {
    if levels.len() == 0 {
        r == continuous_step(current, delta)
    } else if delta > 0 {
        if has_above(levels, current) {
            is_least_above(levels, current, r)
        } else {
            is_highest(levels, r)
        }
    } else if delta < 0 {
        if has_below(levels, current) {
            is_greatest_below(levels, current, r)
        } else {
            is_lowest(levels, r)
        }
    } else {
        exists|lo: u8, hi: u8|
            is_lowest(levels, lo) && is_highest(levels, hi) && r == clamp(
                current as int,
                lo as int,
                hi as int,
            )
    }
}

/// Compute the next brightness level.
///
/// `current` and the result are percentages in `0..=100`.
///
/// When `supported` is empty, the result is simply `current + delta` clamped to
/// `0..=100`.
///
/// When `supported` lists the discrete levels the panel accepts, the result
/// snaps to the next supported level in the direction of `delta`:
/// - `delta > 0` → the smallest supported level strictly greater than `current`
///   (or the highest supported level if already at/above the top).
/// - `delta < 0` → the largest supported level strictly less than `current`
///   (or the lowest supported level if already at/below the bottom).
pub fn step_level(current: u8, delta: i8, supported: &[u8]) -> (r: u8)
    ensures
        is_step_result(current, delta, supported@, r),
        supported@.len() == 0 ==> r <= 100,
        supported@.len() == 0 && 0 <= current + delta <= 100 ==> r == current + delta,
        supported@.len() == 0 && current + delta < 0 ==> r == 0,
        supported@.len() == 0 && current + delta > 100 ==> r == 100,
        supported@.len() > 0 && delta != 0 ==> supported@.contains(r),
{
    let n = supported.len();
    if n == 0 {
        let next: i16 = current as i16 + delta as i16;
        let limited: i16 = if next < 0 {
            0
        } else if next > 100 {
            100
        } else {
            next
        };
        return limited as u8;
    }
    let ghost levels = supported@;
    let mut lowest: u8 = supported[0];
    let mut highest: u8 = supported[0];
    let mut above: Option<u8> = None;
    let mut below: Option<u8> = None;
    let mut i: usize = 0;
    while i < n
        invariant
            n == levels.len(),
            levels == supported@,
            0 < n,
            i <= n,
            levels.contains(lowest),
            levels.contains(highest),
            forall|j: int| 0 <= j < i ==> lowest <= #[trigger] levels[j] <= highest,
            match above {
                Some(a) => levels.contains(a) && a > current && forall|j: int|
                    0 <= j < i && #[trigger] levels[j] > current ==> a <= levels[j],
                None => forall|j: int| 0 <= j < i ==> #[trigger] levels[j] <= current,
            },
            match below {
                Some(b) => levels.contains(b) && b < current && forall|j: int|
                    0 <= j < i && #[trigger] levels[j] < current ==> levels[j] <= b,
                None => forall|j: int| 0 <= j < i ==> #[trigger] levels[j] >= current,
            },
        decreases n - i,
    {
        let l = supported[i];
        assert(levels[i as int] == l);
        if l < lowest {
            lowest = l;
        }
        if l > highest {
            highest = l;
        }
        if l > current {
            match above {
                Some(a) => {
                    if l < a {
                        above = Some(l);
                    }
                },
                None => {
                    above = Some(l);
                },
            }
        }
        if l < current {
            match below {
                Some(b) => {
                    if l > b {
                        below = Some(l);
                    }
                },
                None => {
                    below = Some(l);
                },
            }
        }
        i += 1;
    }
    proof {
        assert(is_lowest(levels, lowest)) by {
            assert forall|x: u8| levels.contains(x) implies lowest <= x by {
                let j = choose|j: int| 0 <= j < levels.len() && levels[j] == x;
                assert(lowest <= levels[j]);
            }
        }
        assert(is_highest(levels, highest)) by {
            assert forall|x: u8| levels.contains(x) implies x <= highest by {
                let j = choose|j: int| 0 <= j < levels.len() && levels[j] == x;
                assert(levels[j] <= highest);
            }
        }
        match above {
            Some(a) => {
                assert(has_above(levels, current));
                assert forall|x: u8| levels.contains(x) && x > current implies a <= x by {
                    let j = choose|j: int| 0 <= j < levels.len() && levels[j] == x;
                    assert(levels[j] > current);
                }
            },
            None => {
                assert(!has_above(levels, current)) by {
                    if has_above(levels, current) {
                        let x = choose|x: u8| levels.contains(x) && x > current;
                        let j = choose|j: int| 0 <= j < levels.len() && levels[j] == x;
                        assert(levels[j] <= current);
                    }
                }
            },
        }
        match below {
            Some(b) => {
                assert(has_below(levels, current));
                assert forall|x: u8| levels.contains(x) && x < current implies x <= b by {
                    let j = choose|j: int| 0 <= j < levels.len() && levels[j] == x;
                    assert(levels[j] < current);
                }
            },
            None => {
                assert(!has_below(levels, current)) by {
                    if has_below(levels, current) {
                        let x = choose|x: u8| levels.contains(x) && x < current;
                        let j = choose|j: int| 0 <= j < levels.len() && levels[j] == x;
                        assert(levels[j] >= current);
                    }
                }
            },
        }
    }
    if delta > 0 {
        match above {
            Some(a) => a,
            None => highest,
        }
    } else if delta < 0 {
        match below {
            Some(b) => b,
            None => lowest,
        }
    } else {
        let r = if current < lowest {
            lowest
        } else if current > highest {
            highest
        } else {
            current
        };
        assert(is_lowest(levels, lowest) && is_highest(levels, highest) && r == clamp(
            current as int,
            lowest as int,
            highest as int,
        ));
        r
    }
}


proof fn lemma_contains_nonempty(levels: Seq<u8>, x: u8)
    requires
        levels.contains(x),
    ensures
        levels.len() > 0,
{
}

/// The stepping rule names exactly one level: two results of the same step
/// are equal.
pub proof fn lemma_step_result_unique(current: u8, delta: i8, levels: Seq<u8>, r1: u8, r2: u8)
    requires
        is_step_result(current, delta, levels, r1),
        is_step_result(current, delta, levels, r2),
    ensures
        r1 == r2,
{
    if levels.len() != 0 && delta == 0 {
        let (lo1, hi1) = choose|lo: u8, hi: u8|
            is_lowest(levels, lo) && is_highest(levels, hi) && r1 == clamp(
                current as int,
                lo as int,
                hi as int,
            );
        let (lo2, hi2) = choose|lo: u8, hi: u8|
            is_lowest(levels, lo) && is_highest(levels, hi) && r2 == clamp(
                current as int,
                lo as int,
                hi as int,
            );
        assert(lo1 <= lo2 && lo2 <= lo1);
        assert(hi1 <= hi2 && hi2 <= hi1);
    }
}

/// Only the set of supported levels matters: listing them in another order,
/// or repeating some, gives the same step.
pub proof fn law_step_depends_only_on_level_set(
    current: u8,
    delta: i8,
    a: Seq<u8>,
    b: Seq<u8>,
    ra: u8,
    rb: u8,
)
    requires
        forall|x: u8| a.contains(x) <==> b.contains(x),
        is_step_result(current, delta, a, ra),
        is_step_result(current, delta, b, rb),
    ensures
        ra == rb,
{
    if a.len() > 0 {
        assert(a.contains(a[0]));
        lemma_contains_nonempty(b, a[0]);
    }
    if b.len() > 0 {
        assert(b.contains(b[0]));
        lemma_contains_nonempty(a, b[0]);
    }
    assert(has_above(a, current) == has_above(b, current));
    assert(has_below(a, current) == has_below(b, current));
    if a.len() != 0 && delta == 0 {
        let (lo, hi) = choose|lo: u8, hi: u8|
            is_lowest(a, lo) && is_highest(a, hi) && ra == clamp(
                current as int,
                lo as int,
                hi as int,
            );
        assert(is_lowest(b, lo) && is_highest(b, hi));
    }
    assert(is_step_result(current, delta, b, ra));
    lemma_step_result_unique(current, delta, b, ra, rb);
}

/// When every supported level and the starting level are percentages, so is
/// the result of a step.
pub proof fn law_step_stays_a_percentage(current: u8, delta: i8, levels: Seq<u8>, r: u8)
    requires
        current <= 100,
        forall|x: u8| levels.contains(x) ==> x <= 100,
        is_step_result(current, delta, levels, r),
    ensures
        r <= 100,
{
    if levels.len() != 0 && delta == 0 {
        let (lo, hi) = choose|lo: u8, hi: u8|
            is_lowest(levels, lo) && is_highest(levels, hi) && r == clamp(
                current as int,
                lo as int,
                hi as int,
            );
    }
}

/// A step never goes against its direction: up never lowers a percentage
/// and down never raises it; with supported levels, a step moves strictly
/// when a level lies in its direction and does not move that way otherwise.
pub proof fn law_step_follows_direction(current: u8, delta: i8, levels: Seq<u8>, r: u8)
    requires
        is_step_result(current, delta, levels, r),
    ensures
        levels.len() == 0 && current <= 100 && delta >= 0 ==> r >= current,
        levels.len() == 0 && current <= 100 && delta <= 0 ==> r <= current,
        levels.len() > 0 && delta > 0 && has_above(levels, current) ==> r > current,
        levels.len() > 0 && delta > 0 && !has_above(levels, current) ==> r <= current,
        levels.len() > 0 && delta < 0 && has_below(levels, current) ==> r < current,
        levels.len() > 0 && delta < 0 && !has_below(levels, current) ==> r >= current,
{
}

/// At the ends a step saturates: up from the highest level, or down from the
/// lowest, stays put; without supported levels, up from 100 and down from 0
/// stay put.
pub proof fn law_step_saturates_at_ends(current: u8, delta: i8, levels: Seq<u8>, r: u8)
    requires
        is_step_result(current, delta, levels, r),
    ensures
        levels.len() > 0 && delta > 0 && is_highest(levels, current) ==> r == current,
        levels.len() > 0 && delta < 0 && is_lowest(levels, current) ==> r == current,
        levels.len() == 0 && delta >= 0 && current == 100 ==> r == 100,
        levels.len() == 0 && delta <= 0 && current == 0 ==> r == 0,
{
}

/// From a supported level that is not the highest, a step up followed by a
/// step down comes back to it.
pub proof fn law_step_up_then_down_returns(
    current: u8,
    up: i8,
    down: i8,
    levels: Seq<u8>,
    r1: u8,
    r2: u8,
)
    requires
        levels.contains(current),
        has_above(levels, current),
        up > 0,
        down < 0,
        is_step_result(current, up, levels, r1),
        is_step_result(r1, down, levels, r2),
    ensures
        r2 == current,
{
    lemma_contains_nonempty(levels, current);
    assert(has_below(levels, r1));
    assert(is_greatest_below(levels, r1, current));
}

/// From a supported level that is not the lowest, a step down followed by a
/// step up comes back to it.
pub proof fn law_step_down_then_up_returns(
    current: u8,
    down: i8,
    up: i8,
    levels: Seq<u8>,
    r1: u8,
    r2: u8,
)
    requires
        levels.contains(current),
        has_below(levels, current),
        up > 0,
        down < 0,
        is_step_result(current, down, levels, r1),
        is_step_result(r1, up, levels, r2),
    ensures
        r2 == current,
{
    lemma_contains_nonempty(levels, current);
    assert(has_above(levels, r1));
    assert(is_least_above(levels, r1, current));
}

/// Without supported levels, a step from a percentage that stays inside
/// `0..=100` is undone by the opposite step.
pub proof fn law_continuous_step_is_undone(current: u8, delta: i8, back: i8, r1: u8, r2: u8)
    requires
        current <= 100,
        0 <= current + delta <= 100,
        back == -delta,
        is_step_result(current, delta, Seq::empty(), r1),
        is_step_result(r1, back, Seq::empty(), r2),
    ensures
        r2 == current,
{
}


/// Without supported levels a step moves by exactly `delta` while it stays a
/// percentage, and stops at 0 or 100 when it would leave `0..=100`.
pub proof fn law_continuous_step_moves_by_delta(current: u8, delta: i8, r: u8)
    requires
        is_step_result(current, delta, Seq::empty(), r),
    ensures
        0 <= current + delta <= 100 ==> r == current + delta,
        current + delta < 0 ==> r == 0,
        current + delta > 100 ==> r == 100,
{
}

} // verus!
