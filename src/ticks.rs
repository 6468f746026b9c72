//! Axis tick planning: a "nice" step for a visible price span, and the tick
//! values it gives over a window. Steps are in thousandths of a price unit.
use vstd::prelude::*;
use crate::arith::{lemma_round_div_scaled, round_div, round_div_spec};

verus! {

pub open spec fn pow10(n: nat) -> nat
    decreases n,
{
    if n == 0 {
        1
    } else {
        10 * pow10((n - 1) as nat)
    }
}

/// `t` is 1, 2, 2.5 or 5 times `10^j`.
pub open spec fn is_nice_at(t: int, j: nat) -> bool {
    let p = pow10(j) as int;
    t == p || t == 2 * p || 2 * t == 5 * p || t == 5 * p
}

/// `t` (in thousandths) is 1, 2, 2.5 or 5 times a power of ten no smaller
/// than a hundredth.
pub open spec fn is_nice(t: int) -> bool {
    exists|j: nat| j >= 1 && #[trigger] is_nice_at(t, j)
}

/// The step chosen for `span`: the least nice step above `span / 25`.
/// It also lies below `span / 10`, so the span holds between 10 and 25 steps.
pub open spec fn is_step_for(r: int, span: int) -> bool {
    &&& is_nice(r)
    &&& 25 * r > 1000 * span
    &&& 10 * r < 1000 * span
    &&& forall|t: int| is_nice(t) && 25 * t > 1000 * span ==> r <= t
}

/// The step for a span: the one value that `is_step_for` allows, or 0 for a
/// span that is not positive.
pub open spec fn step_for(span: int) -> int {
    if span <= 0 {
        0
    } else {
        choose|r: int| is_step_for(r, span)
    }
}

proof fn lemma_step_unique(r: int, span: int)
    requires
        span > 0,
        is_step_for(r, span),
    ensures
        step_for(span) == r,
{
    let c = choose|c: int| is_step_for(c, span);
    assert(r <= c && c <= r);
}

proof fn lemma_pow10_grows(a: nat, b: nat)
    requires
        a < b,
    ensures
        10 * pow10(a) <= pow10(b),
    decreases b,
{
    if a + 1 < b {
        lemma_pow10_grows(a, (b - 1) as nat);
    }
}

/// The first of `f, 2f, 2.5f, 5f` above `lo`, if it is also below `hi`.
pub open spec fn first_fit(f: int, lo: int, hi: int) -> Option<int> {
    if lo < f {
        if f < hi { Some(f) } else { None }
    } else if lo < 2 * f {
        if 2 * f < hi { Some(2 * f) } else { None }
    } else if 2 * lo < 5 * f {
        if 5 * f < 2 * hi { Some(5 * f / 2) } else { None }
    } else if lo < 5 * f {
        if 5 * f < hi { Some(5 * f) } else { None }
    } else {
        None
    }
}

proof fn lemma_least(lo: int, hi: int, k: nat, f: int, r: int)
    requires
        k >= 1,
        pow10(k) <= lo < 10 * pow10(k),
        f == pow10(k) || (f == 10 * pow10(k) && 5 * pow10(k) <= lo),
        first_fit(f, lo, hi) == Some(r),
    ensures
        forall|t: int| is_nice(t) && t > lo ==> r <= t,
{
    let f0 = pow10(k) as int;
    assert forall|t: int| is_nice(t) && t > lo implies r <= t by {
        let j = choose|j: nat| j >= 1 && #[trigger] is_nice_at(t, j);
        if j < k {
            lemma_pow10_grows(j, k);
        } else if j > k + 1 {
            lemma_pow10_grows(k + 1, j);
        }
    }
}

/// Picks the axis step for a visible span (in price units), in thousandths.
/// A zero span has no step and gives 0.
pub fn find_step(span: u64) -> (r: u128)
    ensures
        span == 0 ==> r == 0,
        span > 0 ==> is_step_for(r as int, span as int),
        r == step_for(span as int),
{
    if span == 0 {
        return 0;
    }
    let min_step: u128 = 40 * span as u128;
    let max_step: u128 = 100 * span as u128;
    let mut factor: u128 = 10;
    let ghost mut k: nat = 1;
    assert(pow10(1) == 10) by {
        reveal_with_fuel(pow10, 2);
    }
    while factor * 10 <= min_step
        invariant
            k >= 1,
            factor >= 10,
            factor == pow10(k),
            factor <= min_step,
            min_step == 40 * span,
        decreases min_step - factor,
    {
        factor = factor * 10;
        proof {
            k = k + 1;
        }
    }
    let ghost f0 = factor;
    while factor < max_step * 2
        invariant
            k >= 1,
            f0 == pow10(k),
            f0 <= min_step < 10 * f0,
            min_step == 40 * span,
            max_step == 100 * span,
            factor == f0 || (factor == 10 * f0 && 5 * f0 <= min_step),
        decreases 10 * f0 - factor,
    {
        let fit = first_fit_exec(factor, min_step, max_step);
        if let Some(step) = fit {
            proof {
                lemma_least(min_step as int, max_step as int, k, factor as int, step as int);
                if factor == f0 {
                    assert(is_nice_at(step as int, k));
                } else {
                    assert(pow10(k + 1) == 10 * f0);
                    assert(is_nice_at(step as int, k + 1));
                }
                lemma_step_unique(step as int, span as int);
            }
            return step;
        }
        factor = factor * 10;
    }
    factor
}

fn first_fit_exec(f: u128, lo: u128, hi: u128) -> (r: Option<u128>)
    requires
        f < 0x1_0000_0000_0000_0000_0000_0000_0000,
        lo < 0x1_0000_0000_0000_0000_0000_0000_0000,
        hi < 0x1_0000_0000_0000_0000_0000_0000_0000,
    ensures
        r == (match first_fit(f as int, lo as int, hi as int) {
            Some(v) => Some(v as u128),
            None => None::<u128>,
        }),
{
    if lo < f {
        if f < hi { Some(f) } else { None }
    } else if lo < 2 * f {
        if 2 * f < hi { Some(2 * f) } else { None }
    } else if 2 * lo < 5 * f {
        if 5 * f < 2 * hi { Some(5 * f / 2) } else { None }
    } else if lo < 5 * f {
        if 5 * f < hi { Some(5 * f) } else { None }
    } else {
        None
    }
}

/// First and last tick index for a window from price `y` of height `h`,
/// with `step` in thousandths: `round(y / step)` and `round((y + h) / step)`.
pub open spec fn tick_bounds(y: int, h: int, step: int) -> (int, int) {
    (round_div_spec(1000 * y, step), round_div_spec(1000 * (y + h), step))
}

/// Number of ticks between the two tick indices, inclusive.
pub open spec fn tick_count(y: int, h: int, step: int) -> int {
    let (a, b) = tick_bounds(y, h, step);
    if a <= b {
        b - a + 1
    } else {
        0
    }
}

/// Tick prices, in thousandths, for the window from price `y` of height
/// `h`: every multiple of `step` whose index lies between the rounded ends.
pub fn tick_values(y: i64, h: i64, step: u128) -> (r: Vec<i128>)
    requires
        0 < step < 0x1_0000_0000_0000_0000_0000_0000,
    ensures
        r@.len() == tick_count(y as int, h as int, step as int),
        forall|j: int|
            0 <= j < r@.len() ==> #[trigger] r@[j] == (tick_bounds(y as int, h as int, step as int).0
                + j) * step,
        forall|j: int|
            0 <= j < r@.len() ==> 1000 * y - step <= #[trigger] r@[j] <= 1000 * (y + h) + step,
{
    let s: i128 = step as i128;
    let lo = round_div(1000 * y as i128, s);
    let hi = round_div(1000 * (y as i128 + h as i128), s);
    proof {
        lemma_round_div_scaled(1000 * y, s as int);
        lemma_round_div_scaled(1000 * (y + h), s as int);
    }
    let mut r: Vec<i128> = Vec::new();
    if lo > hi {
        return r;
    }
    proof {
        assert(hi <= 0 || hi <= hi * s) by (nonlinear_arith)
            requires
                s >= 1,
        ;
    }
    let mut i: i128 = lo;
    while i <= hi
        invariant
            lo <= i <= hi + 1,
            s == step,
            s > 0,
            r@.len() == i - lo,
            -0x10_0000_0000_0000_0000_0000_0000 <= lo * s <= 0x10_0000_0000_0000_0000_0000_0000,
            -0x10_0000_0000_0000_0000_0000_0000 <= hi * s <= 0x10_0000_0000_0000_0000_0000_0000,
            hi <= 0x10_0000_0000_0000_0000_0000_0000,
            forall|j: int| 0 <= j < r@.len() ==> #[trigger] r@[j] == (lo + j) * s,
            1000 * y - s <= lo * s,
            hi * s <= 1000 * (y + h) + s,
            forall|j: int| 0 <= j < r@.len() ==> lo * s <= #[trigger] r@[j] <= hi * s,
        decreases hi + 1 - i,
    {
        proof {
            assert(lo * s <= i * s <= hi * s) by (nonlinear_arith)
                requires
                    lo <= i <= hi,
                    s > 0,
            ;
        }
        r.push(i * s);
        i = i + 1;
    }
    r
}

} // verus!
