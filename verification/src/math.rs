//! Tick-size rounding.
//!
//! Markets only accept quantities that are multiples of their minimum tick
//! size, so the exact amount a market call consumes is the reported fill
//! quantity rounded up to the tick.  All refund arithmetic in this crate uses
//! that rounded value, never the raw estimate.

use vstd::arithmetic::div_mod::lemma_fundamental_div_mod;
use vstd::prelude::*;

verus! {

/// The smallest positive multiple of `min_tick` that is at least `num`.
pub open spec fn spec_round_up_to_min_tick(num: int, min_tick: int) -> int
    recommends
        min_tick >= 1,
        num >= 0,
{
    if num < min_tick {
        min_tick
    } else if num % min_tick == 0 {
        num
    } else {
        num - num % min_tick + min_tick
    }
}

/// Rounds `num` up to the market's minimum tick size.  A quantity below one
/// tick is raised to a whole tick, an aligned quantity is returned unchanged,
/// and anything else is raised to the next multiple.
pub fn round_up_to_min_tick(num: u128, min_tick: u128) -> (r: u128)
    requires
        min_tick >= 1,
        spec_round_up_to_min_tick(num as int, min_tick as int) <= u128::MAX,
    ensures
        r == spec_round_up_to_min_tick(num as int, min_tick as int),
{
    if num < min_tick {
        return min_tick;
    }

    let remainder: u128 = num % min_tick;

    if remainder == 0 {
        return num;
    }

    num - remainder + min_tick
}

/// Round-tick correctness: the rounded value is a positive multiple of the
/// tick, is never below the raw quantity, and is the least such value — no
/// smaller positive multiple of the tick covers `num`.
pub proof fn lemma_round_up_is_tick_ceiling(num: int, min_tick: int)
    requires
        min_tick >= 1,
        num >= 0,
    ensures
        spec_round_up_to_min_tick(num, min_tick) % min_tick == 0,
        spec_round_up_to_min_tick(num, min_tick) >= num,
        spec_round_up_to_min_tick(num, min_tick) >= min_tick,
        forall|m: int|
            m >= num && m >= min_tick && #[trigger] (m % min_tick) == 0
                ==> m >= spec_round_up_to_min_tick(num, min_tick),
{
    let t = min_tick;
    let r = num % t;
    let q = num / t;

    lemma_fundamental_div_mod(num, t);
    assert(num == t * q + r);
    assert(t * t >= t) by (nonlinear_arith)
        requires t >= 1;

    if num < t {
        assert(t % t == 0) by {
            lemma_fundamental_div_mod(t, t);
            assert(t == t * 1 + 0) by (nonlinear_arith);
            assert(t / t == 1 && t % t == 0) by {
                lemma_div_mod_unique(t, t, 1, 0);
            }
        }
    } else {
        // num >= t, so q >= 1 and the rounded value is t * q or t * (q + 1).
        assert(t * q % t == 0 && (t * q + t) % t == 0) by {
            lemma_div_mod_unique(t * q, t, q, 0);
            assert(t * q + t == t * (q + 1)) by (nonlinear_arith);
            lemma_div_mod_unique(t * (q + 1), t, q + 1, 0);
        }
        assert(q >= 1) by (nonlinear_arith)
            requires num >= t, t >= 1, num == t * q + r, 0 <= r < t;
        assert(t * q >= t) by (nonlinear_arith)
            requires q >= 1, t >= 1;

        assert forall|m: int|
            m >= num && m >= t && #[trigger] (m % t) == 0
                implies m >= spec_round_up_to_min_tick(num, t) by {
            let a = m / t;
            lemma_fundamental_div_mod(m, t);
            assert(m == t * a);
            if r != 0 {
                // m is a multiple of t that is at least num > t * q, so it is
                // at least the next multiple t * (q + 1).
                assert(t * a > t * q ==> a > q) by (nonlinear_arith)
                    requires t >= 1;
                assert(a >= q + 1);
                assert(t * a >= t * (q + 1)) by (nonlinear_arith)
                    requires t >= 1, a >= q + 1;
                assert(t * (q + 1) == t * q + t) by (nonlinear_arith);
            }
        }
    }
}

/// Division and remainder are unique: if `x == d * q + r` with `0 <= r < d`,
/// then `q` and `r` are exactly `x / d` and `x % d`.
proof fn lemma_div_mod_unique(x: int, d: int, q: int, r: int)
    requires
        d >= 1,
        0 <= r < d,
        x == d * q + r,
    ensures
        x / d == q,
        x % d == r,
{
    lemma_fundamental_div_mod(x, d);
    assert(x / d == q && x % d == r) by (nonlinear_arith)
        requires
            d >= 1,
            0 <= r < d,
            x == d * q + r,
            x == d * (x / d) + x % d,
            0 <= x % d < d;
}

} // verus!
