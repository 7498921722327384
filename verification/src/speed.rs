//! The speed ramp, modelled exactly.
//!
//! The game clocks its ticks by a seconds-per-tick interval that starts at
//! 0.15, shrinks by the factor 0.95 on every fruit eaten, and is clamped at a
//! floor of 0.06. Here that interval is carried as an exact fraction: 3/20 at
//! the start, numerator times 19 and denominator times 20 per fruit, clamped
//! at 3/50. The fraction reaches the floor after 18 fruit and then stays
//! there, so numerator and denominator stay small enough for `u128`.

use vstd::prelude::*;

verus! {

/// Numerator of the starting interval 3/20 (0.15 seconds per tick).
pub const SPEED_START_NUM: u128 = 3;

/// Denominator of the starting interval 3/20 (0.15 seconds per tick).
pub const SPEED_START_DEN: u128 = 20;

/// Numerator of the floor interval 3/50 (0.06 seconds per tick).
pub const SPEED_FLOOR_NUM: u128 = 3;

/// Denominator of the floor interval 3/50 (0.06 seconds per tick).
pub const SPEED_FLOOR_DEN: u128 = 50;

/// `b` to the power `e`.
pub open spec fn pow_of(b: int, e: nat) -> int
    decreases e,
{
    if e == 0 {
        1
    } else {
        b * pow_of(b, (e - 1) as nat)
    }
}

/// One speed update: multiply the interval by 19/20 (that is, by 0.95) and
/// clamp at the floor of 3/50. The comparison is by cross-multiplication.
pub open spec fn speed_step(num: int, den: int) -> (int, int) {
    if 50 * (19 * num) < 3 * (20 * den) {
        (3, 50)
    } else {
        (19 * num, 20 * den)
    }
}

/// The exact seconds-per-tick interval after `n` fruit, as a fraction.
pub open spec fn speed_rat(n: nat) -> (int, int)
    decreases n,
{
    if n == 0 {
        (3, 20)
    } else {
        speed_step(speed_rat((n - 1) as nat).0, speed_rat((n - 1) as nat).1)
    }
}

/// Every reachable speed fraction is either the floor 3/50, or the unclamped
/// product 3*19^n / 20^(n+1) with `n` at most 17 and the value still at or
/// above the floor.
pub open spec fn speed_shape(n: nat) -> bool {
    let s = speed_rat(n);
    s == (3int, 50int) || (s.0 == 3 * pow_of(19, n) && s.1 == 20 * pow_of(20, n) && n <= 17
        && 50 * s.0 >= 3 * s.1)
}

/// `pow_of` grows monotonically in the exponent for bases of at least 1.
pub proof fn lemma_pow_mono(b: int, m: nat, n: nat)
    requires
        b >= 1,
        m <= n,
    ensures
        1 <= pow_of(b, m) <= pow_of(b, n),
    decreases n,
{
    if n == 0 {
    } else if m == n {
        lemma_pow_mono(b, 0, (n - 1) as nat);
        assert(pow_of(b, n) == b * pow_of(b, (n - 1) as nat));
        assert(b * pow_of(b, (n - 1) as nat) >= 1 * pow_of(b, (n - 1) as nat)) by (nonlinear_arith)
            requires
                b >= 1,
                pow_of(b, (n - 1) as nat) >= 1,
        ;
    } else {
        lemma_pow_mono(b, m, (n - 1) as nat);
        assert(pow_of(b, n) == b * pow_of(b, (n - 1) as nat));
        assert(b * pow_of(b, (n - 1) as nat) >= 1 * pow_of(b, (n - 1) as nat)) by (nonlinear_arith)
            requires
                b >= 1,
                pow_of(b, (n - 1) as nat) >= 1,
        ;
    }
}

/// 19^n never exceeds 20^n.
pub proof fn lemma_pow19_le_pow20(n: nat)
    ensures
        pow_of(19, n) <= pow_of(20, n),
    decreases n,
{
    if n == 0 {
    } else {
        lemma_pow19_le_pow20((n - 1) as nat);
        lemma_pow_mono(19, 0, (n - 1) as nat);
        assert(19 * pow_of(19, (n - 1) as nat) <= 20 * pow_of(20, (n - 1) as nat))
            by (nonlinear_arith)
            requires
                pow_of(19, (n - 1) as nat) <= pow_of(20, (n - 1) as nat),
                pow_of(19, (n - 1) as nat) >= 1,
        ;
    }
}

/// The concrete values of 19^17 and 20^17, reached by unfolding the power.
proof fn lemma_pow_17_values()
    ensures
        pow_of(19, 17) == 5480386857784802185939,
        pow_of(20, 17) == 13107200000000000000000,
{
    reveal_with_fuel(pow_of, 19);
}

/// Every speed fraction has the shape `speed_shape` describes.
pub proof fn lemma_speed_shape(n: nat)
    ensures
        speed_shape(n),
    decreases n,
{
    if n == 0 {
    } else {
        let m = (n - 1) as nat;
        lemma_speed_shape(m);
        let s = speed_rat(m);
        if s == (3int, 50int) {
            assert(speed_rat(n) == (3int, 50int));
        } else {
            if m == 17 {
                lemma_pow_17_values();
                assert(speed_rat(n) == (3int, 50int));
            } else {
                if !(50 * (19 * s.0) < 3 * (20 * s.1)) {
                    assert(speed_rat(n).0 == 19 * s.0 == 3 * (19 * pow_of(19, m)));
                    assert(speed_rat(n).1 == 20 * s.1 == 20 * (20 * pow_of(20, m)));
                    assert(19 * pow_of(19, m) == pow_of(19, n));
                    assert(20 * pow_of(20, m) == pow_of(20, n));
                }
            }
        }
    }
}

/// Bounds every reachable speed fraction obeys: both parts positive, the
/// value between the floor 3/50 and the start 3/20 inclusive, and both parts
/// small enough that one more update cannot overflow `u128`.
pub proof fn lemma_speed_bounds(n: nat)
    ensures
        0 < speed_rat(n).0,
        0 < speed_rat(n).1,
        50 * speed_rat(n).0 >= 3 * speed_rat(n).1,
        20 * speed_rat(n).0 <= 3 * speed_rat(n).1,
        speed_rat(n).0 <= 16441160573354406557817,
        speed_rat(n).1 <= 262144000000000000000000,
{
    lemma_speed_shape(n);
    let s = speed_rat(n);
    if s == (3int, 50int) {
    } else {
        lemma_pow_17_values();
        lemma_pow_mono(19, n, 17);
        lemma_pow_mono(20, n, 17);
        lemma_pow19_le_pow20(n);
    }
}

/// Law: the speed interval never shrinks below the floor of 0.06 seconds;
/// as a fraction, `speed_rat(n)` is at least 3/50.
pub proof fn lemma_speed_floor(n: nat)
    ensures
        50 * speed_rat(n).0 >= 3 * speed_rat(n).1,
{
    lemma_speed_bounds(n);
}

/// Law: the speed interval is monotonically non-increasing across fruit
/// events: compared by cross-multiplication, `speed_rat(n + 1)` is at most
/// `speed_rat(n)`.
pub proof fn lemma_speed_monotone(n: nat)
    ensures
        speed_rat((n + 1) as nat).0 * speed_rat(n).1 <= speed_rat(n).0 * speed_rat((n + 1) as nat).1,
{
    lemma_speed_bounds(n);
    let s = speed_rat(n);
    let t = speed_rat((n + 1) as nat);
    assert(t == speed_step(s.0, s.1));
    if 50 * (19 * s.0) < 3 * (20 * s.1) {
        assert(t == (3int, 50int));
        assert(3 * s.1 <= 50 * s.0);
    } else {
        assert(t.0 == 19 * s.0 && t.1 == 20 * s.1);
        assert(19 * s.0 * s.1 <= s.0 * (20 * s.1)) by (nonlinear_arith)
            requires
                s.0 > 0,
                s.1 > 0,
        ;
    }
}

/// Law: across any number of fruit events the interval never increases:
/// for `m <= n`, `speed_rat(n)` is at most `speed_rat(m)`, compared by
/// cross-multiplication.
pub proof fn lemma_speed_never_increases(m: nat, n: nat)
    requires
        m <= n,
    ensures
        speed_rat(n).0 * speed_rat(m).1 <= speed_rat(m).0 * speed_rat(n).1,
    decreases n - m,
{
    if m < n {
        let k = (n - 1) as nat;
        lemma_speed_never_increases(m, k);
        lemma_speed_monotone(k);
        lemma_speed_bounds(m);
        lemma_speed_bounds(k);
        lemma_speed_bounds(n);
        assert(speed_rat(n).0 * speed_rat(m).1 <= speed_rat(m).0 * speed_rat(n).1)
            by (nonlinear_arith)
            requires
                speed_rat(n).0 * speed_rat(k).1 <= speed_rat(k).0 * speed_rat(n).1,
                speed_rat(k).0 * speed_rat(m).1 <= speed_rat(m).0 * speed_rat(k).1,
                speed_rat(m).1 > 0,
                speed_rat(k).1 > 0,
                speed_rat(n).1 > 0,
                speed_rat(m).0 > 0,
                speed_rat(k).0 > 0,
                speed_rat(n).0 > 0,
        ;
    }
}

/// The speed fraction after one more fruit, computed in machine integers.
pub fn speed_after_fruit(num: u128, den: u128, fruits: u64) -> (r: (u128, u128))
    requires
        (num as int, den as int) == speed_rat(fruits as nat),
    ensures
        (r.0 as int, r.1 as int) == speed_rat(fruits as nat + 1),
{
    proof {
        lemma_speed_bounds(fruits as nat);
    }
    let scaled_num: u128 = 19 * num;
    let scaled_den: u128 = 20 * den;
    if 50 * scaled_num < 3 * scaled_den {
        (3, 50)
    } else {
        (scaled_num, scaled_den)
    }
}

} // verus!
