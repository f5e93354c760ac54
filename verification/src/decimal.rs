//! Fixed-point decimals and the rounding policy of the decoder.
//!
//! A decimal is an integer that counts units of `10^-digits`: with two
//! digits, `2150` stands for `21.50`. Rounding to `n` places keeps the
//! scale, so the result counts the same units and is a multiple of
//! `10^(digits - n)`.

use vstd::prelude::*;
use vstd::arithmetic::div_mod::{lemma_fundamental_div_mod, lemma_fundamental_div_mod_converse};
use crate::device::Device;

verus! {

/// Ten to the power `k`.
pub open spec fn pow10(k: nat) -> int
    decreases k,
{
    if k == 0 {
        1
    } else {
        10 * pow10((k - 1) as nat)
    }
}

/// The magnitude of `x`.
pub open spec fn magnitude(x: int) -> int {
    if x < 0 {
        -x
    } else {
        x
    }
}

/// The magnitude `m` with the sign of `x`.
pub open spec fn with_sign(x: int, m: int) -> int {
    if x < 0 {
        -m
    } else {
        m
    }
}

/// The integer part of a decimal of `digits` places, truncated towards
/// zero and kept at the same scale.
pub open spec fn whole(x: int, digits: nat) -> int {
    with_sign(x, magnitude(x) / pow10(digits) * pow10(digits))
}

/// The fractional part of a decimal of `digits` places; it has the sign of
/// `x` and a magnitude below one.
pub open spec fn fraction(x: int, digits: nat) -> int {
    x - whole(x, digits)
}

/// The multiple of `unit` nearest to the magnitude `m`, the upper one
/// where two are equally near.
pub open spec fn nearest(m: int, unit: int) -> int {
    (m + unit / 2) / unit * unit
}

/// A decimal of `digits` places rounded to `n` places.
///
/// The integer part is kept as it is. The magnitude of the fractional part
/// is rounded to `n` places, half a unit going up, and put back with the
/// sign of `x`. A decimal that has no more than `n` places is unchanged.
pub open spec fn rounded(x: int, digits: nat, n: nat) -> int {
    if n >= digits {
        x
    } else {
        whole(x, digits) + with_sign(
            x,
            nearest(magnitude(fraction(x, digits)), pow10((digits - n) as nat)),
        )
    }
}

/// Powers of ten are positive, and all but the first are even.
pub proof fn lemma_pow10_positive(k: nat)
    ensures
        pow10(k) >= 1,
        k >= 1 ==> pow10(k) >= 10 && pow10(k) % 2 == 0,
    decreases k,
{
    if k > 0 {
        lemma_pow10_positive((k - 1) as nat);
    }
}

/// The powers of ten that a 64-bit integer holds, and the first that it
/// does not. Stating them lets the solver evaluate a rounding of given
/// numbers.
pub proof fn lemma_pow10_values()
    ensures
        pow10(0) == 1,
        pow10(1) == 10,
        pow10(2) == 100,
        pow10(3) == 1_000,
        pow10(4) == 10_000,
        pow10(5) == 100_000,
        pow10(6) == 1_000_000,
        pow10(7) == 10_000_000,
        pow10(8) == 100_000_000,
        pow10(9) == 1_000_000_000,
        pow10(10) == 10_000_000_000,
        pow10(11) == 100_000_000_000,
        pow10(12) == 1_000_000_000_000,
        pow10(13) == 10_000_000_000_000,
        pow10(14) == 100_000_000_000_000,
        pow10(15) == 1_000_000_000_000_000,
        pow10(16) == 10_000_000_000_000_000,
        pow10(17) == 100_000_000_000_000_000,
        pow10(18) == 1_000_000_000_000_000_000,
        pow10(19) == 10_000_000_000_000_000_000,
        pow10(20) == 100_000_000_000_000_000_000,
{
    reveal_with_fuel(pow10, 21);
}

/// A larger exponent gives a power of ten that is not smaller.
pub proof fn lemma_pow10_monotonic(a: nat, b: nat)
    requires
        a <= b,
    ensures
        pow10(a) <= pow10(b),
    decreases b,
{
    if a < b {
        lemma_pow10_monotonic(a, (b - 1) as nat);
        lemma_pow10_positive((b - 1) as nat);
    }
}

/// Exponents add where powers of ten multiply.
pub proof fn lemma_pow10_add(a: nat, b: nat)
    ensures
        pow10(a + b) == pow10(a) * pow10(b),
    decreases a,
{
    if a > 0 {
        lemma_pow10_add((a - 1) as nat, b);
        assert(pow10(a + b) == 10 * pow10((a - 1 + b) as nat));
        assert(10 * (pow10((a - 1) as nat) * pow10(b)) == (10 * pow10((a - 1) as nat)) * pow10(b))
            by (nonlinear_arith);
    } else {
        assert(pow10(a) * pow10(b) == pow10(b)) by (nonlinear_arith)
            requires
                pow10(a) == 1,
        ;
    }
}

/// The nearest multiple is a multiple of the unit, lies within half a unit
/// of the magnitude it rounds, and is its own nearest multiple.
pub proof fn lemma_nearest(m: int, unit: int)
    requires
        m >= 0,
        unit == 1 || (unit >= 2 && unit % 2 == 0),
    ensures
        nearest(m, unit) >= 0,
        nearest(m, unit) % unit == 0,
        nearest(m, unit) - unit / 2 <= m <= nearest(m, unit) + unit / 2,
        m % unit == 0 ==> nearest(m, unit) == m,
        nearest(nearest(m, unit), unit) == nearest(m, unit),
{
    let half = unit / 2;
    let q = (m + half) / unit;
    lemma_fundamental_div_mod(m + half, unit);
    assert(m + half == unit * q + (m + half) % unit);
    assert(q >= 0) by (nonlinear_arith)
        requires
            m + half == unit * q + (m + half) % unit,
            0 <= (m + half) % unit < unit,
            m + half >= 0,
            unit >= 1,
    ;
    assert(q * unit >= 0) by (nonlinear_arith)
        requires
            q >= 0,
            unit >= 1,
    ;
    assert(unit * q == q * unit) by (nonlinear_arith);
    lemma_fundamental_div_mod_converse(q * unit, unit, q, 0);
    lemma_fundamental_div_mod_converse(q * unit + half, unit, q, half);
    if m % unit == 0 {
        let p = m / unit;
        lemma_fundamental_div_mod(m, unit);
        assert(unit * p == p * unit) by (nonlinear_arith);
        lemma_fundamental_div_mod_converse(m + half, unit, p, half);
    }
}

/// Rounding by parts is rounding the whole: the rounded decimal is the
/// multiple of the unit of the last place kept that is nearest to it,
/// away from zero where two are equally near.
pub proof fn lemma_rounded_nearest(x: int, digits: nat, n: nat)
    requires
        n < digits,
    ensures
        rounded(x, digits, n) == with_sign(
            x,
            nearest(magnitude(x), pow10((digits - n) as nat)),
        ),
{
    let unit = pow10((digits - n) as nat);
    let one = pow10(digits);
    let scale = pow10(n);
    lemma_pow10_positive((digits - n) as nat);
    lemma_pow10_positive(digits);
    lemma_pow10_positive(n);
    lemma_pow10_add(n, (digits - n) as nat);
    assert(one == scale * unit);
    let half = unit / 2;
    let m = magnitude(x);
    let q = m / one;
    let f = m % one;
    lemma_fundamental_div_mod(m, one);
    assert(m == one * q + f);
    assert(magnitude(fraction(x, digits)) == f) by {
        assert(one * q == q * one) by (nonlinear_arith);
    }
    let p = (f + half) / unit;
    let r = (f + half) % unit;
    lemma_fundamental_div_mod(f + half, unit);
    assert(m + half == (q * scale + p) * unit + r) by (nonlinear_arith)
        requires
            m == one * q + f,
            one == scale * unit,
            f + half == unit * p + r,
    ;
    lemma_fundamental_div_mod_converse(m + half, unit, q * scale + p, r);
    assert(nearest(m, unit) == q * one + nearest(f, unit)) by (nonlinear_arith)
        requires
            nearest(m, unit) == (q * scale + p) * unit,
            nearest(f, unit) == p * unit,
            one == scale * unit,
    ;
}

/// Rounding twice is rounding once.
pub proof fn lemma_round_idempotent(x: int, digits: nat, n: nat)
    ensures
        rounded(rounded(x, digits, n), digits, n) == rounded(x, digits, n),
{
    if n < digits {
        let unit = pow10((digits - n) as nat);
        lemma_pow10_positive((digits - n) as nat);
        lemma_rounded_nearest(x, digits, n);
        lemma_nearest(magnitude(x), unit);
        let once = rounded(x, digits, n);
        lemma_rounded_nearest(once, digits, n);
        assert(magnitude(once) == nearest(magnitude(x), unit));
    }
}

/// The rounded decimal is a multiple of the unit of the last place kept
/// and differs from the decimal by no more than half that unit.
pub proof fn lemma_round_error(x: int, digits: nat, n: nat)
    requires
        n < digits,
    ensures
        rounded(x, digits, n) % pow10((digits - n) as nat) == 0,
        magnitude(rounded(x, digits, n) - x) <= pow10((digits - n) as nat) / 2,
        x >= 0 ==> rounded(x, digits, n) >= 0,
        x <= 0 ==> rounded(x, digits, n) <= 0,
{
    let unit = pow10((digits - n) as nat);
    lemma_pow10_positive((digits - n) as nat);
    lemma_rounded_nearest(x, digits, n);
    lemma_nearest(magnitude(x), unit);
    let near = nearest(magnitude(x), unit);
    let q = near / unit;
    lemma_fundamental_div_mod(near, unit);
    if x < 0 {
        assert(-near == (-q) * unit) by (nonlinear_arith)
            requires
                near == unit * q,
        ;
        lemma_fundamental_div_mod_converse(-near, unit, -q, 0);
    }
}

/// A decimal that is already a multiple of the unit of the last place
/// kept is unchanged by rounding.
pub proof fn lemma_round_exact(x: int, digits: nat, n: nat)
    requires
        n < digits,
        magnitude(x) % pow10((digits - n) as nat) == 0,
    ensures
        rounded(x, digits, n) == x,
{
    lemma_pow10_positive((digits - n) as nat);
    lemma_rounded_nearest(x, digits, n);
    lemma_nearest(magnitude(x), pow10((digits - n) as nat));
}

/// Ten to the power `k`, for the powers a `u64` holds.
fn power_of_ten(k: u32) -> (power: u64)
    requires
        k <= 19,
    ensures
        power == pow10(k as nat),
        1 <= power <= 10_000_000_000_000_000_000,
{
    let mut power: u64 = 1;
    let mut i: u32 = 0;
    while i < k
        invariant
            i <= k <= 19,
            power == pow10(i as nat),
        decreases k - i,
    {
        proof {
            lemma_pow10_monotonic(i as nat, 18);
            lemma_pow10_values();
        }
        power = power * 10;
        i = i + 1;
    }
    proof {
        lemma_pow10_positive(k as nat);
        lemma_pow10_monotonic(k as nat, 19);
        lemma_pow10_values();
    }
    power
}

impl Device {
    /// Rounds a decimal of `digits` places to `n` places.
    ///
    /// The result keeps the scale of `x`. It must fit the type, which
    /// rounding away from zero can prevent only within half a unit of the
    /// type's bounds.
    pub fn round(x: i64, digits: u32, n: u32) -> (result: i64)
        requires
            i64::MIN <= rounded(x as int, digits as nat, n as nat) <= i64::MAX,
        ensures
            result == rounded(x as int, digits as nat, n as nat),
    {
        if n >= digits {
            return x;
        }
        let places: u32 = digits - n;
        let size: u64 = if x >= 0 {
            x as u64
        } else {
            (-(x + 1)) as u64 + 1
        };
        proof {
            lemma_rounded_nearest(x as int, digits as nat, n as nat);
            lemma_pow10_positive(places as nat);
            assert(size == magnitude(x as int));
        }
        if places > 19 {
            proof {
                let unit = pow10(places as nat);
                lemma_pow10_monotonic(20, places as nat);
                lemma_pow10_values();
                lemma_fundamental_div_mod_converse(size + unit / 2, unit, 0, size + unit / 2);
            }
            return 0;
        }
        let unit: u64 = power_of_ten(places);
        let count: u64 = (size + unit / 2) / unit;
        proof {
            lemma_fundamental_div_mod(size + unit / 2, unit as int);
            assert(count * unit == unit * count) by (nonlinear_arith);
            assert(count * unit == nearest(size as int, unit as int));
        }
        let near: u64 = count * unit;
        if x >= 0 {
            near as i64
        } else if near == 0 {
            0
        } else {
            -((near - 1) as i64) - 1
        }
    }
}

} // verus!
