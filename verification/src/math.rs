//! Integer helpers shared by the curve and fee calculations: ceiling
//! division, powers of ten for decimal scaling, and an integer square root.

use vstd::arithmetic::div_mod::lemma_fundamental_div_mod;
use vstd::prelude::*;

verus! {

/// Quotient of `x / d` rounded towards positive infinity.
pub open spec fn div_up(x: int, d: int) -> int
    recommends
        x >= 0,
        d > 0,
{
    if x % d == 0 {
        x / d
    } else {
        x / d + 1
    }
}

/// The defining property of `div_up`: it is the least integer whose product
/// with the divisor reaches `x`.
pub proof fn lemma_div_up_bounds(x: int, d: int)
    requires
        x >= 0,
        d > 0,
    ensures
        d * div_up(x, d) >= x,
        d * div_up(x, d) < x + d,
        div_up(x, d) >= 0,
        x > 0 ==> div_up(x, d) >= 1,
{
    lemma_fundamental_div_mod(x, d);
    let q = x / d;
    let r = x % d;
    assert(d * (q + 1) == d * q + d) by (nonlinear_arith);
    vstd::arithmetic::div_mod::lemma_div_pos_is_pos(x, d);
    if x > 0 && r == 0 {
        assert(d * q == x);
        assert(q >= 1) by (nonlinear_arith)
            requires
                d > 0,
                q >= 0,
                d * q > 0,
        ;
    }
}

/// `div_up(x, d) <= y` exactly when `x` does not exceed `y * d`.
pub proof fn lemma_div_up_le(x: int, d: int, y: int)
    requires
        x >= 0,
        d > 0,
        y >= 0,
        x <= y * d,
    ensures
        div_up(x, d) <= y,
{
    if div_up(x, d) > y {
        lemma_div_up_bounds(x, d);
        assert(d * (y + 1) <= d * div_up(x, d)) by (nonlinear_arith)
            requires
                d > 0,
                y + 1 <= div_up(x, d),
        ;
        assert(d * (y + 1) == d * y + d) by (nonlinear_arith);
        assert(d * y == y * d) by (nonlinear_arith);
        assert(y * d + d <= d * div_up(x, d));
        assert(d * div_up(x, d) < x + d);
        assert(y * d < x);
    }
}

/// `div_up` never decreases when the dividend grows.
pub proof fn lemma_div_up_mono(x1: int, x2: int, d: int)
    requires
        0 <= x1 <= x2,
        d > 0,
    ensures
        div_up(x1, d) <= div_up(x2, d),
{
    lemma_div_up_bounds(x2, d);
    assert(x1 <= d * div_up(x2, d));
    assert(x1 <= div_up(x2, d) * d) by (nonlinear_arith)
        requires
            x1 <= d * div_up(x2, d),
    ;
    lemma_div_up_le(x1, d, div_up(x2, d));
}

/// `10^n`, the scale factor attached to a token mint with `n` decimals.
pub open spec fn pow10(n: nat) -> nat
    decreases n,
{
    if n == 0 {
        1
    } else {
        10 * pow10((n - 1) as nat)
    }
}

/// Powers of ten grow with the exponent.
pub proof fn lemma_pow10_mono(n1: nat, n2: nat)
    requires
        n1 <= n2,
    ensures
        pow10(n1) <= pow10(n2),
        pow10(n1) >= 1,
    decreases n2,
{
    if n2 > 0 {
        if n1 == n2 {
            lemma_pow10_mono((n1 - 1) as nat, (n2 - 1) as nat);
        } else {
            lemma_pow10_mono(n1, (n2 - 1) as nat);
        }
    }
}

/// `10^n` as a `u64`, or `None` when it does not fit.
pub fn pow10_checked(n: u32) -> (r: Option<u64>)
    ensures
        match r {
            Some(v) => v == pow10(n as nat),
            None => pow10(n as nat) > u64::MAX,
        },
{
    let mut result: u64 = 1;
    let mut i: u32 = 0;
    while i < n
        invariant
            i <= n,
            result == pow10(i as nat),
        decreases n - i,
    {
        result = match result.checked_mul(10) {
            Some(v) => v,
            None => {
                proof {
                    lemma_pow10_mono((i + 1) as nat, n as nat);
                }
                return None;
            },
        };
        i = i + 1;
    }
    Some(result)
}

/// Scales a whole-token amount into base units of a mint with the given
/// number of decimals, refusing to overflow.
pub fn to_decimals(amount: u64, decimals: u32) -> (r: Option<u64>)
    ensures
        match r {
            Some(v) => v == amount * pow10(decimals as nat),
            None => amount * pow10(decimals as nat) > u64::MAX,
        },
{
    if amount == 0 {
        proof {
            lemma_pow10_mono(0, decimals as nat);
        }
        return Some(0);
    }
    match pow10_checked(decimals) {
        Some(scale) => amount.checked_mul(scale),
        None => {
            proof {
                assert(amount * pow10(decimals as nat) >= 1 * pow10(decimals as nat))
                    by (nonlinear_arith)
                    requires
                        amount >= 1,
                        pow10(decimals as nat) >= 0,
                ;
                lemma_pow10_mono(0, decimals as nat);
            }
            None
        },
    }
}

/// Drops the decimal scale from a base-unit value, rounding down.
pub fn from_decimals(value: u64, decimals: u32) -> (r: u64)
    ensures
        r == value as int / pow10(decimals as nat) as int,
{
    match pow10_checked(decimals) {
        Some(scale) => {
            proof {
                lemma_pow10_mono(0, decimals as nat);
            }
            value / scale
        },
        None => {
            proof {
                lemma_pow10_mono(0, decimals as nat);
                vstd::arithmetic::div_mod::lemma_basic_div(
                    value as int,
                    pow10(decimals as nat) as int,
                );
            }
            0
        },
    }
}

/// `r` is the integer square root of `x`.
pub open spec fn is_integer_sqrt(x: int, r: int) -> bool {
    r >= 0 && r * r <= x && (r + 1) * (r + 1) > x
}

/// Integer square root by bisection; the result of a `u128` radicand always
/// fits in a `u64`.
pub fn integer_sqrt(x: u128) -> (r: u64)
    ensures
        is_integer_sqrt(x as int, r as int),
{
    if x == 0 {
        return 0;
    }
    let mut lo: u128 = 0;
    let mut hi: u128 = 0x1_0000_0000_0000_0000;
    proof {
        assert((hi as int) * (hi as int) > x) by (nonlinear_arith)
            requires
                hi == 0x1_0000_0000_0000_0000u128,
                x <= u128::MAX,
        ;
    }
    while lo + 1 < hi
        invariant
            lo < hi,
            hi <= 0x1_0000_0000_0000_0000,
            (lo as int) * (lo as int) <= x as int,
            (hi as int) * (hi as int) > x as int,
        decreases hi - lo,
    {
        let mid: u128 = lo + (hi - lo) / 2;
        proof {
            assert((mid as int) * (mid as int) <= u128::MAX) by (nonlinear_arith)
                requires
                    mid < 0x1_0000_0000_0000_0000u128,
            ;
        }
        if mid * mid <= x {
            lo = mid;
        } else {
            hi = mid;
        }
    }
    proof {
        assert(lo < 0x1_0000_0000_0000_0000u128);
    }
    lo as u64
}

/// Ceiling division on `u128`, implemented without any risk of overflow.
pub fn ceil_div_u128(x: u128, d: u128) -> (r: u128)
    requires
        d > 0,
    ensures
        r == div_up(x as int, d as int),
{
    let q: u128 = x / d;
    let rem: u128 = x % d;
    if rem == 0 {
        q
    } else {
        proof {
            lemma_fundamental_div_mod(x as int, d as int);
            assert(2 * (q as int) <= (d as int) * (q as int)) by (nonlinear_arith)
                requires
                    q >= 0,
                    d >= 2,
            ;
        }
        q + 1
    }
}

} // verus!
