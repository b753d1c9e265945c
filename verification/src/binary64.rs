//! IEEE 754 binary64 values, carried as their 64-bit patterns.
//!
//! Coordinates pass through the builder untouched, so a pattern is all it needs of them.
//! The one value it has to make itself is the position of a sample in its sequence, and
//! [`index_to_bits`] encodes that position as the nearest binary64 value.
use vstd::arithmetic::div_mod::{
    lemma_div_is_ordered, lemma_div_multiples_vanish, lemma_fundamental_div_mod,
    lemma_fundamental_div_mod_converse, lemma_multiply_divide_lt,
};
use vstd::arithmetic::power2::{
    lemma2_to64, lemma2_to64_rest, lemma_pow2_adds, lemma_pow2_pos,
    lemma_pow2_strictly_increases, lemma_pow2_unfold, pow2,
};
use vstd::bits::lemma_u64_shl_is_mul;
use vstd::prelude::*;

verus! {

/// The pattern of `1.0`.
pub const ONE: u64 = 0x3FF0_0000_0000_0000;

/// Two to the power 52: the weight of the exponent field, and the implicit leading bit of
/// a normal number's significand.
pub const HIDDEN_BIT: u64 = 0x10_0000_0000_0000;

/// Position of the highest set bit of `n`; zero for `n < 2`.
pub open spec fn floor_log2(n: nat) -> nat
    decreases n,
{
    if n < 2 {
        0
    } else {
        1 + floor_log2(n / 2)
    }
}

/// The binary64 pattern of the natural number `n`, rounded to the nearest representable
/// value, ties to the even significand.
///
/// With `e = floor_log2(n)` the biased exponent is `1023 + e`. Up to `e = 52` the
/// significand holds `n` exactly, shifted left; beyond that the low `e - 52` bits are
/// rounded away, and a carry out of the significand moves into the exponent by itself.
pub open spec fn binary64_of_nat(n: nat) -> nat {
    if n == 0 {
        0
    } else {
        let e = floor_log2(n);
        let exponent_field = (1023 + e) * pow2(52);
        if e <= 52 {
            (exponent_field + n * pow2((52 - e) as nat) - pow2(52)) as nat
        } else {
            let unit = pow2((e - 52) as nat);
            let kept = n / unit;
            let rest = n % unit;
            let round_up = 2 * rest > unit || (2 * rest == unit && kept % 2 == 1);
            (exponent_field + kept - pow2(52) + if round_up {
                1nat
            } else {
                0nat
            }) as nat
        }
    }
}

/// The biased exponent of a pattern whose sign bit is clear.
pub open spec fn exponent_field(bits: nat) -> nat {
    bits / pow2(52)
}

/// The fraction of a pattern: its low 52 bits.
pub open spec fn fraction_field(bits: nat) -> nat {
    bits % pow2(52)
}

/// `bits` is the pattern of a positive normal number, and that number is the integer
/// `value`. A normal number is its significand, `2^52` plus the fraction, times two to
/// the power `exponent - 1075`; the equation is written with that power moved to the
/// other side where it is negative.
pub open spec fn stands_for(bits: nat, value: nat) -> bool {
    &&& 1 <= exponent_field(bits) <= 2046
    &&& (pow2(52) + fraction_field(bits)) * pow2(exponent_field(bits)) == value * pow2(1075)
}

/// The distance between neighbouring binary64 values at the magnitude of `n`, where
/// that is more than one; one where every integer has a pattern of its own.
pub open spec fn spacing(n: nat) -> nat {
    if floor_log2(n) <= 52 {
        1
    } else {
        pow2((floor_log2(n) - 52) as nat)
    }
}

/// The multiple of `unit` nearest to `n`; of two that are equally near, the even one.
pub open spec fn nearest_multiple(n: nat, unit: nat) -> nat {
    let kept = n / unit;
    let rest = n % unit;
    if 2 * rest > unit || (2 * rest == unit && kept % 2 == 1) {
        (kept + 1) * unit
    } else {
        kept * unit
    }
}

/// `floor_log2(n)` is the one exponent `e` with `2^e <= n < 2^(e+1)`.
pub proof fn lemma_floor_log2_bounds(n: nat)
    requires
        n >= 1,
    ensures
        pow2(floor_log2(n)) <= n < 2 * pow2(floor_log2(n)),
    decreases n,
{
    if n < 2 {
        lemma2_to64();
    } else {
        lemma_floor_log2_bounds(n / 2);
        lemma_pow2_unfold(floor_log2(n));
    }
}

/// A positive number below `2^k` has its highest set bit below position `k`.
pub proof fn lemma_floor_log2_below(n: nat, k: nat)
    requires
        1 <= n < pow2(k),
    ensures
        floor_log2(n) < k,
{
    lemma_floor_log2_bounds(n);
    if floor_log2(n) > k {
        lemma_pow2_strictly_increases(k, floor_log2(n));
    }
}

/// A number below `2^64` has its highest set bit at position 63 or lower.
pub proof fn lemma_floor_log2_u64(n: nat)
    requires
        1 <= n <= u64::MAX,
    ensures
        floor_log2(n) <= 63,
{
    lemma2_to64_rest();
    lemma_floor_log2_below(n, 64);
}

/// Position of the highest set bit of a positive `n`.
fn highest_bit(n: u64) -> (e: u64)
    requires
        n >= 1,
    ensures
        e == floor_log2(n as nat),
        e <= 63,
        pow2(e as nat) <= n < 2 * pow2(e as nat),
{
    let mut e: u64 = 0;
    let mut m: u64 = n;
    proof {
        lemma_floor_log2_u64(n as nat);
    }
    while m >= 2
        invariant
            m >= 1,
            e + floor_log2(m as nat) == floor_log2(n as nat),
            floor_log2(n as nat) <= 63,
        decreases m,
    {
        m = m / 2;
        e = e + 1;
    }
    proof {
        lemma_floor_log2_bounds(n as nat);
    }
    e
}

/// The pattern of a number below `2^64` fits in 64 bits, with the sign bit clear.
pub proof fn lemma_binary64_fits(n: nat)
    requires
        n <= u64::MAX,
    ensures
        binary64_of_nat(n) < 0x8000_0000_0000_0000,
{
    if n > 0 {
        let e = floor_log2(n);
        lemma_floor_log2_u64(n);
        lemma_floor_log2_bounds(n);
        lemma2_to64_rest();
        assert((1023 + e) * pow2(52) <= 1086 * pow2(52)) by (nonlinear_arith)
            requires
                e <= 63,
        ;
        if e <= 52 {
            lemma_pow2_adds(e, (52 - e) as nat);
            lemma_pow2_pos((52 - e) as nat);
            assert(n * pow2((52 - e) as nat) < 2 * pow2(52)) by (nonlinear_arith)
                requires
                    n < 2 * pow2(e),
                    pow2((52 - e) as nat) > 0,
                    pow2(e) * pow2((52 - e) as nat) == pow2(52),
            ;
        } else {
            lemma_pow2_adds(52, (e - 52) as nat);
            lemma_pow2_pos((e - 52) as nat);
            lemma_kept_bits(n as int, pow2((e - 52) as nat) as int);
        }
    }
}

/// `nearest_multiple(n, unit)` is a multiple of `unit` at most half a unit away from
/// `n`, and an even multiple where it is exactly half a unit away.
pub proof fn lemma_nearest_multiple(n: nat, unit: nat)
    requires
        unit > 0,
    ensures
        ({
            let m = nearest_multiple(n, unit);
            &&& m % unit == 0
            &&& 2 * (m - n) <= unit
            &&& 2 * (n - m) <= unit
            &&& (2 * (m - n) == unit || 2 * (n - m) == unit) ==> (m / unit) % 2 == 0
        }),
{
    let kept = n / unit;
    let rest = n % unit;
    let m = nearest_multiple(n, unit);
    lemma_fundamental_div_mod(n as int, unit as int);
    let q = if m == kept * unit {
        kept
    } else {
        kept + 1
    };
    assert(m == q * unit);
    assert(m == unit * q) by (nonlinear_arith)
        requires
            m == q * unit,
    ;
    assert((kept + 1) * unit == unit * kept + unit) by (nonlinear_arith);
    lemma_fundamental_div_mod_converse(m as int, unit as int, q as int, 0);
}

/// Every positive integer below `2^64` is encoded as the binary64 value nearest to it.
/// The pattern stands for the multiple of the local spacing that is nearest to `n`,
/// the even one of two; up to `2^53`, where the spacing is one, that is `n` itself.
pub proof fn lemma_binary64_nearest(n: nat)
    requires
        1 <= n <= u64::MAX,
    ensures
        stands_for(binary64_of_nat(n), nearest_multiple(n, spacing(n))),
        floor_log2(n) <= 52 ==> stands_for(binary64_of_nat(n), n),
{
    let e = floor_log2(n);
    let bits = binary64_of_nat(n);
    let p = pow2(52);
    lemma_floor_log2_u64(n);
    lemma_floor_log2_bounds(n);
    lemma2_to64_rest();
    if e <= 52 {
        let scale = pow2((52 - e) as nat);
        lemma_pow2_adds(e, (52 - e) as nat);
        lemma_pow2_pos((52 - e) as nat);
        assert(p <= n * scale < 2 * p) by (nonlinear_arith)
            requires
                pow2(e) <= n < 2 * pow2(e),
                scale > 0,
                pow2(e) * scale == p,
        ;
        let fraction = (n * scale - p) as nat;
        assert(bits == p * (1023 + e) + fraction) by (nonlinear_arith)
            requires
                bits == (1023 + e) * p + n * scale - p,
                fraction == n * scale - p,
        ;
        lemma_fundamental_div_mod_converse(bits as int, p as int, (1023 + e) as int, fraction as int);
        lemma_pow2_adds((52 - e) as nat, 1023 + e);
        assert((p + fraction) * pow2(1023 + e) == n * pow2(1075)) by (nonlinear_arith)
            requires
                p + fraction == n * scale,
                scale * pow2(1023 + e) == pow2(1075),
        ;
        assert(n % 1 == 0 && n / 1 == n);
    } else {
        let unit = pow2((e - 52) as nat);
        let kept = n / unit;
        let rest = n % unit;
        let up: nat = if 2 * rest > unit || (2 * rest == unit && kept % 2 == 1) {
            1
        } else {
            0
        };
        lemma_pow2_adds(52, (e - 52) as nat);
        lemma_pow2_pos((e - 52) as nat);
        lemma_kept_bits(n as int, unit as int);
        lemma_pow2_adds((e - 52) as nat, 1075);
        assert(pow2(1023 + e) == unit * pow2(1075));
        let rounded = kept + up;
        assert(nearest_multiple(n, unit) == rounded * unit);
        if rounded < 2 * p {
            let fraction = (rounded - p) as nat;
            assert(bits == p * (1023 + e) + fraction) by (nonlinear_arith)
                requires
                    bits == (1023 + e) * p + kept - p + up,
                    fraction == kept + up - p,
            ;
            lemma_fundamental_div_mod_converse(
                bits as int,
                p as int,
                (1023 + e) as int,
                fraction as int,
            );
            assert((p + fraction) * pow2(1023 + e) == rounded * unit * pow2(1075))
                by (nonlinear_arith)
                requires
                    p + fraction == rounded,
                    pow2(1023 + e) == unit * pow2(1075),
            ;
        } else {
            assert(bits == p * (1024 + e) + 0) by (nonlinear_arith)
                requires
                    bits == (1023 + e) * p + kept - p + up,
                    kept + up == 2 * p,
            ;
            lemma_fundamental_div_mod_converse(bits as int, p as int, (1024 + e) as int, 0);
            lemma_pow2_unfold(1024 + e);
            assert((p + 0) * pow2(1024 + e) == rounded * unit * pow2(1075)) by (nonlinear_arith)
                requires
                    rounded == 2 * p,
                    pow2(1024 + e) == 2 * pow2(1023 + e),
                    pow2(1023 + e) == unit * pow2(1075),
            ;
        }
    }
}

/// Two to the power `k`, for `k` below 64.
fn power_of_two(k: u64) -> (p: u64)
    requires
        k <= 63,
    ensures
        p == pow2(k as nat),
{
    proof {
        lemma2_to64_rest();
        if k < 63 {
            lemma_pow2_strictly_increases(k as nat, 63);
        }
        lemma_u64_shl_is_mul(1, k);
    }
    1u64 << k
}

/// The binary64 pattern of `index`, rounded to nearest, ties to even: what a conversion
/// of the integer to a double yields.
pub fn index_to_bits(index: usize) -> (bits: u64)
    ensures
        bits == binary64_of_nat(index as nat),
{
    let n = index as u64;
    if n == 0 {
        return 0;
    }
    let e = highest_bit(n);
    proof {
        lemma2_to64_rest();
        assert(HIDDEN_BIT == pow2(52));
    }
    let exponent_field = (1023 + e) * HIDDEN_BIT;
    if e <= 52 {
        let scale = power_of_two(52 - e);
        proof {
            lemma_pow2_adds(e as nat, (52 - e) as nat);
            lemma_pow2_pos((52 - e) as nat);
            assert(n * scale < 2 * HIDDEN_BIT && n * scale >= HIDDEN_BIT) by (nonlinear_arith)
                requires
                    pow2(e as nat) <= n < 2 * pow2(e as nat),
                    pow2(e as nat) * scale == HIDDEN_BIT,
                    scale > 0,
            ;
        }
        exponent_field + (n * scale - HIDDEN_BIT)
    } else {
        let unit = power_of_two(e - 52);
        proof {
            lemma_pow2_adds(52, (e - 52) as nat);
            lemma_pow2_pos((e - 52) as nat);
            lemma_kept_bits(n as int, unit as int);
        }
        let kept = n / unit;
        let rest = n % unit;
        let round_up: u64 = if rest > unit - rest || (rest == unit - rest && kept % 2 == 1) {
            1
        } else {
            0
        };
        exponent_field + (kept - HIDDEN_BIT) + round_up
    }
}

/// Dividing a number in `[2^52 * unit, 2^53 * unit)` by `unit` leaves 53 significant bits.
proof fn lemma_kept_bits(n: int, unit: int)
    requires
        unit > 0,
        HIDDEN_BIT * unit <= n < 2 * (HIDDEN_BIT * unit),
    ensures
        HIDDEN_BIT <= n / unit < 2 * HIDDEN_BIT,
{
    lemma_div_multiples_vanish(HIDDEN_BIT as int, unit);
    lemma_div_is_ordered(HIDDEN_BIT * unit, n, unit);
    assert(HIDDEN_BIT * unit == unit * HIDDEN_BIT) by (nonlinear_arith);
    assert(n < unit * (2 * HIDDEN_BIT)) by (nonlinear_arith)
        requires
            n < 2 * (HIDDEN_BIT * unit),
    ;
    lemma_multiply_divide_lt(n, unit, 2 * HIDDEN_BIT);
}

} // verus!
