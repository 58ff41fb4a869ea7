//! Integers as single-precision numbers.
//!
//! A canvas measures in single-precision floating point, which has a 24-bit
//! significand: every integer of magnitude up to 2^24 is a value of that
//! format, and above that only the multiples of a power of two are. This module
//! computes, in integer arithmetic, the value that an integer becomes when it is
//! converted to that format (round to nearest, ties to the even significand),
//! so that the conversion's error can be stated and proved.

use vstd::prelude::*;

verus! {

/// Magnitudes below this limit are single-precision values as they stand.
pub const SINGLE_EXACT_LIMIT: u32 = 0x100_0000;

/// The distance between neighbouring single-precision values at magnitude `m`:
/// 1 below 2^24, and doubling with each further binary digit of `m`.
pub open spec fn single_unit(m: nat) -> nat
    decreases m,
{
    if m < 0x100_0000 {
        1
    } else {
        2 * single_unit(m / 2)
    }
}

/// The multiple of `unit` nearest to `m`; of two that are equally near, the
/// even multiple.
pub open spec fn round_to_multiple(m: nat, unit: nat) -> nat
    recommends
        unit > 0,
{
    let below = m % unit;
    if 2 * below < unit || (2 * below == unit && (m / unit) % 2 == 0) {
        (m - below) as nat
    } else {
        (m - below + unit) as nat
    }
}

/// The single-precision value nearest to the magnitude `m`.
pub open spec fn nearest_single_magnitude(m: nat) -> nat {
    round_to_multiple(m, single_unit(m))
}

/// The single-precision value nearest to the integer `v`. Rounding is
/// symmetric about zero.
pub open spec fn nearest_single(v: int) -> int {
    if v >= 0 {
        nearest_single_magnitude(v as nat) as int
    } else {
        -(nearest_single_magnitude((-v) as nat) as int)
    }
}

/// Whether the integer `v` is a single-precision value: a multiple of the
/// spacing at its own magnitude.
pub open spec fn is_single(v: int) -> bool {
    vstd::math::abs(v) % single_unit(vstd::math::abs(v)) == 0
}

/// The distance from the integer `v` to the nearest single-precision value.
pub open spec fn off_grid(v: int) -> nat {
    let m = vstd::math::abs(v);
    let below = m % single_unit(m);
    vstd::math::min(below as int, single_unit(m) - below) as nat
}

/// The spacing is never zero.
pub proof fn lemma_single_unit_positive(m: nat)
    ensures
        single_unit(m) >= 1,
    decreases m,
{
    if m >= 0x100_0000 {
        lemma_single_unit_positive(m / 2);
    }
}

/// Rounding moves a magnitude by at most half the spacing, and lands on a
/// multiple of the spacing.
pub proof fn lemma_round_to_multiple_near(m: nat, unit: nat)
    requires
        unit > 0,
    ensures
        round_to_multiple(m, unit) % unit == 0,
        2 * (round_to_multiple(m, unit) - m) <= unit,
        2 * (m - round_to_multiple(m, unit)) <= unit,
{
    let below = m % unit;
    let down = (m - below) as nat;
    assert(m == unit * (m / unit) + below) by {
        vstd::arithmetic::div_mod::lemma_fundamental_div_mod(m as int, unit as int);
    }
    assert(down % unit == 0) by {
        vstd::arithmetic::div_mod::lemma_mod_multiples_basic((m / unit) as int, unit as int);
        assert(down == (m / unit) * unit) by (nonlinear_arith)
            requires
                down == unit * (m / unit),
        ;
    }
    assert((down + unit) % unit == 0) by {
        vstd::arithmetic::div_mod::lemma_mod_multiples_basic((m / unit) as int + 1, unit as int);
        assert(down + unit == ((m / unit) as int + 1) * unit) by (nonlinear_arith)
            requires
                down == unit * (m / unit),
        ;
    }
}

/// The spacings that occur at 32-bit magnitudes.
pub open spec fn is_unit_of_32_bits(unit: nat) -> bool {
    unit == 1 || unit == 2 || unit == 4 || unit == 8 || unit == 16 || unit == 32 || unit == 64
        || unit == 128 || unit == 256
}

/// The spacing at each 32-bit magnitude, binade by binade.
pub proof fn lemma_single_unit_32_bits(m: nat)
    requires
        m < 0x1_0000_0000,
    ensures
        is_unit_of_32_bits(single_unit(m)),
        m < 0x100_0000 ==> single_unit(m) == 1,
        0x100_0000 <= m < 0x200_0000 ==> single_unit(m) == 2,
        0x200_0000 <= m ==> single_unit(m) >= 4,
        m < 0x8000_0000 ==> single_unit(m) <= 128,
        single_unit(m) * 0x80_0000 <= m || single_unit(m) == 1,
        m < single_unit(m) * 0x100_0000,
{
    reveal_with_fuel(single_unit, 10);
}

/// An integer of magnitude up to 2^24 is a single-precision value.
pub proof fn lemma_small_is_single(v: int)
    requires
        -0x100_0000 <= v <= 0x100_0000,
    ensures
        is_single(v),
{
    reveal_with_fuel(single_unit, 2);
}

/// Conversion keeps a single-precision value as it is.
pub proof fn lemma_single_is_kept(v: int)
    requires
        is_single(v),
    ensures
        nearest_single(v) == v,
{
    let m = vstd::math::abs(v);
    lemma_single_unit_positive(m);
    lemma_multiple_stays(m, single_unit(m));
}

/// Conversion moves an integer by at most half the spacing at its magnitude.
pub proof fn lemma_nearest_single_error(v: int)
    ensures
        2 * (nearest_single(v) - v) <= single_unit(vstd::math::abs(v)),
        2 * (v - nearest_single(v)) <= single_unit(vstd::math::abs(v)),
{
    let m = vstd::math::abs(v);
    lemma_single_unit_positive(m);
    lemma_round_to_multiple_near(m, single_unit(m));
}

/// Conversion moves an integer to a single-precision value nearest to it.
pub proof fn lemma_nearest_single_distance(v: int)
    ensures
        vstd::math::abs(nearest_single(v) - v) == off_grid(v),
        2 * off_grid(v) <= single_unit(vstd::math::abs(v)),
{
    let m = vstd::math::abs(v);
    let unit = single_unit(m);
    let below = m % unit;
    let out = nearest_single_magnitude(m);
    lemma_single_unit_positive(m);
    vstd::arithmetic::div_mod::lemma_mod_decreases(m, unit);
    assert(0 <= below < unit);
    assert(out == m - below || out == m - below + unit);
    if out == m - below {
        assert(2 * below <= unit);
        assert(vstd::math::abs(out - m) == below);
    } else {
        assert(2 * below >= unit);
        assert(vstd::math::abs(out - m) == unit - below);
    }
    assert(vstd::math::abs(out - m) == off_grid(v));
    if v >= 0 {
        assert(nearest_single(v) - v == out - m);
    } else {
        assert(nearest_single(v) - v == m - out);
    }
}

/// Conversion moves an integer of magnitude up to 2^25 by at most one.
pub proof fn lemma_nearest_single_within_one(v: int)
    requires
        -0x200_0000 <= v <= 0x200_0000,
    ensures
        -1 <= nearest_single(v) - v <= 1,
{
    let m = vstd::math::abs(v);
    if m == 0x200_0000 {
        assert(single_unit(0x200_0000) == 4) by {
            reveal_with_fuel(single_unit, 3);
        }
    } else {
        lemma_single_unit_32_bits(m);
        lemma_nearest_single_error(v);
    }
}

/// Conversion moves a 32-bit integer by at most 128, and one of magnitude
/// below 2^31 by at most 64.
pub proof fn lemma_nearest_single_error_32_bits(v: int)
    requires
        -0x1_0000_0000 < v < 0x1_0000_0000,
    ensures
        -128 <= nearest_single(v) - v <= 128,
        -0x8000_0000 <= v <= 0x8000_0000 ==> -64 <= nearest_single(v) - v <= 64,
{
    let m = vstd::math::abs(v);
    lemma_single_unit_32_bits(m);
    lemma_nearest_single_error(v);
    if m == 0x8000_0000 {
        reveal_with_fuel(single_unit, 10);
    }
}

/// A multiple of `unit` that lies less than `unit` outside a range whose ends
/// are multiples of `unit` lies inside the range.
proof fn lemma_multiple_between(out: nat, unit: nat, low: nat, high: nat)
    requires
        unit > 0,
        out % unit == 0,
        low % unit == 0,
        high % unit == 0,
        low < out + unit,
        out < high + unit,
    ensures
        low <= out <= high,
{
    let k = out / unit;
    let a = low / unit;
    let b = high / unit;
    vstd::arithmetic::div_mod::lemma_fundamental_div_mod(out as int, unit as int);
    vstd::arithmetic::div_mod::lemma_fundamental_div_mod(low as int, unit as int);
    vstd::arithmetic::div_mod::lemma_fundamental_div_mod(high as int, unit as int);
    assert(a <= k && k <= b) by (nonlinear_arith)
        requires
            unit > 0,
            unit * a < unit * k + unit,
            unit * k < unit * b + unit,
    ;
    assert(unit * a <= unit * k && unit * k <= unit * b) by (nonlinear_arith)
        requires
            unit > 0,
            a <= k,
            k <= b,
    ;
}

/// A multiple of `unit` is its own nearest multiple of `unit`.
proof fn lemma_multiple_stays(out: nat, unit: nat)
    requires
        unit > 0,
        out % unit == 0,
    ensures
        round_to_multiple(out, unit) == out,
{
}

/// A magnitude up to 2^32 that is a multiple of the spacing of a magnitude
/// within half a spacing of it is a single-precision value.
proof fn lemma_multiple_is_single(m: nat, out: nat)
    requires
        m < 0x1_0000_0000,
        out <= 0x1_0000_0000,
        out % single_unit(m) == 0,
        2 * (out - m) <= single_unit(m),
        2 * (m - out) <= single_unit(m),
    ensures
        is_single(out as int),
{
    let unit = single_unit(m);
    lemma_single_unit_32_bits(m);
    if out == 0x1_0000_0000 {
        assert(single_unit(0x1_0000_0000) == 512) by {
            reveal_with_fuel(single_unit, 11);
        }
        assert(0x1_0000_0000nat % 512 == 0);
    } else {
        lemma_single_unit_32_bits(out);
        let landed = single_unit(out);
        if unit > 1 {
            // `out` lies in the binade of `m`, or is the first value of the next
            vstd::arithmetic::div_mod::lemma_mod_multiples_basic(0x80_0000, unit as int);
            vstd::arithmetic::div_mod::lemma_mod_multiples_basic(0x100_0000, unit as int);
            lemma_multiple_between(out, unit, (0x80_0000 * unit) as nat, (0x100_0000 * unit) as nat);
        }
        if landed != unit {
            assert(landed == 2 * unit);
            assert(out == 0x80_0000 * landed);
            vstd::arithmetic::div_mod::lemma_mod_multiples_basic(0x80_0000, landed as int);
        }
    }
}

/// What a 32-bit integer is converted to is a single-precision value. It has
/// at most 33 bits, and 32 where the integer is a signed one.
pub proof fn lemma_nearest_single_is_single(v: int)
    requires
        -0x1_0000_0000 < v < 0x1_0000_0000,
    ensures
        is_single(nearest_single(v)),
        -0x1_0000_0000 <= nearest_single(v) <= 0x1_0000_0000,
        -0x8000_0000 <= v <= 0x8000_0000 ==> -0x8000_0000 <= nearest_single(v) <= 0x8000_0000,
{
    let m = vstd::math::abs(v);
    let unit = single_unit(m);
    let out = nearest_single_magnitude(m);
    lemma_single_unit_32_bits(m);
    lemma_round_to_multiple_near(m, unit);
    lemma_next_multiple_in_33_bits(m, unit);
    lemma_multiple_is_single(m, out);
    if m < 0x8000_0000 {
        assert(0x8000_0000nat % unit == 0) by {
            lemma_unit_divides_binades(unit);
        }
        lemma_multiple_between(out, unit, 0, 0x8000_0000);
    } else if m == 0x8000_0000 {
        assert(0x8000_0000nat % unit == 0) by {
            lemma_unit_divides_binades(unit);
        }
        lemma_multiple_stays(m, unit);
    }
}

/// No single-precision value lies nearer to a 32-bit magnitude than the one it
/// is converted to.
proof fn lemma_magnitude_is_nearest(m: nat, other: int)
    requires
        m < 0x1_0000_0000,
        is_single(other),
    ensures
        vstd::math::abs(nearest_single_magnitude(m) - m) <= vstd::math::abs(other - m),
{
    let unit = single_unit(m);
    let below = m % unit;
    let down = m - below;
    let up = down + unit;
    lemma_single_unit_32_bits(m);
    lemma_nearest_single_distance(m as int);
    lemma_round_to_multiple_near(m, unit);
    lemma_next_multiple_in_33_bits(m, unit);
    vstd::arithmetic::div_mod::lemma_mod_decreases(m, unit);
    assert(0 <= below < unit);
    if down < other < up {
        // `other` lies in the binade of `m`, strictly between two neighbouring
        // values of that binade
        let w = other as nat;
        assert(unit > 1);
        assert(down % (unit as int) == 0 && up % (unit as int) == 0) by {
            vstd::arithmetic::div_mod::lemma_fundamental_div_mod(m as int, unit as int);
            vstd::arithmetic::div_mod::lemma_mod_multiples_basic((m / unit) as int, unit as int);
            vstd::arithmetic::div_mod::lemma_mod_multiples_basic(
                (m / unit) as int + 1,
                unit as int,
            );
            assert(down == (m / unit) * unit && up == ((m / unit) + 1) * unit)
                by (nonlinear_arith)
                requires
                    down == unit * (m / unit),
                    up == down + unit,
            ;
        }
        vstd::arithmetic::div_mod::lemma_mod_multiples_basic(0x80_0000, unit as int);
        vstd::arithmetic::div_mod::lemma_mod_multiples_basic(0x100_0000, unit as int);
        lemma_multiple_between(
            down as nat,
            unit,
            (0x80_0000 * unit) as nat,
            (0x100_0000 * unit) as nat,
        );
        lemma_multiple_between(
            up as nat,
            unit,
            (0x80_0000 * unit) as nat,
            (0x100_0000 * unit) as nat,
        );
        lemma_single_unit_32_bits(w);
        assert(single_unit(w) == unit);
        lemma_multiple_between(w, unit, up as nat, up as nat);
    }
}

/// No single-precision value lies nearer to a 32-bit integer than the one it
/// is converted to.
pub proof fn lemma_nearest_single_is_nearest(v: int, other: int)
    requires
        -0x1_0000_0000 < v < 0x1_0000_0000,
        is_single(other),
    ensures
        vstd::math::abs(nearest_single(v) - v) <= vstd::math::abs(other - v),
{
    if v >= 0 {
        lemma_magnitude_is_nearest(v as nat, other);
    } else {
        lemma_magnitude_is_nearest((-v) as nat, -other);
    }
}

/// Each spacing of a 32-bit magnitude divides 2^31.
proof fn lemma_unit_divides_binades(unit: nat)
    requires
        is_unit_of_32_bits(unit),
    ensures
        0x8000_0000nat % unit == 0,
{
    if unit == 1 {
    } else if unit == 2 {
    } else if unit == 4 {
    } else if unit == 8 {
    } else if unit == 16 {
    } else if unit == 32 {
    } else if unit == 64 {
    } else if unit == 128 {
    } else {
    }
}

/// The multiple of a spacing that follows a 32-bit magnitude is at most 2^32.
proof fn lemma_next_multiple_in_33_bits(m: nat, unit: nat)
    requires
        m < 0x1_0000_0000,
        is_unit_of_32_bits(unit),
    ensures
        m - m % unit + unit <= 0x1_0000_0000,
{
    if unit == 1 {
    } else if unit == 2 {
    } else if unit == 4 {
    } else if unit == 8 {
    } else if unit == 16 {
    } else if unit == 32 {
    } else if unit == 64 {
    } else if unit == 128 {
    } else {
    }
}

/// The spacing at a 32-bit magnitude, computed.
fn unit_of(m: u32) -> (unit: u32)
    ensures
        unit == single_unit(m as nat),
        is_unit_of_32_bits(unit as nat),
{
    let mut unit: u32 = 1;
    let mut rest: u32 = m;
    while rest >= SINGLE_EXACT_LIMIT
        invariant
            is_unit_of_32_bits(unit as nat),
            unit * rest <= m,
            single_unit(m as nat) == unit * single_unit(rest as nat),
        decreases rest,
    {
        proof {
            let r = rest as int;
            let u = unit as int;
            assert(u * 0x100_0000 <= u * r) by (nonlinear_arith)
                requires
                    u >= 1,
                    r >= 0x100_0000,
            ;
            assert((2 * u) * (r / 2) <= u * r) by (nonlinear_arith)
                requires
                    u >= 1,
                    r >= 0,
            ;
            assert(u * (2 * single_unit((r / 2) as nat)) == (2 * u) * single_unit((r / 2) as nat))
                by (nonlinear_arith);
        }
        rest = rest / 2;
        unit = unit * 2;
    }
    assert(unit * 1 == unit) by (nonlinear_arith);
    unit
}

/// The single-precision value nearest to a 32-bit magnitude.
fn round_magnitude(m: u32) -> (out: u64)
    ensures
        out == nearest_single_magnitude(m as nat),
        out <= 0x1_0000_0000,
{
    let unit = unit_of(m);
    proof {
        lemma_single_unit_positive(m as nat);
    }
    let below = m % unit;
    let down: u64 = (m - below) as u64;
    assert(down + unit <= 0x1_0000_0000) by {
        lemma_next_multiple_in_33_bits(m as nat, unit as nat);
    }
    if below < unit - below || (below == unit - below && (m / unit) % 2 == 0) {
        down
    } else {
        down + unit as u64
    }
}

/// Converts an unsigned integer to the nearest single-precision value.
pub fn single_of_u32(v: u32) -> (out: i64)
    ensures
        out == nearest_single(v as int),
{
    round_magnitude(v) as i64
}

/// Converts a signed integer to the nearest single-precision value.
pub fn single_of_i32(v: i32) -> (out: i64)
    ensures
        out == nearest_single(v as int),
{
    if v >= 0 {
        round_magnitude(v as u32) as i64
    } else {
        let magnitude: u32 = (-(v as i64)) as u32;
        -(round_magnitude(magnitude) as i64)
    }
}

} // verus!
