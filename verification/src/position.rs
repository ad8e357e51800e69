//! Pan and tilt positions between 0 and 1.
//!
//! QLC+ takes positions as single precision numbers, and nudges add up in single
//! precision. A position is held as a whole number of units of 2^-31, which is
//! exact for every position that can be reached: the cells of the grid and the
//! nudges are all multiples of that unit, and rounding a sum to the 24
//! significant bits of single precision keeps it one.

use vstd::prelude::*;

verus! {

/// The position 1.0 in units.
pub const ONE: u32 = 0x8000_0000;

/// The position 0.5 in units.
pub const CENTRE: u32 = 0x4000_0000;

/// The distance between neighbouring single precision numbers around `units`,
/// at least one unit: the smallest power of two that leaves 24 significant bits.
pub open spec fn spacing(units: int) -> int
    decreases units,
{
    if units < 0x100_0000 {
        1
    } else {
        2 * spacing(units / 2)
    }
}

/// Whether a whole number of units is a single precision number.
pub open spec fn is_single(units: int) -> bool {
    units % spacing(units) == 0
}

/// The single precision number nearest to `num / den` units, ties going to the
/// even neighbour.
pub open spec fn nearest_single(num: int, den: int) -> int {
    let q = spacing(num / den);
    let down = num / (den * q);
    let rest = num % (den * q);
    if 2 * rest < den * q || (2 * rest == den * q && down % 2 == 0) {
        down * q
    } else {
        (down + 1) * q
    }
}

/// Keeps a number of units between 0 and `ONE`.
pub open spec fn clamped(units: int) -> int {
    if units < 0 {
        0
    } else if units > ONE {
        ONE as int
    } else {
        units
    }
}

/// A position after a nudge: the sum in single precision, kept between 0 and 1.
pub open spec fn nudged(units: int, delta: int) -> int {
    nearest_single(clamped(units + delta), 1)
}

/// The spacing written out for everything up to `ONE`.
proof fn lemma_spacing(units: int)
    requires
        0 <= units <= ONE,
    ensures
        spacing(units) == (if units < 0x100_0000 {
            1int
        } else if units < 0x200_0000 {
            2
        } else if units < 0x400_0000 {
            4
        } else if units < 0x800_0000 {
            8
        } else if units < 0x1000_0000 {
            16
        } else if units < 0x2000_0000 {
            32
        } else if units < 0x4000_0000 {
            64
        } else if units < 0x8000_0000 {
            128
        } else {
            256
        }),
{
    reveal_with_fuel(spacing, 10);
}

/// Single precision numbers have 24 significant bits: between two powers of two they
/// are the multiples of a fixed spacing, which doubles at each power.
pub proof fn law_spacing(units: int)
    requires
        0 <= units <= ONE,
    ensures
        ONE == 0x8000_0000,
        CENTRE == 0x4000_0000,
        is_single(units) <==> units % spacing(units) == 0,
        spacing(units) == (if units < 0x100_0000 {
            1int
        } else if units < 0x200_0000 {
            2
        } else if units < 0x400_0000 {
            4
        } else if units < 0x800_0000 {
            8
        } else if units < 0x1000_0000 {
            16
        } else if units < 0x2000_0000 {
            32
        } else if units < 0x4000_0000 {
            64
        } else if units < 0x8000_0000 {
            128
        } else {
            256
        }),
{
    lemma_spacing(units);
}

/// A rounded value is a single precision number no larger than `ONE`.
proof fn lemma_nearest_is_single(num: int, den: int)
    requires
        0 < den,
        0 <= num <= den * ONE,
    ensures
        0 <= nearest_single(num, den) <= ONE,
        is_single(nearest_single(num, den)),
{
    let k = num / den;
    let q = spacing(k);
    assert(0 <= k <= ONE) by (nonlinear_arith)
        requires
            0 < den,
            0 <= num <= den * ONE,
            k == num / den,
    ;
    lemma_spacing(k);
    let down = num / (den * q);
    let rest = num % (den * q);
    assert(down == k / q) by {
        vstd::arithmetic::div_mod::lemma_div_denominator(num, den, q);
    }
    assert(num == (den * q) * down + rest && 0 <= rest < den * q) by {
        assert(den * q > 0) by (nonlinear_arith)
            requires
                den > 0,
                q > 0,
        ;
        vstd::arithmetic::div_mod::lemma_fundamental_div_mod(num, den * q);
        vstd::arithmetic::div_mod::lemma_mod_bound(num, den * q);
    }
    let up = (down + 1) * q;
    let low = down * q;
    assert(low <= k);
    if k == ONE {
        assert(num == den * ONE) by (nonlinear_arith)
            requires
                0 < den,
                0 <= num <= den * ONE,
                num / den == ONE,
        ;
        assert(down * q == ONE);
        assert(rest == 0) by (nonlinear_arith)
            requires
                num == den * ONE,
                num == (den * q) * down + rest,
                down * q == ONE,
        ;
    }
    assert(q == 1 || 0x80_0000 <= down);
    assert(k < ONE ==> up <= ONE);
    lemma_spacing(low);
    vstd::arithmetic::div_mod::lemma_mod_multiples_basic(down, q);
    assert(spacing(low) == q);
    if up <= ONE {
        lemma_spacing(up);
        vstd::arithmetic::div_mod::lemma_mod_multiples_basic(down + 1, q);
        if down + 1 < 0x100_0000 {
            assert(spacing(up) == q);
        } else {
            assert(up == 0x100_0000 * q);
            assert(spacing(up) == 2 * q);
            assert(up % (2 * q) == 0) by (nonlinear_arith)
                requires
                    up == 0x80_0000 * (2 * q),
                    q > 0,
            ;
        }
    }
}

/// The single precision number nearest to `num / den` units.
pub fn nearest(num: u64, den: u64) -> (units: u32)
    requires
        0 < den <= 1000,
        num <= den * ONE,
        den == 1 || num % den == 0 || num >= den * 0x80_0000,
    ensures
        units == nearest_single(num as int, den as int),
        units <= ONE,
        is_single(units as int),
{
    let k: u64 = num / den;
    let mut q: u64 = 1;
    let mut h: u64 = k;
    proof {
        lemma_nearest_is_single(num as int, den as int);
        assert(k <= ONE) by (nonlinear_arith)
            requires
                0 < den,
                num <= den * ONE,
                k == num / den,
        ;
        lemma_spacing(k as int);
    }
    while h >= 0x100_0000
        invariant
            h <= k <= ONE,
            1 <= q <= 256,
            spacing(k as int) <= 256,
            q * spacing(h as int) == spacing(k as int),
        decreases h,
    {
        proof {
            let s = spacing(h as int / 2);
            lemma_spacing(h as int / 2);
            assert(q * (2 * s) == (q * 2) * s) by (nonlinear_arith);
            assert(q * 2 <= 256) by (nonlinear_arith)
                requires
                    (q * 2) * s <= 256,
                    s >= 1,
                    q >= 1,
            ;
        }
        h = h / 2;
        q = q * 2;
    }
    assert(q == spacing(k as int));
    assert(0 < den * q <= 256_000) by (nonlinear_arith)
        requires
            0 < den <= 1000,
            1 <= q <= 256,
    ;
    let step: u64 = den * q;
    let down: u64 = num / step;
    let rest: u64 = num % step;
    proof {
        vstd::arithmetic::div_mod::lemma_div_denominator(num as int, den as int, q as int);
        assert(down as int == k as int / q as int);
        vstd::arithmetic::div_mod::lemma_div_is_ordered_by_denominator(k as int, 1, q as int);
        assert(down <= k);
        assert(0 <= (down + 1) * q <= 0x1_0000_0000 * 256) by (nonlinear_arith)
            requires
                0 <= down <= ONE,
                1 <= q <= 256,
        ;
        assert(0 <= down * q <= (down + 1) * q) by (nonlinear_arith)
            requires
                0 <= down,
                1 <= q,
        ;
    }
    if 2 * rest < step || (2 * rest == step && down % 2 == 0) {
        (down * q) as u32
    } else {
        ((down + 1) * q) as u32
    }
}

/// The position of a column or row counted from 0: a seventh for each step.
pub fn cell_position(index: u8) -> (units: u32)
    requires
        index < 8,
    ensures
        units == nearest_single(index * ONE, 7),
        units <= ONE,
        is_single(units as int),
{
    assert(0 <= index * ONE <= 7 * ONE) by (nonlinear_arith)
        requires
            0 <= index <= 7,
    ;
    nearest(index as u64 * ONE as u64, 7)
}

/// Moves a position by `delta` units.
pub fn nudge(units: u32, delta: i64) -> (moved: u32)
    requires
        units <= ONE,
        -ONE <= delta <= ONE,
    ensures
        moved == nudged(units as int, delta as int),
        moved <= ONE,
        is_single(moved as int),
{
    let sum: i64 = units as i64 + delta;
    let kept: i64 = if sum < 0 {
        0
    } else if sum > ONE as i64 {
        ONE as i64
    } else {
        sum
    };
    nearest(kept as u64, 1)
}

/// Rounding goes to a single precision number at most half a spacing away.
pub proof fn law_rounding(units: int)
    requires
        0 <= units <= ONE,
    ensures
        0 <= nearest_single(units, 1) <= ONE,
        is_single(nearest_single(units, 1)),
        -spacing(units) <= 2 * (nearest_single(units, 1) - units) <= spacing(units),
        is_single(units) ==> nearest_single(units, 1) == units,
{
    lemma_nearest_is_single(units, 1);
    lemma_spacing(units);
    let q = spacing(units);
    let down = units / q;
    vstd::arithmetic::div_mod::lemma_fundamental_div_mod(units, q);
    vstd::arithmetic::div_mod::lemma_mod_bound(units, q);
    assert(1 * q == q);
    assert((down + 1) * q == down * q + q && down * q == q * down) by (nonlinear_arith);
}

/// The positions of the cells are single precision numbers from 0 to 1, with both
/// ends among them.
pub proof fn law_cell_positions(index: int)
    requires
        0 <= index < 8,
    ensures
        0 <= nearest_single(index * ONE, 7) <= ONE,
        is_single(nearest_single(index * ONE, 7)),
        index == 0 ==> nearest_single(index * ONE, 7) == 0,
        index == 7 ==> nearest_single(index * ONE, 7) == ONE,
{
    assert(0 <= index * ONE <= 7 * ONE) by (nonlinear_arith)
        requires
            0 <= index <= 7,
    ;
    lemma_nearest_is_single(index * ONE, 7);
    lemma_spacing(0);
    lemma_spacing(ONE as int);
    if index == 7 {
        assert(index * ONE == 0x3_8000_0000);
        assert(0x3_8000_0000int / 7 == ONE);
        assert(7 * 256 == 1792int);
        assert(0x3_8000_0000int / 1792 == 0x80_0000);
        assert(0x3_8000_0000int % 1792 == 0);
    }
}

/// The centre is a single precision number.
pub proof fn lemma_centre()
    ensures
        is_single(CENTRE as int),
        CENTRE <= ONE,
        2 * CENTRE == ONE,
{
    lemma_spacing(CENTRE as int);
}

/// A nudge never leaves the range from 0 to 1, stops at its ends, and moves by
/// nothing where the step is 0.
pub proof fn law_nudge(units: int, delta: int)
    requires
        0 <= units <= ONE,
        is_single(units),
    ensures
        0 <= nudged(units, delta) <= ONE,
        is_single(nudged(units, delta)),
        units + delta <= 0 ==> nudged(units, delta) == 0,
        units + delta >= ONE ==> nudged(units, delta) == ONE,
        delta == 0 ==> nudged(units, delta) == units,
{
    law_rounding(clamped(units + delta));
    lemma_spacing(0);
    lemma_spacing(ONE as int);
    assert(is_single(0));
    assert(is_single(ONE as int));
}

/// Rounding a quotient gives a multiple of the spacing there, at most half a spacing
/// away, and in the middle between two multiples the even one.
pub proof fn law_nearest(num: int, den: int)
    requires
        0 < den,
        0 <= num <= den * ONE,
    ensures
        ({
            let q = spacing(num / den);
            let r = nearest_single(num, den);
            &&& r % q == 0
            &&& -(den * q) <= 2 * (r * den - num) <= den * q
            &&& 2 * (r * den - num) == den * q || 2 * (num - r * den) == den * q ==> (r / q) % 2
                == 0
        }),
{
    let k = num / den;
    let q = spacing(k);
    assert(0 <= k <= ONE) by (nonlinear_arith)
        requires
            0 < den,
            0 <= num <= den * ONE,
            k == num / den,
    ;
    lemma_spacing(k);
    let step = den * q;
    assert(step > 0) by (nonlinear_arith)
        requires
            den > 0,
            q > 0,
            step == den * q,
    ;
    let down = num / step;
    let rest = num % step;
    vstd::arithmetic::div_mod::lemma_fundamental_div_mod(num, step);
    vstd::arithmetic::div_mod::lemma_mod_bound(num, step);
    let r = nearest_single(num, den);
    let m = if 2 * rest < step || (2 * rest == step && down % 2 == 0) {
        down
    } else {
        down + 1
    };
    assert(r == m * q);
    assert((m * q) * den == step * m) by (nonlinear_arith)
        requires
            step == den * q,
    ;
    assert(step * (down + 1) == step * down + step) by (nonlinear_arith);
    vstd::arithmetic::div_mod::lemma_mod_multiples_basic(m, q);
    vstd::arithmetic::div_mod::lemma_div_multiples_vanish(m, q);
    assert(m * q == q * m) by (nonlinear_arith);
}

/// A nudge adds: the result is the sum, rounded, as long as that stays between 0 and 1.
/// A step that is not tiny moves a position in its direction.
pub proof fn law_nudge_adds(units: int, delta: int)
    requires
        0 <= units <= ONE,
        0 <= units + delta <= ONE,
    ensures
        -spacing(units + delta) <= 2 * (nudged(units, delta) - (units + delta)) <= spacing(
            units + delta,
        ),
        nudged(units, delta) % spacing(units + delta) == 0,
        delta >= 256 ==> nudged(units, delta) > units,
        delta <= -256 ==> nudged(units, delta) < units,
{
    law_nearest(units + delta, 1);
    lemma_spacing(units + delta);
    assert((units + delta) / 1 == units + delta);
}

} // verus!
