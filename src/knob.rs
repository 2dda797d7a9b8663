//! The quantizer: one raw sensor sample to one level.

use vstd::prelude::*;

use crate::LEVELS;

verus! {

/// Largest raw sample the sensor reports.
pub const RAW_MAX: i16 = 0x7fff;

/// The raw sample, held to `[0, RAW_MAX]`.
pub open spec fn clamp_raw(raw: int) -> int {
    if raw < 0 {
        0
    } else if raw > RAW_MAX as int {
        RAW_MAX as int
    } else {
        raw
    }
}

/// The level of a raw sample: the sample scaled by `1 / 10000`, times
/// `LEVELS + 2`, less two, held to `[0, LEVELS - 1]` and rounded down.
pub open spec fn level_of(raw: int) -> int {
    let x = ((LEVELS as int + 2) * clamp_raw(raw) - 20000) / 10000;
    if x < 0 {
        0
    } else if x > LEVELS as int - 1 {
        LEVELS as int - 1
    } else {
        x
    }
}

/// Converts one raw sample into a level in `[0, LEVELS - 1]`. Samples outside
/// `[0, RAW_MAX]` are first clamped into it.
pub fn quantize(raw: i16) -> (r: u32)
    ensures
        r as int == level_of(raw as int),
        r < LEVELS,
{
    let c: u32 = if raw < 0 {
        0
    } else {
        raw as u32
    };
    let t: u32 = (LEVELS + 2) * c;
    if t < 20000 {
        assert((t as int - 20000) / 10000 < 0) by (nonlinear_arith)
            requires t < 20000;
        0
    } else {
        let x: u32 = (t - 20000) / 10000;
        if x > LEVELS - 1 {
            LEVELS - 1
        } else {
            x
        }
    }
}

/// Every raw sample gives a level in `[0, LEVELS - 1]`; a larger sample never
/// gives a smaller level; the least sample gives the least level and the
/// largest gives the largest.
pub proof fn lemma_quantize_range_and_order(a: int, b: int)
    requires
        a <= b,
    ensures
        0 <= level_of(a) < LEVELS,
        level_of(a) <= level_of(b),
        level_of(0) == 0,
        level_of(RAW_MAX as int) == LEVELS - 1,
{
    let ca = clamp_raw(a);
    let cb = clamp_raw(b);
    assert(ca <= cb);
    assert(18 * ca - 20000 <= 18 * cb - 20000);
    assert((18 * ca - 20000) / 10000 <= (18 * cb - 20000) / 10000) by {
        vstd::arithmetic::div_mod::lemma_div_is_ordered(18 * ca - 20000, 18 * cb - 20000, 10000);
    }
    assert((18 * 0 - 20000) / 10000 == -2);
    assert((18 * 0x7fff - 20000) / 10000 == 56);
}

} // verus!
