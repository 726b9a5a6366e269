//! The packed form of one collation element and its field accessors.
//!
//! Bit layout of a packed element: primary weight in bits 16..32, the
//! variable flag in bit 15, the tertiary weight in bits 9..15 and the
//! secondary weight in bits 0..9.
use vstd::prelude::*;

verus! {

/// Ends a collation element array; nothing after it is read.
pub const SENTINEL: u32 = 0xFFFF_FFFF;

pub open spec fn primary_of(w: u32) -> u16 {
    (w >> 16u32) as u16
}

pub open spec fn secondary_of(w: u32) -> u16 {
    (w & 0x1FFu32) as u16
}

pub open spec fn tertiary_of(w: u32) -> u16 {
    ((w >> 9u32) & 0x3Fu32) as u16
}

pub open spec fn variable_of(w: u32) -> bool {
    w & 0x8000u32 != 0
}

/// The packed element as a number.
pub open spec fn packed(variable: bool, primary: u16, secondary: u16, tertiary: u16) -> u32 {
    (primary as int * 0x10000 + (if variable {
        0x8000int
    } else {
        0int
    }) + tertiary as int * 512 + secondary as int) as u32
}

pub fn primary(w: u32) -> (r: u16)
    ensures
        r == primary_of(w),
{
    (w >> 16u32) as u16
}

pub fn secondary(w: u32) -> (r: u16)
    ensures
        r == secondary_of(w),
{
    (w & 0x1FFu32) as u16
}

pub fn tertiary(w: u32) -> (r: u16)
    ensures
        r == tertiary_of(w),
{
    ((w >> 9u32) & 0x3Fu32) as u16
}

pub fn variability(w: u32) -> (r: bool)
    ensures
        r == variable_of(w),
{
    w & 0x8000u32 != 0
}

/// Packs the four fields into one element. The secondary weight must fit in
/// nine bits and the tertiary weight in six.
pub fn pack_weights(variable: bool, primary: u16, secondary: u16, tertiary: u16) -> (r: u32)
    requires
        secondary < 512,
        tertiary < 64,
    ensures
        primary_of(r) == primary,
        secondary_of(r) == secondary,
        tertiary_of(r) == tertiary,
        variable_of(r) == variable,
        r == packed(variable, primary, secondary, tertiary),
{
    let v: u32 = if variable { 0x8000u32 } else { 0u32 };
    let p: u32 = primary as u32;
    let s: u32 = secondary as u32;
    let t: u32 = tertiary as u32;
    let r: u32 = (p << 16u32) | v | (t << 9u32) | s;
    assert(((r >> 16u32) as u16) == (p as u16) && ((r & 0x1FFu32) as u16) == (s as u16) && (((r
        >> 9u32) & 0x3Fu32) as u16) == (t as u16) && ((r & 0x8000u32 != 0) == (v == 0x8000u32)))
        by (bit_vector)
        requires
            r == (p << 16u32) | v | (t << 9u32) | s,
            p < 0x10000,
            s < 512,
            t < 64,
            v == 0 || v == 0x8000,
    ;
    assert(r == p * 0x10000 + v + t * 512 + s) by (bit_vector)
        requires
            r == (p << 16u32) | v | (t << 9u32) | s,
            p < 0x10000,
            s < 512,
            t < 64,
            v == 0 || v == 0x8000,
    ;
    r
}

} // verus!
