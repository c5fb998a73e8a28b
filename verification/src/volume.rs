//! The volume mapper: conversion from a user-facing percentage to the linear
//! scale used by the remote-control engine.
//!
//! The engine expects a volume in `[0, 65535]`, while device configuration
//! carries a percentage. A percentage above 100 is clamped to 100, never
//! rejected. The scaled value is rounded to the nearest integer, a half
//! rounding up.

use vstd::prelude::*;

verus! {

/// The percentage clamped to `[0, 100]`.
pub open spec fn clamped_percent(p: int) -> int {
    if p > 100 {
        100
    } else if p < 0 {
        0
    } else {
        p
    }
}

/// The linear image of a percentage: `clamp(p) / 100 * 65535`, rounded to the
/// nearest integer with a half rounding up.
pub open spec fn linear_of_percent(p: int) -> int {
    (clamped_percent(p) * 65535 + 50) / 100
}

/// Converts a percentage volume to the engine's linear scale.
pub fn to_linear(percent: u8) -> (v: u16)
    ensures
        v as int == linear_of_percent(percent as int),
{
    let p: u32 = if percent > 100 {
        100
    } else {
        percent as u32
    };
    ((p * 65535 + 50) / 100) as u16
}

/// The linear image of any percentage lies in `[0, 65535]`.
pub proof fn lemma_linear_in_range(p: int)
    ensures
        0 <= linear_of_percent(p) <= 65535,
{
    let c = clamped_percent(p);
    assert(0 <= c <= 100);
    assert(c * 65535 + 50 <= 6553550) by (nonlinear_arith)
        requires 0 <= c <= 100;
    assert(0 <= (c * 65535 + 50) / 100 <= 65535);
}

/// On `[0, 100]` the mapping rounds exactly: the result `v` is the integer
/// nearest to `p * 65535 / 100`, a half rounding up. Stated over integers:
/// `v * 100` differs from `p * 65535` by more than `-50` and at most `50`.
pub proof fn lemma_linear_rounds_to_nearest(p: int)
    requires
        0 <= p <= 100,
    ensures
        -50 < linear_of_percent(p) * 100 - p * 65535 <= 50,
{
    let n = p * 65535;
    let v = (n + 50) / 100;
    vstd::arithmetic::div_mod::lemma_fundamental_div_mod(n + 50, 100);
    vstd::arithmetic::div_mod::lemma_mod_bound(n + 50, 100);
    assert(v * 100 - n == 50 - ((n + 50) % 100));
}

/// Every percentage above 100 maps exactly as 100 does: the policy is
/// clamping, not rejection.
pub proof fn lemma_linear_clamps_above_100(p: int)
    requires
        p > 100,
    ensures
        linear_of_percent(p) == linear_of_percent(100),
{
}

} // verus!
