//! Shares of an amount, in parts per million.
use crate::types::Balance;
use sp_runtime::Permill;
use vstd::prelude::*;

verus! {

/// The parts that make a whole.
pub const PERMILL_ONE: u32 = 1_000_000;

/// `parts`, or a whole where `parts` is more than that.
pub open spec fn capped(parts: u32) -> int {
    if parts <= PERMILL_ONE {
        parts as int
    } else {
        PERMILL_ONE as int
    }
}

/// `parts` millionths of `value`, rounded to the nearest integer, a half rounded down.
pub open spec fn share_of(parts: u32, value: int) -> int {
    let millionths = value * capped(parts);
    millionths / 1_000_000 + if millionths % 1_000_000 > 500_000 {
        1int
    } else {
        0int
    }
}

/// Calls `Permill::from_parts`, and the `Mul` of the `Permill` so made with `value`, of
/// `sp_runtime`. The constructor takes any number of parts over a million for a million. The
/// product is the exact share rounded to the nearest integer, and down where it is in the middle
/// of two. Nothing in it overflows, since the share is no more than `value`.
#[verifier::external_body]
pub(crate) fn permill_mul(parts: u32, value: Balance) -> (share: Balance)
    ensures
        share == share_of(parts, value as int),
{
    Permill::from_parts(parts) * value
}

/// A share is no more than what it is a share of.
pub proof fn law_share_within_value(parts: u32, value: int)
    requires
        0 <= value,
    ensures
        0 <= share_of(parts, value) <= value,
{
    let millionths = value * capped(parts);
    assert(0 <= millionths <= value * 1_000_000) by (nonlinear_arith)
        requires
            millionths == value * capped(parts),
            0 <= value,
            0 <= capped(parts) <= 1_000_000,
    ;
}

/// Nothing of an amount is nothing, and the whole of it is the amount.
pub proof fn law_share_ends(parts: u32, value: int)
    requires
        0 <= value,
    ensures
        parts == 0 ==> share_of(parts, value) == 0,
        parts >= PERMILL_ONE ==> share_of(parts, value) == value,
{
    if parts == 0 {
        assert(value * capped(parts) == 0) by (nonlinear_arith)
            requires
                capped(parts) == 0,
        ;
    }
    if parts >= PERMILL_ONE {
        assert(capped(parts) == 1_000_000);
    }
}

/// A larger fraction of a larger amount is no smaller a share.
pub proof fn law_share_monotone(parts: u32, more_parts: u32, value: int, more_value: int)
    requires
        0 <= value <= more_value,
        parts <= more_parts,
    ensures
        share_of(parts, value) <= share_of(more_parts, more_value),
{
    let small = value * capped(parts);
    let large = more_value * capped(more_parts);
    assert(small <= large) by (nonlinear_arith)
        requires
            small == value * capped(parts),
            large == more_value * capped(more_parts),
            0 <= value <= more_value,
            0 <= capped(parts) <= capped(more_parts),
    ;
}

/// A share is the integer nearest to the exact fraction of the amount, the lower one of two that
/// are as near, and the whole amount where the parts are a million or more.
pub proof fn law_share_is_nearest(parts: u32, value: int)
    requires
        0 <= value,
    ensures
        parts <= 1_000_000 ==> -500_000 <= 1_000_000 * share_of(parts, value) - value * parts
            && 1_000_000 * share_of(parts, value) - value * parts < 500_000,
        parts >= 1_000_000 ==> share_of(parts, value) == value,
{
    law_share_ends(parts, value);
    let millionths = value * capped(parts);
    vstd::arithmetic::div_mod::lemma_fundamental_div_mod(millionths, 1_000_000);
}

} // verus!
