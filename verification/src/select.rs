//! Branch-free selection.
//!
//! A circuit must not branch on a secret: it computes the value of both
//! outcomes and picks one by arithmetic. These are the picks.

use vstd::prelude::*;

verus! {

/// `when_true` if `condition` holds, else `when_false`, without a branch:
/// the condition is widened to a mask of all ones or all zeros.
pub fn select_u64(condition: bool, when_true: u64, when_false: u64) -> (chosen: u64)
    ensures
        chosen == if condition { when_true } else { when_false },
{
    let bit: u64 = condition as u64;
    let mask: u64 = 0u64.wrapping_sub(bit);
    assert(mask == if condition { 0xffff_ffff_ffff_ffffu64 } else { 0u64 });
    assert((when_true & 0xffff_ffff_ffff_ffffu64) | (when_false & !0xffff_ffff_ffff_ffffu64)
        == when_true) by (bit_vector);
    assert((when_true & 0u64) | (when_false & !0u64) == when_false) by (bit_vector);
    (when_true & mask) | (when_false & !mask)
}

/// The disjunction of two predicates, evaluating both.
pub fn either(first: bool, second: bool) -> (any: bool)
    ensures
        any == (first || second),
{
    let a: u8 = first as u8;
    let b: u8 = second as u8;
    assert(a <= 1 && b <= 1 ==> ((a | b) != 0 <==> (a != 0 || b != 0))) by (bit_vector);
    (a | b) != 0
}

} // verus!
