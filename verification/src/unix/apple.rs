//! The POSIX real-time mapping: the normalized level is mapped linearly
//! onto the dynamic priority range of the scheduling policy that is
//! active for the calling thread.

use vstd::prelude::*;

use crate::Priority;

verus! {

/// The target priority for a level within a policy's range: the range is
/// walked from its minimum by integer truncating division, so level 0
/// gives the minimum and level 100 the maximum.
pub open spec fn posix_of(min: int, max: int, level: int) -> int {
    min + (max - min) * level / 100
}

impl Priority {
    /// The target priority for this level within the given range.
    pub fn to_posix(self, min_priority: i32, max_priority: i32) -> (r: i32)
        requires
            min_priority <= max_priority,
        ensures
            r == posix_of(min_priority as int, max_priority as int, self@),
            min_priority <= r <= max_priority,
    {
        let level: u64 = self.level() as u64;
        let range: u64 = (max_priority as i64 - min_priority as i64) as u64;
        proof {
            assert(range * level <= 0xffff_ffffu64 * 100) by (nonlinear_arith)
                requires
                    range <= 0xffff_ffffu64,
                    level <= 100,
            ;
        }
        let offset: u64 = range * level / 100;
        proof {
            vstd::arithmetic::mul::lemma_mul_inequality(level as int, 100, range as int);
            vstd::arithmetic::mul::lemma_mul_is_commutative(level as int, range as int);
            vstd::arithmetic::mul::lemma_mul_is_commutative(100, range as int);
            vstd::arithmetic::div_mod::lemma_div_is_ordered(
                range as int * level as int,
                range as int * 100,
                100,
            );
            vstd::arithmetic::div_mod::lemma_div_is_ordered(0, range as int * level as int, 100);
            assert(range as int * 100 / 100 == range as int) by (nonlinear_arith);
        }
        (min_priority as i64 + offset as i64) as i32
    }
}

/// The mapping is monotone: within one range, a higher level never gives
/// a lower target priority, and every target stays inside the range.
pub proof fn lemma_posix_monotonic(min: int, max: int, level1: int, level2: int)
    requires
        min <= max,
        0 <= level1 <= level2 <= 100,
    ensures
        posix_of(min, max, level1) <= posix_of(min, max, level2),
        min <= posix_of(min, max, level1) <= max,
{
    let range = max - min;
    vstd::arithmetic::mul::lemma_mul_inequality(level1, level2, range);
    vstd::arithmetic::mul::lemma_mul_is_commutative(level1, range);
    vstd::arithmetic::mul::lemma_mul_is_commutative(level2, range);
    vstd::arithmetic::div_mod::lemma_div_is_ordered(range * level1, range * level2, 100);
    vstd::arithmetic::mul::lemma_mul_inequality(level1, 100, range);
    vstd::arithmetic::mul::lemma_mul_is_commutative(100, range);
    vstd::arithmetic::div_mod::lemma_div_is_ordered(range * level1, range * 100, 100);
    vstd::arithmetic::div_mod::lemma_div_is_ordered(0, range * level1, 100);
    assert(range * 100 / 100 == range) by (nonlinear_arith);
}

/// Degenerate ranges are accepted: when the policy's minimum and maximum
/// coincide, every level maps to that single value.
pub proof fn lemma_posix_degenerate(min: int, level: int)
    requires
        0 <= level <= 100,
    ensures
        posix_of(min, min, level) == min,
{
}

} // verus!
