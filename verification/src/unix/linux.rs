//! The nice-value adapter: the normalized level is mapped, inverted, onto
//! the niceness range [-20, 19] and applied to the calling context with
//! `setpriority`.

use vstd::prelude::*;

use crate::OsError;
use crate::Priority;

verus! {

/// Highest niceness, i.e. lowest scheduling priority.
pub const NICE_MAX: i32 = 19;

/// Lowest niceness, i.e. highest scheduling priority.
pub const NICE_MIN: i32 = -20;

/// The niceness that a normalized level maps to: level 0 gives 19 and
/// level 100 gives -20, by integer truncating division.
pub open spec fn nice_of(level: int) -> int {
    19 - 39 * level / 100
}

impl Priority {
    /// The niceness for this level.
    pub fn to_nice(self) -> (r: i32)
        ensures
            r == nice_of(self@),
            NICE_MIN <= r <= NICE_MAX,
    {
        let level: u32 = self.level() as u32;
        let offset: u32 = 39 * level / 100;
        proof {
            vstd::arithmetic::mul::lemma_mul_inequality(level as int, 100, 39);
            vstd::arithmetic::div_mod::lemma_div_is_ordered(39 * (level as int), 3900, 100);
            vstd::arithmetic::div_mod::lemma_div_is_ordered(0, 39 * (level as int), 100);
        }
        NICE_MAX - (offset as i32)
    }
}

/// The niceness mapping is inverted and monotone: the ends of the scale
/// map to the ends of the niceness range, and a higher level never gives
/// a higher niceness.
pub proof fn lemma_nice_inversion(level1: int, level2: int)
    requires
        0 <= level1 <= level2 <= 100,
    ensures
        nice_of(0) == 19,
        nice_of(100) == -20,
        nice_of(level1) >= nice_of(level2),
        NICE_MIN <= nice_of(level1) <= NICE_MAX,
{
    vstd::arithmetic::mul::lemma_mul_inequality(level1, level2, 39);
    vstd::arithmetic::div_mod::lemma_div_is_ordered(39 * level1, 39 * level2, 100);
    vstd::arithmetic::div_mod::lemma_div_is_ordered(0, 39 * level1, 100);
    vstd::arithmetic::div_mod::lemma_div_is_ordered(39 * level1, 39 * 100int, 100);
}

/// Relies on rustix::process::setpriority_process, i.e.
/// `setpriority(PRIO_PROCESS, 0, ..)` addressed at the calling context:
/// the outcome is `None` on success and the raw OS error code, which its
/// source keeps non-zero, on failure.
#[verifier::external_body]
fn set_priority_self(nice: i32) -> (r: Option<i32>)
    ensures
        r matches Some(code) ==> code != 0,
{
    match rustix::process::setpriority_process(None, nice) {
        Ok(()) => None,
        Err(e) => Some(e.raw_os_error()),
    }
}

/// Turns the reported status of the native "set" call into the adapter's
/// outcome: success as it is, and a reported code wrapped exactly.
pub fn wrap_status(status: Option<i32>) -> (r: Result<(), OsError>)
    ensures
        status matches Some(code) ==> (r matches Err(err) && err.code_spec() == code),
        status is None <==> r is Ok,
{
    match status {
        None => Ok(()),
        Some(code) => Err(OsError::new(code)),
    }
}

/// Sets the scheduling priority of the calling context to the niceness
/// that the level maps to. On failure, the OS-reported code is returned
/// wrapped, never as success.
pub fn set_thread_priority(priority: Priority) -> (r: Result<(), OsError>)
    ensures
        r matches Err(err) ==> err.code_spec() != 0,
{
    let nice = priority.to_nice();
    wrap_status(set_priority_self(nice))
}

} // verus!
