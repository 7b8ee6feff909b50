//! The Windows mapping: the normalized level is mapped onto a fixed
//! seven-step enumeration of thread priority classes by a stepwise table.

use vstd::prelude::*;

use crate::Priority;

verus! {

/// The discrete priority tiers that the Win32 thread-priority call takes.
#[derive(Debug, Clone, Copy, PartialEq, Eq, Structural)]
pub enum PriorityClass {
    Idle,
    Lowest,
    BelowNormal,
    Normal,
    AboveNormal,
    Highest,
    TimeCritical,
}

/// The stepwise table from a normalized level to its priority class:
/// only level 0 is idle, twenty-wide bands follow, and 100 (with
/// everything the clamp folds onto it) is time-critical.
pub open spec fn class_of(level: int) -> PriorityClass {
    if level == 0 {
        PriorityClass::Idle
    } else if 1 <= level <= 19 {
        PriorityClass::Lowest
    } else if 20 <= level <= 39 {
        PriorityClass::BelowNormal
    } else if 40 <= level <= 59 {
        PriorityClass::Normal
    } else if 60 <= level <= 79 {
        PriorityClass::AboveNormal
    } else if 80 <= level <= 99 {
        PriorityClass::Highest
    } else {
        PriorityClass::TimeCritical
    }
}

impl Priority {
    /// The priority class for this level, exactly as the table gives it.
    pub fn to_windows(self) -> (r: PriorityClass)
        ensures
            r == class_of(self@),
    {
        let level = self.level();
        if level == 0 {
            PriorityClass::Idle
        } else if level <= 19 {
            PriorityClass::Lowest
        } else if level <= 39 {
            PriorityClass::BelowNormal
        } else if level <= 59 {
            PriorityClass::Normal
        } else if level <= 79 {
            PriorityClass::AboveNormal
        } else if level <= 99 {
            PriorityClass::Highest
        } else {
            PriorityClass::TimeCritical
        }
    }
}

} // verus!
