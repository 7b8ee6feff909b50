//! Set the scheduling priority of the calling thread from a single
//! normalized 0-100 level, translated to the native priority mechanism
//! of the host platform.

use vstd::prelude::*;
use vstd::std_specs::convert::FromSpec;

pub mod digits;
pub mod unix;
pub mod windows;

pub use unix::set_thread_priority;

verus! {

/// The uniform error of the crate: the raw status or error code that the
/// operating system reported for a failed call.
#[derive(Debug, Clone, Copy)]
pub struct OsError {
    code: i32,
}

impl OsError {
    /// The wrapped native code.
    pub closed spec fn code_spec(self) -> i32 {
        self.code
    }

    /// Wraps a native code reported by a failed OS call.
    pub fn new(code: i32) -> (r: OsError)
        ensures
            r.code_spec() == code,
    {
        OsError { code }
    }

    /// The wrapped native code.
    pub fn code(self) -> (r: i32)
        ensures
            r == self.code_spec(),
    {
        self.code
    }

    /// The error rendered as text: "os error: " followed by the code
    /// in decimal.
    pub fn message(self) -> (s: String)
        ensures
            s@ == "os error: "@ + digits::signed_digits(self.code_spec() as int),
    {
        let mut s: String = "os error: ".to_owned();
        if self.code < 0 {
            vstd::string::StringExecFns::append(&mut s, "-");
            proof {
                reveal_strlit("-");
                assert(s@ =~= "os error: "@ + seq!['-']);
            }
            let mag64: i64 = -(self.code as i64);
            let mag: u32 = mag64 as u32;
            digits::push_digits(&mut s, mag);
            proof {
                assert(s@ =~= "os error: "@ + digits::signed_digits(self.code_spec() as int));
            }
        } else {
            digits::push_digits(&mut s, self.code as u32);
        }
        s
    }
}

/// Upper bound of the normalized priority scale.
pub const PRIORITY_MAX: u8 = 100;

/// What a raw level becomes once clamped into the normalized scale.
pub open spec fn clamped(level: int) -> int {
    if level > 100 {
        100
    } else {
        level
    }
}

/// A normalized priority level, always in [0, 100].
#[derive(Debug, Clone, Copy)]
pub struct Priority {
    level: u8,
}

#[verifier::type_invariant]
spec fn priority_inv(p: Priority) -> bool {
    p.level <= 100
}

impl View for Priority {
    type V = int;

    closed spec fn view(&self) -> int {
        self.level as int
    }
}

impl Priority {
    /// The wrapped level, as constructed; always inside the scale.
    pub fn level(self) -> (r: u8)
        ensures
            r as int == self@,
            0 <= self@ <= 100,
    {
        proof {
            use_type_invariant(self);
        }
        self.level
    }
}

impl From<u8> for Priority {
    /// Clamps any raw byte into the scale: values above 100 become 100.
    fn from(value: u8) -> (r: Priority) {
        let level = if value > PRIORITY_MAX {
            PRIORITY_MAX
        } else {
            value
        };
        Priority { level }
    }
}

impl vstd::std_specs::convert::FromSpecImpl<u8> for Priority {
    open spec fn obeys_from_spec() -> bool {
        true
    }

    closed spec fn from_spec(value: u8) -> Priority {
        Priority { level: if value > 100 { 100u8 } else { value } }
    }
}

/// Construction clamps: a level inside the scale is kept as it is,
/// and one above the scale becomes exactly 100.
pub proof fn lemma_from_clamps(value: u8)
    ensures
        Priority::from_spec(value)@ == clamped(value as int),
        value <= 100 ==> Priority::from_spec(value)@ == value as int,
        value > 100 ==> Priority::from_spec(value)@ == 100,
{
}

/// Applying the same level twice aims at the same native target both
/// times: each of the three mappings is a function of the level alone
/// (and, for the POSIX real-time one, of the policy's range).
pub proof fn lemma_same_level_same_target(p1: Priority, p2: Priority, min: int, max: int)
    requires
        p1@ == p2@,
    ensures
        unix::linux::nice_of(p1@) == unix::linux::nice_of(p2@),
        unix::apple::posix_of(min, max, p1@) == unix::apple::posix_of(min, max, p2@),
        windows::class_of(p1@) == windows::class_of(p2@),
{
}

} // verus!
