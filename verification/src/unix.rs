//! Error plumbing shared by the Unix adapters: the thread-local errno
//! reset-then-check pattern, and the wrapping of reported codes into
//! [`OsError`](crate::OsError).

use vstd::prelude::*;

use crate::OsError;

pub mod apple;
pub mod linux;

pub use linux::set_thread_priority;

verus! {

/// Relies on errno::set_errno: stores the given code into the errno of
/// the calling thread, and of it alone.
#[verifier::external_body]
fn set_errno(code: i32) {
    errno::set_errno(errno::Errno(code));
}

/// Relies on errno::errno: reads the errno of the calling thread. What it
/// holds depends on the calls made before, so nothing is promised of it.
#[verifier::external_body]
fn errno() -> i32 {
    errno::errno().0
}

/// Turns a computed value and an errno read after the call that computed
/// it into the call's outcome: the value if errno stayed zero, the wrapped
/// code if not.
pub fn wrap_errno<T>(value: T, e: i32) -> (r: Result<T, OsError>)
    ensures
        e == 0 ==> r == Ok::<T, OsError>(value),
        e != 0 ==> (r matches Err(err) && err.code_spec() == e),
        r is Ok <==> e == 0,
{
    if e == 0 {
        Ok(value)
    } else {
        Err(OsError::new(e))
    }
}

/// Runs a call that reports failure only through the thread-local errno:
/// errno is reset to zero right before the call and checked right after,
/// and a non-zero value is wrapped as the failure.
pub fn call_libc_set_errno<T, F: FnOnce() -> T>(f: F) -> (r: Result<T, OsError>)
    requires
        call_requires(f, ()),
    ensures
        r matches Ok(v) ==> call_ensures(f, (), v),
        r matches Err(err) ==> err.code_spec() != 0,
{
    set_errno(0);
    let value = f();
    let e = errno();
    wrap_errno(value, e)
}

/// Runs a call whose own return code is the success signal: zero is
/// success, and any other value is wrapped as the failure.
pub fn call_libc_ret_errno<F: FnOnce() -> i32>(f: F) -> (r: Result<(), OsError>)
    requires
        call_requires(f, ()),
    ensures
        r is Ok ==> call_ensures(f, (), 0i32),
        r matches Err(err) ==> (err.code_spec() != 0 && call_ensures(f, (), err.code_spec())),
{
    let code = f();
    if code == 0 {
        Ok(())
    } else {
        Err(OsError::new(code))
    }
}

} // verus!
