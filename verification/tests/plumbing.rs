use thread_priority::unix::linux::wrap_status;
use thread_priority::unix::{call_libc_ret_errno, call_libc_set_errno, wrap_errno};
use thread_priority::OsError;

#[test]
fn wrap_errno_zero_is_success() {
    let r: Result<i32, OsError> = wrap_errno(5, 0);
    assert_eq!(r.unwrap(), 5);
}

#[test]
fn wrap_errno_keeps_the_code() {
    let r: Result<(), OsError> = wrap_errno((), 7);
    assert_eq!(r.unwrap_err().code(), 7);
}

#[test]
fn wrap_status_zero_free() {
    assert!(wrap_status(None).is_ok());
    assert_eq!(wrap_status(Some(13)).unwrap_err().code(), 13);
}

#[test]
fn ret_errno_zero_is_success() {
    assert!(call_libc_ret_errno(|| 0).is_ok());
}

#[test]
fn ret_errno_keeps_the_code() {
    assert_eq!(call_libc_ret_errno(|| 22).unwrap_err().code(), 22);
}

#[test]
fn set_errno_sees_a_code_the_call_left() {
    let r = call_libc_set_errno(|| errno::set_errno(errno::Errno(9)));
    assert_eq!(r.unwrap_err().code(), 9);
}

#[test]
fn set_errno_resets_before_the_call() {
    errno::set_errno(errno::Errno(11));
    let r = call_libc_set_errno(|| 42);
    assert_eq!(r.unwrap(), 42);
}

#[test]
fn message_renders_positive_code() {
    assert_eq!(OsError::new(42).message(), "os error: 42");
}

#[test]
fn message_renders_zero_and_negative_codes() {
    assert_eq!(OsError::new(0).message(), "os error: 0");
    assert_eq!(OsError::new(-3).message(), "os error: -3");
    assert_eq!(OsError::new(i32::MIN).message(), "os error: -2147483648");
}
