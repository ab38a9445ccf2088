use execmgr::error::ErrorKind;
use execmgr::liveness::{check_running, is_lock_held, LockProbe};

#[test]
fn held_lock_means_running() {
    assert_eq!(is_lock_held("/b/web", &LockProbe::Held).unwrap(), true);
    assert!(check_running(&LockProbe::Held));
}

#[test]
fn free_lock_means_not_running() {
    assert_eq!(is_lock_held("/b/web", &LockProbe::Free).unwrap(), false);
    assert!(!check_running(&LockProbe::Free));
}

#[test]
fn absent_lock_file_means_not_running() {
    assert_eq!(is_lock_held("/b/web", &LockProbe::Absent).unwrap(), false);
    assert!(!check_running(&LockProbe::Absent));
}

#[test]
fn unreadable_lock_file_is_an_error_not_a_no() {
    let probe = LockProbe::Unreadable("Permission denied (os error 13)".to_string());
    let err = is_lock_held("/b/web", &probe).unwrap_err();
    assert_eq!(err.kind(), ErrorKind::IOError);
    assert_eq!(
        err.message(),
        "failed to open lockfile \"/b/web/app.lock\": Permission denied (os error 13)"
    );
}

#[test]
fn path_in_message_is_quoted_and_escaped() {
    let probe = LockProbe::Unreadable("no".to_string());
    let err = is_lock_held("/b/we\"b", &probe).unwrap_err();
    assert_eq!(err.message(), "failed to open lockfile \"/b/we\\\"b/app.lock\": no");
}
