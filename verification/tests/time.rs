use execmgr::clock::{elapsed_at, since_running};

#[test]
fn elapsed_is_counted_in_whole_seconds() {
    assert_eq!(
        elapsed_at("2024-05-01T10:00:00+00:00", "2024-05-01T10:01:40+00:00"),
        Some(100)
    );
    assert_eq!(
        elapsed_at("2024-05-01T10:00:00.900+00:00", "2024-05-01T10:00:02.100+00:00"),
        Some(1)
    );
}

#[test]
fn elapsed_respects_offsets() {
    assert_eq!(
        elapsed_at("2024-05-01T12:00:00+02:00", "2024-05-01T10:00:30+00:00"),
        Some(30)
    );
}

#[test]
fn elapsed_is_negative_for_a_start_in_the_future() {
    assert_eq!(
        elapsed_at("2024-05-01T10:00:10+00:00", "2024-05-01T10:00:00+00:00"),
        Some(-10)
    );
}

#[test]
fn elapsed_of_garbage_is_none() {
    assert_eq!(elapsed_at("yesterday", "2024-05-01T10:00:00+00:00"), None);
    assert_eq!(elapsed_at("2024-05-01T10:00:00+00:00", "now"), None);
    assert_eq!(elapsed_at("", ""), None);
}

#[test]
fn since_running_of_garbage_is_none() {
    assert_eq!(since_running("not a time"), None);
}

#[test]
fn since_running_of_a_past_time_is_not_negative() {
    let elapsed = since_running("2020-01-01T00:00:00+00:00").unwrap();
    assert!(elapsed > 0);
}
