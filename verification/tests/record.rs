use execmgr::app::{App, LastRunInfo};

#[test]
fn new_record_has_no_launch() {
    let app = App::new("web", "2024-05-01T10:00:00+00:00".to_string());
    assert_eq!(app.name, "web");
    assert_eq!(app.created_at, "2024-05-01T10:00:00+00:00");
    assert_eq!(app.num_runs, 0);
    assert!(app.last_run.is_none());
    assert_eq!(app.last_pid(), None);
}

#[test]
fn launch_is_counted_and_recorded() {
    let mut app = App::new("web", "2024-05-01T10:00:00+00:00".to_string());
    assert!(app.can_count_launch());
    app.record_launch("2024-05-02T08:30:00+00:00".to_string(), 4242);
    assert_eq!(app.num_runs, 1);
    assert_eq!(app.last_pid(), Some(4242));
    let last = app.last_run.as_ref().unwrap();
    assert_eq!(last.time, "2024-05-02T08:30:00+00:00");
    assert_eq!(last.pid, 4242);
    assert_eq!(app.name, "web");
    assert_eq!(app.created_at, "2024-05-01T10:00:00+00:00");
}

#[test]
fn second_launch_overwrites_the_first() {
    let mut app = App::new("web", "t0".to_string());
    app.record_launch("t1".to_string(), 10);
    app.record_launch("t2".to_string(), 11);
    assert_eq!(app.num_runs, 2);
    assert_eq!(app.last_pid(), Some(11));
    assert_eq!(app.last_run.as_ref().unwrap().time, "t2");
}

#[test]
fn full_counter_cannot_count() {
    let app = App {
        name: "web".to_string(),
        created_at: "t0".to_string(),
        last_run: Some(LastRunInfo { time: "t1".to_string(), pid: 1 }),
        num_runs: u64::MAX,
    };
    assert!(!app.can_count_launch());
}

#[test]
fn duplicate_has_the_same_content() {
    let mut app = App::new("web", "t0".to_string());
    app.record_launch("t1".to_string(), 77);
    let copy = app.duplicate();
    assert_eq!(copy.name, app.name);
    assert_eq!(copy.created_at, app.created_at);
    assert_eq!(copy.num_runs, app.num_runs);
    assert_eq!(copy.last_pid(), Some(77));
    assert_eq!(copy.last_run.unwrap().time, "t1");
    let last = LastRunInfo { time: "x".to_string(), pid: 3 };
    let twin = last.duplicate();
    assert_eq!(twin.time, "x");
    assert_eq!(twin.pid, 3);
}
