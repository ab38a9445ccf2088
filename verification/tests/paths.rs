use execmgr::layout::{
    app_dir, join, lock_file, log_dir, log_paths, record_file, resolve_base_dir, start_script,
    stop_script,
};

#[test]
fn join_puts_one_slash_between() {
    assert_eq!(join("/base", "web"), "/base/web");
    assert_eq!(join("/base/", "web"), "/base/web");
    assert_eq!(join("rel", "web"), "rel/web");
}

#[test]
fn join_with_empty_base_is_the_leaf() {
    assert_eq!(join("", "web"), "web");
}

#[test]
fn join_with_absolute_leaf_is_the_leaf() {
    assert_eq!(join("/base", "/elsewhere/web"), "/elsewhere/web");
}

#[test]
fn join_with_empty_leaf_ends_in_slash() {
    assert_eq!(join("/base", ""), "/base/");
    assert_eq!(join("/base/", ""), "/base/");
}

#[test]
fn join_agrees_with_std_path() {
    let cases = [
        ("/base", "web"),
        ("/base/", "web"),
        ("", "web"),
        ("/base", "/abs"),
        ("/base", ""),
        ("a/b", "c/d"),
        ("/", "x"),
    ];
    for (base, leaf) in cases {
        let expected = std::path::Path::new(base).join(leaf);
        assert_eq!(join(base, leaf), expected.to_str().unwrap());
    }
}

#[test]
fn files_of_an_app() {
    let dir = app_dir("/state/execmgr", "web");
    assert_eq!(dir, "/state/execmgr/web");
    assert_eq!(start_script(&dir), "/state/execmgr/web/start.sh");
    assert_eq!(stop_script(&dir), "/state/execmgr/web/stop.sh");
    assert_eq!(record_file(&dir), "/state/execmgr/web/app.json");
    assert_eq!(lock_file(&dir), "/state/execmgr/web/app.lock");
    assert_eq!(log_dir(&dir), "/state/execmgr/web/logs");
    let logs = log_paths(&dir);
    assert_eq!(logs.stdout, "/state/execmgr/web/logs/stdout.log");
    assert_eq!(logs.stderr, "/state/execmgr/web/logs/stderr.log");
}

#[test]
fn base_dir_prefers_the_explicit_setting() {
    let base = resolve_base_dir(
        Some("/custom".to_string()),
        Some("/xdg".to_string()),
        Some("/home/u".to_string()),
    );
    assert_eq!(base, "/custom");
}

#[test]
fn base_dir_falls_back_to_state_home() {
    let base = resolve_base_dir(None, Some("/xdg".to_string()), Some("/home/u".to_string()));
    assert_eq!(base, "/xdg/execmgr");
}

#[test]
fn base_dir_falls_back_to_home() {
    let base = resolve_base_dir(None, None, Some("/home/u".to_string()));
    assert_eq!(base, "/home/u/.local/state/execmgr");
}

#[test]
fn base_dir_of_last_resort() {
    assert_eq!(resolve_base_dir(None, None, None), ".execmgr");
}
