use execmgr::kill::kill_command;
use execmgr::launch::{launch_plan, script_body, wrapper_command, Invocation, SCRIPT_MODE};
use execmgr::logs::follow_command;

#[test]
fn script_greets_with_the_name() {
    assert_eq!(script_body("web"), "#!/bin/sh\nset -e\nexec echo 'hello from web'\n");
}

#[test]
fn script_writes_quote_in_name_as_backquote() {
    assert_eq!(
        script_body("it's"),
        "#!/bin/sh\nset -e\nexec echo 'hello from it`s'\n"
    );
}

#[test]
fn script_mode_is_rwxr_xr_x() {
    assert_eq!(SCRIPT_MODE, 0o755);
}

#[test]
fn wrapper_takes_lock_then_becomes_script() {
    let expected = "\n        set -e\n        exec 9>\"/b/web/app.lock\"\n        if ! flock -n 9; then\n            echo \"app already running\" >&2\n            exit 1\n        fi\n        exec \"/b/web/start.sh\"\n        ";
    assert_eq!(wrapper_command("/b/web/app.lock", "/b/web/start.sh"), expected);
}

#[test]
fn plan_names_logs_lock_and_command() {
    let plan = launch_plan("/b/web/start.sh", "/b/web");
    assert_eq!(plan.log_dir, "/b/web/logs");
    assert_eq!(plan.stdout_log, "/b/web/logs/stdout.log");
    assert_eq!(plan.stderr_log, "/b/web/logs/stderr.log");
    assert_eq!(plan.lock_file, "/b/web/app.lock");
    assert_eq!(plan.script, "/b/web/start.sh");
    assert_eq!(plan.command.program, "bash");
    assert_eq!(plan.command.args.len(), 2);
    assert_eq!(plan.command.args[0], "-c");
    assert_eq!(
        plan.command.args[1],
        wrapper_command("/b/web/app.lock", "/b/web/start.sh")
    );
}

#[test]
fn kill_command_sends_signal_nine() {
    let command = kill_command(4242);
    assert_eq!(command.program, "kill");
    assert_eq!(command.args, vec!["-9".to_string(), "4242".to_string()]);
}

#[test]
fn follow_command_tails_the_file() {
    let command = follow_command("/b/web/logs/stdout.log".to_string());
    assert_eq!(command.program, "tail");
    assert_eq!(
        command.args,
        vec!["-f".to_string(), "/b/web/logs/stdout.log".to_string()]
    );
}

#[test]
fn bare_invocation_has_no_arguments() {
    let command = Invocation::bare("/b/web/stop.sh".to_string());
    assert_eq!(command.program, "/b/web/stop.sh");
    assert!(command.args.is_empty());
}
