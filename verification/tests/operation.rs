use conductor::{
    do_prune_command, do_prune_result, restart_command, restart_result, Config, Error,
    ProcessOutcome,
};

fn config() -> Config {
    Config::new(
        8080,
        "s3cret".to_string(),
        None,
        None,
        vec![("web".to_string(), "/srv/web".to_string())],
    )
}

fn outcome(success: bool, stdout: &str, stderr: &str) -> ProcessOutcome {
    ProcessOutcome { success, stdout: stdout.to_string(), stderr: stderr.to_string() }
}

fn launch_failure() -> std::io::Error {
    std::io::Error::new(std::io::ErrorKind::NotFound, "docker: not found")
}

#[test]
fn redeploy_command_pulls_and_brings_up_in_the_work_directory() {
    let command = restart_command("web", &config()).unwrap();
    assert_eq!(command.program(), "docker");
    assert_eq!(command.args(), &vec!["compose", "up", "-d", "--pull", "always"]);
    assert_eq!(command.work_dir(), Some("/srv/web"));
}

#[test]
fn redeploy_of_an_unknown_name_is_refused() {
    match restart_command("mail", &config()) {
        Err(Error::NoComposition(name)) => assert_eq!(name, "mail"),
        other => panic!("unexpected: {other:?}"),
    }
}

#[test]
fn prune_command_names_no_directory() {
    let command = do_prune_command();
    assert_eq!(command.program(), "docker");
    assert_eq!(command.args(), &vec!["image", "prune", "-a", "-f"]);
    assert_eq!(command.work_dir(), None);
}

#[test]
fn clean_exit_is_success() {
    assert_eq!(restart_result(Ok(outcome(true, "pulled", ""))).unwrap(), (200, "Success\n"));
    assert!(do_prune_result(Ok(outcome(true, "", "warning"))).is_ok());
}

#[test]
fn failed_redeploy_carries_both_streams() {
    match restart_result(Ok(outcome(false, "layer 1", "no such image"))) {
        Err(Error::PullFailed { stdout, stderr }) => {
            assert_eq!(stdout, "layer 1");
            assert_eq!(stderr, "no such image");
        }
        other => panic!("unexpected: {other:?}"),
    }
}

#[test]
fn failed_prune_carries_both_streams() {
    match do_prune_result(Ok(outcome(false, "a", "b"))) {
        Err(Error::PruneFailed { stdout, stderr }) => {
            assert_eq!(stdout, "a");
            assert_eq!(stderr, "b");
        }
        other => panic!("unexpected: {other:?}"),
    }
}

#[test]
fn launch_failure_is_an_io_error() {
    match restart_result(Err(launch_failure())) {
        Err(Error::Io(source)) => assert_eq!(source.kind(), std::io::ErrorKind::NotFound),
        other => panic!("unexpected: {other:?}"),
    }
    match do_prune_result(Err(launch_failure())) {
        Err(Error::Io(source)) => assert_eq!(source.kind(), std::io::ErrorKind::NotFound),
        other => panic!("unexpected: {other:?}"),
    }
}

#[test]
fn capture_keeps_well_formed_text() {
    let captured = ProcessOutcome::capture(true, "héllo\n".as_bytes(), b"");
    assert!(captured.success);
    assert_eq!(captured.stdout, "héllo\n");
    assert_eq!(captured.stderr, "");
}

#[test]
fn capture_replaces_malformed_bytes() {
    let captured = ProcessOutcome::capture(false, b"ab\xffcd", b"\xc3");
    assert!(!captured.success);
    assert_eq!(captured.stdout, "ab\u{fffd}cd");
    assert_eq!(captured.stderr, "\u{fffd}");
}

#[test]
fn status_codes_by_failure() {
    assert_eq!(Error::Io(launch_failure()).status(), 500);
    assert_eq!(Error::PullFailed { stdout: String::new(), stderr: String::new() }.status(), 500);
    assert_eq!(Error::PruneFailed { stdout: String::new(), stderr: String::new() }.status(), 500);
    assert_eq!(Error::NoComposition("x".to_string()).status(), 404);
    assert_eq!(Error::Unauthorized.status(), 401);
}

#[test]
fn messages_by_failure() {
    assert_eq!(Error::Io(launch_failure()).message(), "I/O error\n");
    assert_eq!(
        Error::PullFailed { stdout: "o".to_string(), stderr: "e".to_string() }.message(),
        "Docker pull failed\n"
    );
    assert_eq!(
        Error::PruneFailed { stdout: "o".to_string(), stderr: "e".to_string() }.message(),
        "Docker prune failed\n"
    );
    assert_eq!(
        Error::NoComposition("my-app".to_string()).message(),
        "No composition found for path `my-app`\n"
    );
    assert_eq!(Error::Unauthorized.message(), "Unauthorized user attempted to access server\n");
}

#[test]
fn diagnostics_by_failure() {
    assert_eq!(
        Error::PullFailed { stdout: "out\n".to_string(), stderr: "err\n".to_string() }
            .diagnostic(),
        "Error: Docker pull failed\nstdout: out\n\nstderr: err\n"
    );
    assert_eq!(
        Error::PruneFailed { stdout: "o".to_string(), stderr: "e".to_string() }.diagnostic(),
        "Error: Docker prune failed\nstdout: o\nstderr: e"
    );
    assert_eq!(
        Error::NoComposition("my-app".to_string()).diagnostic(),
        "Error: No composition found for path `my-app`"
    );
    assert_eq!(
        Error::Unauthorized.diagnostic(),
        "Error: Unauthorized user attempted to access server"
    );
}

#[test]
fn io_diagnostic_describes_the_cause() {
    let line = Error::Io(launch_failure()).diagnostic();
    assert!(line.starts_with("Error: I/O error: "));
    assert!(line.contains("docker: not found"));
}
