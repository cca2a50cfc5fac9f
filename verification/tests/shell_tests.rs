use suitcase::shell::{ExitStatus, Shell, ShellError, ShellOutput};

fn ok_status() -> ExitStatus {
    ExitStatus { success: true, code: Some(0) }
}

fn failed_status(code: i32) -> ExitStatus {
    ExitStatus { success: false, code: Some(code) }
}

#[test]
fn classify_output_keeps_successful_output() {
    let shell = Shell::new();
    let r = shell.classify_output(
        "git".to_string(),
        &vec!["status".to_string()],
        ok_status(),
        "clean\n".to_string(),
        "".to_string(),
    );
    match r {
        Ok(ShellOutput { status, stdout, stderr }) => {
            assert_eq!(status, ok_status());
            assert_eq!(stdout, "clean\n");
            assert_eq!(stderr, "");
        }
        Err(_) => panic!("successful status must classify as Ok"),
    }
}

#[test]
fn classify_output_records_the_failure() {
    let shell = Shell::new();
    let r = shell.classify_output(
        "git".to_string(),
        &vec!["-C".to_string(), ".".to_string(), "status".to_string()],
        failed_status(128),
        "out".to_string(),
        "fatal: not a git repository".to_string(),
    );
    match r {
        Ok(_) => panic!("failed status must classify as Err"),
        Err(ShellError::HostProcessExecutionFailure { command, args, status, stdout, stderr }) => {
            assert_eq!(command, "git");
            assert_eq!(args, "-C . status");
            assert_eq!(status, failed_status(128));
            assert_eq!(stdout, "out");
            assert_eq!(stderr, "fatal: not a git repository");
        }
        Err(ShellError::ShellStartFailure { .. }) => {
            panic!("a finished process is not a start failure")
        }
    }
}

#[test]
fn indent_prefixes_each_line_and_joins_with_carriage_returns() {
    assert_eq!(Shell::indent(4, "a\nb"), "    a\r    b");
    assert_eq!(Shell::indent(2, "solo"), "  solo");
    assert_eq!(Shell::indent(2, ""), "");
    assert_eq!(Shell::indent(0, "x\ny"), "x\ry");
}

#[test]
fn run_output_display_shows_what_the_run_produced() {
    let ok: Result<ShellOutput, ShellError> = Ok(ShellOutput {
        status: ok_status(),
        stdout: "all good".to_string(),
        stderr: "ignored".to_string(),
    });
    assert_eq!(suitcase::shell::run_output_display(&ok), "all good");

    let failed: Result<ShellOutput, ShellError> = Err(ShellError::HostProcessExecutionFailure {
        command: "x".to_string(),
        args: "".to_string(),
        status: failed_status(1),
        stdout: "partial".to_string(),
        stderr: "boom".to_string(),
    });
    assert_eq!(suitcase::shell::run_output_display(&failed), "partial\n---\nboom");

    let not_started: Result<ShellOutput, ShellError> = Err(ShellError::ShellStartFailure {
        command: "x".to_string(),
        args: "".to_string(),
        error: "no such program".to_string(),
    });
    assert_eq!(suitcase::shell::run_output_display(&not_started), "no such program");
}
