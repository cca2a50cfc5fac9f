use suitcase::shell::{ExitStatus, ShellError, ShellOutput};
use suitcase::update::{
    update, update_initial_state, update_request, UpdateEvent, UpdateFailure, UpdateRequest,
    UpdateState,
};
use suitcase::upgrade::{
    upgrade, upgrade_initial_state, upgrade_outcome, upgrade_request, UpgradeEvent,
    UpgradeFailure, UpgradeRequest, UpgradeState,
};

fn ok_output(stdout: &str, stderr: &str) -> Result<ShellOutput, ShellError> {
    Ok(ShellOutput {
        status: ExitStatus { success: true, code: Some(0) },
        stdout: stdout.to_string(),
        stderr: stderr.to_string(),
    })
}

fn failed_run() -> Result<ShellOutput, ShellError> {
    Err(ShellError::HostProcessExecutionFailure {
        command: "cargo".to_string(),
        args: "install --list".to_string(),
        status: ExitStatus { success: false, code: Some(101) },
        stdout: "".to_string(),
        stderr: "error".to_string(),
    })
}

const LISTING_WITH_PATH: &str = "\
suitcase v0.5.2 (/home/me/suitcase):
    gho
    suitcase
";

const LISTING_FROM_REGISTRY: &str = "\
ripgrep v14.0.0:
    rg
suitcase v0.5.2:
    suitcase
";

#[test]
fn update_lists_packages_first() {
    match update_request(&update_initial_state()) {
        UpdateRequest::Run { program, args } => {
            assert_eq!(program, "cargo");
            assert_eq!(args, vec!["install", "--list"]);
        }
        UpdateRequest::Stop => panic!("the run must start by listing packages"),
    }
}

#[test]
fn update_reinstalls_from_the_recorded_path() {
    let state = update(
        update_initial_state(),
        UpdateEvent::CommandFinished(ok_output(LISTING_WITH_PATH, "")),
    );
    match update_request(&state) {
        UpdateRequest::Run { program, args } => {
            assert_eq!(program, "cargo");
            assert_eq!(args, vec!["install", "--force", "--path", "/home/me/suitcase"]);
        }
        UpdateRequest::Stop => panic!("a found package leads to the reinstall"),
    }
    let state = update(state, UpdateEvent::CommandFinished(ok_output("", "")));
    assert!(matches!(state, UpdateState::Done(Ok(()))));
}

#[test]
fn update_reinstalls_from_the_registry_without_a_path() {
    let state = update(
        update_initial_state(),
        UpdateEvent::CommandFinished(ok_output(LISTING_FROM_REGISTRY, "")),
    );
    match update_request(&state) {
        UpdateRequest::Run { program, args } => {
            assert_eq!(program, "cargo");
            assert_eq!(args, vec!["install", "--force", "suitcase"]);
        }
        UpdateRequest::Stop => panic!("a found package leads to the reinstall"),
    }
}

#[test]
fn update_fails_when_the_package_is_not_installed() {
    let state = update(
        update_initial_state(),
        UpdateEvent::CommandFinished(ok_output("other v1.0.0:\n", "")),
    );
    assert!(matches!(state, UpdateState::Done(Err(UpdateFailure::PackageNotInstalled))));
}

#[test]
fn update_fails_on_a_malformed_listing() {
    let state = update(
        update_initial_state(),
        UpdateEvent::CommandFinished(ok_output("bad\n", "")),
    );
    assert!(matches!(state, UpdateState::Done(Err(UpdateFailure::ListParseFailure))));
}

#[test]
fn update_reports_a_failed_listing() {
    let state = update(update_initial_state(), UpdateEvent::CommandFinished(failed_run()));
    assert!(matches!(state, UpdateState::Done(Err(UpdateFailure::List(_)))));
}

#[test]
fn upgrade_walks_the_same_steps_and_reads_the_report() {
    let state = upgrade(
        upgrade_initial_state(),
        UpgradeEvent::CommandFinished(ok_output(LISTING_WITH_PATH, "")),
    );
    match upgrade_request(&state) {
        UpgradeRequest::Run { program, args } => {
            assert_eq!(program, "cargo");
            assert_eq!(args, vec!["install", "--force", "--path", "/home/me/suitcase"]);
        }
        UpgradeRequest::Stop => panic!("a found package leads to the reinstall"),
    }
    let stderr = "   Compiling suitcase v0.5.3\n    Replacing `suitcase v0.5.2 (/home/me/suitcase)` with `suitcase v0.5.3 (/home/me/suitcase)`\n";
    let state = upgrade(state, UpgradeEvent::CommandFinished(ok_output("", stderr)));
    match state {
        UpgradeState::Done(Ok(Some(report))) => {
            assert_eq!(report.name, "suitcase");
            assert_eq!(report.previous_version, "0.5.2");
            assert_eq!(report.new_version, "0.5.3");
        }
        _ => panic!("cargo's closing line yields the report"),
    }
}

#[test]
fn upgrade_without_a_closing_line_reports_nothing() {
    assert!(matches!(upgrade_outcome(""), Ok(None)));
    assert!(matches!(upgrade_outcome("   \n \n"), Ok(None)));
}

#[test]
fn upgrade_with_too_few_backticks_reports_nothing() {
    assert!(matches!(upgrade_outcome("Installed package `suitcase v0.5.3`\n"), Ok(None)));
}

#[test]
fn upgrade_with_unparsable_chunks_is_a_failure() {
    let stderr = "Replacing `junk` with `junk` and `more`\n";
    assert!(matches!(
        upgrade_outcome(stderr),
        Err(UpgradeFailure::ReportParseFailure)
    ));
}
