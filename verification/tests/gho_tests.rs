use suitcase::gho::{
    gho_initial_state, gho_request, git_hub_open, GhoEvent, GhoFailure, GhoRequest, GhoState,
    GitHubOpenError, GitHubOpenOptions,
};
use suitcase::shell::{ExitStatus, ShellError, ShellOutput};

fn options() -> GitHubOpenOptions {
    GitHubOpenOptions { path: ".".to_string() }
}

fn ok_output(stdout: &str) -> Result<ShellOutput, ShellError> {
    Ok(ShellOutput {
        status: ExitStatus { success: true, code: Some(0) },
        stdout: stdout.to_string(),
        stderr: "".to_string(),
    })
}

fn failure_with_code(code: i32) -> Result<ShellOutput, ShellError> {
    Err(ShellError::HostProcessExecutionFailure {
        command: "git".to_string(),
        args: "".to_string(),
        status: ExitStatus { success: false, code: Some(code) },
        stdout: "".to_string(),
        stderr: "".to_string(),
    })
}

#[test]
fn the_happy_path_walks_every_step_and_opens_the_url() {
    let opts = options();
    let state = gho_initial_state();
    match gho_request(&opts, &state) {
        GhoRequest::CheckPath { path } => assert_eq!(path, "."),
        _ => panic!("the run must start by checking the path"),
    }

    let state = git_hub_open(&opts, state, GhoEvent::PathChecked { exists_dir: true });
    match gho_request(&opts, &state) {
        GhoRequest::Run { program, args } => {
            assert_eq!(program, "git");
            assert_eq!(args, vec!["-C", ".", "rev-parse", "--git-dir"]);
        }
        _ => panic!("an existing path must lead to the repository check"),
    }

    let state = git_hub_open(&opts, state, GhoEvent::CommandFinished(ok_output(".git\n")));
    match gho_request(&opts, &state) {
        GhoRequest::Run { program, args } => {
            assert_eq!(program, "git");
            assert_eq!(args, vec!["-C", ".", "branch", "-r"]);
        }
        _ => panic!("a repository must lead to listing branches"),
    }

    let state = git_hub_open(
        &opts,
        state,
        GhoEvent::CommandFinished(ok_output("  origin/main\n")),
    );
    match gho_request(&opts, &state) {
        GhoRequest::Run { program, args } => {
            assert_eq!(program, "git");
            assert_eq!(args, vec!["-C", ".", "config", "--get", "remote.origin.url"]);
        }
        _ => panic!("remote branches must lead to fetching the url"),
    }

    let state = git_hub_open(
        &opts,
        state,
        GhoEvent::CommandFinished(ok_output("https://github.com/me/proj\n")),
    );
    match gho_request(&opts, &state) {
        GhoRequest::Run { program, args } => {
            assert_eq!(program, "open");
            assert_eq!(args, vec!["https://github.com/me/proj"]);
        }
        _ => panic!("the url must be handed to open"),
    }

    let state = git_hub_open(&opts, state, GhoEvent::CommandFinished(ok_output("")));
    match state {
        GhoState::Done(Ok(())) => {}
        _ => panic!("a successful open ends the run successfully"),
    }
}

#[test]
fn a_missing_path_ends_the_run() {
    let opts = options();
    let state = git_hub_open(
        &opts,
        gho_initial_state(),
        GhoEvent::PathChecked { exists_dir: false },
    );
    match state {
        GhoState::Done(Err(GhoFailure::Open(GitHubOpenError::PathDoesNotExist { path }))) => {
            assert_eq!(path, ".")
        }
        _ => panic!("a missing path must end the run with PathDoesNotExist"),
    }
}

#[test]
fn rev_parse_status_128_means_not_a_repository() {
    let opts = options();
    let state = git_hub_open(
        &opts,
        GhoState::CheckRepo,
        GhoEvent::CommandFinished(failure_with_code(128)),
    );
    assert!(matches!(
        state,
        GhoState::Done(Err(GhoFailure::Open(GitHubOpenError::PathNotAGitRepository { .. })))
    ));
}

#[test]
fn blank_rev_parse_output_means_not_a_repository() {
    let opts = options();
    let state = git_hub_open(
        &opts,
        GhoState::CheckRepo,
        GhoEvent::CommandFinished(ok_output("   \n")),
    );
    assert!(matches!(
        state,
        GhoState::Done(Err(GhoFailure::Open(GitHubOpenError::PathNotAGitRepository { .. })))
    ));
}

#[test]
fn another_rev_parse_failure_is_reported_as_is() {
    let opts = options();
    let state = git_hub_open(
        &opts,
        GhoState::CheckRepo,
        GhoEvent::CommandFinished(failure_with_code(1)),
    );
    assert!(matches!(state, GhoState::Done(Err(GhoFailure::Shell(_)))));
}

#[test]
fn no_remote_branches_means_no_remotes_configured() {
    let opts = options();
    let state = git_hub_open(
        &opts,
        GhoState::ListBranches,
        GhoEvent::CommandFinished(ok_output("  \n")),
    );
    assert!(matches!(
        state,
        GhoState::Done(Err(GhoFailure::Open(GitHubOpenError::NoRemotesConfigured { .. })))
    ));
}

#[test]
fn a_finished_run_absorbs_further_events() {
    let opts = options();
    let state = GhoState::Done(Ok(()));
    let state = git_hub_open(&opts, state, GhoEvent::PathChecked { exists_dir: false });
    assert!(matches!(state, GhoState::Done(Ok(()))));
    assert!(matches!(gho_request(&opts, &state), GhoRequest::Stop));
}
