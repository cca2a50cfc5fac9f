use suitcase::dart::DartProjectMetadata;
use suitcase::fua::{
    fua_command, fua_initial_state, fua_install_command, fua_request,
    fvm_use_for_every_flutter_project, FuaEvent, FuaFailure, FuaRequest, FuaState,
    FvmUseForEveryFlutterProjectError, FvmUseForEveryFlutterProjectOptions,
};
use suitcase::shell::{ExitStatus, ShellError, ShellOutput};

fn options(include_dart: bool, fail_fast: bool) -> FvmUseForEveryFlutterProjectOptions {
    FvmUseForEveryFlutterProjectOptions {
        version: "3.19.0".to_string(),
        path: ".".to_string(),
        include_dart_projects: include_dart,
        fail_fast,
        show_output: false,
    }
}

fn project(name: &str, flutter: bool) -> DartProjectMetadata {
    DartProjectMetadata {
        path: format!("/work/{}", name),
        name: name.to_string(),
        is_flutter_project: flutter,
    }
}

fn ok_run() -> Result<ShellOutput, ShellError> {
    Ok(ShellOutput {
        status: ExitStatus { success: true, code: Some(0) },
        stdout: "".to_string(),
        stderr: "".to_string(),
    })
}

fn failed_run() -> Result<ShellOutput, ShellError> {
    Err(ShellError::HostProcessExecutionFailure {
        command: "bash".to_string(),
        args: "-c fvm install 3.19.0".to_string(),
        status: ExitStatus { success: false, code: Some(1) },
        stdout: "".to_string(),
        stderr: "failed".to_string(),
    })
}

#[test]
fn command_lines_follow_the_options() {
    assert_eq!(fua_command(&"3.19.0".to_string(), false), "fvm use 3.19.0");
    assert_eq!(fua_command(&"3.19.0".to_string(), true), "fvm use 3.19.0 --force");
    assert_eq!(fua_install_command(&"3.19.0".to_string()), "fvm install 3.19.0");
}

#[test]
fn dart_projects_are_dropped_unless_included() {
    let opts = options(false, false);
    let found = vec![project("dartish", false), project("flut", true)];
    let state = fvm_use_for_every_flutter_project(
        &opts,
        fua_initial_state(),
        FuaEvent::ProjectsFound(found),
    );
    match &state {
        FuaState::EnsureVersionInstalled { projects } => {
            let names: Vec<&str> = projects.iter().map(|p| p.name.as_str()).collect();
            assert_eq!(names, vec!["flut"]);
        }
        _ => panic!("flutter projects remain, so the install step comes next"),
    }
    match fua_request(&opts, &state) {
        FuaRequest::Run { program, args } => {
            assert_eq!(program, "bash");
            assert_eq!(args, vec!["-c", "fvm install 3.19.0"]);
        }
        _ => panic!("the install step runs fvm install"),
    }
}

#[test]
fn no_matching_projects_means_an_immediately_successful_run() {
    let opts = options(false, false);
    let found = vec![project("dartish", false)];
    let state = fvm_use_for_every_flutter_project(
        &opts,
        fua_initial_state(),
        FuaEvent::ProjectsFound(found),
    );
    assert!(matches!(state, FuaState::Done(Ok(()))));
}

#[test]
fn a_failed_install_ends_the_run() {
    let opts = options(false, false);
    let state = FuaState::EnsureVersionInstalled { projects: vec![project("flut", true)] };
    let state = fvm_use_for_every_flutter_project(&opts, state, FuaEvent::CommandFinished(failed_run()));
    assert!(matches!(state, FuaState::Done(Err(FuaFailure::Install(_)))));
}

#[test]
fn fvm_use_runs_in_each_kept_project() {
    let opts = options(true, false);
    let found = vec![project("a", false), project("b", true)];
    let state = fvm_use_for_every_flutter_project(
        &opts,
        fua_initial_state(),
        FuaEvent::ProjectsFound(found),
    );
    let state = fvm_use_for_every_flutter_project(&opts, state, FuaEvent::CommandFinished(ok_run()));
    match fua_request(&opts, &state) {
        FuaRequest::RunIn { project_path, program, args } => {
            assert_eq!(project_path, "/work/a");
            assert_eq!(program, "bash");
            assert_eq!(args, vec!["-c", "fvm use 3.19.0 --force"]);
        }
        _ => panic!("after the install the first project is run in"),
    }
    let state = fvm_use_for_every_flutter_project(&opts, state, FuaEvent::CommandFinished(ok_run()));
    let state = fvm_use_for_every_flutter_project(&opts, state, FuaEvent::CommandFinished(ok_run()));
    assert!(matches!(state, FuaState::Done(Ok(()))));
}

#[test]
fn fua_failures_are_collected_and_reported_together() {
    let opts = options(false, false);
    let state = FuaState::Running {
        projects: vec![project("a", true), project("b", true)],
        index: 0,
        errors: vec![],
    };
    let state = fvm_use_for_every_flutter_project(&opts, state, FuaEvent::CommandFinished(failed_run()));
    let state = fvm_use_for_every_flutter_project(&opts, state, FuaEvent::CommandFinished(ok_run()));
    match state {
        FuaState::Done(Err(FuaFailure::Execution(
            FvmUseForEveryFlutterProjectError::CommandExecutionError { command, errors },
        ))) => {
            assert_eq!(command, "fvm use 3.19.0");
            assert_eq!(errors.len(), 1);
            assert_eq!(errors[0].0, "a");
        }
        _ => panic!("collected failures must be reported at the end"),
    }
}

#[test]
fn fua_fail_fast_stops_at_the_first_failure() {
    let opts = options(false, true);
    let state = FuaState::Running {
        projects: vec![project("a", true), project("b", true)],
        index: 0,
        errors: vec![],
    };
    let state = fvm_use_for_every_flutter_project(&opts, state, FuaEvent::CommandFinished(failed_run()));
    match state {
        FuaState::Done(Err(FuaFailure::FailFast { project, .. })) => assert_eq!(project, "a"),
        _ => panic!("fail_fast must end the run at the first failure"),
    }
}
