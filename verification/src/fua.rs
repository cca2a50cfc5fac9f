//! Pinning a Flutter version in every Flutter project under a directory tree.
//!
//! The `fua` command discovers the Dart projects below a starting path, keeps
//! the Flutter ones (or all of them when asked), makes sure the requested
//! version is installed with `fvm install`, and runs `fvm use` in each
//! project in turn, collecting failures as the `ford` command does. Discovery
//! and the processes themselves are the surrounding binary's work; the state
//! machine here decides what runs where and how the outcomes add up.

use crate::dart::{DartProjectMetadata, DartProjectMetadataView};
use crate::shell::{result_view, ShellError, ShellErrorView, ShellOutput, ShellOutputView};
use vstd::prelude::*;
use vstd::string::StringExecFns;

verus! {

/// What the `fua` command was asked to do.
pub struct FvmUseForEveryFlutterProjectOptions {
    /// The version to hand to `fvm use`.
    pub version: String,
    /// The path from which to search for Flutter projects.
    pub path: String,
    /// Set the version in every Dart project, not only the Flutter ones
    /// (passes `--force` to `fvm use`).
    pub include_dart_projects: bool,
    /// Stop at the first project in which the command fails.
    pub fail_fast: bool,
    /// Echo the output of the command run on each project.
    pub show_output: bool,
}

/// Mathematical model of [`FvmUseForEveryFlutterProjectOptions`].
pub struct FvmUseForEveryFlutterProjectOptionsView {
    pub version: Seq<char>,
    pub path: Seq<char>,
    pub include_dart_projects: bool,
    pub fail_fast: bool,
    pub show_output: bool,
}

impl View for FvmUseForEveryFlutterProjectOptions {
    type V = FvmUseForEveryFlutterProjectOptionsView;

    open spec fn view(&self) -> FvmUseForEveryFlutterProjectOptionsView {
        FvmUseForEveryFlutterProjectOptionsView {
            version: self.version@,
            path: self.path@,
            include_dart_projects: self.include_dart_projects,
            fail_fast: self.fail_fast,
            show_output: self.show_output,
        }
    }
}

/// The error that collects the per-project failures of a run.
pub enum FvmUseForEveryFlutterProjectError {
    /// The command failed in one or more projects: each failure beside the
    /// name of the project it happened in.
    CommandExecutionError { command: String, errors: Vec<(String, ShellError)> },
}

/// Mathematical model of [`FvmUseForEveryFlutterProjectError`].
pub enum FvmUseForEveryFlutterProjectErrorView {
    CommandExecutionError { command: Seq<char>, errors: Seq<(Seq<char>, ShellErrorView)> },
}

impl View for FvmUseForEveryFlutterProjectError {
    type V = FvmUseForEveryFlutterProjectErrorView;

    open spec fn view(&self) -> FvmUseForEveryFlutterProjectErrorView {
        match self {
            FvmUseForEveryFlutterProjectError::CommandExecutionError { command, errors } => {
                FvmUseForEveryFlutterProjectErrorView::CommandExecutionError {
                    command: command@,
                    errors: errors.deep_view(),
                }
            },
        }
    }
}

/// How a `fua` run can end unsuccessfully.
pub enum FuaFailure {
    /// `fvm install` for the requested version failed.
    Install(ShellError),
    /// `fail_fast` was set and the command failed in this project.
    FailFast { command: String, project: String, error: ShellError },
    /// The failures collected across the run.
    Execution(FvmUseForEveryFlutterProjectError),
}

/// Mathematical model of [`FuaFailure`].
pub enum FuaFailureView {
    Install(ShellErrorView),
    FailFast { command: Seq<char>, project: Seq<char>, error: ShellErrorView },
    Execution(FvmUseForEveryFlutterProjectErrorView),
}

impl View for FuaFailure {
    type V = FuaFailureView;

    open spec fn view(&self) -> FuaFailureView {
        match self {
            FuaFailure::Install(e) => FuaFailureView::Install(e@),
            FuaFailure::FailFast { command, project, error } => FuaFailureView::FailFast {
                command: command@,
                project: project@,
                error: error@,
            },
            FuaFailure::Execution(e) => FuaFailureView::Execution(e@),
        }
    }
}

/// Where a `fua` run stands.
pub enum FuaState {
    /// Waiting for the list of discovered projects.
    FindProjects,
    /// Waiting for `fvm install` of the requested version to finish.
    EnsureVersionInstalled { projects: Vec<DartProjectMetadata> },
    /// `fvm use` has run in the first `index` projects; `errors` collects the
    /// failures so far.
    Running {
        projects: Vec<DartProjectMetadata>,
        index: usize,
        errors: Vec<(String, ShellError)>,
    },
    /// The run is over.
    Done(Result<(), FuaFailure>),
}

/// Mathematical model of [`FuaState`].
pub enum FuaStateView {
    FindProjects,
    EnsureVersionInstalled { projects: Seq<DartProjectMetadataView> },
    Running {
        projects: Seq<DartProjectMetadataView>,
        index: int,
        errors: Seq<(Seq<char>, ShellErrorView)>,
    },
    Done(Result<(), FuaFailureView>),
}

impl View for FuaState {
    type V = FuaStateView;

    open spec fn view(&self) -> FuaStateView {
        match self {
            FuaState::FindProjects => FuaStateView::FindProjects,
            FuaState::EnsureVersionInstalled { projects } => FuaStateView::EnsureVersionInstalled {
                projects: projects.deep_view(),
            },
            FuaState::Running { projects, index, errors } => FuaStateView::Running {
                projects: projects.deep_view(),
                index: *index as int,
                errors: errors.deep_view(),
            },
            FuaState::Done(r) => FuaStateView::Done(
                match r {
                    Ok(u) => Ok(*u),
                    Err(e) => Err(e@),
                },
            ),
        }
    }
}

/// What the surrounding binary reports back.
pub enum FuaEvent {
    /// The discovered projects, in the order they were found.
    ProjectsFound(Vec<DartProjectMetadata>),
    /// The outcome of the install step or of `fvm use` in the current
    /// project.
    CommandFinished(Result<ShellOutput, ShellError>),
}

/// Mathematical model of [`FuaEvent`].
pub enum FuaEventView {
    ProjectsFound(Seq<DartProjectMetadataView>),
    CommandFinished(Result<ShellOutputView, ShellErrorView>),
}

impl View for FuaEvent {
    type V = FuaEventView;

    open spec fn view(&self) -> FuaEventView {
        match self {
            FuaEvent::ProjectsFound(ps) => FuaEventView::ProjectsFound(ps.deep_view()),
            FuaEvent::CommandFinished(r) => FuaEventView::CommandFinished(result_view(*r)),
        }
    }
}

/// What the surrounding binary is asked to do next.
pub enum FuaRequest {
    /// Discover the Dart projects under the path.
    FindProjects { path: String },
    /// Run the program with the arguments, in the directory the run started
    /// in.
    Run { program: String, args: Vec<String> },
    /// Run the program with the arguments inside the project directory.
    RunIn { project_path: String, program: String, args: Vec<String> },
    /// Nothing: the run is over.
    Stop,
}

/// Mathematical model of [`FuaRequest`].
pub enum FuaRequestView {
    FindProjects { path: Seq<char> },
    Run { program: Seq<char>, args: Seq<Seq<char>> },
    RunIn { project_path: Seq<char>, program: Seq<char>, args: Seq<Seq<char>> },
    Stop,
}

impl View for FuaRequest {
    type V = FuaRequestView;

    open spec fn view(&self) -> FuaRequestView {
        match self {
            FuaRequest::FindProjects { path } => FuaRequestView::FindProjects { path: path@ },
            FuaRequest::Run { program, args } => FuaRequestView::Run {
                program: program@,
                args: args.deep_view(),
            },
            FuaRequest::RunIn { project_path, program, args } => FuaRequestView::RunIn {
                project_path: project_path@,
                program: program@,
                args: args.deep_view(),
            },
            FuaRequest::Stop => FuaRequestView::Stop,
        }
    }
}

/// The projects the run keeps: all of them when plain Dart projects are
/// included, otherwise only the Flutter ones, in discovery order.
pub open spec fn fua_retained_projects_spec(
    ps: Seq<DartProjectMetadataView>,
    include_dart: bool,
) -> Seq<DartProjectMetadataView>
    decreases ps.len(),
{
    if ps.len() == 0 {
        Seq::empty()
    } else {
        let rest = fua_retained_projects_spec(ps.drop_last(), include_dart);
        if include_dart || ps.last().is_flutter_project {
            rest.push(ps.last())
        } else {
            rest
        }
    }
}

/// The projects the run keeps, as [`fua_retained_projects_spec`] describes.
pub fn fua_retained_projects(ps: Vec<DartProjectMetadata>, include_dart: bool) -> (r: Vec<
    DartProjectMetadata,
>)
    ensures
        r.deep_view() == fua_retained_projects_spec(ps.deep_view(), include_dart),
{
    let ghost dv = ps.deep_view();
    let n = ps.len();
    proof {
        assert(dv.len() == n);
    }
    let mut r: Vec<DartProjectMetadata> = Vec::new();
    let mut i: usize = 0;
    while i < n
        invariant
            n == ps.len(),
            ps.deep_view() == dv,
            0 <= i <= n,
            r.deep_view() == fua_retained_projects_spec(dv.subrange(0, i as int), include_dart),
        decreases n - i,
    {
        proof {
            assert(dv.subrange(0, i + 1).drop_last() =~= dv.subrange(0, i as int));
            assert(dv.subrange(0, i + 1).last() == dv[i as int]);
        }
        if include_dart || ps[i].is_flutter_project {
            let ghost old_r = r.deep_view();
            r.push(ps[i].clone());
            proof {
                assert(r.deep_view() =~= old_r.push(r@[r@.len() - 1]@));
            }
        }
        i = i + 1;
    }
    proof {
        assert(dv.subrange(0, n as int) =~= dv);
    }
    r
}

/// The `fvm use` command line the run executes in each project: `--force` is
/// added exactly when plain Dart projects are included.
pub open spec fn fua_command_spec(version: Seq<char>, include_dart: bool) -> Seq<char> {
    if include_dart {
        "fvm use "@ + version + " --force"@
    } else {
        "fvm use "@ + version
    }
}

/// The `fvm use` command line, as [`fua_command_spec`] describes.
pub fn fua_command(version: &String, include_dart: bool) -> (r: String)
    ensures
        r@ == fua_command_spec(version@, include_dart),
{
    let base = String::from_str("fvm use ").concat(version.as_str());
    if include_dart {
        base.concat(" --force")
    } else {
        base
    }
}

/// The `fvm install` command line that makes sure the version is available.
pub open spec fn fua_install_command_spec(version: Seq<char>) -> Seq<char> {
    "fvm install "@ + version
}

/// The `fvm install` command line, as [`fua_install_command_spec`] describes.
pub fn fua_install_command(version: &String) -> (r: String)
    ensures
        r@ == fua_install_command_spec(version@),
{
    String::from_str("fvm install ").concat(version.as_str())
}

/// How the run ends once `fvm use` has run everywhere: successfully when no
/// project failed, and otherwise with the collected failures.
pub open spec fn fua_final_outcome_spec(
    command: Seq<char>,
    errors: Seq<(Seq<char>, ShellErrorView)>,
) -> Result<(), FuaFailureView> {
    if errors.len() == 0 {
        Ok(())
    } else {
        Err(
            FuaFailureView::Execution(
                FvmUseForEveryFlutterProjectErrorView::CommandExecutionError { command, errors },
            ),
        )
    }
}

/// The step a `fua` run takes on what the surrounding binary reported:
///
/// - on the discovered projects, it keeps those the options ask for and is
///   done at once (successfully) when none remain;
/// - a failed `fvm install` ends the run with that failure;
/// - on each `fvm use` outcome, a failure either ends the run at once (with
///   `fail_fast`) or is recorded beside the project's name; after the last
///   project the run ends, successfully exactly when nothing failed.
///
/// A finished run absorbs every further event; an event of the wrong kind
/// for the state leaves the run where it was.
pub open spec fn fvm_use_for_every_flutter_project_spec(
    opts: FvmUseForEveryFlutterProjectOptionsView,
    state: FuaStateView,
    event: FuaEventView,
) -> FuaStateView {
    match (state, event) {
        (FuaStateView::FindProjects, FuaEventView::ProjectsFound(ps)) => {
            let kept = fua_retained_projects_spec(ps, opts.include_dart_projects);
            if kept.len() == 0 {
                FuaStateView::Done(Ok(()))
            } else {
                FuaStateView::EnsureVersionInstalled { projects: kept }
            }
        },
        (
            FuaStateView::EnsureVersionInstalled { projects },
            FuaEventView::CommandFinished(res),
        ) => match res {
            Ok(_) => FuaStateView::Running { projects, index: 0, errors: Seq::empty() },
            Err(e) => FuaStateView::Done(Err(FuaFailureView::Install(e))),
        },
        (FuaStateView::Running { projects, index, errors }, FuaEventView::CommandFinished(res)) => {
            if !(0 <= index < projects.len()) {
                FuaStateView::Running { projects, index, errors }
            } else {
                let command = fua_command_spec(opts.version, opts.include_dart_projects);
                match res {
                    Err(e) => {
                        if opts.fail_fast {
                            FuaStateView::Done(
                                Err(
                                    FuaFailureView::FailFast {
                                        command,
                                        project: projects[index].name,
                                        error: e,
                                    },
                                ),
                            )
                        } else {
                            let errors2 = errors.push((projects[index].name, e));
                            if index + 1 == projects.len() {
                                FuaStateView::Done(fua_final_outcome_spec(command, errors2))
                            } else {
                                FuaStateView::Running { projects, index: index + 1, errors: errors2 }
                            }
                        }
                    },
                    Ok(_) => {
                        if index + 1 == projects.len() {
                            FuaStateView::Done(fua_final_outcome_spec(command, errors))
                        } else {
                            FuaStateView::Running { projects, index: index + 1, errors }
                        }
                    },
                }
            }
        },
        (FuaStateView::Done(r), _) => FuaStateView::Done(r),
        (s, _) => s,
    }
}

/// The state a `fua` run starts in.
pub fn fua_initial_state() -> (r: FuaState)
    ensures
        r@ == FuaStateView::FindProjects,
{
    FuaState::FindProjects
}

/// Takes one step of the `fua` run: folds what the surrounding binary
/// reported into the state, as [`fvm_use_for_every_flutter_project_spec`]
/// describes.
pub fn fvm_use_for_every_flutter_project(
    options: &FvmUseForEveryFlutterProjectOptions,
    state: FuaState,
    event: FuaEvent,
) -> (r: FuaState)
    ensures
        r@ == fvm_use_for_every_flutter_project_spec(options@, state@, event@),
{
    match (state, event) {
        (FuaState::FindProjects, FuaEvent::ProjectsFound(ps)) => {
            let kept = fua_retained_projects(ps, options.include_dart_projects);
            if kept.len() == 0 {
                FuaState::Done(Ok(()))
            } else {
                FuaState::EnsureVersionInstalled { projects: kept }
            }
        },
        (FuaState::EnsureVersionInstalled { projects }, FuaEvent::CommandFinished(res)) => {
            match res {
                Ok(_) => {
                    let errors: Vec<(String, ShellError)> = Vec::new();
                    proof {
                        assert(errors.deep_view() =~= Seq::<(Seq<char>, ShellErrorView)>::empty());
                    }
                    FuaState::Running { projects, index: 0, errors }
                },
                Err(e) => FuaState::Done(Err(FuaFailure::Install(e))),
            }
        },
        (FuaState::Running { projects, index, errors }, FuaEvent::CommandFinished(res)) => {
            if index >= projects.len() {
                FuaState::Running { projects, index, errors }
            } else {
                match res {
                    Err(e) => {
                        if options.fail_fast {
                            FuaState::Done(
                                Err(
                                    FuaFailure::FailFast {
                                        command: fua_command(
                                            &options.version,
                                            options.include_dart_projects,
                                        ),
                                        project: projects[index].name.clone(),
                                        error: e,
                                    },
                                ),
                            )
                        } else {
                            let mut errors = errors;
                            let ghost old_errors = errors.deep_view();
                            errors.push((projects[index].name.clone(), e));
                            proof {
                                assert(errors.deep_view() =~= old_errors.push(
                                    (errors@[errors@.len() - 1].0@, errors@[errors@.len() - 1].1@),
                                ));
                            }
                            if index + 1 == projects.len() {
                                if errors.len() == 0 {
                                    FuaState::Done(Ok(()))
                                } else {
                                    FuaState::Done(
                                        Err(
                                            FuaFailure::Execution(
                                                FvmUseForEveryFlutterProjectError::CommandExecutionError {
                                                    command: fua_command(
                                                        &options.version,
                                                        options.include_dart_projects,
                                                    ),
                                                    errors,
                                                },
                                            ),
                                        ),
                                    )
                                }
                            } else {
                                FuaState::Running { projects, index: index + 1, errors }
                            }
                        }
                    },
                    Ok(_) => {
                        if index + 1 == projects.len() {
                            if errors.len() == 0 {
                                FuaState::Done(Ok(()))
                            } else {
                                FuaState::Done(
                                    Err(
                                        FuaFailure::Execution(
                                            FvmUseForEveryFlutterProjectError::CommandExecutionError {
                                                command: fua_command(
                                                    &options.version,
                                                    options.include_dart_projects,
                                                ),
                                                errors,
                                            },
                                        ),
                                    ),
                                )
                            }
                        } else {
                            FuaState::Running { projects, index: index + 1, errors }
                        }
                    },
                }
            }
        },
        (FuaState::Done(r), _) => FuaState::Done(r),
        (s, _) => s,
    }
}

/// What the surrounding binary should do in the given state: discover
/// projects, run `bash -c 'fvm install <version>'`, run `bash -c` with the
/// `fvm use` command line inside the current project, or stop.
pub open spec fn fua_request_spec(
    opts: FvmUseForEveryFlutterProjectOptionsView,
    state: FuaStateView,
) -> FuaRequestView {
    match state {
        FuaStateView::FindProjects => FuaRequestView::FindProjects { path: opts.path },
        FuaStateView::EnsureVersionInstalled { .. } => FuaRequestView::Run {
            program: "bash"@,
            args: seq!["-c"@, fua_install_command_spec(opts.version)],
        },
        FuaStateView::Running { projects, index, .. } => {
            if 0 <= index < projects.len() {
                FuaRequestView::RunIn {
                    project_path: projects[index].path,
                    program: "bash"@,
                    args: seq![
                        "-c"@,
                        fua_command_spec(opts.version, opts.include_dart_projects),
                    ],
                }
            } else {
                FuaRequestView::Stop
            }
        },
        FuaStateView::Done(_) => FuaRequestView::Stop,
    }
}

/// The request for the given state, as [`fua_request_spec`] describes.
pub fn fua_request(options: &FvmUseForEveryFlutterProjectOptions, state: &FuaState) -> (r:
    FuaRequest)
    ensures
        r@ == fua_request_spec(options@, state@),
{
    match state {
        FuaState::FindProjects => FuaRequest::FindProjects { path: options.path.clone() },
        FuaState::EnsureVersionInstalled { .. } => {
            let mut args: Vec<String> = Vec::new();
            args.push(String::from_str("-c"));
            args.push(fua_install_command(&options.version));
            proof {
                assert(args.deep_view() =~= seq![
                    "-c"@,
                    fua_install_command_spec(options@.version),
                ]);
            }
            FuaRequest::Run { program: String::from_str("bash"), args }
        },
        FuaState::Running { projects, index, .. } => {
            if *index < projects.len() {
                let mut args: Vec<String> = Vec::new();
                args.push(String::from_str("-c"));
                args.push(fua_command(&options.version, options.include_dart_projects));
                proof {
                    assert(args.deep_view() =~= seq![
                        "-c"@,
                        fua_command_spec(options@.version, options@.include_dart_projects),
                    ]);
                }
                FuaRequest::RunIn {
                    project_path: projects[*index].path.clone(),
                    program: String::from_str("bash"),
                    args,
                }
            } else {
                FuaRequest::Stop
            }
        },
        FuaState::Done(_) => FuaRequest::Stop,
    }
}

} // verus!
