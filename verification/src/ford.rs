//! Running a command in every Dart project under a directory tree.
//!
//! The `ford` command discovers the Dart projects below a starting path,
//! optionally drops the Flutter ones, and runs one shell command in each
//! project in turn. Failures are either fatal at once (`fail_fast`) or
//! collected and reported together at the end. Discovery and the processes
//! themselves are the surrounding binary's work; the state machine here
//! decides what runs where and how the outcomes add up.

use crate::dart::{DartProjectMetadata, DartProjectMetadataView};
use crate::shell::{result_view, ShellError, ShellErrorView, ShellOutput, ShellOutputView};
use crate::text;
use vstd::prelude::*;
use vstd::string::StringExecFns;

verus! {

/// What the `ford` command was asked to do.
pub struct ForEveryDartProjectOptions {
    /// The command to run on each Dart project, as the words to join.
    pub command: Vec<String>,
    /// The path from which to search for Dart projects.
    pub path: String,
    /// Include Flutter projects when searching for Dart projects.
    pub include_flutter_projects: bool,
    /// Stop at the first project in which the command fails.
    pub fail_fast: bool,
    /// Echo the output of the command run on each Dart project.
    pub show_output: bool,
}

/// Mathematical model of [`ForEveryDartProjectOptions`].
pub struct ForEveryDartProjectOptionsView {
    pub command: Seq<Seq<char>>,
    pub path: Seq<char>,
    pub include_flutter_projects: bool,
    pub fail_fast: bool,
    pub show_output: bool,
}

impl View for ForEveryDartProjectOptions {
    type V = ForEveryDartProjectOptionsView;

    open spec fn view(&self) -> ForEveryDartProjectOptionsView {
        ForEveryDartProjectOptionsView {
            command: self.command.deep_view(),
            path: self.path@,
            include_flutter_projects: self.include_flutter_projects,
            fail_fast: self.fail_fast,
            show_output: self.show_output,
        }
    }
}

/// The error that collects the per-project failures of a run.
pub enum ForEveryDartProjectError {
    /// The command failed in one or more projects: each failure beside the
    /// name of the project it happened in.
    CommandExecutionError { command: String, errors: Vec<(String, ShellError)> },
}

/// Mathematical model of [`ForEveryDartProjectError`].
pub enum ForEveryDartProjectErrorView {
    CommandExecutionError { command: Seq<char>, errors: Seq<(Seq<char>, ShellErrorView)> },
}

impl View for ForEveryDartProjectError {
    type V = ForEveryDartProjectErrorView;

    open spec fn view(&self) -> ForEveryDartProjectErrorView {
        match self {
            ForEveryDartProjectError::CommandExecutionError { command, errors } => {
                ForEveryDartProjectErrorView::CommandExecutionError {
                    command: command@,
                    errors: errors.deep_view(),
                }
            },
        }
    }
}

/// How a `ford` run can end unsuccessfully: a first failure that stopped it,
/// or the collected failures of a run that went on to the end.
pub enum FordFailure {
    /// `fail_fast` was set and the command failed in this project.
    FailFast { command: String, project: String, error: ShellError },
    /// The failures collected across the run.
    Execution(ForEveryDartProjectError),
}

/// Mathematical model of [`FordFailure`].
pub enum FordFailureView {
    FailFast { command: Seq<char>, project: Seq<char>, error: ShellErrorView },
    Execution(ForEveryDartProjectErrorView),
}

impl View for FordFailure {
    type V = FordFailureView;

    open spec fn view(&self) -> FordFailureView {
        match self {
            FordFailure::FailFast { command, project, error } => FordFailureView::FailFast {
                command: command@,
                project: project@,
                error: error@,
            },
            FordFailure::Execution(e) => FordFailureView::Execution(e@),
        }
    }
}

/// Where a `ford` run stands.
pub enum FordState {
    /// Waiting for the list of discovered projects.
    FindProjects,
    /// The command has run in the first `index` projects; `errors` collects
    /// the failures so far.
    Running {
        projects: Vec<DartProjectMetadata>,
        index: usize,
        errors: Vec<(String, ShellError)>,
    },
    /// The run is over.
    Done(Result<(), FordFailure>),
}

/// Mathematical model of [`FordState`].
pub enum FordStateView {
    FindProjects,
    Running {
        projects: Seq<DartProjectMetadataView>,
        index: int,
        errors: Seq<(Seq<char>, ShellErrorView)>,
    },
    Done(Result<(), FordFailureView>),
}

impl View for FordState {
    type V = FordStateView;

    open spec fn view(&self) -> FordStateView {
        match self {
            FordState::FindProjects => FordStateView::FindProjects,
            FordState::Running { projects, index, errors } => FordStateView::Running {
                projects: projects.deep_view(),
                index: *index as int,
                errors: errors.deep_view(),
            },
            FordState::Done(r) => FordStateView::Done(
                match r {
                    Ok(u) => Ok(*u),
                    Err(e) => Err(e@),
                },
            ),
        }
    }
}

/// What the surrounding binary reports back.
pub enum FordEvent {
    /// The discovered projects, in the order they were found.
    ProjectsFound(Vec<DartProjectMetadata>),
    /// The outcome of the command in the current project.
    CommandFinished(Result<ShellOutput, ShellError>),
}

/// Mathematical model of [`FordEvent`].
pub enum FordEventView {
    ProjectsFound(Seq<DartProjectMetadataView>),
    CommandFinished(Result<ShellOutputView, ShellErrorView>),
}

impl View for FordEvent {
    type V = FordEventView;

    open spec fn view(&self) -> FordEventView {
        match self {
            FordEvent::ProjectsFound(ps) => FordEventView::ProjectsFound(ps.deep_view()),
            FordEvent::CommandFinished(r) => FordEventView::CommandFinished(result_view(*r)),
        }
    }
}

/// What the surrounding binary is asked to do next.
pub enum FordRequest {
    /// Discover the Dart projects under the path.
    FindProjects { path: String },
    /// Run the program with the arguments inside the project directory.
    RunIn { project_path: String, program: String, args: Vec<String> },
    /// Nothing: the run is over.
    Stop,
}

/// Mathematical model of [`FordRequest`].
pub enum FordRequestView {
    FindProjects { path: Seq<char> },
    RunIn { project_path: Seq<char>, program: Seq<char>, args: Seq<Seq<char>> },
    Stop,
}

impl View for FordRequest {
    type V = FordRequestView;

    open spec fn view(&self) -> FordRequestView {
        match self {
            FordRequest::FindProjects { path } => FordRequestView::FindProjects { path: path@ },
            FordRequest::RunIn { project_path, program, args } => FordRequestView::RunIn {
                project_path: project_path@,
                program: program@,
                args: args.deep_view(),
            },
            FordRequest::Stop => FordRequestView::Stop,
        }
    }
}

/// The single command line the words form, joined with single spaces.
pub open spec fn joined_command_spec(command: Seq<Seq<char>>) -> Seq<char> {
    text::join_spec(command, seq![' '])
}

/// The words joined with single spaces, as [`joined_command_spec`] describes.
pub fn joined_command(command: &Vec<String>) -> (r: String)
    ensures
        r@ == joined_command_spec(command.deep_view()),
{
    proof {
        reveal_strlit(" ");
        assert(" "@ =~= seq![' ']);
    }
    text::join(command, " ")
}

/// The projects the run keeps: all of them when Flutter projects are
/// included, otherwise only the plain Dart ones, in discovery order.
pub open spec fn ford_retained_projects_spec(
    ps: Seq<DartProjectMetadataView>,
    include_flutter: bool,
) -> Seq<DartProjectMetadataView>
    decreases ps.len(),
{
    if ps.len() == 0 {
        Seq::empty()
    } else {
        let rest = ford_retained_projects_spec(ps.drop_last(), include_flutter);
        if include_flutter || !ps.last().is_flutter_project {
            rest.push(ps.last())
        } else {
            rest
        }
    }
}

/// The projects the run keeps, as [`ford_retained_projects_spec`] describes.
pub fn ford_retained_projects(ps: Vec<DartProjectMetadata>, include_flutter: bool) -> (r: Vec<
    DartProjectMetadata,
>)
    ensures
        r.deep_view() == ford_retained_projects_spec(ps.deep_view(), include_flutter),
{
    let ghost dv = ps.deep_view();
    let n = ps.len();
    proof {
        assert(dv.len() == n);
    }
    let mut r: Vec<DartProjectMetadata> = Vec::new();
    let mut i: usize = 0;
    while i < n
        invariant
            n == ps.len(),
            ps.deep_view() == dv,
            0 <= i <= n,
            r.deep_view() == ford_retained_projects_spec(dv.subrange(0, i as int), include_flutter),
        decreases n - i,
    {
        proof {
            assert(dv.subrange(0, i + 1).drop_last() =~= dv.subrange(0, i as int));
            assert(dv.subrange(0, i + 1).last() == dv[i as int]);
        }
        if include_flutter || !ps[i].is_flutter_project {
            let ghost old_r = r.deep_view();
            r.push(ps[i].clone());
            proof {
                assert(r.deep_view() =~= old_r.push(r@[r@.len() - 1]@));
            }
        }
        i = i + 1;
    }
    proof {
        assert(dv.subrange(0, n as int) =~= dv);
    }
    r
}

/// How the run ends once the command has run everywhere: successfully when
/// no project failed, and otherwise with the collected failures.
pub open spec fn ford_final_outcome_spec(
    command: Seq<Seq<char>>,
    errors: Seq<(Seq<char>, ShellErrorView)>,
) -> Result<(), FordFailureView> {
    if errors.len() == 0 {
        Ok(())
    } else {
        Err(
            FordFailureView::Execution(
                ForEveryDartProjectErrorView::CommandExecutionError {
                    command: joined_command_spec(command),
                    errors,
                },
            ),
        )
    }
}

/// The step a `ford` run takes on what the surrounding binary reported:
///
/// - on the discovered projects, it keeps those the options ask for and is
///   done at once (successfully) when none remain;
/// - on each command outcome, a failure either ends the run at once (with
///   `fail_fast`) or is recorded beside the project's name; after the last
///   project the run ends, successfully exactly when nothing failed.
///
/// A finished run absorbs every further event; an event of the wrong kind
/// for the state leaves the run where it was.
pub open spec fn for_every_dart_project_spec(
    opts: ForEveryDartProjectOptionsView,
    state: FordStateView,
    event: FordEventView,
) -> FordStateView {
    match (state, event) {
        (FordStateView::FindProjects, FordEventView::ProjectsFound(ps)) => {
            let kept = ford_retained_projects_spec(ps, opts.include_flutter_projects);
            if kept.len() == 0 {
                FordStateView::Done(Ok(()))
            } else {
                FordStateView::Running { projects: kept, index: 0, errors: Seq::empty() }
            }
        },
        (
            FordStateView::Running { projects, index, errors },
            FordEventView::CommandFinished(res),
        ) => {
            if !(0 <= index < projects.len()) {
                FordStateView::Running { projects, index, errors }
            } else {
                match res {
                    Err(e) => {
                        if opts.fail_fast {
                            FordStateView::Done(
                                Err(
                                    FordFailureView::FailFast {
                                        command: joined_command_spec(opts.command),
                                        project: projects[index].name,
                                        error: e,
                                    },
                                ),
                            )
                        } else {
                            let errors2 = errors.push((projects[index].name, e));
                            if index + 1 == projects.len() {
                                FordStateView::Done(ford_final_outcome_spec(opts.command, errors2))
                            } else {
                                FordStateView::Running {
                                    projects,
                                    index: index + 1,
                                    errors: errors2,
                                }
                            }
                        }
                    },
                    Ok(_) => {
                        if index + 1 == projects.len() {
                            FordStateView::Done(ford_final_outcome_spec(opts.command, errors))
                        } else {
                            FordStateView::Running { projects, index: index + 1, errors }
                        }
                    },
                }
            }
        },
        (FordStateView::Done(r), _) => FordStateView::Done(r),
        (s, _) => s,
    }
}

/// The state a `ford` run starts in.
pub fn ford_initial_state() -> (r: FordState)
    ensures
        r@ == FordStateView::FindProjects,
{
    FordState::FindProjects
}

/// Takes one step of the `ford` run: folds what the surrounding binary
/// reported into the state, as [`for_every_dart_project_spec`] describes.
pub fn for_every_dart_project(
    options: &ForEveryDartProjectOptions,
    state: FordState,
    event: FordEvent,
) -> (r: FordState)
    ensures
        r@ == for_every_dart_project_spec(options@, state@, event@),
{
    match (state, event) {
        (FordState::FindProjects, FordEvent::ProjectsFound(ps)) => {
            let kept = ford_retained_projects(ps, options.include_flutter_projects);
            if kept.len() == 0 {
                FordState::Done(Ok(()))
            } else {
                let errors: Vec<(String, ShellError)> = Vec::new();
                proof {
                    assert(errors.deep_view() =~= Seq::<(Seq<char>, ShellErrorView)>::empty());
                }
                FordState::Running { projects: kept, index: 0, errors }
            }
        },
        (FordState::Running { projects, index, errors }, FordEvent::CommandFinished(res)) => {
            if index >= projects.len() {
                FordState::Running { projects, index, errors }
            } else {
                match res {
                    Err(e) => {
                        if options.fail_fast {
                            FordState::Done(
                                Err(
                                    FordFailure::FailFast {
                                        command: joined_command(&options.command),
                                        project: projects[index].name.clone(),
                                        error: e,
                                    },
                                ),
                            )
                        } else {
                            let mut errors = errors;
                            let ghost old_errors = errors.deep_view();
                            errors.push((projects[index].name.clone(), e));
                            proof {
                                assert(errors.deep_view() =~= old_errors.push(
                                    (errors@[errors@.len() - 1].0@, errors@[errors@.len() - 1].1@),
                                ));
                            }
                            if index + 1 == projects.len() {
                                if errors.len() == 0 {
                                    FordState::Done(Ok(()))
                                } else {
                                    FordState::Done(
                                        Err(
                                            FordFailure::Execution(
                                                ForEveryDartProjectError::CommandExecutionError {
                                                    command: joined_command(&options.command),
                                                    errors,
                                                },
                                            ),
                                        ),
                                    )
                                }
                            } else {
                                FordState::Running { projects, index: index + 1, errors }
                            }
                        }
                    },
                    Ok(_) => {
                        if index + 1 == projects.len() {
                            if errors.len() == 0 {
                                FordState::Done(Ok(()))
                            } else {
                                FordState::Done(
                                    Err(
                                        FordFailure::Execution(
                                            ForEveryDartProjectError::CommandExecutionError {
                                                command: joined_command(&options.command),
                                                errors,
                                            },
                                        ),
                                    ),
                                )
                            }
                        } else {
                            FordState::Running { projects, index: index + 1, errors }
                        }
                    },
                }
            }
        },
        (FordState::Done(r), _) => FordState::Done(r),
        (s, _) => s,
    }
}

/// What the surrounding binary should do in the given state: discover
/// projects, run `bash -c` with the joined command inside the current
/// project, or stop.
pub open spec fn ford_request_spec(
    opts: ForEveryDartProjectOptionsView,
    state: FordStateView,
) -> FordRequestView {
    match state {
        FordStateView::FindProjects => FordRequestView::FindProjects { path: opts.path },
        FordStateView::Running { projects, index, .. } => {
            if 0 <= index < projects.len() {
                FordRequestView::RunIn {
                    project_path: projects[index].path,
                    program: "bash"@,
                    args: seq!["-c"@, joined_command_spec(opts.command)],
                }
            } else {
                FordRequestView::Stop
            }
        },
        FordStateView::Done(_) => FordRequestView::Stop,
    }
}

/// The request for the given state, as [`ford_request_spec`] describes.
pub fn ford_request(options: &ForEveryDartProjectOptions, state: &FordState) -> (r: FordRequest)
    ensures
        r@ == ford_request_spec(options@, state@),
{
    match state {
        FordState::FindProjects => FordRequest::FindProjects { path: options.path.clone() },
        FordState::Running { projects, index, .. } => {
            if *index < projects.len() {
                let mut args: Vec<String> = Vec::new();
                args.push(String::from_str("-c"));
                args.push(joined_command(&options.command));
                proof {
                    assert(args.deep_view() =~= seq![
                        "-c"@,
                        joined_command_spec(options@.command),
                    ]);
                }
                FordRequest::RunIn {
                    project_path: projects[*index].path.clone(),
                    program: String::from_str("bash"),
                    args,
                }
            } else {
                FordRequest::Stop
            }
        },
        FordState::Done(_) => FordRequest::Stop,
    }
}

} // verus!
