//! Opening a repository's remote in the browser.
//!
//! The `gho` command checks that the given path is a directory, asks `git`
//! whether it is a repository, checks that it has remote branches, fetches
//! the `origin` remote's URL, and hands that URL to `open`. Each of those
//! steps is a process the surrounding binary runs; the state machine here
//! decides what to run next and how each answer is interpreted.

use crate::shell::{result_view, ShellError, ShellErrorView, ShellOutput, ShellOutputView};
use crate::text;
use vstd::prelude::*;
use vstd::string::StringExecFns;

verus! {

/// What the `gho` command was asked to act on.
pub struct GitHubOpenOptions {
    /// The path of the project for which to open the Git repository.
    pub path: String,
}

/// Why the repository could not be opened.
pub enum GitHubOpenError {
    /// The path does not exist or is not an accessible directory.
    PathDoesNotExist { path: String },
    /// The path is not a Git repository.
    PathNotAGitRepository { path: String },
    /// The project has no remotes configured.
    NoRemotesConfigured { path: String },
}

/// Mathematical model of [`GitHubOpenError`].
pub enum GitHubOpenErrorView {
    PathDoesNotExist { path: Seq<char> },
    PathNotAGitRepository { path: Seq<char> },
    NoRemotesConfigured { path: Seq<char> },
}

impl View for GitHubOpenError {
    type V = GitHubOpenErrorView;

    open spec fn view(&self) -> GitHubOpenErrorView {
        match self {
            GitHubOpenError::PathDoesNotExist { path } => {
                GitHubOpenErrorView::PathDoesNotExist { path: path@ }
            },
            GitHubOpenError::PathNotAGitRepository { path } => {
                GitHubOpenErrorView::PathNotAGitRepository { path: path@ }
            },
            GitHubOpenError::NoRemotesConfigured { path } => {
                GitHubOpenErrorView::NoRemotesConfigured { path: path@ }
            },
        }
    }
}

/// How a `gho` run can end unsuccessfully: one of the command's own errors,
/// or a failure of one of the processes it runs.
pub enum GhoFailure {
    Open(GitHubOpenError),
    Shell(ShellError),
}

/// Mathematical model of [`GhoFailure`].
pub enum GhoFailureView {
    Open(GitHubOpenErrorView),
    Shell(ShellErrorView),
}

impl View for GhoFailure {
    type V = GhoFailureView;

    open spec fn view(&self) -> GhoFailureView {
        match self {
            GhoFailure::Open(e) => GhoFailureView::Open(e@),
            GhoFailure::Shell(e) => GhoFailureView::Shell(e@),
        }
    }
}

/// Where a `gho` run stands: which answer it is waiting for, or how it ended.
pub enum GhoState {
    /// Waiting to learn whether the path is an accessible directory.
    CheckPath,
    /// Waiting for `git rev-parse --git-dir` to finish.
    CheckRepo,
    /// Waiting for `git branch -r` to finish.
    ListBranches,
    /// Waiting for `git config --get remote.origin.url` to finish.
    FetchRemoteUrl,
    /// Waiting for `open` on the remote's URL to finish.
    OpenUrl { url: String },
    /// The run is over.
    Done(Result<(), GhoFailure>),
}

/// Mathematical model of [`GhoState`].
pub enum GhoStateView {
    CheckPath,
    CheckRepo,
    ListBranches,
    FetchRemoteUrl,
    OpenUrl { url: Seq<char> },
    Done(Result<(), GhoFailureView>),
}

impl View for GhoState {
    type V = GhoStateView;

    open spec fn view(&self) -> GhoStateView {
        match self {
            GhoState::CheckPath => GhoStateView::CheckPath,
            GhoState::CheckRepo => GhoStateView::CheckRepo,
            GhoState::ListBranches => GhoStateView::ListBranches,
            GhoState::FetchRemoteUrl => GhoStateView::FetchRemoteUrl,
            GhoState::OpenUrl { url } => GhoStateView::OpenUrl { url: url@ },
            GhoState::Done(r) => GhoStateView::Done(
                match r {
                    Ok(u) => Ok(*u),
                    Err(e) => Err(e@),
                },
            ),
        }
    }
}

/// What the surrounding binary reports back: the answer to a path check, or
/// the outcome of the process it was asked to run.
pub enum GhoEvent {
    PathChecked { exists_dir: bool },
    CommandFinished(Result<ShellOutput, ShellError>),
}

/// Mathematical model of [`GhoEvent`].
pub enum GhoEventView {
    PathChecked { exists_dir: bool },
    CommandFinished(Result<ShellOutputView, ShellErrorView>),
}

impl View for GhoEvent {
    type V = GhoEventView;

    open spec fn view(&self) -> GhoEventView {
        match self {
            GhoEvent::PathChecked { exists_dir } => GhoEventView::PathChecked {
                exists_dir: *exists_dir,
            },
            GhoEvent::CommandFinished(r) => GhoEventView::CommandFinished(result_view(*r)),
        }
    }
}

/// What the surrounding binary is asked to do next.
pub enum GhoRequest {
    /// Check that the path exists and is a directory.
    CheckPath { path: String },
    /// Run the program with the arguments and report its outcome.
    Run { program: String, args: Vec<String> },
    /// Nothing: the run is over.
    Stop,
}

/// Mathematical model of [`GhoRequest`].
pub enum GhoRequestView {
    CheckPath { path: Seq<char> },
    Run { program: Seq<char>, args: Seq<Seq<char>> },
    Stop,
}

impl View for GhoRequest {
    type V = GhoRequestView;

    open spec fn view(&self) -> GhoRequestView {
        match self {
            GhoRequest::CheckPath { path } => GhoRequestView::CheckPath { path: path@ },
            GhoRequest::Run { program, args } => GhoRequestView::Run {
                program: program@,
                args: args.deep_view(),
            },
            GhoRequest::Stop => GhoRequestView::Stop,
        }
    }
}

/// Whether a failed run means "not a git repository": `git rev-parse` exits
/// with status 128 outside a repository.
pub open spec fn rev_parse_says_no_repo(e: ShellErrorView) -> bool {
    match e {
        ShellErrorView::HostProcessExecutionFailure { status, .. } => status.code == Some(128i32),
        ShellErrorView::ShellStartFailure { .. } => false,
    }
}

/// The step the `gho` run takes on an answer, from the state that awaited it:
///
/// - a missing or non-directory path ends the run with `PathDoesNotExist`;
/// - `git rev-parse --git-dir` failing with status 128, or printing only
///   whitespace, ends it with `PathNotAGitRepository`;
/// - `git branch -r` printing only whitespace ends it with
///   `NoRemotesConfigured`;
/// - the trimmed output of `git config --get remote.origin.url` becomes the
///   URL handed to `open`, whose success ends the run successfully;
/// - any other process failure ends the run with that failure.
///
/// A finished run absorbs every further event; an answer of the wrong kind
/// for the state leaves the run where it was.
pub open spec fn git_hub_open_spec(
    path: Seq<char>,
    state: GhoStateView,
    event: GhoEventView,
) -> GhoStateView {
    match (state, event) {
        (GhoStateView::CheckPath, GhoEventView::PathChecked { exists_dir }) => {
            if !exists_dir {
                GhoStateView::Done(
                    Err(GhoFailureView::Open(GitHubOpenErrorView::PathDoesNotExist { path })),
                )
            } else {
                GhoStateView::CheckRepo
            }
        },
        (GhoStateView::CheckRepo, GhoEventView::CommandFinished(res)) => match res {
            Ok(out) => {
                if text::trim_spec(out.stdout).len() == 0 {
                    GhoStateView::Done(
                        Err(
                            GhoFailureView::Open(
                                GitHubOpenErrorView::PathNotAGitRepository { path },
                            ),
                        ),
                    )
                } else {
                    GhoStateView::ListBranches
                }
            },
            Err(e) => {
                if rev_parse_says_no_repo(e) {
                    GhoStateView::Done(
                        Err(
                            GhoFailureView::Open(
                                GitHubOpenErrorView::PathNotAGitRepository { path },
                            ),
                        ),
                    )
                } else {
                    GhoStateView::Done(Err(GhoFailureView::Shell(e)))
                }
            },
        },
        (GhoStateView::ListBranches, GhoEventView::CommandFinished(res)) => match res {
            Ok(out) => {
                if text::trim_spec(out.stdout).len() == 0 {
                    GhoStateView::Done(
                        Err(GhoFailureView::Open(GitHubOpenErrorView::NoRemotesConfigured { path })),
                    )
                } else {
                    GhoStateView::FetchRemoteUrl
                }
            },
            Err(e) => GhoStateView::Done(Err(GhoFailureView::Shell(e))),
        },
        (GhoStateView::FetchRemoteUrl, GhoEventView::CommandFinished(res)) => match res {
            Ok(out) => GhoStateView::OpenUrl { url: text::trim_spec(out.stdout) },
            Err(e) => GhoStateView::Done(Err(GhoFailureView::Shell(e))),
        },
        (GhoStateView::OpenUrl { .. }, GhoEventView::CommandFinished(res)) => match res {
            Ok(_) => GhoStateView::Done(Ok(())),
            Err(e) => GhoStateView::Done(Err(GhoFailureView::Shell(e))),
        },
        (GhoStateView::Done(r), _) => GhoStateView::Done(r),
        (s, _) => s,
    }
}

/// The state a `gho` run starts in.
pub fn gho_initial_state() -> (r: GhoState)
    ensures
        r@ == GhoStateView::CheckPath,
{
    GhoState::CheckPath
}

/// Takes one step of the `gho` run: folds the answer the surrounding binary
/// reported into the state, as [`git_hub_open_spec`] describes.
pub fn git_hub_open(options: &GitHubOpenOptions, state: GhoState, event: GhoEvent) -> (r: GhoState)
    ensures
        r@ == git_hub_open_spec(options.path@, state@, event@),
{
    match (state, event) {
        (GhoState::CheckPath, GhoEvent::PathChecked { exists_dir }) => {
            if !exists_dir {
                GhoState::Done(
                    Err(
                        GhoFailure::Open(
                            GitHubOpenError::PathDoesNotExist { path: options.path.clone() },
                        ),
                    ),
                )
            } else {
                GhoState::CheckRepo
            }
        },
        (GhoState::CheckRepo, GhoEvent::CommandFinished(res)) => match res {
            Ok(out) => {
                let trimmed = text::trim(out.stdout.as_str());
                if trimmed.as_str().unicode_len() == 0 {
                    GhoState::Done(
                        Err(
                            GhoFailure::Open(
                                GitHubOpenError::PathNotAGitRepository {
                                    path: options.path.clone(),
                                },
                            ),
                        ),
                    )
                } else {
                    GhoState::ListBranches
                }
            },
            Err(e) => {
                let says_no_repo = match &e {
                    ShellError::HostProcessExecutionFailure { status, .. } => match status.code {
                        Some(c) => c == 128,
                        None => false,
                    },
                    ShellError::ShellStartFailure { .. } => false,
                };
                if says_no_repo {
                    GhoState::Done(
                        Err(
                            GhoFailure::Open(
                                GitHubOpenError::PathNotAGitRepository {
                                    path: options.path.clone(),
                                },
                            ),
                        ),
                    )
                } else {
                    GhoState::Done(Err(GhoFailure::Shell(e)))
                }
            },
        },
        (GhoState::ListBranches, GhoEvent::CommandFinished(res)) => match res {
            Ok(out) => {
                let trimmed = text::trim(out.stdout.as_str());
                if trimmed.as_str().unicode_len() == 0 {
                    GhoState::Done(
                        Err(
                            GhoFailure::Open(
                                GitHubOpenError::NoRemotesConfigured { path: options.path.clone() },
                            ),
                        ),
                    )
                } else {
                    GhoState::FetchRemoteUrl
                }
            },
            Err(e) => GhoState::Done(Err(GhoFailure::Shell(e))),
        },
        (GhoState::FetchRemoteUrl, GhoEvent::CommandFinished(res)) => match res {
            Ok(out) => GhoState::OpenUrl { url: text::trim(out.stdout.as_str()) },
            Err(e) => GhoState::Done(Err(GhoFailure::Shell(e))),
        },
        (GhoState::OpenUrl { .. }, GhoEvent::CommandFinished(res)) => match res {
            Ok(_) => GhoState::Done(Ok(())),
            Err(e) => GhoState::Done(Err(GhoFailure::Shell(e))),
        },
        (GhoState::Done(r), _) => GhoState::Done(r),
        (s, _) => s,
    }
}

/// What the surrounding binary should do in the given state, as the step
/// descriptions on [`GhoState`] say: check the path, run the step's command,
/// or stop.
pub open spec fn gho_request_spec(path: Seq<char>, state: GhoStateView) -> GhoRequestView {
    match state {
        GhoStateView::CheckPath => GhoRequestView::CheckPath { path },
        GhoStateView::CheckRepo => GhoRequestView::Run {
            program: "git"@,
            args: seq!["-C"@, path, "rev-parse"@, "--git-dir"@],
        },
        GhoStateView::ListBranches => GhoRequestView::Run {
            program: "git"@,
            args: seq!["-C"@, path, "branch"@, "-r"@],
        },
        GhoStateView::FetchRemoteUrl => GhoRequestView::Run {
            program: "git"@,
            args: seq!["-C"@, path, "config"@, "--get"@, "remote.origin.url"@],
        },
        GhoStateView::OpenUrl { url } => GhoRequestView::Run {
            program: "open"@,
            args: seq![url],
        },
        GhoStateView::Done(_) => GhoRequestView::Stop,
    }
}

/// The request for the given state, as [`gho_request_spec`] describes.
pub fn gho_request(options: &GitHubOpenOptions, state: &GhoState) -> (r: GhoRequest)
    ensures
        r@ == gho_request_spec(options.path@, state@),
{
    match state {
        GhoState::CheckPath => GhoRequest::CheckPath { path: options.path.clone() },
        GhoState::CheckRepo => {
            let mut args: Vec<String> = Vec::new();
            args.push(String::from_str("-C"));
            args.push(options.path.clone());
            args.push(String::from_str("rev-parse"));
            args.push(String::from_str("--git-dir"));
            proof {
                assert(args.deep_view() =~= seq!["-C"@, options.path@, "rev-parse"@, "--git-dir"@]);
            }
            GhoRequest::Run { program: String::from_str("git"), args }
        },
        GhoState::ListBranches => {
            let mut args: Vec<String> = Vec::new();
            args.push(String::from_str("-C"));
            args.push(options.path.clone());
            args.push(String::from_str("branch"));
            args.push(String::from_str("-r"));
            proof {
                assert(args.deep_view() =~= seq!["-C"@, options.path@, "branch"@, "-r"@]);
            }
            GhoRequest::Run { program: String::from_str("git"), args }
        },
        GhoState::FetchRemoteUrl => {
            let mut args: Vec<String> = Vec::new();
            args.push(String::from_str("-C"));
            args.push(options.path.clone());
            args.push(String::from_str("config"));
            args.push(String::from_str("--get"));
            args.push(String::from_str("remote.origin.url"));
            proof {
                assert(args.deep_view() =~= seq![
                    "-C"@,
                    options.path@,
                    "config"@,
                    "--get"@,
                    "remote.origin.url"@,
                ]);
            }
            GhoRequest::Run { program: String::from_str("git"), args }
        },
        GhoState::OpenUrl { url } => {
            let mut args: Vec<String> = Vec::new();
            args.push(url.clone());
            proof {
                assert(args.deep_view() =~= seq![url@]);
            }
            GhoRequest::Run { program: String::from_str("open"), args }
        },
        GhoState::Done(_) => GhoRequest::Stop,
    }
}

} // verus!
