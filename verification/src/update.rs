//! Reinstalling the current version of the tool.
//!
//! The `update` command reads `cargo install --list` to find how this package
//! was installed, then runs `cargo install --force` again — from the recorded
//! local path when there is one, otherwise from the registry. The processes
//! are the surrounding binary's work; the state machine here decides what to
//! run and how each answer is interpreted.

use crate::packages;
use crate::shell::{result_view, ShellError, ShellErrorView, ShellOutput, ShellOutputView};
use crate::PACKAGE_NAME;
use vstd::prelude::*;
use vstd::string::StringExecFns;

verus! {

/// How an `update` run can end unsuccessfully.
pub enum UpdateFailure {
    /// `cargo install --list` failed.
    List(ShellError),
    /// A package line of the listing could not be parsed.
    ListParseFailure,
    /// The listing does not mention this package.
    PackageNotInstalled,
    /// The reinstall itself failed.
    Install(ShellError),
}

/// Mathematical model of [`UpdateFailure`].
pub enum UpdateFailureView {
    List(ShellErrorView),
    ListParseFailure,
    PackageNotInstalled,
    Install(ShellErrorView),
}

impl View for UpdateFailure {
    type V = UpdateFailureView;

    open spec fn view(&self) -> UpdateFailureView {
        match self {
            UpdateFailure::List(e) => UpdateFailureView::List(e@),
            UpdateFailure::ListParseFailure => UpdateFailureView::ListParseFailure,
            UpdateFailure::PackageNotInstalled => UpdateFailureView::PackageNotInstalled,
            UpdateFailure::Install(e) => UpdateFailureView::Install(e@),
        }
    }
}

/// Where an `update` run stands.
pub enum UpdateState {
    /// Waiting for `cargo install --list` to finish.
    ListPackages,
    /// Waiting for the reinstall to finish; `from_path` is the local path the
    /// listing recorded for this package, if any.
    Installing { from_path: Option<String> },
    /// The run is over.
    Done(Result<(), UpdateFailure>),
}

/// Mathematical model of [`UpdateState`].
pub enum UpdateStateView {
    ListPackages,
    Installing { from_path: Option<Seq<char>> },
    Done(Result<(), UpdateFailureView>),
}

impl View for UpdateState {
    type V = UpdateStateView;

    open spec fn view(&self) -> UpdateStateView {
        match self {
            UpdateState::ListPackages => UpdateStateView::ListPackages,
            UpdateState::Installing { from_path } => UpdateStateView::Installing {
                from_path: match from_path {
                    Some(p) => Some(p@),
                    None => None,
                },
            },
            UpdateState::Done(r) => UpdateStateView::Done(
                match r {
                    Ok(u) => Ok(*u),
                    Err(e) => Err(e@),
                },
            ),
        }
    }
}

/// What the surrounding binary reports back: the outcome of the process it
/// was asked to run.
pub enum UpdateEvent {
    CommandFinished(Result<ShellOutput, ShellError>),
}

/// Mathematical model of [`UpdateEvent`].
pub enum UpdateEventView {
    CommandFinished(Result<ShellOutputView, ShellErrorView>),
}

impl View for UpdateEvent {
    type V = UpdateEventView;

    open spec fn view(&self) -> UpdateEventView {
        match self {
            UpdateEvent::CommandFinished(r) => UpdateEventView::CommandFinished(result_view(*r)),
        }
    }
}

/// What the surrounding binary is asked to do next.
pub enum UpdateRequest {
    /// Run the program with the arguments and report its outcome.
    Run { program: String, args: Vec<String> },
    /// Nothing: the run is over.
    Stop,
}

/// Mathematical model of [`UpdateRequest`].
pub enum UpdateRequestView {
    Run { program: Seq<char>, args: Seq<Seq<char>> },
    Stop,
}

impl View for UpdateRequest {
    type V = UpdateRequestView;

    open spec fn view(&self) -> UpdateRequestView {
        match self {
            UpdateRequest::Run { program, args } => UpdateRequestView::Run {
                program: program@,
                args: args.deep_view(),
            },
            UpdateRequest::Stop => UpdateRequestView::Stop,
        }
    }
}

/// The step an `update` run takes on a finished process:
///
/// - the listing is parsed and this package looked up in it by name; a
///   malformed listing or an absent package ends the run with that failure,
///   and otherwise the reinstall begins, from the recorded local path when
///   the listing holds one;
/// - a successful reinstall ends the run successfully;
/// - a failed process ends the run with that failure.
///
/// A finished run absorbs every further event.
pub open spec fn update_spec(state: UpdateStateView, event: UpdateEventView) -> UpdateStateView {
    match (state, event) {
        (UpdateStateView::ListPackages, UpdateEventView::CommandFinished(res)) => match res {
            Err(e) => UpdateStateView::Done(Err(UpdateFailureView::List(e))),
            Ok(out) => match packages::parse_installed_packages_spec(out.stdout) {
                None => UpdateStateView::Done(Err(UpdateFailureView::ListParseFailure)),
                Some(ps) => match packages::find_package_spec(ps, PACKAGE_NAME@) {
                    None => UpdateStateView::Done(Err(UpdateFailureView::PackageNotInstalled)),
                    Some(p) => UpdateStateView::Installing { from_path: p.path },
                },
            },
        },
        (UpdateStateView::Installing { .. }, UpdateEventView::CommandFinished(res)) => match res {
            Err(e) => UpdateStateView::Done(Err(UpdateFailureView::Install(e))),
            Ok(_) => UpdateStateView::Done(Ok(())),
        },
        (UpdateStateView::Done(r), _) => UpdateStateView::Done(r),
    }
}

/// The state an `update` run starts in.
pub fn update_initial_state() -> (r: UpdateState)
    ensures
        r@ == UpdateStateView::ListPackages,
{
    UpdateState::ListPackages
}

/// Takes one step of the `update` run, as [`update_spec`] describes.
pub fn update(state: UpdateState, event: UpdateEvent) -> (r: UpdateState)
    ensures
        r@ == update_spec(state@, event@),
{
    match (state, event) {
        (UpdateState::ListPackages, UpdateEvent::CommandFinished(res)) => match res {
            Err(e) => UpdateState::Done(Err(UpdateFailure::List(e))),
            Ok(out) => match packages::parse_installed_packages(out.stdout.as_str()) {
                None => UpdateState::Done(Err(UpdateFailure::ListParseFailure)),
                Some(ps) => match packages::find_package(&ps, PACKAGE_NAME) {
                    None => UpdateState::Done(Err(UpdateFailure::PackageNotInstalled)),
                    Some(p) => UpdateState::Installing {
                        from_path: match &p.path {
                            Some(path) => Some(path.clone()),
                            None => None,
                        },
                    },
                },
            },
        },
        (UpdateState::Installing { .. }, UpdateEvent::CommandFinished(res)) => match res {
            Err(e) => UpdateState::Done(Err(UpdateFailure::Install(e))),
            Ok(_) => UpdateState::Done(Ok(())),
        },
        (UpdateState::Done(r), _) => UpdateState::Done(r),
    }
}

/// What the surrounding binary should do in the given state: list the
/// installed packages, reinstall (from the recorded local path when there is
/// one, otherwise from the registry), or stop.
pub open spec fn update_request_spec(state: UpdateStateView) -> UpdateRequestView {
    match state {
        UpdateStateView::ListPackages => UpdateRequestView::Run {
            program: "cargo"@,
            args: seq!["install"@, "--list"@],
        },
        UpdateStateView::Installing { from_path } => match from_path {
            Some(p) => UpdateRequestView::Run {
                program: "cargo"@,
                args: seq!["install"@, "--force"@, "--path"@, p],
            },
            None => UpdateRequestView::Run {
                program: "cargo"@,
                args: seq!["install"@, "--force"@, PACKAGE_NAME@],
            },
        },
        UpdateStateView::Done(_) => UpdateRequestView::Stop,
    }
}

/// The request for the given state, as [`update_request_spec`] describes.
pub fn update_request(state: &UpdateState) -> (r: UpdateRequest)
    ensures
        r@ == update_request_spec(state@),
{
    match state {
        UpdateState::ListPackages => {
            let mut args: Vec<String> = Vec::new();
            args.push(String::from_str("install"));
            args.push(String::from_str("--list"));
            proof {
                assert(args.deep_view() =~= seq!["install"@, "--list"@]);
            }
            UpdateRequest::Run { program: String::from_str("cargo"), args }
        },
        UpdateState::Installing { from_path } => {
            let mut args: Vec<String> = Vec::new();
            args.push(String::from_str("install"));
            args.push(String::from_str("--force"));
            match from_path {
                Some(p) => {
                    args.push(String::from_str("--path"));
                    args.push(p.clone());
                    proof {
                        assert(args.deep_view() =~= seq![
                            "install"@,
                            "--force"@,
                            "--path"@,
                            p@,
                        ]);
                    }
                },
                None => {
                    args.push(String::from_str(PACKAGE_NAME));
                    proof {
                        assert(args.deep_view() =~= seq!["install"@, "--force"@, PACKAGE_NAME@]);
                    }
                },
            }
            UpdateRequest::Run { program: String::from_str("cargo"), args }
        },
        UpdateState::Done(_) => UpdateRequest::Stop,
    }
}

} // verus!
