//! Upgrading the tool to the latest version.
//!
//! The `upgrade` command reads `cargo install --list` to find how this
//! package was installed, runs `cargo install --force` again — from the
//! recorded local path when there is one, otherwise from the registry — and
//! then reads cargo's closing line (cargo prints it to stderr) to report
//! which version replaced which. The processes are the surrounding binary's
//! work; the state machine here decides what to run and how each answer is
//! interpreted.

use crate::packages;
use crate::shell::{result_view, ShellError, ShellErrorView, ShellOutput, ShellOutputView};
use crate::text;
use crate::PACKAGE_NAME;
use vstd::prelude::*;
use vstd::string::StringExecFns;

verus! {

/// Options of the `upgrade` command. The command takes none.
pub struct UpgradeOptions {}

/// What a successful upgrade reports, read off cargo's closing line:
/// `Replacing `name v1` with `name v2`` (or `Upgrading`). Absent when cargo's
/// output ended in no such line.
pub struct UpgradeReport {
    pub name: String,
    pub previous_version: String,
    pub new_version: String,
}

/// Mathematical model of [`UpgradeReport`].
pub struct UpgradeReportView {
    pub name: Seq<char>,
    pub previous_version: Seq<char>,
    pub new_version: Seq<char>,
}

impl View for UpgradeReport {
    type V = UpgradeReportView;

    open spec fn view(&self) -> UpgradeReportView {
        UpgradeReportView {
            name: self.name@,
            previous_version: self.previous_version@,
            new_version: self.new_version@,
        }
    }
}

/// How an `upgrade` run can end unsuccessfully.
pub enum UpgradeFailure {
    /// `cargo install --list` failed.
    List(ShellError),
    /// A package line of the listing could not be parsed.
    ListParseFailure,
    /// The listing does not mention this package.
    PackageNotInstalled,
    /// The reinstall itself failed.
    Install(ShellError),
    /// Cargo's closing line names the packages but they could not be parsed.
    ReportParseFailure,
}

/// Mathematical model of [`UpgradeFailure`].
pub enum UpgradeFailureView {
    List(ShellErrorView),
    ListParseFailure,
    PackageNotInstalled,
    Install(ShellErrorView),
    ReportParseFailure,
}

impl View for UpgradeFailure {
    type V = UpgradeFailureView;

    open spec fn view(&self) -> UpgradeFailureView {
        match self {
            UpgradeFailure::List(e) => UpgradeFailureView::List(e@),
            UpgradeFailure::ListParseFailure => UpgradeFailureView::ListParseFailure,
            UpgradeFailure::PackageNotInstalled => UpgradeFailureView::PackageNotInstalled,
            UpgradeFailure::Install(e) => UpgradeFailureView::Install(e@),
            UpgradeFailure::ReportParseFailure => UpgradeFailureView::ReportParseFailure,
        }
    }
}

/// Where an `upgrade` run stands.
pub enum UpgradeState {
    /// Waiting for `cargo install --list` to finish.
    ListPackages,
    /// Waiting for the reinstall to finish; `from_path` is the local path the
    /// listing recorded for this package, if any.
    Installing { from_path: Option<String> },
    /// The run is over, on success with the report read off cargo's closing
    /// line, when there was one.
    Done(Result<Option<UpgradeReport>, UpgradeFailure>),
}

/// Mathematical model of [`UpgradeState`].
pub enum UpgradeStateView {
    ListPackages,
    Installing { from_path: Option<Seq<char>> },
    Done(Result<Option<UpgradeReportView>, UpgradeFailureView>),
}

/// The view of an `upgrade` run's outcome.
pub open spec fn upgrade_outcome_view(r: Result<Option<UpgradeReport>, UpgradeFailure>) -> Result<
    Option<UpgradeReportView>,
    UpgradeFailureView,
> {
    match r {
        Ok(Some(rep)) => Ok(Some(rep@)),
        Ok(None) => Ok(None),
        Err(e) => Err(e@),
    }
}

impl View for UpgradeState {
    type V = UpgradeStateView;

    open spec fn view(&self) -> UpgradeStateView {
        match self {
            UpgradeState::ListPackages => UpgradeStateView::ListPackages,
            UpgradeState::Installing { from_path } => UpgradeStateView::Installing {
                from_path: match from_path {
                    Some(p) => Some(p@),
                    None => None,
                },
            },
            UpgradeState::Done(r) => UpgradeStateView::Done(upgrade_outcome_view(*r)),
        }
    }
}

/// What the surrounding binary reports back: the outcome of the process it
/// was asked to run.
pub enum UpgradeEvent {
    CommandFinished(Result<ShellOutput, ShellError>),
}

/// Mathematical model of [`UpgradeEvent`].
pub enum UpgradeEventView {
    CommandFinished(Result<ShellOutputView, ShellErrorView>),
}

impl View for UpgradeEvent {
    type V = UpgradeEventView;

    open spec fn view(&self) -> UpgradeEventView {
        match self {
            UpgradeEvent::CommandFinished(r) => UpgradeEventView::CommandFinished(result_view(*r)),
        }
    }
}

/// What the surrounding binary is asked to do next.
pub enum UpgradeRequest {
    /// Run the program with the arguments and report its outcome.
    Run { program: String, args: Vec<String> },
    /// Nothing: the run is over.
    Stop,
}

/// Mathematical model of [`UpgradeRequest`].
pub enum UpgradeRequestView {
    Run { program: Seq<char>, args: Seq<Seq<char>> },
    Stop,
}

impl View for UpgradeRequest {
    type V = UpgradeRequestView;

    open spec fn view(&self) -> UpgradeRequestView {
        match self {
            UpgradeRequest::Run { program, args } => UpgradeRequestView::Run {
                program: program@,
                args: args.deep_view(),
            },
            UpgradeRequest::Stop => UpgradeRequestView::Stop,
        }
    }
}

/// What the reinstall's stderr yields: the last nonblank line, trimmed, is
/// inspected; when it holds at least four backticks, the first and the third
/// backtick-delimited chunks name the replaced and the replacing package, and
/// both are parsed as package lines. No such line, or too few backticks,
/// yields no report; chunks that do not parse are a failure.
pub open spec fn upgrade_outcome_spec(stderr: Seq<char>) -> Result<
    Option<UpgradeReportView>,
    UpgradeFailureView,
> {
    match text::last_nonblank_trimmed_line_spec(stderr) {
        None => Ok(None),
        Some(line) => {
            let parts = text::split_spec(line, '`');
            if parts.len() < 5 {
                Ok(None)
            } else {
                match (
                    packages::parse_package_line_spec(parts[1]),
                    packages::parse_package_line_spec(parts[3]),
                ) {
                    (Some(prev), Some(next)) => Ok(
                        Some(
                            UpgradeReportView {
                                name: prev.name,
                                previous_version: prev.version,
                                new_version: next.version,
                            },
                        ),
                    ),
                    _ => Err(UpgradeFailureView::ReportParseFailure),
                }
            }
        },
    }
}

/// Reads the upgrade report off the reinstall's stderr, as
/// [`upgrade_outcome_spec`] describes.
pub fn upgrade_outcome(stderr: &str) -> (r: Result<Option<UpgradeReport>, UpgradeFailure>)
    ensures
        upgrade_outcome_view(r) == upgrade_outcome_spec(stderr@),
{
    match text::last_nonblank_trimmed_line(stderr) {
        None => Ok(None),
        Some(line) => {
            let parts = text::split_char(line.as_str(), '`');
            if parts.len() < 5 {
                Ok(None)
            } else {
                let prev = packages::parse_package_line(parts[1].as_str());
                let next = packages::parse_package_line(parts[3].as_str());
                match (prev, next) {
                    (Some(prev), Some(next)) => Ok(
                        Some(
                            UpgradeReport {
                                name: prev.name,
                                previous_version: prev.version,
                                new_version: next.version,
                            },
                        ),
                    ),
                    _ => Err(UpgradeFailure::ReportParseFailure),
                }
            }
        },
    }
}

/// The step an `upgrade` run takes on a finished process:
///
/// - the listing is parsed and this package looked up in it by name; a
///   malformed listing or an absent package ends the run with that failure,
///   and otherwise the reinstall begins, from the recorded local path when
///   the listing holds one;
/// - a successful reinstall ends the run successfully, with the report read
///   off its stderr as [`upgrade_outcome_spec`] describes;
/// - a failed process ends the run with that failure.
///
/// A finished run absorbs every further event.
pub open spec fn upgrade_spec(state: UpgradeStateView, event: UpgradeEventView) -> UpgradeStateView {
    match (state, event) {
        (UpgradeStateView::ListPackages, UpgradeEventView::CommandFinished(res)) => match res {
            Err(e) => UpgradeStateView::Done(Err(UpgradeFailureView::List(e))),
            Ok(out) => match packages::parse_installed_packages_spec(out.stdout) {
                None => UpgradeStateView::Done(Err(UpgradeFailureView::ListParseFailure)),
                Some(ps) => match packages::find_package_spec(ps, PACKAGE_NAME@) {
                    None => UpgradeStateView::Done(Err(UpgradeFailureView::PackageNotInstalled)),
                    Some(p) => UpgradeStateView::Installing { from_path: p.path },
                },
            },
        },
        (UpgradeStateView::Installing { .. }, UpgradeEventView::CommandFinished(res)) => match res {
            Err(e) => UpgradeStateView::Done(Err(UpgradeFailureView::Install(e))),
            Ok(out) => UpgradeStateView::Done(upgrade_outcome_spec(out.stderr)),
        },
        (UpgradeStateView::Done(r), _) => UpgradeStateView::Done(r),
    }
}

/// The state an `upgrade` run starts in.
pub fn upgrade_initial_state() -> (r: UpgradeState)
    ensures
        r@ == UpgradeStateView::ListPackages,
{
    UpgradeState::ListPackages
}

/// Takes one step of the `upgrade` run, as [`upgrade_spec`] describes.
pub fn upgrade(state: UpgradeState, event: UpgradeEvent) -> (r: UpgradeState)
    ensures
        r@ == upgrade_spec(state@, event@),
{
    match (state, event) {
        (UpgradeState::ListPackages, UpgradeEvent::CommandFinished(res)) => match res {
            Err(e) => UpgradeState::Done(Err(UpgradeFailure::List(e))),
            Ok(out) => match packages::parse_installed_packages(out.stdout.as_str()) {
                None => UpgradeState::Done(Err(UpgradeFailure::ListParseFailure)),
                Some(ps) => match packages::find_package(&ps, PACKAGE_NAME) {
                    None => UpgradeState::Done(Err(UpgradeFailure::PackageNotInstalled)),
                    Some(p) => UpgradeState::Installing {
                        from_path: match &p.path {
                            Some(path) => Some(path.clone()),
                            None => None,
                        },
                    },
                },
            },
        },
        (UpgradeState::Installing { .. }, UpgradeEvent::CommandFinished(res)) => match res {
            Err(e) => UpgradeState::Done(Err(UpgradeFailure::Install(e))),
            Ok(out) => UpgradeState::Done(upgrade_outcome(out.stderr.as_str())),
        },
        (UpgradeState::Done(r), _) => UpgradeState::Done(r),
    }
}

/// What the surrounding binary should do in the given state: list the
/// installed packages, reinstall (from the recorded local path when there is
/// one, otherwise from the registry), or stop.
pub open spec fn upgrade_request_spec(state: UpgradeStateView) -> UpgradeRequestView {
    match state {
        UpgradeStateView::ListPackages => UpgradeRequestView::Run {
            program: "cargo"@,
            args: seq!["install"@, "--list"@],
        },
        UpgradeStateView::Installing { from_path } => match from_path {
            Some(p) => UpgradeRequestView::Run {
                program: "cargo"@,
                args: seq!["install"@, "--force"@, "--path"@, p],
            },
            None => UpgradeRequestView::Run {
                program: "cargo"@,
                args: seq!["install"@, "--force"@, PACKAGE_NAME@],
            },
        },
        UpgradeStateView::Done(_) => UpgradeRequestView::Stop,
    }
}

/// The request for the given state, as [`upgrade_request_spec`] describes.
pub fn upgrade_request(state: &UpgradeState) -> (r: UpgradeRequest)
    ensures
        r@ == upgrade_request_spec(state@),
{
    match state {
        UpgradeState::ListPackages => {
            let mut args: Vec<String> = Vec::new();
            args.push(String::from_str("install"));
            args.push(String::from_str("--list"));
            proof {
                assert(args.deep_view() =~= seq!["install"@, "--list"@]);
            }
            UpgradeRequest::Run { program: String::from_str("cargo"), args }
        },
        UpgradeState::Installing { from_path } => {
            let mut args: Vec<String> = Vec::new();
            args.push(String::from_str("install"));
            args.push(String::from_str("--force"));
            match from_path {
                Some(p) => {
                    args.push(String::from_str("--path"));
                    args.push(p.clone());
                    proof {
                        assert(args.deep_view() =~= seq![
                            "install"@,
                            "--force"@,
                            "--path"@,
                            p@,
                        ]);
                    }
                },
                None => {
                    args.push(String::from_str(PACKAGE_NAME));
                    proof {
                        assert(args.deep_view() =~= seq!["install"@, "--force"@, PACKAGE_NAME@]);
                    }
                },
            }
            UpgradeRequest::Run { program: String::from_str("cargo"), args }
        },
        UpgradeState::Done(_) => UpgradeRequest::Stop,
    }
}

} // verus!
