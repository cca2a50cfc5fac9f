//! The shape of a finished host-system command.
//!
//! Processes are started by the surrounding binary; this module defines what
//! a finished process looks like to the rest of the library — its status and
//! captured output — and how that is classified into success or failure, as
//! well as the indentation applied to output when it is echoed.

use crate::text;
use vstd::prelude::*;
use vstd::string::StringExecFns;

verus! {

/// The view of a `Result` whose sides both have views.
pub open spec fn result_view<T: View, E: View>(r: Result<T, E>) -> Result<T::V, E::V> {
    match r {
        Ok(t) => Ok(t@),
        Err(e) => Err(e@),
    }
}

/// How a finished process exited: whether it counted as successful, and its
/// exit code when it exited with one (a process ended by a signal has none).
#[derive(Clone, Copy, Debug, PartialEq, Eq, Structural)]
pub struct ExitStatus {
    pub success: bool,
    pub code: Option<i32>,
}

/// Everything a finished process produced.
pub struct ShellOutput {
    pub status: ExitStatus,
    pub stdout: String,
    pub stderr: String,
}

/// Mathematical model of [`ShellOutput`].
pub struct ShellOutputView {
    pub status: ExitStatus,
    pub stdout: Seq<char>,
    pub stderr: Seq<char>,
}

impl View for ShellOutput {
    type V = ShellOutputView;

    open spec fn view(&self) -> ShellOutputView {
        ShellOutputView { status: self.status, stdout: self.stdout@, stderr: self.stderr@ }
    }
}

impl DeepView for ShellOutput {
    type V = ShellOutputView;

    open spec fn deep_view(&self) -> ShellOutputView {
        self.view()
    }
}

/// Why running a command failed: either the process ran and exited
/// unsuccessfully, or it could not be started at all.
#[derive(Clone)]
pub enum ShellError {
    HostProcessExecutionFailure {
        command: String,
        args: String,
        status: ExitStatus,
        stdout: String,
        stderr: String,
    },
    ShellStartFailure { command: String, args: String, error: String },
}

/// Mathematical model of [`ShellError`].
pub enum ShellErrorView {
    HostProcessExecutionFailure {
        command: Seq<char>,
        args: Seq<char>,
        status: ExitStatus,
        stdout: Seq<char>,
        stderr: Seq<char>,
    },
    ShellStartFailure { command: Seq<char>, args: Seq<char>, error: Seq<char> },
}

impl View for ShellError {
    type V = ShellErrorView;

    open spec fn view(&self) -> ShellErrorView {
        match self {
            ShellError::HostProcessExecutionFailure { command, args, status, stdout, stderr } => {
                ShellErrorView::HostProcessExecutionFailure {
                    command: command@,
                    args: args@,
                    status: *status,
                    stdout: stdout@,
                    stderr: stderr@,
                }
            },
            ShellError::ShellStartFailure { command, args, error } => {
                ShellErrorView::ShellStartFailure { command: command@, args: args@, error: error@ }
            },
        }
    }
}

impl DeepView for ShellError {
    type V = ShellErrorView;

    open spec fn deep_view(&self) -> ShellErrorView {
        self.view()
    }
}

/// An abstraction around a shell that can run commands on the host system.
/// The library only decides; the binary around it runs the processes and
/// reports each result back through [`Shell::classify_output`].
pub struct Shell {}

/// What [`Shell::classify_output`] returns: the output as-is on success, and
/// otherwise the failure recording the command line (arguments joined with
/// single spaces) together with everything the process produced.
pub open spec fn classify_output_spec(
    command: Seq<char>,
    args: Seq<Seq<char>>,
    status: ExitStatus,
    stdout: Seq<char>,
    stderr: Seq<char>,
) -> Result<ShellOutputView, ShellErrorView> {
    if status.success {
        Ok(ShellOutputView { status, stdout, stderr })
    } else {
        Err(
            ShellErrorView::HostProcessExecutionFailure {
                command,
                args: text::join_spec(args, seq![' ']),
                status,
                stdout,
                stderr,
            },
        )
    }
}

/// What echoing a finished run shows: the captured stdout on success; on an
/// execution failure, stdout and stderr separated by a `---` line; on a start
/// failure, the start error.
pub open spec fn run_output_display_spec(res: Result<ShellOutputView, ShellErrorView>) -> Seq<
    char,
> {
    match res {
        Ok(out) => out.stdout,
        Err(
            ShellErrorView::HostProcessExecutionFailure { stdout, stderr, .. },
        ) => stdout + "\n---\n"@ + stderr,
        Err(ShellErrorView::ShellStartFailure { error, .. }) => error,
    }
}

/// The text echoed for a finished run, as [`run_output_display_spec`]
/// describes.
pub fn run_output_display(res: &Result<ShellOutput, ShellError>) -> (r: String)
    ensures
        r@ == run_output_display_spec(result_view(*res)),
{
    match res {
        Ok(out) => out.stdout.clone(),
        Err(ShellError::HostProcessExecutionFailure { stdout, stderr, .. }) => {
            stdout.clone().concat("\n---\n").concat(stderr.as_str())
        },
        Err(ShellError::ShellStartFailure { error, .. }) => error.clone(),
    }
}

/// Each line of the string prefixed with the given number of spaces, the
/// lines joined again with carriage returns.
pub open spec fn indent_spec(n: nat, s: Seq<char>) -> Seq<char> {
    text::join_spec(text::lines_spec(s).map_values(|l: Seq<char>| text::spaces(n) + l), seq!['\r'])
}

impl Shell {
    /// Creates a new `Shell`.
    pub fn new() -> (r: Self) {
        Self {  }
    }

    /// Indents the given string by the given number of spaces.
    pub fn indent(spaces: usize, string: &str) -> (r: String)
        ensures
            r@ == indent_spec(spaces as nat, string@),
    {
        let pad = text::repeat_spaces(spaces);
        let ls = text::lines(string);
        let ghost dv = ls.deep_view();
        let n = ls.len();
        proof {
            assert(dv.len() == n);
        }
        let mut padded: Vec<String> = Vec::new();
        let mut i: usize = 0;
        while i < n
            invariant
                n == ls.len(),
                ls.deep_view() == dv,
                pad@ == text::spaces(spaces as nat),
                0 <= i <= n,
                padded.deep_view() == dv.subrange(0, i as int).map_values(
                    |l: Seq<char>| text::spaces(spaces as nat) + l,
                ),
            decreases n - i,
        {
            let line = pad.clone().concat(ls[i].as_str());
            let ghost old_padded = padded.deep_view();
            padded.push(line);
            proof {
                assert(padded.deep_view() =~= old_padded.push(line@));
                assert(dv.subrange(0, i + 1) =~= dv.subrange(0, i as int).push(dv[i as int]));
                assert(dv.subrange(0, i + 1).map_values(
                    |l: Seq<char>| text::spaces(spaces as nat) + l,
                ) =~= dv.subrange(0, i as int).map_values(
                    |l: Seq<char>| text::spaces(spaces as nat) + l,
                ).push(text::spaces(spaces as nat) + dv[i as int]));
            }
            i = i + 1;
        }
        proof {
            assert(dv.subrange(0, n as int) =~= dv);
            reveal_strlit("\r");
            assert("\r"@ =~= seq!['\r']);
        }
        text::join(&padded, "\r")
    }

    /// The outcome assigned to a finished process: `Ok` with its output when
    /// it exited successfully, and otherwise the failure that records the
    /// command line and everything the process produced.
    pub fn classify_output(
        &self,
        command: String,
        args: &Vec<String>,
        status: ExitStatus,
        stdout: String,
        stderr: String,
    ) -> (r: Result<ShellOutput, ShellError>)
        ensures
            result_view(r) == classify_output_spec(
                command@,
                args.deep_view(),
                status,
                stdout@,
                stderr@,
            ),
    {
        if status.success {
            Ok(ShellOutput { status, stdout, stderr })
        } else {
            proof {
                reveal_strlit(" ");
                assert(" "@ =~= seq![' ']);
            }
            let joined = text::join(args, " ");
            Err(
                ShellError::HostProcessExecutionFailure {
                    command,
                    args: joined,
                    status,
                    stdout,
                    stderr,
                },
            )
        }
    }
}

} // verus!
