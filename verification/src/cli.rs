//! The command-line surface: which subcommand runs, the flags every
//! subcommand shares, and what they decide.
//!
//! Parsing `argv` into these types is the surrounding binary's job; the rules
//! about them — which logging level the shared flags ask for, and how an
//! alias binary's name picks the subcommand — are here.

use crate::ford::ForEveryDartProjectOptions;
use crate::fua::FvmUseForEveryFlutterProjectOptions;
use crate::gho::GitHubOpenOptions;
use crate::progress::LogLevel;
use crate::shell::Shell;
use crate::text;
use crate::upgrade::UpgradeOptions;
use crate::PACKAGE_NAME;
use vstd::prelude::*;

verus! {

/// A single subcommand to run, with what it was asked to act on.
pub enum Command {
    /// Open the current directory's Git repository in the default browser
    /// (short for "github open").
    GitHubOpen(GitHubOpenOptions),
    /// Upgrade the tool to the latest version from the registry, or from a
    /// local path if it was installed from source.
    Upgrade(UpgradeOptions),
    /// Run the given command for every Dart project under the current
    /// directory (short for "for dart").
    ForEveryDartProject(ForEveryDartProjectOptions),
    /// Set the FVM version for every Flutter or Dart project under the
    /// current directory (short for "flutter use all").
    FvmUseForEveryFlutterProject(FvmUseForEveryFlutterProjectOptions),
}

/// Base arguments that are shared across all subcommands.
pub struct BaseArgs {
    /// Print verbose output. Cannot be used in combination with `quiet`.
    pub verbose: bool,
    /// Print no output. Cannot be used in combination with `verbose`.
    pub quiet: bool,
}

impl Clone for BaseArgs {
    fn clone(&self) -> (r: Self)
        ensures
            r == *self,
    {
        BaseArgs { verbose: self.verbose, quiet: self.quiet }
    }
}

/// A parsed invocation: the subcommand and the shared flags.
pub struct Cli {
    /// The command to run.
    pub command: Command,
    /// Base arguments that are shared across all subcommands.
    pub base_args: BaseArgs,
}

/// What a command works with: the shell, the shared flags and its own
/// options.
pub struct InternalCommandOptions<'a, T> {
    pub shell: &'a Shell,
    pub base_args: &'a BaseArgs,
    pub options: &'a T,
}

/// The shared flags contradict each other.
pub enum CliError {
    /// Both `quiet` and `verbose` were given.
    QuietAndVerboseConflict,
}

impl CliError {
    /// The message describing this error.
    pub fn message(&self) -> (r: String)
        ensures
            r@ == "--quiet and --verbose cannot be used together"@,
    {
        let m: String = "--quiet and --verbose cannot be used together".to_owned();
        m
    }
}

/// The logging level the shared flags ask for: everything off under `quiet`,
/// everything on under `verbose`, the informational default otherwise.
pub open spec fn log_level_for_spec(quiet: bool, verbose: bool) -> LogLevel {
    if quiet {
        LogLevel::Off
    } else if verbose {
        LogLevel::Trace
    } else {
        LogLevel::Info
    }
}

/// The logging level the shared flags ask for; giving both `quiet` and
/// `verbose` is refused.
pub fn log_level_for(base_args: &BaseArgs) -> (r: Result<LogLevel, CliError>)
    ensures
        base_args.quiet && base_args.verbose ==> r is Err,
        !(base_args.quiet && base_args.verbose) ==> r == Ok::<LogLevel, CliError>(
            log_level_for_spec(base_args.quiet, base_args.verbose),
        ),
{
    if base_args.quiet && base_args.verbose {
        return Err(CliError::QuietAndVerboseConflict);
    }
    if base_args.quiet {
        Ok(LogLevel::Off)
    } else if base_args.verbose {
        Ok(LogLevel::Trace)
    } else {
        Ok(LogLevel::Info)
    }
}

/// The `argv` an alias binary stands for: the package name, then the
/// subcommand — the override when one is given, otherwise the stem of the
/// alias's file name — then everything after the alias's own name. `None`
/// when `argv` is empty or, absent an override, when its first entry has no
/// final path segment to take a stem from.
pub open spec fn alias_invocation_spec(
    command_name: Option<Seq<char>>,
    argv: Seq<Seq<char>>,
) -> Option<Seq<Seq<char>>> {
    if argv.len() == 0 {
        None
    } else {
        let sub = match command_name {
            Some(n) => Some(n),
            None => match text::path_file_name_spec(argv[0]) {
                Some(fname) => Some(text::file_stem_spec(fname)),
                None => None,
            },
        };
        match sub {
            None => None,
            Some(s) => Some(seq![PACKAGE_NAME@, s] + argv.drop_first()),
        }
    }
}

/// The `argv` an alias binary stands for, as [`alias_invocation_spec`]
/// describes.
pub fn alias_invocation(command_name: Option<String>, argv: &Vec<String>) -> (r: Option<
    Vec<String>,
>)
    ensures
        r.deep_view() == alias_invocation_spec(
            match command_name {
                Some(n) => Some(n@),
                None => None,
            },
            argv.deep_view(),
        ),
{
    let ghost dv = argv.deep_view();
    if argv.len() == 0 {
        return None;
    }
    let sub = match command_name {
        Some(n) => n,
        None => match text::path_file_name(argv[0].as_str()) {
            Some(fname) => text::file_stem(fname.as_str()),
            None => {
                return None;
            },
        },
    };
    let ghost subv = sub@;
    let mut out: Vec<String> = Vec::new();
    out.push(PACKAGE_NAME.to_owned());
    out.push(sub);
    proof {
        assert(out.deep_view() =~= seq![PACKAGE_NAME@, subv] + dv.subrange(1, 1));
    }
    let n = argv.len();
    let mut i: usize = 1;
    while i < n
        invariant
            n == argv.len(),
            argv.deep_view() == dv,
            n >= 1,
            1 <= i <= n,
            out.deep_view() == seq![PACKAGE_NAME@, subv] + dv.subrange(1, i as int),
        decreases n - i,
    {
        let ghost old_out = out.deep_view();
        out.push(argv[i].clone());
        proof {
            assert(out.deep_view() =~= old_out.push(dv[i as int]));
            assert(dv.subrange(1, i + 1) =~= dv.subrange(1, i as int).push(dv[i as int]));
            assert(old_out.push(dv[i as int]) =~= seq![PACKAGE_NAME@, subv] + dv.subrange(
                1,
                i + 1,
            ));
        }
        i = i + 1;
    }
    proof {
        assert(dv.subrange(1, n as int) =~= dv.drop_first());
    }
    Some(out)
}

} // verus!
