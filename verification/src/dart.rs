//! Discovery of Dart and Flutter projects under a directory tree.
//!
//! A Dart project is a directory holding a `pubspec.yaml`. Discovery runs
//! `find` over the tree, takes the directory of each `pubspec.yaml` it
//! reports, drops the well-known dependency and build folders that also carry
//! one, and reads each remaining project's `pubspec.yaml` to tell Flutter
//! projects (those declaring a `flutter` entry under `dependencies`) from
//! plain Dart ones. Running `find`, resolving paths and reading files belong
//! to the surrounding binary; everything it decides with is here.

use crate::shell::{result_view, Shell};
use crate::text;
use vstd::prelude::*;
use vstd::string::StringExecFns;

verus! {

/// Folders that carry a `pubspec.yaml` of their own without being projects:
/// platform subdirectories and dependency or build output caches.
pub open spec fn is_ignored_folder(name: Seq<char>) -> bool {
    ||| name == "ios"@
    ||| name == "android"@
    ||| name == "windows"@
    ||| name == "linux"@
    ||| name == "macos"@
    ||| name == ".symlinks"@
    ||| name == ".plugin_symlinks"@
    ||| name == ".dart_tool"@
    ||| name == "build"@
    ||| name == ".fvm"@
}

/// Executable check for [`is_ignored_folder`].
pub fn folder_is_ignored(name: &str) -> (r: bool)
    ensures
        r == is_ignored_folder(name@),
{
    text::str_eq(name, "ios") || text::str_eq(name, "android") || text::str_eq(name, "windows")
        || text::str_eq(name, "linux") || text::str_eq(name, "macos") || text::str_eq(
        name,
        ".symlinks",
    ) || text::str_eq(name, ".plugin_symlinks") || text::str_eq(name, ".dart_tool")
        || text::str_eq(name, "build") || text::str_eq(name, ".fvm")
}

/// A discovered project: where it lives, what it is called (its directory
/// name), and whether its `pubspec.yaml` declares a Flutter dependency.
#[derive(Debug)]
pub struct DartProjectMetadata {
    pub path: String,
    pub name: String,
    pub is_flutter_project: bool,
}

impl Clone for DartProjectMetadata {
    fn clone(&self) -> (r: Self)
        ensures
            r == *self,
    {
        DartProjectMetadata {
            path: self.path.clone(),
            name: self.name.clone(),
            is_flutter_project: self.is_flutter_project,
        }
    }
}

/// Mathematical model of [`DartProjectMetadata`].
pub struct DartProjectMetadataView {
    pub path: Seq<char>,
    pub name: Seq<char>,
    pub is_flutter_project: bool,
}

impl View for DartProjectMetadata {
    type V = DartProjectMetadataView;

    open spec fn view(&self) -> DartProjectMetadataView {
        DartProjectMetadataView {
            path: self.path@,
            name: self.name@,
            is_flutter_project: self.is_flutter_project,
        }
    }
}

impl DeepView for DartProjectMetadata {
    type V = DartProjectMetadataView;

    open spec fn deep_view(&self) -> DartProjectMetadataView {
        self.view()
    }
}

/// Why a discovered directory could not be turned into project metadata.
#[derive(Debug)]
pub enum DartMetadataError {
    /// The path has no final segment to name the project by.
    InvalidProjectPath { path: String },
    /// The project's `pubspec.yaml` is not valid YAML.
    PubspecParseFailure { path: String },
}

/// Mathematical model of [`DartMetadataError`].
pub enum DartMetadataErrorView {
    InvalidProjectPath { path: Seq<char> },
    PubspecParseFailure { path: Seq<char> },
}

impl View for DartMetadataError {
    type V = DartMetadataErrorView;

    open spec fn view(&self) -> DartMetadataErrorView {
        match self {
            DartMetadataError::InvalidProjectPath { path } => {
                DartMetadataErrorView::InvalidProjectPath { path: path@ }
            },
            DartMetadataError::PubspecParseFailure { path } => {
                DartMetadataErrorView::PubspecParseFailure { path: path@ }
            },
        }
    }
}

/// Whether a pubspec document's `dependencies.flutter` entry is null or
/// absent; `None` when the text is not valid YAML.
pub uninterp spec fn pubspec_flutter_dep_null(s: Seq<char>) -> Option<bool>;

/// Relies on serde_yaml::from_str and serde_yaml::Value: indexing a value
/// (`doc["k"]` yields null for a missing key or a non-mapping) and
/// Value::is_null. The result is a function of the document text alone;
/// `None` exactly when the text is not valid YAML.
#[verifier::external_body]
fn flutter_dependency_entry_is_null(contents: &str) -> (r: Option<bool>)
    ensures
        r == pubspec_flutter_dep_null(contents@),
{
    match serde_yaml::from_str::<serde_yaml::Value>(contents) {
        Ok(doc) => Some(doc["dependencies"]["flutter"].is_null()),
        Err(_) => None,
    }
}

/// The command that discovers candidate project directories: `find` over the
/// tree, printing the directory of every `pubspec.yaml`.
pub open spec fn find_dart_projects_command_spec(path: Seq<char>) -> (Seq<char>, Seq<Seq<char>>) {
    (
        "find"@,
        seq![
            path,
            "-type"@,
            "f"@,
            "-name"@,
            "pubspec.yaml"@,
            "-exec"@,
            "dirname"@,
            "{}"@,
            ";"@,
        ],
    )
}

/// The trimmed lines of `find` output: one candidate directory per line.
pub open spec fn project_dirs_spec(stdout: Seq<char>) -> Seq<Seq<char>> {
    text::lines_spec(stdout).map_values(|l: Seq<char>| text::trim_spec(l))
}

/// The candidate directories with the well-known non-project folders removed,
/// in order. A directory is kept when it has no final path segment or when
/// that segment is not one of the ignored folder names.
pub open spec fn filter_project_dirs_spec(dirs: Seq<Seq<char>>) -> Seq<Seq<char>>
    decreases dirs.len(),
{
    if dirs.len() == 0 {
        Seq::empty()
    } else {
        let rest = filter_project_dirs_spec(dirs.drop_last());
        let keep = match text::path_file_name_spec(dirs.last()) {
            Some(seg) => !is_ignored_folder(seg),
            None => true,
        };
        if keep {
            rest.push(dirs.last())
        } else {
            rest
        }
    }
}

/// What metadata assembly yields for a project directory and the text of its
/// `pubspec.yaml`: the project named by the directory's final path segment,
/// a Flutter project exactly when the document's `dependencies.flutter` entry
/// is present and non-null.
pub open spec fn project_metadata_spec(path: Seq<char>, pubspec: Seq<char>) -> Result<
    DartProjectMetadataView,
    DartMetadataErrorView,
> {
    match text::path_file_name_spec(path) {
        None => Err(DartMetadataErrorView::InvalidProjectPath { path }),
        Some(name) => match pubspec_flutter_dep_null(pubspec) {
            None => Err(DartMetadataErrorView::PubspecParseFailure { path }),
            Some(entry_is_null) => Ok(
                DartProjectMetadataView { path, name, is_flutter_project: !entry_is_null },
            ),
        },
    }
}

/// A shell with the Dart-specific discovery operations on it.
pub struct DartShell<'a> {
    pub shell: &'a Shell,
}

impl<'a> DartShell<'a> {
    /// Creates a new `DartShell` around the given shell.
    pub fn new(shell: &'a Shell) -> (r: Self)
        ensures
            r.shell == shell,
    {
        Self { shell }
    }

    /// The `find` invocation that lists candidate project directories under
    /// `path`, as [`find_dart_projects_command_spec`] describes.
    pub fn find_dart_projects_command(&self, path: &str) -> (r: (String, Vec<String>))
        ensures
            (r.0@, r.1.deep_view()) == find_dart_projects_command_spec(path@),
    {
        let mut args: Vec<String> = Vec::new();
        args.push(String::from_str(path));
        args.push(String::from_str("-type"));
        args.push(String::from_str("f"));
        args.push(String::from_str("-name"));
        args.push(String::from_str("pubspec.yaml"));
        args.push(String::from_str("-exec"));
        args.push(String::from_str("dirname"));
        args.push(String::from_str("{}"));
        args.push(String::from_str(";"));
        proof {
            assert(args.deep_view() =~= find_dart_projects_command_spec(path@).1);
        }
        (String::from_str("find"), args)
    }

    /// The candidate directories that `find` reported: its trimmed output
    /// lines, as [`project_dirs_spec`] describes.
    pub fn project_dirs_from_find_output(&self, stdout: &str) -> (r: Vec<String>)
        ensures
            r.deep_view() == project_dirs_spec(stdout@),
    {
        let ls = text::lines(stdout);
        let ghost dv = ls.deep_view();
        let n = ls.len();
        proof {
            assert(dv.len() == n);
        }
        let mut r: Vec<String> = Vec::new();
        let mut i: usize = 0;
        while i < n
            invariant
                n == ls.len(),
                ls.deep_view() == dv,
                0 <= i <= n,
                r.deep_view() == dv.subrange(0, i as int).map_values(
                    |l: Seq<char>| text::trim_spec(l),
                ),
            decreases n - i,
        {
            let ghost old_r = r.deep_view();
            let t = text::trim(ls[i].as_str());
            r.push(t);
            proof {
                assert(r.deep_view() =~= old_r.push(r@[r@.len() - 1]@));
                assert(dv.subrange(0, i + 1) =~= dv.subrange(0, i as int).push(dv[i as int]));
                assert(dv.subrange(0, i + 1).map_values(|l: Seq<char>| text::trim_spec(l))
                    =~= dv.subrange(0, i as int).map_values(|l: Seq<char>| text::trim_spec(l)).push(
                    text::trim_spec(dv[i as int]),
                ));
            }
            i = i + 1;
        }
        proof {
            assert(dv.subrange(0, n as int) =~= dv);
        }
        r
    }

    /// The candidate directories with ignored folders removed, as
    /// [`filter_project_dirs_spec`] describes.
    pub fn filter_project_dirs(&self, dirs: &Vec<String>) -> (r: Vec<String>)
        ensures
            r.deep_view() == filter_project_dirs_spec(dirs.deep_view()),
    {
        let ghost dv = dirs.deep_view();
        let n = dirs.len();
        proof {
            assert(dv.len() == n);
        }
        let mut r: Vec<String> = Vec::new();
        let mut i: usize = 0;
        while i < n
            invariant
                n == dirs.len(),
                dirs.deep_view() == dv,
                0 <= i <= n,
                r.deep_view() == filter_project_dirs_spec(dv.subrange(0, i as int)),
            decreases n - i,
        {
            proof {
                assert(dv.subrange(0, i + 1).drop_last() =~= dv.subrange(0, i as int));
                assert(dv.subrange(0, i + 1).last() == dv[i as int]);
            }
            let keep = match text::path_file_name(dirs[i].as_str()) {
                Some(seg) => !folder_is_ignored(seg.as_str()),
                None => true,
            };
            if keep {
                let ghost old_r = r.deep_view();
                r.push(dirs[i].clone());
                proof {
                    assert(r.deep_view() =~= old_r.push(r@[r@.len() - 1]@));
                }
            }
            i = i + 1;
        }
        proof {
            assert(dv.subrange(0, n as int) =~= dv);
        }
        r
    }

    /// The metadata of the project in the given directory, read off the text
    /// of its `pubspec.yaml`, as [`project_metadata_spec`] describes.
    pub fn get_dart_project_metadata(&self, path: String, pubspec_contents: &str) -> (r: Result<
        DartProjectMetadata,
        DartMetadataError,
    >)
        ensures
            result_view(r) == project_metadata_spec(path@, pubspec_contents@),
    {
        let name = match text::path_file_name(path.as_str()) {
            Some(n) => n,
            None => {
                return Err(DartMetadataError::InvalidProjectPath { path });
            },
        };
        match flutter_dependency_entry_is_null(pubspec_contents) {
            Some(entry_is_null) => Ok(
                DartProjectMetadata { path, name, is_flutter_project: !entry_is_null },
            ),
            None => Err(DartMetadataError::PubspecParseFailure { path }),
        }
    }
}

} // verus!
