use suitcase::dart::{DartMetadataError, DartShell};
use suitcase::shell::Shell;

#[test]
fn folder_is_ignored_knows_the_list() {
    assert!(suitcase::dart::folder_is_ignored("ios"));
    assert!(suitcase::dart::folder_is_ignored(".dart_tool"));
    assert!(suitcase::dart::folder_is_ignored("build"));
    assert!(!suitcase::dart::folder_is_ignored("my_app"));
    assert!(!suitcase::dart::folder_is_ignored("iosish"));
}

#[test]
fn find_command_lists_pubspec_directories() {
    let shell = Shell::new();
    let dart = DartShell::new(&shell);
    let (program, args) = dart.find_dart_projects_command("/work");
    assert_eq!(program, "find");
    assert_eq!(
        args,
        vec!["/work", "-type", "f", "-name", "pubspec.yaml", "-exec", "dirname", "{}", ";"]
    );
}

#[test]
fn project_dirs_are_the_trimmed_output_lines() {
    let shell = Shell::new();
    let dart = DartShell::new(&shell);
    let dirs = dart.project_dirs_from_find_output("/work/a \n  /work/b\n\n");
    assert_eq!(dirs, vec!["/work/a", "/work/b", ""]);
}

#[test]
fn filter_drops_ignored_folders() {
    let shell = Shell::new();
    let dart = DartShell::new(&shell);
    let dirs: Vec<String> = vec![
        "/work/app".into(),
        "/work/app/ios".into(),
        "/work/app/.dart_tool".into(),
        "/work/other".into(),
        "/work/app/build".into(),
    ];
    let kept = dart.filter_project_dirs(&dirs);
    assert_eq!(kept, vec!["/work/app", "/work/other"]);
}

#[test]
fn metadata_of_a_flutter_project() {
    let shell = Shell::new();
    let dart = DartShell::new(&shell);
    let pubspec = "\
name: my_app
dependencies:
  flutter:
    sdk: flutter
  http: ^1.0.0
";
    let m = dart
        .get_dart_project_metadata("/work/my_app".to_string(), pubspec)
        .unwrap();
    assert_eq!(m.path, "/work/my_app");
    assert_eq!(m.name, "my_app");
    assert!(m.is_flutter_project);
}

#[test]
fn metadata_of_a_plain_dart_project() {
    let shell = Shell::new();
    let dart = DartShell::new(&shell);
    let pubspec = "\
name: tool
dependencies:
  args: ^2.0.0
";
    let m = dart
        .get_dart_project_metadata("/work/tool".to_string(), pubspec)
        .unwrap();
    assert_eq!(m.name, "tool");
    assert!(!m.is_flutter_project);
}

#[test]
fn metadata_without_dependencies_section_is_not_flutter() {
    let shell = Shell::new();
    let dart = DartShell::new(&shell);
    let m = dart
        .get_dart_project_metadata("/work/bare".to_string(), "name: bare\n")
        .unwrap();
    assert!(!m.is_flutter_project);
}

#[test]
fn metadata_of_invalid_yaml_is_refused() {
    let shell = Shell::new();
    let dart = DartShell::new(&shell);
    let r = dart.get_dart_project_metadata("/work/x".to_string(), ": : :\n\t bad");
    match r {
        Err(DartMetadataError::PubspecParseFailure { path }) => assert_eq!(path, "/work/x"),
        _ => panic!("invalid yaml must be refused"),
    }
}

#[test]
fn metadata_of_a_path_without_a_name_is_refused() {
    let shell = Shell::new();
    let dart = DartShell::new(&shell);
    let r = dart.get_dart_project_metadata("/work/x/".to_string(), "name: x\n");
    match r {
        Err(DartMetadataError::InvalidProjectPath { path }) => assert_eq!(path, "/work/x/"),
        _ => panic!("a path with no final segment must be refused"),
    }
}
