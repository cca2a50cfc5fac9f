use suitcase::cli;
use suitcase::progress::{LogLevel, Progress, ProgressChoice};

#[test]
fn log_level_follows_the_flags() {
    let quiet = cli::BaseArgs { verbose: false, quiet: true };
    assert!(matches!(cli::log_level_for(&quiet), Ok(LogLevel::Off)));
    let verbose = cli::BaseArgs { verbose: true, quiet: false };
    assert!(matches!(cli::log_level_for(&verbose), Ok(LogLevel::Trace)));
    let neither = cli::BaseArgs { verbose: false, quiet: false };
    assert!(matches!(cli::log_level_for(&neither), Ok(LogLevel::Info)));
}

#[test]
fn quiet_and_verbose_together_are_refused() {
    let both = cli::BaseArgs { verbose: true, quiet: true };
    match cli::log_level_for(&both) {
        Err(e) => assert_eq!(e.message(), "--quiet and --verbose cannot be used together"),
        Ok(_) => panic!("the flag conflict must be refused"),
    }
}

#[test]
fn alias_invocation_uses_the_alias_file_stem() {
    let argv: Vec<String> = vec!["/usr/local/bin/gho".into(), "some/path".into()];
    let r = cli::alias_invocation(None, &argv).unwrap();
    assert_eq!(r, vec!["suitcase", "gho", "some/path"]);
}

#[test]
fn alias_invocation_prefers_the_override() {
    let argv: Vec<String> = vec!["/usr/local/bin/whatever".into(), "--verbose".into()];
    let r = cli::alias_invocation(Some("fua".to_string()), &argv).unwrap();
    assert_eq!(r, vec!["suitcase", "fua", "--verbose"]);
}

#[test]
fn alias_invocation_strips_an_extension() {
    let argv: Vec<String> = vec!["bin/ford.exe".into()];
    let r = cli::alias_invocation(None, &argv).unwrap();
    assert_eq!(r, vec!["suitcase", "ford"]);
}

#[test]
fn alias_invocation_refuses_unusable_argv() {
    let empty: Vec<String> = vec![];
    assert!(cli::alias_invocation(None, &empty).is_none());
    let no_name: Vec<String> = vec!["/usr/bin/".into()];
    assert!(cli::alias_invocation(None, &no_name).is_none());
}

#[test]
fn progress_is_silent_only_when_logging_is_off() {
    assert!(matches!(Progress::new("Working", &LogLevel::Off), ProgressChoice::Silent));
    match Progress::new("Working", &LogLevel::Info) {
        ProgressChoice::Visible { prompt } => assert_eq!(prompt, "Working"),
        ProgressChoice::Silent => panic!("info level must show the spinner"),
    }
    assert!(matches!(
        Progress::new("Working", &LogLevel::Trace),
        ProgressChoice::Visible { .. }
    ));
}
