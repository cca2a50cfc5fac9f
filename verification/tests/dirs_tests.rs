use suitcase::dirs::{DirStackError, DirectoryUtils};

#[test]
fn new_stack_starts_in_the_initial_directory() {
    let d = DirectoryUtils::new("/home/me".to_string());
    assert_eq!(d.get_cwd(), "/home/me");
}

#[test]
fn pushd_changes_cwd_and_returns_the_previous_one() {
    let mut d = DirectoryUtils::new("/home/me".to_string());
    let prev = d.pushd("/work".to_string());
    assert_eq!(prev, "/home/me");
    assert_eq!(d.get_cwd(), "/work");
    let prev = d.pushd("/work/sub".to_string());
    assert_eq!(prev, "/work");
    assert_eq!(d.get_cwd(), "/work/sub");
}

#[test]
fn popd_returns_to_the_previous_directory() {
    let mut d = DirectoryUtils::new("/home/me".to_string());
    d.pushd("/work".to_string());
    let popped = d.popd().unwrap();
    assert_eq!(popped, "/work");
    assert_eq!(d.get_cwd(), "/home/me");
}

#[test]
fn popd_refuses_to_pop_the_root() {
    let mut d = DirectoryUtils::new("/home/me".to_string());
    match d.popd() {
        Err(e @ DirStackError::CannotPopRootDirectory) => {
            assert_eq!(e.message(), "cannot popd from root directory");
        }
        Ok(_) => panic!("popping the starting directory must be refused"),
    }
    assert_eq!(d.get_cwd(), "/home/me");
}
