use suitcase::text;

#[test]
fn trim_removes_surrounding_whitespace() {
    assert_eq!(text::trim("  hello \t\r\n"), "hello");
    assert_eq!(text::trim("hello"), "hello");
    assert_eq!(text::trim(""), "");
    assert_eq!(text::trim(" \t "), "");
    assert_eq!(text::trim("a b"), "a b");
}

#[test]
fn split_char_matches_std() {
    let r = text::split_char("a,b,,c", ',');
    assert_eq!(r, vec!["a", "b", "", "c"]);
    let r = text::split_char("", ',');
    assert_eq!(r, vec![""]);
    let r = text::split_char(",x,", ',');
    assert_eq!(r, vec!["", "x", ""]);
}

#[test]
fn lines_matches_std() {
    let cases = ["a\nb", "a\nb\n", "a\r\nb\r\n", "", "\n", "one", "a\n\nb", "a\r"];
    for case in cases {
        let expected: Vec<String> = case.lines().map(|l| l.to_string()).collect();
        assert_eq!(text::lines(case), expected, "case {:?}", case);
    }
}

#[test]
fn split_whitespace_matches_std() {
    let cases = ["a b  c", "  x ", "", "\t a \n b ", "one"];
    for case in cases {
        let expected: Vec<String> = case.split_whitespace().map(|t| t.to_string()).collect();
        assert_eq!(text::split_whitespace(case), expected, "case {:?}", case);
    }
}

#[test]
fn join_inserts_separator() {
    let parts: Vec<String> = vec!["a".into(), "b".into(), "c".into()];
    assert_eq!(text::join(&parts, ", "), "a, b, c");
    let one: Vec<String> = vec!["solo".into()];
    assert_eq!(text::join(&one, " "), "solo");
    let none: Vec<String> = vec![];
    assert_eq!(text::join(&none, " "), "");
}

#[test]
fn joining_split_pieces_gives_the_string_back() {
    let cases = ["a,b,,c", "", ",", "no separator", ",,trailing,"];
    for case in cases {
        let pieces = text::split_char(case, ',');
        assert_eq!(text::join(&pieces, ","), case, "case {:?}", case);
    }
}

#[test]
fn trimming_twice_is_trimming_once() {
    let cases = ["  x  ", "", " \t ", "a b", "\nmulti word \r\n"];
    for case in cases {
        let once = text::trim(case);
        assert_eq!(text::trim(&once), once, "case {:?}", case);
    }
}

#[test]
fn trim_matches_removes_only_the_given_char() {
    assert_eq!(text::trim_start_matches("vvv1.2.3", 'v'), "1.2.3");
    assert_eq!(text::trim_start_matches("1.2.3", 'v'), "1.2.3");
    assert_eq!(text::trim_end_matches("0.5.2::", ':'), "0.5.2");
    assert_eq!(text::trim_end_matches("", ':'), "");
}

#[test]
fn str_eq_compares_contents() {
    assert!(text::str_eq("abc", "abc"));
    assert!(!text::str_eq("abc", "abd"));
    assert!(!text::str_eq("abc", "ab"));
    assert!(text::str_eq("", ""));
}

#[test]
fn starts_with_letter_checks_first_char() {
    assert!(text::starts_with_letter("suitcase v0.5.2:"));
    assert!(!text::starts_with_letter("    bin.exe"));
    assert!(!text::starts_with_letter(""));
    assert!(!text::starts_with_letter("1abc"));
    assert!(text::starts_with_letter("Zebra"));
}

#[test]
fn path_file_name_takes_final_segment() {
    assert_eq!(text::path_file_name("/home/me/proj"), Some("proj".to_string()));
    assert_eq!(text::path_file_name("proj"), Some("proj".to_string()));
    assert_eq!(text::path_file_name("/home/me/proj/"), None);
    assert_eq!(text::path_file_name(""), None);
    assert_eq!(text::path_file_name("/"), None);
}

#[test]
fn file_stem_matches_std() {
    let cases = ["gho", "gho.exe", ".bashrc", "a.b.c", "foo."];
    for case in cases {
        let expected = std::path::Path::new(case).file_stem().unwrap().to_str().unwrap();
        assert_eq!(text::file_stem(case), expected, "case {:?}", case);
    }
}

#[test]
fn last_nonblank_trimmed_line_searches_from_the_end() {
    assert_eq!(
        text::last_nonblank_trimmed_line("first\n  last one  \n   \n"),
        Some("last one".to_string())
    );
    assert_eq!(text::last_nonblank_trimmed_line("  \n \t \n"), None);
    assert_eq!(text::last_nonblank_trimmed_line(""), None);
    assert_eq!(text::last_nonblank_trimmed_line("only"), Some("only".to_string()));
}
