use rustgrep::contains_str;
use rustgrep::scan_args;
use rustgrep::str_eq;

#[test]
fn scan_resolves_all_flags() {
    let args = [
        String::from("-i"),
        String::from("foo"),
        String::from("--regex"),
        String::from("-v"),
        String::from("bar"),
    ];
    let scan = scan_args(&args);
    assert!(scan.ignore_case);
    assert!(scan.regex_mode);
    assert!(scan.verbose);
    assert!(!scan.show_help);
    assert_eq!(vec![String::from("foo"), String::from("bar")], scan.pattern_strs);
}

#[test]
fn scan_of_nothing() {
    let args: [String; 0] = [];
    let scan = scan_args(&args);
    assert!(!scan.ignore_case);
    assert!(!scan.regex_mode);
    assert!(!scan.verbose);
    assert!(!scan.show_help);
    assert!(scan.pattern_strs.is_empty());
}

#[test]
fn scan_recognizes_every_help_spelling() {
    for flag in ["-?", "-h", "--help"] {
        let args = [String::from(flag)];
        assert!(scan_args(&args).show_help);
    }
}

#[test]
fn str_eq_on_slices() {
    assert!(str_eq("abc", "abc"));
    assert!(!str_eq("abc", "abd"));
    assert!(!str_eq("abc", "abcd"));
    assert!(str_eq("", ""));
}

#[test]
fn contains_str_on_slices() {
    assert!(contains_str("hello world", "lo wo"));
    assert!(contains_str("hello", "hello"));
    assert!(contains_str("hello", ""));
    assert!(!contains_str("", "hello"));
    assert!(!contains_str("hello", "world"));
}
