use rustgrep::Config;

#[test]
fn contains_none() {
    let args = [String::from("foo"), String::from("bar")];
    let config = Config::new(&args).unwrap();
    let runner = config.create_runner();

    assert_eq!(false, runner.is_match("bat"));
}

#[test]
fn contains_one() {
    let args = [String::from("foo"), String::from("bar")];
    let config = Config::new(&args).unwrap();
    let runner = config.create_runner();

    assert_eq!(true, runner.is_match("xbarbat"));
}

#[test]
fn contains_few() {
    let args = [String::from("foo"), String::from("bar")];
    let config = Config::new(&args).unwrap();
    let runner = config.create_runner();

    assert_eq!(true, runner.is_match("xbarbatFoox"));
}

#[test]
fn zero_args_is_an_error() {
    let args: [String; 0] = [];
    let err = Config::new(&args).err().unwrap();
    assert_eq!("not enough arguments", err);
}

#[test]
fn no_patterns_matches_nothing() {
    let args = [String::from("-v")];
    let config = Config::new(&args).unwrap();
    let runner = config.create_runner();

    assert_eq!(false, runner.is_match("anything at all"));
    assert_eq!(false, runner.is_match(""));
}

#[test]
fn empty_pattern_matches_every_line() {
    let args = [String::from("")];
    let config = Config::new(&args).unwrap();
    let runner = config.create_runner();

    assert_eq!(true, runner.is_match("abc"));
    assert_eq!(true, runner.is_match(""));
}

#[test]
fn literal_mode_takes_metacharacters_verbatim() {
    let args = [String::from("a.c")];
    let config = Config::new(&args).unwrap();
    let runner = config.create_runner();

    assert_eq!(false, runner.is_match("abc"));
    assert_eq!(true, runner.is_match("xa.cy"));
}

#[test]
fn literal_is_case_sensitive_by_default() {
    let args = [String::from("FOO")];
    let config = Config::new(&args).unwrap();
    let runner = config.create_runner();

    assert_eq!(false, runner.is_match("xfooy"));
    assert_eq!(true, runner.is_match("xFOOy"));
}

#[test]
fn ignore_case_literal() {
    let args = [String::from("-i"), String::from("FOO")];
    let config = Config::new(&args).unwrap();
    let runner = config.create_runner();

    assert_eq!(true, runner.is_match("xfooy"));
    assert_eq!(true, runner.is_match("XFOOY"));
    assert_eq!(false, runner.is_match("xfoy"));
}

#[test]
fn flag_position_does_not_matter() {
    let args = [String::from("FOO"), String::from("-i")];
    let config = Config::new(&args).unwrap();
    let runner = config.create_runner();

    assert_eq!(true, runner.is_match("xfooy"));
}

#[test]
fn regex_anchored_pattern() {
    let args = [String::from("-r"), String::from("^a.*z$")];
    let config = Config::new(&args).unwrap();
    let runner = config.create_runner();

    assert_eq!(true, runner.is_match("abcz"));
    assert_eq!(false, runner.is_match("abc"));
}

#[test]
fn regex_ignore_case() {
    let args = [String::from("-r"), String::from("-i"), String::from("^A.*Z$")];
    let config = Config::new(&args).unwrap();
    let runner = config.create_runner();

    assert_eq!(true, runner.is_match("abcz"));
    assert_eq!(false, runner.is_match("bcz"));
}

#[test]
fn regex_long_flags() {
    let args = [String::from("--regexp"), String::from("ba+t")];
    let config = Config::new(&args).unwrap();
    let runner = config.create_runner();

    assert_eq!(true, runner.is_match("a baaat!"));
    assert_eq!(false, runner.is_match("a bt!"));
}

#[test]
fn invalid_regex_fails_with_message() {
    let args = [String::from("-r"), String::from("(unterminated")];
    let err = Config::new(&args).err().unwrap();
    assert!(!err.is_empty());
}

#[test]
fn invalid_regex_in_literal_mode_is_fine() {
    let args = [String::from("(unterminated")];
    let config = Config::new(&args).unwrap();
    let runner = config.create_runner();

    assert_eq!(true, runner.is_match("x(unterminatedy"));
}

#[test]
fn help_flag_is_reported() {
    let args = [String::from("-h")];
    let config = Config::new(&args).unwrap();
    assert!(config.show_help());

    let args = [String::from("foo")];
    let config = Config::new(&args).unwrap();
    assert!(!config.show_help());
}

#[test]
fn help_suppresses_pattern_construction() {
    let args = [String::from("--help"), String::from("-r"), String::from("(bad")];
    let config = Config::new(&args).unwrap();
    assert!(config.show_help());

    let runner = config.create_runner();
    assert_eq!(false, runner.is_match("anything"));
}
