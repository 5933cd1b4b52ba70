//! A small line-filtering library: patterns are either literal substrings
//! (optionally case-insensitive) or regular expressions, and a line matches
//! when at least one configured pattern matches it.
mod config;
mod pattern;
mod text;

pub use config::ArgScan;
pub use config::Config;
pub use config::Runner;
pub use config::any_match;
pub use config::chosen_kind;
pub use config::config_must_fail;
pub use config::has_help;
pub use config::has_ignore_case;
pub use config::has_regex_mode;
pub use config::has_verbose;
pub use config::is_flag;
pub use config::is_help_flag;
pub use config::is_ignore_case_flag;
pub use config::is_regex_flag;
pub use config::is_verbose_flag;
pub use config::lemma_empty_matches_nothing;
pub use config::lemma_help_never_fails;
pub use config::positionals;
pub use config::scan_args;
pub use pattern::Matcher;
pub use pattern::MatcherModel;
pub use pattern::PatternKind;
pub use pattern::expected_model;
pub use pattern::lower_of;
pub use pattern::model_matches;
pub use pattern::regex_compiles;
pub use pattern::regex_lang;
pub use pattern::regex_lang_of;
pub use text::contains_at;
pub use text::contains_seq;
pub use text::contains_str;
pub use text::str_eq;
