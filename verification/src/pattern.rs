//! Matchers: a closed sum type over the three pattern variants (literal,
//! case-insensitive literal, regular expression), a factory that builds one
//! from a raw pattern string, and the trusted boundary to the regex engine.
use vstd::prelude::*;
use vstd::string::StringExecFns;

use crate::text::contains_seq;
use crate::text::contains_str;

verus! {

/// `regex::Regex` is opaque to the verifier; it is declared so that a compiled
/// expression can live in a `Matcher` field and cross trusted boundaries.
#[verifier::external_type_specification]
#[verifier::external_body]
pub struct ExRegex(regex::Regex);

/// The language of a compiled expression: the set of lines in which the
/// expression finds at least one match. `Regex::is_match` is a pure function
/// of the compiled expression and the line, so this set names its behaviour.
pub uninterp spec fn regex_lang(re: regex::Regex) -> Set<Seq<char>>;

/// The language of the expression compiled from a pattern string with the
/// given case-insensitivity flag. Compilation with the default builder
/// settings is deterministic, so this is a function of the two arguments.
pub uninterp spec fn regex_lang_of(pattern: Seq<char>, case_insensitive: bool) -> Set<Seq<char>>;

/// Whether the engine accepts the pattern: compilation with the default
/// builder settings succeeds on it, again a function of the two arguments.
pub uninterp spec fn regex_compiles(pattern: Seq<char>, case_insensitive: bool) -> bool;

/// What `str::to_lowercase` returns: a function of the characters alone.
pub uninterp spec fn lower_of(s: Seq<char>) -> Seq<char>;

/// Relies on `regex::RegexBuilder`: `new(pattern)` followed by
/// `case_insensitive(ci)` and `build()` succeeds exactly on the patterns the
/// engine accepts under that flag, and yields the expression those two
/// arguments determine. A failure is reported, never a panic.
#[verifier::external_body]
fn regex_build(pattern: &str, case_insensitive: bool) -> (r: Result<regex::Regex, String>)
    ensures
        r is Ok <==> regex_compiles(pattern@, case_insensitive),
        r is Ok ==> regex_lang(r->Ok_0) == regex_lang_of(pattern@, case_insensitive),
{
    let mut builder = regex::RegexBuilder::new(pattern);
    builder.case_insensitive(case_insensitive);
    match builder.build() {
        Ok(re) => Ok(re),
        Err(e) => Err(e.to_string()),
    }
}

/// Relies on `regex::Regex::is_match`: true exactly when the expression finds
/// at least one match anywhere in the line.
#[verifier::external_body]
fn regex_is_match(re: &regex::Regex, s: &str) -> (r: bool)
    ensures
        r == regex_lang(*re).contains(s@),
{
    re.is_match(s)
}

/// Relies on `str::to_lowercase`: the result depends on the characters alone.
#[verifier::external_body]
fn lowercase(s: &str) -> (r: String)
    ensures
        r@ == lower_of(s@),
{
    s.to_lowercase()
}

/// The mathematical model of a matcher: what it holds, with the compiled
/// expression abstracted to its language.
#[verifier::ext_equal]
pub enum MatcherModel {
    /// Case-sensitive literal: the query string as given.
    Lit { q: Seq<char> },
    /// Case-insensitive literal: the query string, already lowercased.
    LitNoCase { q: Seq<char> },
    /// Regular expression: the set of lines it matches.
    Re { lang: Set<Seq<char>> },
}

/// Whether a line satisfies a matcher.
pub open spec fn model_matches(m: MatcherModel, s: Seq<char>) -> bool {
    match m {
        MatcherModel::Lit { q } => contains_seq(s, q),
        MatcherModel::LitNoCase { q } => contains_seq(lower_of(s), q),
        MatcherModel::Re { lang } => lang.contains(s),
    }
}

/// A matcher: an immutable, side-effect-free predicate over a text line.
pub enum Matcher {
    Lit { q: String },
    LitNoCase { q: String },
    Re { re: regex::Regex },
}

/// Which factory is active: literal text (the default) or regular expression.
#[derive(Clone, Copy, PartialEq, Eq, Structural)]
pub enum PatternKind {
    Text,
    Regex,
}

/// The matcher that building a raw pattern string under the given mode and
/// case flag must produce.
pub open spec fn expected_model(p: Seq<char>, kind: PatternKind, ignore_case: bool) -> MatcherModel {
    match kind {
        PatternKind::Text => if ignore_case {
            MatcherModel::LitNoCase { q: lower_of(p) }
        } else {
            MatcherModel::Lit { q: p }
        },
        PatternKind::Regex => MatcherModel::Re { lang: regex_lang_of(p, ignore_case) },
    }
}

impl Matcher {
    /// The model of this matcher.
    pub closed spec fn model(self) -> MatcherModel {
        match self {
            Matcher::Lit { q } => MatcherModel::Lit { q: q@ },
            Matcher::LitNoCase { q } => MatcherModel::LitNoCase { q: q@ },
            Matcher::Re { re } => MatcherModel::Re { lang: regex_lang(re) },
        }
    }

    /// Build a matcher from a raw pattern string, or report why the pattern
    /// is unusable. Literal patterns always build; a regex pattern builds
    /// exactly when the engine accepts it.
    pub fn try_create(kind: PatternKind, raw: &str, ignore_case: bool) -> (r: Result<Matcher, String>)
        ensures
            r is Ok <==> (kind is Text || regex_compiles(raw@, ignore_case)),
            r is Ok ==> r->Ok_0.model() == expected_model(raw@, kind, ignore_case),
    {
        match kind {
            PatternKind::Text => {
                if ignore_case {
                    Ok(Matcher::LitNoCase { q: lowercase(raw) })
                } else {
                    Ok(Matcher::Lit { q: String::from_str(raw) })
                }
            },
            PatternKind::Regex => {
                match regex_build(raw, ignore_case) {
                    Ok(re) => Ok(Matcher::Re { re }),
                    Err(e) => Err(e),
                }
            },
        }
    }

    /// Law: a case-sensitive literal matcher built from query `p` matches a
    /// line exactly when `p` occurs as a contiguous substring of the line.
    pub proof fn lemma_literal_matches(p: Seq<char>, s: Seq<char>)
        ensures
            model_matches(expected_model(p, PatternKind::Text, false), s) == contains_seq(s, p),
    {
    }

    /// Law: a case-insensitive literal matcher built from query `p` matches a
    /// line exactly when the lowercased query occurs as a contiguous substring
    /// of the lowercased line.
    pub proof fn lemma_literal_matches_ignore_case(p: Seq<char>, s: Seq<char>)
        ensures
            model_matches(expected_model(p, PatternKind::Text, true), s) == contains_seq(
                lower_of(s),
                lower_of(p),
            ),
    {
    }

    /// Law: a regex matcher built from pattern `p` matches exactly the lines
    /// on which the expression compiled from `p` finds at least one match.
    pub proof fn lemma_regex_matches(p: Seq<char>, case_insensitive: bool, s: Seq<char>)
        ensures
            model_matches(expected_model(p, PatternKind::Regex, case_insensitive), s)
                == regex_lang_of(p, case_insensitive).contains(s),
    {
    }

    /// Whether the line satisfies this matcher.
    pub fn is_match(&self, s: &str) -> (r: bool)
        ensures
            r == model_matches(self.model(), s@),
    {
        match self {
            Matcher::Lit { q } => contains_str(s, q.as_str()),
            Matcher::LitNoCase { q } => {
                let low = lowercase(s);
                contains_str(low.as_str(), q.as_str())
            },
            Matcher::Re { re } => regex_is_match(re, s),
        }
    }
}

} // verus!
