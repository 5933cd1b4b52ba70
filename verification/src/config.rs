//! Configuration assembly and the match runner: command-line tokens are
//! scanned left to right into flags and positional pattern strings, the flags
//! are fully resolved, and then every positional string is realized into a
//! matcher under the resolved mode; a runner answers whether a line satisfies
//! at least one of the configured matchers.
use vstd::prelude::*;
use vstd::string::StringExecFns;

use crate::pattern::Matcher;
use crate::pattern::MatcherModel;
use crate::pattern::PatternKind;
use crate::pattern::expected_model;
use crate::pattern::model_matches;
use crate::pattern::regex_compiles;
use crate::text::str_eq;

verus! {

/// The token turns case-insensitive matching on.
pub open spec fn is_ignore_case_flag(a: Seq<char>) -> bool {
    a == "-i"@ || a == "--ignore-case"@
}

/// The token switches the active factory to regular expressions.
pub open spec fn is_regex_flag(a: Seq<char>) -> bool {
    a == "-r"@ || a == "--regex"@ || a == "--regexp"@
}

/// The token turns the diagnostic echo on.
pub open spec fn is_verbose_flag(a: Seq<char>) -> bool {
    a == "-v"@ || a == "--verbose"@
}

/// The token asks for the usage text.
pub open spec fn is_help_flag(a: Seq<char>) -> bool {
    a == "-?"@ || a == "-h"@ || a == "--help"@
}

/// The token is a flag of any kind; every other token is a pattern string.
pub open spec fn is_flag(a: Seq<char>) -> bool {
    is_ignore_case_flag(a) || is_regex_flag(a) || is_verbose_flag(a) || is_help_flag(a)
}

/// Some token turns case-insensitive matching on.
pub open spec fn has_ignore_case(args: Seq<String>) -> bool
    decreases args.len(),
{
    args.len() > 0 && (has_ignore_case(args.drop_last()) || is_ignore_case_flag(args.last()@))
}

/// Some token selects regex mode.
pub open spec fn has_regex_mode(args: Seq<String>) -> bool
    decreases args.len(),
{
    args.len() > 0 && (has_regex_mode(args.drop_last()) || is_regex_flag(args.last()@))
}

/// Some token turns the diagnostic echo on.
pub open spec fn has_verbose(args: Seq<String>) -> bool
    decreases args.len(),
{
    args.len() > 0 && (has_verbose(args.drop_last()) || is_verbose_flag(args.last()@))
}

/// Some token asks for the usage text.
pub open spec fn has_help(args: Seq<String>) -> bool
    decreases args.len(),
{
    args.len() > 0 && (has_help(args.drop_last()) || is_help_flag(args.last()@))
}

/// The pattern strings among the tokens, in token order.
pub open spec fn positionals(args: Seq<String>) -> Seq<Seq<char>>
    decreases args.len(),
{
    if args.len() == 0 {
        Seq::empty()
    } else if is_flag(args.last()@) {
        positionals(args.drop_last())
    } else {
        positionals(args.drop_last()).push(args.last()@)
    }
}

/// The factory the tokens resolve to: regex mode if any regex flag occurs,
/// literal text otherwise.
pub open spec fn chosen_kind(args: Seq<String>) -> PatternKind {
    if has_regex_mode(args) {
        PatternKind::Regex
    } else {
        PatternKind::Text
    }
}

/// Construction must fail: either no tokens at all, or (help absent) regex
/// mode is active and some pattern string is not accepted by the engine.
pub open spec fn config_must_fail(args: Seq<String>) -> bool {
    ||| args.len() == 0
    ||| (!has_help(args) && has_regex_mode(args) && exists|k: int|
        0 <= k < positionals(args).len() && !regex_compiles(
            positionals(args)[k],
            has_ignore_case(args),
        ))
}

fn is_ignore_case_arg(a: &str) -> (r: bool)
    ensures
        r == is_ignore_case_flag(a@),
{
    str_eq(a, "-i") || str_eq(a, "--ignore-case")
}

fn is_regex_arg(a: &str) -> (r: bool)
    ensures
        r == is_regex_flag(a@),
{
    str_eq(a, "-r") || str_eq(a, "--regex") || str_eq(a, "--regexp")
}

fn is_verbose_arg(a: &str) -> (r: bool)
    ensures
        r == is_verbose_flag(a@),
{
    str_eq(a, "-v") || str_eq(a, "--verbose")
}

fn is_help_arg(a: &str) -> (r: bool)
    ensures
        r == is_help_flag(a@),
{
    str_eq(a, "-?") || str_eq(a, "-h") || str_eq(a, "--help")
}

/// The outcome of one left-to-right scan of the tokens: every flag fully
/// resolved, and the pattern strings in token order.
pub struct ArgScan {
    pub ignore_case: bool,
    pub regex_mode: bool,
    pub verbose: bool,
    pub show_help: bool,
    pub pattern_strs: Vec<String>,
}

/// Scan the tokens once, left to right. Flags may be interleaved with pattern
/// strings; they are resolved over the whole token list before any pattern is
/// realized, so a flag's position among the patterns has no effect.
pub fn scan_args(args: &[String]) -> (r: ArgScan)
    ensures
        r.ignore_case == has_ignore_case(args@),
        r.regex_mode == has_regex_mode(args@),
        r.verbose == has_verbose(args@),
        r.show_help == has_help(args@),
        r.pattern_strs@.map_values(|p: String| p@) == positionals(args@),
{
    let mut ignore_case = false;
    let mut regex_mode = false;
    let mut verbose = false;
    let mut show_help = false;
    let mut pattern_strs: Vec<String> = Vec::new();

    for i in 0..args.len()
        invariant
            ignore_case == has_ignore_case(args@.take(i as int)),
            regex_mode == has_regex_mode(args@.take(i as int)),
            verbose == has_verbose(args@.take(i as int)),
            show_help == has_help(args@.take(i as int)),
            pattern_strs@.map_values(|p: String| p@) == positionals(args@.take(i as int)),
    {
        proof {
            assert(args@.take(i as int + 1).drop_last() =~= args@.take(i as int));
            assert(args@.take(i as int + 1).last() == args@[i as int]);
        }
        let a = &args[i];
        let ignores = is_ignore_case_arg(a.as_str());
        let regexes = is_regex_arg(a.as_str());
        let verboses = is_verbose_arg(a.as_str());
        let helps = is_help_arg(a.as_str());
        if ignores {
            ignore_case = true;
        }
        if regexes {
            regex_mode = true;
        }
        if verboses {
            verbose = true;
        }
        if helps {
            show_help = true;
        }
        if !ignores && !regexes && !verboses && !helps {
            pattern_strs.push(a.clone());
            proof {
                assert(pattern_strs@.map_values(|p: String| p@) =~= positionals(
                    args@.take(i as int + 1),
                ));
            }
        }
    }
    proof {
        assert(args@.take(args@.len() as int) =~= args@);
    }
    ArgScan { ignore_case, regex_mode, verbose, show_help, pattern_strs }
}

/// The finalized configuration: the realized matcher list and whether the
/// usage text was asked for. The matcher list is never mutated after
/// construction.
pub struct Config {
    patterns: Vec<Matcher>,
    show_help: bool,
}

impl Config {
    /// The models of the configured matchers, in token order.
    pub closed spec fn models(self) -> Seq<MatcherModel> {
        self.patterns@.map_values(|m: Matcher| m.model())
    }

    /// Whether the usage text was asked for.
    pub closed spec fn spec_show_help(self) -> bool {
        self.show_help
    }

    /// Assemble a configuration from the command-line tokens. With no tokens
    /// at all this fails; with a help flag present it succeeds with no
    /// matchers and no pattern is realized; otherwise every pattern string is
    /// realized under the fully resolved flags, and the first pattern the
    /// engine rejects fails the whole construction with the engine's own
    /// message.
    pub fn new(args: &[String]) -> (r: Result<Config, String>)
        ensures
            r is Err <==> config_must_fail(args@),
            args@.len() == 0 ==> (r is Err && r->Err_0@ == "not enough arguments"@),
            r is Ok ==> r->Ok_0.spec_show_help() == has_help(args@),
            r is Ok && has_help(args@) ==> r->Ok_0.models().len() == 0,
            r is Ok && !has_help(args@) ==> {
                let ps = positionals(args@);
                &&& r->Ok_0.models().len() == ps.len()
                &&& forall|k: int|
                    0 <= k < ps.len() ==> r->Ok_0.models()[k] == expected_model(
                        ps[k],
                        chosen_kind(args@),
                        has_ignore_case(args@),
                    )
            },
    {
        if args.len() < 1 {
            return Err(String::from_str("not enough arguments"));
        }

        let scan = scan_args(args);
        let kind = if scan.regex_mode {
            PatternKind::Regex
        } else {
            PatternKind::Text
        };
        let mut patterns: Vec<Matcher> = Vec::new();

        if !scan.show_help {
            let ghost ps = positionals(args@);
            let n = scan.pattern_strs.len();
            for k in 0..n
                invariant
                    n == scan.pattern_strs.len(),
                    scan.pattern_strs@.map_values(|p: String| p@) == ps,
                    ps == positionals(args@),
                    scan.ignore_case == has_ignore_case(args@),
                    kind == chosen_kind(args@),
                    !has_help(args@),
                    args@.len() > 0,
                    patterns@.len() == k,
                    forall|j: int|
                        0 <= j < k ==> #[trigger] patterns@[j].model() == expected_model(
                            ps[j],
                            chosen_kind(args@),
                            has_ignore_case(args@),
                        ),
                    forall|j: int|
                        0 <= j < k && chosen_kind(args@) is Regex ==> regex_compiles(
                            #[trigger] ps[j],
                            has_ignore_case(args@),
                        ),
            {
                proof {
                    assert(ps[k as int] == scan.pattern_strs@.map_values(|p: String| p@)[k as int]);
                }
                match Matcher::try_create(kind, scan.pattern_strs[k].as_str(), scan.ignore_case) {
                    Ok(m) => patterns.push(m),
                    Err(e) => {
                        proof {
                            assert(!regex_compiles(
                                positionals(args@)[k as int],
                                has_ignore_case(args@),
                            ));
                            assert(config_must_fail(args@));
                        }
                        return Err(e);
                    },
                }
            }
        }

        let config = Config { patterns, show_help: scan.show_help };
        proof {
            assert(!config_must_fail(args@));
        }
        Ok(config)
    }

    /// Whether the usage text was asked for.
    pub fn show_help(&self) -> (r: bool)
        ensures
            r == self.spec_show_help(),
    {
        self.show_help
    }

    /// A runner bound to this configuration's matcher list.
    pub fn create_runner(&self) -> (r: Runner<'_>)
        ensures
            r.models() == self.models(),
    {
        Runner::new(self)
    }
}

/// A line satisfies at least one of the matchers. False of the empty list,
/// whatever the line.
pub open spec fn any_match(ms: Seq<MatcherModel>, s: Seq<char>) -> bool {
    exists|i: int| 0 <= i < ms.len() && model_matches(ms[i], s)
}

/// A line never satisfies the empty matcher list: with no patterns configured,
/// no line matches.
pub proof fn lemma_empty_matches_nothing(ms: Seq<MatcherModel>, s: Seq<char>)
    requires
        ms.len() == 0,
    ensures
        !any_match(ms, s),
{
}

/// Law: with a help flag among the tokens, construction never fails for want
/// of a usable pattern — no pattern is realized at all — so together with
/// `Config::new`'s contract, a nonempty token list with a help flag always
/// yields a configuration, and its matcher list is empty, so normal matching
/// never runs.
pub proof fn lemma_help_never_fails(args: Seq<String>)
    requires
        args.len() > 0,
        has_help(args),
    ensures
        !config_must_fail(args),
{
}

/// A thin view over one configuration's matcher list, answering the single
/// query: does this line match?
pub struct Runner<'a> {
    config: &'a Config,
}

impl<'a> Runner<'a> {
    /// The models of the matchers this runner evaluates, in order.
    pub closed spec fn models(self) -> Seq<MatcherModel> {
        self.config.models()
    }

    fn new(config: &'a Config) -> (r: Runner<'a>)
        ensures
            r.models() == config.models(),
    {
        Runner { config }
    }

    /// Whether the line satisfies at least one configured matcher. Matchers
    /// are evaluated in construction order with a short circuit on the first
    /// match; matchers are pure, so order never changes the answer.
    pub fn is_match(&self, s: &str) -> (r: bool)
        ensures
            r == any_match(self.models(), s@),
    {
        let n = self.config.patterns.len();
        for i in 0..n
            invariant
                n == self.config.patterns.len(),
                self.models() == self.config.models(),
                forall|j: int| 0 <= j < i ==> !model_matches(self.models()[j], s@),
        {
            if self.config.patterns[i].is_match(s) {
                assert(model_matches(self.models()[i as int], s@));
                return true;
            }
        }
        false
    }
}

} // verus!
