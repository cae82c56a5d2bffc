//! Regular expressions and globs: what the warden has from `regex` and
//! `globset`.
//!
//! Neither language is described here. What a call makes of its arguments is
//! named, and its contracts speak of those names. They stand for
//! the results on the target that the crate is built for.

use vstd::prelude::*;

verus! {

/// `regex::Regex`, with nothing known of what is inside.
#[verifier::external_type_specification]
#[verifier::external_body]
pub struct ExRegex(regex::Regex);

/// `regex::Error`, with nothing known of what is inside.
#[verifier::external_type_specification]
#[verifier::external_body]
pub struct ExRegexError(regex::Error);

/// `globset::Glob`, with nothing known of what is inside.
#[verifier::external_type_specification]
#[verifier::external_body]
pub struct ExGlob(globset::Glob);

/// `globset::GlobMatcher`, with nothing known of what is inside.
#[verifier::external_type_specification]
#[verifier::external_body]
pub struct ExGlobMatcher(globset::GlobMatcher);

/// `globset::Error`, with nothing known of what is inside.
#[verifier::external_type_specification]
#[verifier::external_body]
pub struct ExGlobError(globset::Error);

/// What `regex::Regex::new` makes of a pattern.
pub uninterp spec fn regex_of(pattern: Seq<char>) -> Result<regex::Regex, regex::Error>;

/// Whether the regex of a pattern matches somewhere in a text.
pub uninterp spec fn regex_is_match(pattern: Seq<char>, text: Seq<char>) -> bool;

/// What `regex` prints for an error.
pub uninterp spec fn regex_error_text(error: regex::Error) -> Seq<char>;

/// What `globset::Glob::new` makes of a pattern.
pub uninterp spec fn glob_of(pattern: Seq<char>) -> Result<globset::Glob, globset::Error>;

/// Whether the regex that the glob of a pattern stands for can be built.
pub uninterp spec fn glob_builds(pattern: Seq<char>) -> bool;

/// The matcher that `globset` compiles for a pattern.
pub uninterp spec fn glob_matcher_of(pattern: Seq<char>) -> globset::GlobMatcher;

/// Whether the glob of a pattern matches the whole of a text.
pub uninterp spec fn glob_is_match(pattern: Seq<char>, text: Seq<char>) -> bool;

/// What `globset` prints for an error.
pub uninterp spec fn glob_error_text(error: globset::Error) -> Seq<char>;

/// The pattern is a regex.
pub open spec fn is_regex(pattern: Seq<char>) -> bool {
    regex_of(pattern) is Ok
}

/// The pattern is a glob.
pub open spec fn is_glob(pattern: Seq<char>) -> bool {
    glob_of(pattern) is Ok
}

/// A pattern that parses as a glob has a matcher, too. `globset` panics where
/// this fails.
pub open spec fn glob_is_safe(pattern: Seq<char>) -> bool {
    is_glob(pattern) ==> glob_builds(pattern)
}

/// A regex, compiled, with the pattern it was compiled from.
pub struct RegexMatch {
    pattern: String,
    regex: regex::Regex,
}

impl View for RegexMatch {
    type V = Seq<char>;

    /// The pattern.
    closed spec fn view(&self) -> Seq<char> {
        self.pattern@
    }
}

impl RegexMatch {
    #[verifier::type_invariant]
    spec fn is_compiled(self) -> bool {
        regex_of(self.pattern@) == Ok::<regex::Regex, regex::Error>(self.regex)
    }

    /// Compiles a pattern.
    pub fn new(pattern: String) -> (r: Result<RegexMatch, regex::Error>)
        ensures
            match r {
                Ok(m) => is_regex(pattern@) && m@ == pattern@,
                Err(e) => regex_of(pattern@) == Err::<regex::Regex, regex::Error>(e),
            },
    {
        match regex_new(pattern.as_str()) {
            Ok(regex) => Ok(RegexMatch { pattern, regex }),
            Err(e) => Err(e),
        }
    }

    /// Whether a pattern is a regex.
    pub fn probe(pattern: &str) -> (r: bool)
        ensures
            r == is_regex(pattern@),
    {
        regex_new(pattern).is_ok()
    }

    /// Unanchored: whether the regex matches anywhere in the command.
    pub fn matches(&self, command: &str) -> (r: bool)
        ensures
            r == regex_is_match(self@, command@),
    {
        proof {
            use_type_invariant(self);
        }
        regex_matches(self, command)
    }
}

/// A glob, parsed, with the pattern it was parsed from.
struct ParsedGlob {
    pattern: String,
    glob: globset::Glob,
}

impl ParsedGlob {
    #[verifier::type_invariant]
    spec fn is_parsed(self) -> bool {
        glob_of(self.pattern@) == Ok::<globset::Glob, globset::Error>(self.glob)
    }
}

/// A glob, compiled, with the pattern it was compiled from.
pub struct GlobMatch {
    pattern: String,
    matcher: globset::GlobMatcher,
}

impl View for GlobMatch {
    type V = Seq<char>;

    /// The pattern.
    closed spec fn view(&self) -> Seq<char> {
        self.pattern@
    }
}

impl GlobMatch {
    #[verifier::type_invariant]
    spec fn is_compiled(self) -> bool {
        &&& is_glob(self.pattern@)
        &&& glob_builds(self.pattern@)
        &&& glob_matcher_of(self.pattern@) == self.matcher
    }

    /// Compiles a pattern.
    pub fn new(pattern: String) -> (r: Result<GlobMatch, globset::Error>)
        requires
            glob_is_safe(pattern@),
        ensures
            match r {
                Ok(m) => is_glob(pattern@) && m@ == pattern@,
                Err(e) => glob_of(pattern@) == Err::<globset::Glob, globset::Error>(e),
            },
    {
        match glob_new(pattern.as_str()) {
            Ok(glob) => {
                let parsed = ParsedGlob { pattern, glob };
                let matcher = glob_compile(&parsed);
                Ok(GlobMatch { pattern: parsed.pattern, matcher })
            },
            Err(e) => Err(e),
        }
    }

    /// Whether a pattern is a glob, and if so, whether its matcher can be
    /// built, so that `new` may be called on it.
    pub fn probe(pattern: &str) -> (r: Option<bool>)
        ensures
            match r {
                None => !is_glob(pattern@),
                Some(builds) => is_glob(pattern@) && builds == glob_builds(pattern@),
            },
    {
        match glob_new(pattern) {
            Ok(glob) => Some(glob_can_build(&ParsedGlob { pattern: pattern.to_owned(), glob })),
            Err(_) => None,
        }
    }

    /// Anchored: whether the glob matches the whole command.
    pub fn matches(&self, command: &str) -> (r: bool)
        ensures
            r == glob_is_match(self@, command@),
    {
        proof {
            use_type_invariant(self);
        }
        glob_matches(self, command)
    }
}

/// `regex::Regex::new`: compiles a pattern with default options, or says what
/// is wrong with it.
#[verifier::external_body]
fn regex_new(pattern: &str) -> (r: Result<regex::Regex, regex::Error>)
    ensures
        r == regex_of(pattern@),
{
    regex::Regex::new(pattern)
}

/// `regex::Regex::is_match` on the regex that `regex::Regex::new` made of the
/// pattern: whether it matches anywhere in the text.
#[verifier::external_body]
fn regex_matches(m: &RegexMatch, text: &str) -> (r: bool)
    requires
        m.is_compiled(),
    ensures
        r == regex_is_match(m.pattern@, text@),
{
    m.regex.is_match(text)
}

/// The `Display` text of a `regex::Error`.
#[verifier::external_body]
pub(crate) fn regex_error(error: &regex::Error) -> (r: String)
    ensures
        r@ == regex_error_text(*error),
{
    error.to_string()
}

/// `globset::Glob::new`: parses a pattern with default options, or says what
/// is wrong with it. It recurses as deep as the braces of the pattern nest; how
/// deep the stack lets it is not stated.
#[verifier::external_body]
fn glob_new(pattern: &str) -> (r: Result<globset::Glob, globset::Error>)
    ensures
        r == glob_of(pattern@),
{
    globset::Glob::new(pattern)
}

/// Whether `regex::bytes` builds the regex text of a glob (`Glob::regex`)
/// with `.` matching every byte.
///
/// `Glob::compile_matcher` builds that same text with the same syntax options
/// and under the same limits on nesting and on size.
#[verifier::external_body]
fn glob_can_build(parsed: &ParsedGlob) -> (r: bool)
    requires
        parsed.is_parsed(),
    ensures
        r == glob_builds(parsed.pattern@),
{
    regex::bytes::RegexBuilder::new(parsed.glob.regex()).dot_matches_new_line(true).build().is_ok()
}

/// `globset::Glob::compile_matcher`, which panics where the regex of the glob
/// cannot be built: braces nested too deep, or a pattern too large.
#[verifier::external_body]
fn glob_compile(parsed: &ParsedGlob) -> (r: globset::GlobMatcher)
    requires
        parsed.is_parsed(),
        glob_builds(parsed.pattern@),
    ensures
        r == glob_matcher_of(parsed.pattern@),
{
    parsed.glob.compile_matcher()
}

/// `globset::GlobMatcher::is_match`, on the matcher that `globset` compiled
/// for the pattern and a text taken as a path.
#[verifier::external_body]
fn glob_matches(m: &GlobMatch, text: &str) -> (r: bool)
    requires
        m.is_compiled(),
    ensures
        r == glob_is_match(m.pattern@, text@),
{
    m.matcher.is_match(text)
}

/// The `Display` text of a `globset::Error`.
#[verifier::external_body]
pub(crate) fn glob_error(error: &globset::Error) -> (r: String)
    ensures
        r@ == glob_error_text(*error),
{
    error.to_string()
}

} // verus!
