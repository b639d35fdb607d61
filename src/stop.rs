use vstd::prelude::*;

verus! {

/// Whether `needle` occurs in `text` as a contiguous run of characters.
pub open spec fn has_substring(text: Seq<char>, needle: Seq<char>) -> bool {
    exists|i: int| 0 <= i <= text.len() - needle.len() && #[trigger] text.subrange(i, i + needle.len()) == needle
}

/// Whether the regular expression written as `pattern` finds a match anywhere in `text`.
pub uninterp spec fn regex_finds(pattern: Seq<char>, text: Seq<char>) -> bool;

/// Whether `pattern` compiles to a regular expression under the default limits.
pub uninterp spec fn regex_compiles(pattern: Seq<char>) -> bool;

#[verifier::external_type_specification]
#[verifier::external_body]
pub struct ExRegex(regex::Regex);

#[verifier::external_type_specification]
#[verifier::external_body]
pub struct ExRegexError(regex::Error);

/// A compiled regular expression, kept together with the text it was compiled from.
pub struct LinePattern {
    re: regex::Regex,
    source: String,
}

/// Why a pattern was refused.
#[derive(Debug, Clone, Copy, PartialEq, Eq, Structural)]
pub enum PatternError {
    Invalid,
}

/// Relies on regex::Regex::new: it succeeds exactly on the patterns that compile.
/// The compiled value is stored beside a copy of its source text.
#[verifier::external_body]
fn compile_regex(pattern: &str) -> (r: Result<LinePattern, regex::Error>)
    ensures
        r is Ok <==> regex_compiles(pattern@),
        r matches Ok(p) ==> p.pattern() == pattern@,
{
    match regex::Regex::new(pattern) {
        Ok(re) => Ok(LinePattern { re, source: pattern.to_string() }),
        Err(e) => Err(e),
    }
}

/// Relies on regex::Regex::is_match: true iff the expression matches somewhere in `text`.
#[verifier::external_body]
fn regex_is_match(p: &LinePattern, text: &str) -> (r: bool)
    ensures
        r == regex_finds(p.pattern(), text@),
{
    p.re.is_match(text)
}

/// Relies on str::contains with a `&str` pattern: true iff `needle` occurs in `text`.
#[verifier::external_body]
fn str_contains(text: &str, needle: &str) -> (r: bool)
    ensures
        r == has_substring(text@, needle@),
{
    text.contains(needle)
}

impl LinePattern {
    /// The source text the expression was compiled from.
    pub closed spec fn pattern(&self) -> Seq<char> {
        self.source@
    }

    pub fn new(pattern: &str) -> (r: Result<LinePattern, PatternError>)
        ensures
            r is Ok <==> regex_compiles(pattern@),
            r matches Ok(p) ==> p.pattern() == pattern@,
    {
        match compile_regex(pattern) {
            Ok(p) => Ok(p),
            Err(_) => Err(PatternError::Invalid),
        }
    }

    pub fn as_str(&self) -> (r: &str)
        ensures
            r@ == self.pattern(),
    {
        self.source.as_str()
    }

    pub fn is_match(&self, text: &str) -> (r: bool)
        ensures
            r == regex_finds(self.pattern(), text@),
    {
        regex_is_match(self, text)
    }
}

/// The content predicates that can end a run.
pub struct StopRules {
    /// Stop when a line differs from the previous line of its channel.
    pub until_changes: bool,
    /// Stop when a line equals the previous line of its channel.
    pub until_same: bool,
    /// Stop when a line matches this expression.
    pub until_match: Option<LinePattern>,
    /// Stop when a line contains this text.
    pub until_contains: Option<String>,
}

pub open spec fn view_opt(o: Option<String>) -> Option<Seq<char>> {
    match o {
        Some(s) => Some(s@),
        None => None,
    }
}

pub open spec fn view_ref(o: Option<&String>) -> Option<Seq<char>> {
    match o {
        Some(s) => Some(s@),
        None => None,
    }
}

impl StopRules {
    /// Whether the previous line of a channel has to be remembered.
    pub open spec fn spec_needs_last(&self) -> bool {
        self.until_changes || self.until_same
    }

    /// Whether `line` ends the run, given the previous line of its channel and
    /// whether the configured expression (if any) matched it.
    pub open spec fn line_stops(&self, line: Seq<char>, last: Option<Seq<char>>, pattern_hit: bool) -> bool {
        ||| (last matches Some(p) && self.until_changes && p != line)
        ||| (last matches Some(p) && self.until_same && p == line)
        ||| (self.until_match is Some && pattern_hit)
        ||| (self.until_contains matches Some(n) && has_substring(line, n@))
    }

    /// Whether the configured expression, if any, matches `line`.
    pub open spec fn pattern_hit(&self, line: Seq<char>) -> bool {
        self.until_match matches Some(p) && regex_finds(p.pattern(), line)
    }

    pub open spec fn stops(&self, line: Seq<char>, last: Option<Seq<char>>) -> bool {
        self.line_stops(line, last, self.pattern_hit(line))
    }

    pub fn needs_last(&self) -> (r: bool)
        ensures
            r == self.spec_needs_last(),
    {
        self.until_changes || self.until_same
    }

    /// Decides a line once the expression's verdict on it is known.
    pub fn decide_line(&self, line: &str, last: Option<&String>, pattern_hit: bool) -> (r: bool)
        ensures
            r == self.line_stops(line@, view_ref(last), pattern_hit),
    {
        if let Some(prev) = last {
            if self.until_changes && !str_eq(prev.as_str(), line) {
                return true;
            }
            if self.until_same && str_eq(prev.as_str(), line) {
                return true;
            }
        }
        if self.until_match.is_some() && pattern_hit {
            return true;
        }
        match &self.until_contains {
            Some(n) => str_contains(line, n.as_str()),
            None => false,
        }
    }

    /// Whether `line` ends the run, given the previous line of its channel.
    pub fn check_line(&self, line: &str, last: Option<&String>) -> (r: bool)
        ensures
            r == self.stops(line@, view_ref(last)),
    {
        let hit = match &self.until_match {
            Some(p) => p.is_match(line),
            None => false,
        };
        self.decide_line(line, last, hit)
    }
}

/// With no expression and no substring configured, the "unchanged" predicate
/// alone stops on a line exactly when a previous line exists and equals it, and
/// the "changed" predicate alone exactly when one exists and differs from it.
pub proof fn lemma_compare_predicates(rules: StopRules, line: Seq<char>, last: Option<Seq<char>>)
    requires
        rules.until_match is None,
        rules.until_contains is None,
    ensures
        rules.until_same && !rules.until_changes ==> (rules.stops(line, last) <==> (last matches Some(
            p,
        ) && p == line)),
        rules.until_changes && !rules.until_same ==> (rules.stops(line, last) <==> (last matches Some(
            p,
        ) && p != line)),
{
}

/// Character-wise equality of two strings.
pub fn str_eq(a: &str, b: &str) -> (r: bool)
    ensures
        r == (a@ == b@),
{
    let x = a.to_owned();
    let y = b.to_owned();
    x == y
}

} // verus!
