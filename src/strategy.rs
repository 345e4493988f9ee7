//! The four ways of evaluating a line, and the choice among them.
use vstd::prelude::*;

use crate::config::{Config, ConfigView};
use crate::pattern::{regex_finds, regex_is_match, regex_replace_all, regex_replaced};
use crate::text::{contains_text, is_substring, lower_of, lowercase};

verus! {

/// How a line is evaluated; chosen once per scan from the specification.
#[derive(Debug, Clone, Copy, PartialEq, Eq, Structural)]
pub enum Strategy {
    /// A line matches when the regex finds it; all matches are replaced.
    RegexSubstitute,
    /// A line matches when the regex finds it; the line is kept.
    RegexSearch,
    /// A line matches when it contains the query.
    LiteralSearch,
    /// A line matches when its lowercase form contains the folded query.
    LiteralSearchFold,
}

/// The verdict on one line, with the text to show for it.
pub struct MatchedLine {
    pub matched: bool,
    pub line: String,
}

/// The strategy that a specification selects, by priority: regex with
/// substitution, regex, case-sensitive literal, case-folded literal.
pub open spec fn strategy_of(c: ConfigView) -> Strategy {
    if c.is_regex && c.is_substitute {
        Strategy::RegexSubstitute
    } else if c.is_regex {
        Strategy::RegexSearch
    } else if c.case_sensitive {
        Strategy::LiteralSearch
    } else {
        Strategy::LiteralSearchFold
    }
}

/// Whether and how `line` matches under `strategy`: the verdict and the
/// text that stands for the line afterwards.
pub open spec fn verdict(c: ConfigView, strategy: Strategy, line: Seq<char>) -> (bool, Seq<char>) {
    match strategy {
        Strategy::RegexSubstitute => if regex_finds(c.regex, line) {
            (true, regex_replaced(c.regex, line, c.substitute))
        } else {
            (false, line)
        },
        Strategy::RegexSearch => (regex_finds(c.regex, line), line),
        Strategy::LiteralSearch => (is_substring(c.query, line), line),
        Strategy::LiteralSearchFold => (is_substring(c.query, lower_of(line)), line),
    }
}

/// The verdict and text of a [`MatchedLine`].
pub open spec fn matched_view(m: MatchedLine) -> (bool, Seq<char>) {
    (m.matched, m.line@)
}

/// Regex search: the line matches when the regex finds it anywhere.
pub fn search_regex_by_line(config: &Config, line: String) -> (r: MatchedLine)
    ensures
        matched_view(r) == verdict(config@, Strategy::RegexSearch, line@),
{
    let matched = regex_is_match(config.regex(), line.as_str());
    MatchedLine { matched, line }
}

/// Regex substitution: on a match, every non-overlapping occurrence is
/// replaced by the replacement text, which may refer to groups.
pub fn replace_regex_by_line(config: &Config, line: String) -> (r: MatchedLine)
    ensures
        matched_view(r) == verdict(config@, Strategy::RegexSubstitute, line@),
{
    if regex_is_match(config.regex(), line.as_str()) {
        let replaced = regex_replace_all(config.regex(), line.as_str(), config.substitute());
        MatchedLine { matched: true, line: replaced }
    } else {
        MatchedLine { matched: false, line }
    }
}

/// Literal search: the line matches when it contains the query.
pub fn search(config: &Config, line: String) -> (r: MatchedLine)
    ensures
        matched_view(r) == verdict(config@, Strategy::LiteralSearch, line@),
{
    let matched = contains_text(line.as_str(), config.query());
    MatchedLine { matched, line }
}

/// Case-folded literal search: the lowercase line must contain the query,
/// which was folded when the specification was made.
pub fn search_case_insensitive(config: &Config, line: String) -> (r: MatchedLine)
    ensures
        matched_view(r) == verdict(config@, Strategy::LiteralSearchFold, line@),
{
    let folded = lowercase(line.as_str());
    let matched = contains_text(folded.as_str(), config.query());
    MatchedLine { matched, line }
}

impl Config {
    /// The strategy this specification selects.
    pub fn strategy(&self) -> (r: Strategy)
        ensures
            r == strategy_of(self@),
    {
        if self.is_regex() {
            if self.is_substitute() {
                Strategy::RegexSubstitute
            } else {
                Strategy::RegexSearch
            }
        } else if self.case_sensitive() {
            Strategy::LiteralSearch
        } else {
            Strategy::LiteralSearchFold
        }
    }

    /// Evaluates `line` under `strategy`.
    pub fn evaluate(&self, strategy: Strategy, line: String) -> (r: MatchedLine)
        ensures
            matched_view(r) == verdict(self@, strategy, line@),
    {
        match strategy {
            Strategy::RegexSubstitute => replace_regex_by_line(self, line),
            Strategy::RegexSearch => search_regex_by_line(self, line),
            Strategy::LiteralSearch => search(self, line),
            Strategy::LiteralSearchFold => search_case_insensitive(self, line),
        }
    }
}

/// Only substitution rewrites a line: under every other strategy, and
/// whenever substitution is off, the text is the line itself.
pub proof fn lemma_only_substitution_rewrites(c: ConfigView, strategy: Strategy, line: Seq<char>)
    ensures
        strategy != Strategy::RegexSubstitute ==> verdict(c, strategy, line).1 == line,
        !c.is_substitute ==> verdict(c, strategy_of(c), line).1 == line,
{
}

/// Substitution leaves a line the regex does not find untouched, and doing
/// it again on the result changes nothing either.
pub proof fn lemma_substitution_on_unmatched_line_is_noop(c: ConfigView, line: Seq<char>)
    requires
        !regex_finds(c.regex, line),
    ensures
        verdict(c, Strategy::RegexSubstitute, line) == (false, line),
        verdict(c, Strategy::RegexSubstitute, verdict(c, Strategy::RegexSubstitute, line).1) == (
        false, line),
{
}

} // verus!
