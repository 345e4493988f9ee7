//! The match specification: pattern, case handling, substitution, output
//! flags and line window, fixed before any scanning begins.
use vstd::prelude::*;

use crate::pattern::{compile_regex, regex_compiles, regex_source};
use crate::text::{lower_of, lowercase};
use crate::window::{in_window, window_contains};

verus! {

/// Why a match specification could not be built.
#[derive(Debug, Clone, Copy, PartialEq, Eq, Structural)]
pub enum ConfigError {
    /// The pattern text does not compile as a regular expression.
    InvalidPattern,
}

/// The abstract content of a [`Config`].
pub struct ConfigView {
    pub query: Seq<char>,
    pub filename: Seq<char>,
    pub case_sensitive: bool,
    pub is_regex: bool,
    pub is_substitute: bool,
    pub substitute: Seq<char>,
    pub regex: regex::Regex,
    pub show_line_number: bool,
    pub recursive: bool,
    pub start_matching_at: nat,
    pub end_matching_after: nat,
}

/// The query that literal matching looks for: the pattern text itself, or
/// its lowercase form when matching ignores case.
pub open spec fn folded_query(pattern: Seq<char>, case_sensitive: bool) -> Seq<char> {
    if case_sensitive {
        pattern
    } else {
        lower_of(pattern)
    }
}

/// What one scan needs to know: the pattern (compiled once, when the value
/// is made), how a line is matched and rewritten, what the output shows, and
/// which lines are eligible.
///
/// The setters only serve to assemble the value before a scan: scanning
/// borrows it shared, so no scan can observe a change. Case sensitivity is
/// fixed by [`Config::new`], where the query is folded once.
pub struct Config {
    query: String,
    filename: String,
    case_sensitive: bool,
    is_regex: bool,
    is_substitute: bool,
    substitute: String,
    regex: regex::Regex,
    show_line_number: bool,
    recursive: bool,
    start_matching_at: usize,
    end_matching_after: usize,
}

impl View for Config {
    type V = ConfigView;

    closed spec fn view(&self) -> ConfigView {
        ConfigView {
            query: self.query@,
            filename: self.filename@,
            case_sensitive: self.case_sensitive,
            is_regex: self.is_regex,
            is_substitute: self.is_substitute,
            substitute: self.substitute@,
            regex: self.regex,
            show_line_number: self.show_line_number,
            recursive: self.recursive,
            start_matching_at: self.start_matching_at as nat,
            end_matching_after: self.end_matching_after as nat,
        }
    }
}

impl Config {
    /// Builds a specification for `query_tmp` in `filename`: literal, case
    /// sensitive or not, no substitution, no line numbers, not recursive and
    /// with an unbounded window. Fails when the pattern text does not compile
    /// as a regular expression, whether or not regex matching is used.
    pub fn new(query_tmp: String, filename: String, case_sensitive: bool) -> (r: Result<
        Config,
        ConfigError,
    >)
        ensures
            r is Err <==> !regex_compiles(query_tmp@),
            r matches Err(e) ==> e == ConfigError::InvalidPattern,
            r matches Ok(c) ==> (c@ == ConfigView {
                query: folded_query(query_tmp@, case_sensitive),
                filename: filename@,
                case_sensitive,
                is_regex: false,
                is_substitute: false,
                substitute: Seq::empty(),
                regex: c@.regex,
                show_line_number: false,
                recursive: false,
                start_matching_at: 0,
                end_matching_after: 0,
            }),
            r matches Ok(c) ==> regex_source(c@.regex) == query_tmp@,
    {
        let regex = match compile_regex(query_tmp.as_str()) {
            Ok(re) => re,
            Err(_) => {
                return Err(ConfigError::InvalidPattern);
            },
        };
        let query = if case_sensitive {
            query_tmp
        } else {
            lowercase(query_tmp.as_str())
        };
        Ok(
            Config {
                query,
                filename,
                case_sensitive,
                is_regex: false,
                is_substitute: false,
                substitute: String::new(),
                regex,
                show_line_number: false,
                recursive: false,
                start_matching_at: 0,
                end_matching_after: 0,
            },
        )
    }

    /// Chooses between regex and literal matching.
    pub fn set_is_regex(&mut self, is_regex: bool)
        ensures
            final(self)@ == (ConfigView { is_regex, ..old(self)@ }),
    {
        self.is_regex = is_regex;
    }

    /// Turns rewriting of matched lines on or off (used with regex matching).
    pub fn set_is_substitute(&mut self, is_substitute: bool)
        ensures
            final(self)@ == (ConfigView { is_substitute, ..old(self)@ }),
    {
        self.is_substitute = is_substitute;
    }

    /// Sets the replacement text for substitution.
    pub fn set_substitute(&mut self, substitute: String)
        ensures
            final(self)@ == (ConfigView { substitute: substitute@, ..old(self)@ }),
    {
        self.substitute = substitute;
    }

    /// Shows or hides line numbers in the output.
    pub fn set_show_line_number(&mut self, show_line_number: bool)
        ensures
            final(self)@ == (ConfigView { show_line_number, ..old(self)@ }),
    {
        self.show_line_number = show_line_number;
    }

    /// Searches the file name recursively below the working directory.
    pub fn set_recursive(&mut self, recursive: bool)
        ensures
            final(self)@ == (ConfigView { recursive, ..old(self)@ }),
    {
        self.recursive = recursive;
    }

    /// Sets the first line of the window (`0` = unset).
    pub fn set_start_matching_at(&mut self, start_matching_at: usize)
        ensures
            final(self)@ == (ConfigView {
                start_matching_at: start_matching_at as nat,
                ..old(self)@
            }),
    {
        self.start_matching_at = start_matching_at;
    }

    /// Sets the last line of the window (`0` = unset).
    pub fn set_end_matching_after(&mut self, end_matching_after: usize)
        ensures
            final(self)@ == (ConfigView {
                end_matching_after: end_matching_after as nat,
                ..old(self)@
            }),
    {
        self.end_matching_after = end_matching_after;
    }

    /// Whether the 1-based line `line_counter` lies in the window.
    pub fn do_match(&self, line_counter: &usize) -> (r: bool)
        ensures
            r == window_contains(
                self@.start_matching_at,
                self@.end_matching_after,
                *line_counter as nat,
            ),
    {
        in_window(self.start_matching_at, self.end_matching_after, *line_counter)
    }

    /// The query that literal matching looks for.
    pub fn query(&self) -> (r: &str)
        ensures
            r@ == self@.query,
    {
        self.query.as_str()
    }

    /// The target: a file path, or a file name to look for recursively.
    pub fn filename(&self) -> (r: &str)
        ensures
            r@ == self@.filename,
    {
        self.filename.as_str()
    }

    /// Whether literal matching respects case.
    pub fn case_sensitive(&self) -> (r: bool)
        ensures
            r == self@.case_sensitive,
    {
        self.case_sensitive
    }

    /// Whether the pattern is matched as a regular expression.
    pub fn is_regex(&self) -> (r: bool)
        ensures
            r == self@.is_regex,
    {
        self.is_regex
    }

    /// Whether matched lines are rewritten.
    pub fn is_substitute(&self) -> (r: bool)
        ensures
            r == self@.is_substitute,
    {
        self.is_substitute
    }

    /// The replacement text for substitution.
    pub fn substitute(&self) -> (r: &str)
        ensures
            r@ == self@.substitute,
    {
        self.substitute.as_str()
    }

    /// Whether output lines carry their line number.
    pub fn show_line_number(&self) -> (r: bool)
        ensures
            r == self@.show_line_number,
    {
        self.show_line_number
    }

    /// Whether the file name is searched recursively; output then names the file.
    pub fn recursive(&self) -> (r: bool)
        ensures
            r == self@.recursive,
    {
        self.recursive
    }

    /// The regex compiled from the raw pattern text.
    pub fn regex(&self) -> (r: &regex::Regex)
        ensures
            *r == self@.regex,
    {
        &self.regex
    }
}

} // verus!
