//! Scanning the lines of one file: the window first, then the strategy.
use vstd::prelude::*;

use crate::config::{Config, ConfigView};
use crate::output::PrintableWithFileNameLineNumber;
use crate::strategy::{matched_view, strategy_of, verdict, Strategy};
use crate::window::window_contains;

verus! {

/// The line number, verdict and text that an outcome records.
pub open spec fn outcome_view(p: PrintableWithFileNameLineNumber) -> (nat, bool, Seq<char>) {
    (p.line_number as nat, p.matched.matched, p.matched.line@)
}

/// The outcome for line number `n` with text `line`: none outside the
/// window, else the strategy's verdict on it.
pub open spec fn outcome_of(c: ConfigView, strategy: Strategy, n: nat, line: Seq<char>) -> Option<
    (nat, bool, Seq<char>),
> {
    if window_contains(c.start_matching_at, c.end_matching_after, n) {
        let v = verdict(c, strategy, line);
        Some((n, v.0, v.1))
    } else {
        None
    }
}

/// The outcomes of a whole file, in line order, numbering lines from 1.
pub open spec fn scan_outcomes(c: ConfigView, strategy: Strategy, lines: Seq<Seq<char>>) -> Seq<
    (nat, bool, Seq<char>),
>
    decreases lines.len(),
{
    if lines.len() == 0 {
        Seq::empty()
    } else {
        let prev = scan_outcomes(c, strategy, lines.drop_last());
        match outcome_of(c, strategy, lines.len(), lines.last()) {
            Some(o) => prev.push(o),
            None => prev,
        }
    }
}

/// The texts of a sequence of lines.
pub open spec fn texts(lines: Seq<String>) -> Seq<Seq<char>> {
    lines.map_values(|s: String| s@)
}

/// Whether an outcome carries the file name and output flags of a scan of
/// `filename` under `c`.
pub open spec fn labelled(p: PrintableWithFileNameLineNumber, c: ConfigView, filename: Seq<char>) -> bool {
    &&& p.filename@ == filename
    &&& p.show_line_number == c.show_line_number
    &&& p.show_file_name == c.recursive
}

/// The scan of one file, fed one line at a time.
pub struct FileScanner<'a> {
    config: &'a Config,
    strategy: Strategy,
    filename: &'a str,
    lines_read: usize,
}

impl<'a> FileScanner<'a> {
    /// The specification this scanner applies.
    pub closed spec fn spec_config(&self) -> ConfigView {
        self.config@
    }

    /// The strategy this scanner applies.
    pub closed spec fn spec_strategy(&self) -> Strategy {
        self.strategy
    }

    /// The name of the file being scanned.
    pub closed spec fn spec_filename(&self) -> Seq<char> {
        self.filename@
    }

    /// How many lines have been fed so far.
    pub closed spec fn spec_lines_read(&self) -> nat {
        self.lines_read as nat
    }

    /// Starts the scan of `filename`, choosing the strategy once.
    pub fn new(config: &'a Config, filename: &'a str) -> (r: FileScanner<'a>)
        ensures
            r.spec_config() == config@,
            r.spec_strategy() == strategy_of(config@),
            r.spec_filename() == filename@,
            r.spec_lines_read() == 0,
    {
        FileScanner { config, strategy: config.strategy(), filename, lines_read: 0 }
    }

    /// How many lines have been fed so far.
    pub fn lines_read(&self) -> (r: usize)
        ensures
            r == self.spec_lines_read(),
    {
        self.lines_read
    }

    /// Takes the next line of the file. Outside the window it gives no
    /// outcome and the strategy never sees the line; inside, the outcome
    /// holds the strategy's verdict. Either way the line is counted.
    pub fn feed(&mut self, line: String) -> (r: Option<PrintableWithFileNameLineNumber<'a>>)
        requires
            old(self).spec_lines_read() < usize::MAX,
        ensures
            final(self).spec_config() == old(self).spec_config(),
            final(self).spec_strategy() == old(self).spec_strategy(),
            final(self).spec_filename() == old(self).spec_filename(),
            final(self).spec_lines_read() == old(self).spec_lines_read() + 1,
            r matches Some(p) ==> labelled(p, old(self).spec_config(), old(self).spec_filename()),
            match r {
                Some(p) => outcome_of(
                    old(self).spec_config(),
                    old(self).spec_strategy(),
                    final(self).spec_lines_read(),
                    line@,
                ) == Some(outcome_view(p)),
                None => outcome_of(
                    old(self).spec_config(),
                    old(self).spec_strategy(),
                    final(self).spec_lines_read(),
                    line@,
                ) is None,
            },
    {
        self.lines_read = self.lines_read + 1;
        let n = self.lines_read;
        if !self.config.do_match(&n) {
            return None;
        }
        let matched = self.config.evaluate(self.strategy, line);
        Some(
            PrintableWithFileNameLineNumber {
                matched,
                filename: self.filename,
                line_number: n,
                show_line_number: self.config.show_line_number(),
                show_file_name: self.config.recursive(),
            },
        )
    }
}

/// Scans the lines of `filename` and gives the outcome of every line in the
/// window, in line order, numbering lines from 1.
pub fn scan_lines<'a>(config: &'a Config, filename: &'a str, lines: &Vec<String>) -> (r: Vec<
    PrintableWithFileNameLineNumber<'a>,
>)
    ensures
        r@.map_values(|p: PrintableWithFileNameLineNumber| outcome_view(p)) == scan_outcomes(
            config@,
            strategy_of(config@),
            texts(lines@),
        ),
        forall|k: int| 0 <= k < r@.len() ==> labelled(#[trigger] r@[k], config@, filename@),
{
    let mut scanner = FileScanner::new(config, filename);
    let mut out: Vec<PrintableWithFileNameLineNumber<'a>> = Vec::new();
    let mut i: usize = 0;
    while i < lines.len()
        invariant
            i <= lines@.len(),
            scanner.spec_config() == config@,
            scanner.spec_strategy() == strategy_of(config@),
            scanner.spec_filename() == filename@,
            scanner.spec_lines_read() == i,
            out@.map_values(|p: PrintableWithFileNameLineNumber| outcome_view(p)) == scan_outcomes(
                config@,
                strategy_of(config@),
                texts(lines@.take(i as int)),
            ),
            forall|k: int| 0 <= k < out@.len() ==> labelled(#[trigger] out@[k], config@, filename@),
        decreases lines@.len() - i,
    {
        let line = lines[i].clone();
        let ghost prefix = texts(lines@.take(i + 1));
        assert(prefix.drop_last() =~= texts(lines@.take(i as int)));
        assert(prefix.last() == line@);
        let ghost before = out@;
        match scanner.feed(line) {
            Some(p) => {
                out.push(p);
                assert(out@.map_values(|p: PrintableWithFileNameLineNumber| outcome_view(p))
                    =~= before.map_values(|p: PrintableWithFileNameLineNumber| outcome_view(p)).push(
                    outcome_view(p),
                ));
            },
            None => {},
        }
        i = i + 1;
    }
    assert(lines@.take(lines@.len() as int) =~= lines@);
    out
}

} // verus!
