//! Rendering an outcome as one line of output.
use vstd::prelude::*;

use crate::strategy::MatchedLine;
use crate::text::{decimal, decimal_string};

verus! {

/// The separator between the parts of an output line.
pub open spec fn separator() -> Seq<char> {
    seq![':', ' ']
}

/// The output line for `content` of line `line_number` in `file`: the file
/// name and the line number go in front when their flag is set.
pub open spec fn rendered(
    file: Seq<char>,
    line_number: nat,
    content: Seq<char>,
    show_file_name: bool,
    show_line_number: bool,
) -> Seq<char> {
    if show_file_name && show_line_number {
        file + separator() + decimal(line_number) + separator() + content
    } else if show_line_number {
        decimal(line_number) + separator() + content
    } else if show_file_name {
        file + separator() + content
    } else {
        content
    }
}

/// An outcome for one line of a file, with what its output line shows.
pub struct PrintableWithFileNameLineNumber<'a> {
    pub matched: MatchedLine,
    pub filename: &'a str,
    pub line_number: usize,
    pub show_line_number: bool,
    pub show_file_name: bool,
}

/// An outcome that may be printed.
pub trait Matched {
    /// Whether the line matched, and so is printed.
    fn matched(&self) -> bool;

    /// The output line.
    fn render(&self) -> String;
}

impl<'a> PrintableWithFileNameLineNumber<'a> {
    /// The output line this outcome renders to.
    pub open spec fn rendered_view(&self) -> Seq<char> {
        rendered(
            self.filename@,
            self.line_number as nat,
            self.matched.line@,
            self.show_file_name,
            self.show_line_number,
        )
    }
}

impl<'a> Matched for PrintableWithFileNameLineNumber<'a> {
    fn matched(&self) -> (r: bool)
        ensures
            r == self.matched.matched,
    {
        self.matched.matched
    }

    fn render(&self) -> (r: String)
        ensures
            r@ == self.rendered_view(),
    {
        proof {
            reveal_strlit(": ");
        }
        let content = self.matched.line.as_str();
        if self.show_file_name && self.show_line_number {
            let mut s = String::from_str(self.filename);
            s.append(": ");
            s.append(decimal_string(self.line_number).as_str());
            s.append(": ");
            s.append(content);
            s
        } else if self.show_line_number {
            let mut s = decimal_string(self.line_number);
            s.append(": ");
            s.append(content);
            s
        } else if self.show_file_name {
            let mut s = String::from_str(self.filename);
            s.append(": ");
            s.append(content);
            s
        } else {
            String::from_str(content)
        }
    }
}

} // verus!
