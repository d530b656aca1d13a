//! The texts that a session prints.

use vstd::prelude::*;
use vstd::string::StringExecFns;

verus! {

/// A place in a source text, as the code map shows it to a reader.
pub struct Highlight {
    /// The file that the source came from, if it came from one.
    pub filename: Option<String>,
    /// The line.
    pub line: usize,
    /// The column.
    pub col: usize,
    /// The text of the line.
    pub source: String,
    /// A line of marks that underlines the place.
    pub highlight: String,
}

/// The contents of a [`Highlight`].
pub struct HighlightView {
    /// The file that the source came from, if it came from one.
    pub filename: Option<Seq<char>>,
    /// The line.
    pub line: nat,
    /// The column.
    pub col: nat,
    /// The text of the line.
    pub source: Seq<char>,
    /// A line of marks that underlines the place.
    pub highlight: Seq<char>,
}

impl View for Highlight {
    type V = HighlightView;

    open spec fn view(&self) -> HighlightView {
        HighlightView {
            filename: match self.filename {
                Some(name) => Some(name@),
                None => None,
            },
            line: self.line as nat,
            col: self.col as nat,
            source: self.source@,
            highlight: self.highlight@,
        }
    }
}

/// The character that stands for a number below ten.
pub open spec fn digit(d: nat) -> char {
    if d == 0 {
        '0'
    } else if d == 1 {
        '1'
    } else if d == 2 {
        '2'
    } else if d == 3 {
        '3'
    } else if d == 4 {
        '4'
    } else if d == 5 {
        '5'
    } else if d == 6 {
        '6'
    } else if d == 7 {
        '7'
    } else if d == 8 {
        '8'
    } else {
        '9'
    }
}

/// A number in decimal notation, without leading zeros.
pub open spec fn decimal(n: nat) -> Seq<char>
    decreases n,
{
    if n < 10 {
        seq![digit(n)]
    } else {
        decimal(n / 10).push(digit(n % 10))
    }
}

/// What stands in place of a file name for a source that has none.
pub open spec fn shown_filename(filename: Option<Seq<char>>) -> Seq<char> {
    match filename {
        Some(name) => name,
        None => "<input>"@,
    }
}

/// The lines that report a parse error: the place and the kind of the error, then the line of
/// source and its underlining, both indented.
pub open spec fn parse_error_lines(hi: HighlightView, kind: Seq<char>) -> Seq<Seq<char>> {
    seq![
        shown_filename(hi.filename) + ":"@ + decimal(hi.line) + ":"@ + decimal(hi.col)
            + ":parse error: "@ + kind,
        "    "@ + hi.source,
        "    "@ + hi.highlight,
    ]
}

/// The contents of a list of strings.
pub open spec fn contents(strings: Seq<String>) -> Seq<Seq<char>> {
    strings.map_values(|s: String| s@)
}

fn digit_text(d: usize) -> (r: &'static str)
    requires
        d < 10,
    ensures
        r@ == seq![digit(d as nat)],
{
    proof {
        reveal_strlit("0");
        reveal_strlit("1");
        reveal_strlit("2");
        reveal_strlit("3");
        reveal_strlit("4");
        reveal_strlit("5");
        reveal_strlit("6");
        reveal_strlit("7");
        reveal_strlit("8");
        reveal_strlit("9");
    }
    if d == 0 {
        "0"
    } else if d == 1 {
        "1"
    } else if d == 2 {
        "2"
    } else if d == 3 {
        "3"
    } else if d == 4 {
        "4"
    } else if d == 5 {
        "5"
    } else if d == 6 {
        "6"
    } else if d == 7 {
        "7"
    } else if d == 8 {
        "8"
    } else {
        "9"
    }
}

/// Writes a number in decimal notation.
pub(crate) fn decimal_text(n: usize) -> (r: String)
    ensures
        r@ == decimal(n as nat),
    decreases n,
{
    if n < 10 {
        digit_text(n).to_owned()
    } else {
        let mut text = decimal_text(n / 10);
        let last = digit_text(n % 10);
        text.append(last);
        text
    }
}

/// Joins two pieces of text.
pub(crate) fn joined(head: &str, tail: &str) -> (r: String)
    ensures
        r@ == head@ + tail@,
{
    let mut text = head.to_owned();
    text.append(tail);
    text
}

/// Lays out the report of a parse error.
pub(crate) fn parse_error_text(hi: &Highlight, kind: &str) -> (lines: Vec<String>)
    ensures
        contents(lines@) == parse_error_lines(hi@, kind@),
{
    let mut first = match &hi.filename {
        Some(name) => name.clone(),
        None => "<input>".to_owned(),
    };
    first.append(":");
    let line = decimal_text(hi.line);
    first.append(line.as_str());
    first.append(":");
    let col = decimal_text(hi.col);
    first.append(col.as_str());
    first.append(":parse error: ");
    first.append(kind);
    let lines = vec![
        first,
        joined("    ", hi.source.as_str()),
        joined("    ", hi.highlight.as_str()),
    ];
    assert(contents(lines@) =~= parse_error_lines(hi@, kind@));
    lines
}

} // verus!
