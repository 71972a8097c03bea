//! Classifying a completed input line: the exit sentinel, a blank line, or a
//! command to send.

use vstd::prelude::*;
use crate::text::same_text;

verus! {

/// The text that ends the session instead of being sent.
pub const EXIT_SENTINEL: &'static str = "exit";

/// Whether `c` has the Unicode property White_Space.
pub open spec fn is_white_space(c: char) -> bool {
    ('\u{9}' <= c && c <= '\u{d}') || c == ' ' || c == '\u{85}' || c == '\u{a0}'
        || c == '\u{1680}' || ('\u{2000}' <= c && c <= '\u{200a}') || c == '\u{2028}'
        || c == '\u{2029}' || c == '\u{202f}' || c == '\u{205f}' || c == '\u{3000}'
}

/// The text without its leading white space.
pub open spec fn trim_start(s: Seq<char>) -> Seq<char>
    decreases s.len(),
{
    if s.len() > 0 && is_white_space(s[0]) {
        trim_start(s.drop_first())
    } else {
        s
    }
}

/// The text without its trailing white space.
pub open spec fn trim_end(s: Seq<char>) -> Seq<char>
    decreases s.len(),
{
    if s.len() > 0 && is_white_space(s.last()) {
        trim_end(s.drop_last())
    } else {
        s
    }
}

/// The text with surrounding white space removed.
pub open spec fn trimmed(s: Seq<char>) -> Seq<char> {
    trim_end(trim_start(s))
}

/// Relies on `str::trim`, which removes leading and trailing characters
/// with the Unicode property White_Space.
#[verifier::external_body]
fn trim_text(s: &str) -> (r: &str)
    ensures
        r@ == trimmed(s@),
{
    s.trim()
}

/// What a completed line asks for.
#[derive(Debug, Clone, PartialEq, Eq)]
pub enum LineKind {
    /// The exit sentinel: end the session.
    Exit,
    /// Nothing but whitespace: ignore it.
    Blank,
    /// A command to send, with its text as typed.
    Command(String),
}

/// The kind of `line`, given its text `t` without surrounding whitespace.
pub open spec fn kind_of(line: String, t: Seq<char>) -> LineKind {
    if t == EXIT_SENTINEL@ {
        LineKind::Exit
    } else if t.len() == 0 {
        LineKind::Blank
    } else {
        LineKind::Command(line)
    }
}

/// The kind of a completed line.
pub open spec fn line_kind(line: String) -> LineKind {
    kind_of(line, trimmed(line@))
}

/// Whether a text may be sent as a command: something is left after
/// trimming, and that is not the exit sentinel.
pub open spec fn sendable(text: Seq<char>) -> bool {
    trimmed(text).len() > 0 && trimmed(text) != EXIT_SENTINEL@
}

/// Classifies `line`, given the same line with surrounding whitespace removed.
pub fn classify_trimmed(line: String, t: &str) -> (r: LineKind)
    ensures
        r == kind_of(line, t@),
{
    if same_text(t, EXIT_SENTINEL) {
        LineKind::Exit
    } else if t.unicode_len() == 0 {
        LineKind::Blank
    } else {
        LineKind::Command(line)
    }
}

/// Classifies a completed line.
pub fn classify_line(line: String) -> (r: LineKind)
    ensures
        r == line_kind(line),
        r matches LineKind::Command(c) ==> c == line && sendable(c@),
{
    let t = trim_text(line.as_str());
    let t_owned = t.to_owned();
    classify_trimmed(line, t_owned.as_str())
}

} // verus!
