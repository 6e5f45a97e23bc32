//! Log lines as values: the library says what is logged, the program that
//! drives it hands the line to its logger.

use vstd::prelude::*;
use vstd::string::*;

verus! {

/// Severity of a log line.
#[derive(Clone, Copy, Debug, PartialEq, Eq, Structural)]
pub enum Level {
    Info,
    Warn,
    Error,
}

/// One line for the log.
#[derive(Debug, PartialEq, Eq)]
pub struct LogLine {
    pub level: Level,
    pub text: String,
}

/// A [`LogLine`] as plain values.
pub struct LineView {
    pub level: Level,
    pub text: Seq<char>,
}

impl View for LogLine {
    type V = LineView;

    open spec fn view(&self) -> LineView {
        LineView { level: self.level, text: self.text@ }
    }
}

/// The lines in `lines`, each as plain values.
pub open spec fn line_views(lines: Seq<LogLine>) -> Seq<LineView> {
    Seq::new(lines.len(), |i: int| lines[i]@)
}

/// `head` followed by `tail`.
pub fn join(head: &str, tail: &str) -> (text: String)
    ensures
        text@ == head@ + tail@,
{
    let mut text = String::from_str(head);
    text.append(tail);
    text
}

/// `head`, then `middle`, then `tail`.
pub fn join3(head: &str, middle: &str, tail: &str) -> (text: String)
    ensures
        text@ == head@ + middle@ + tail@,
{
    let mut text = String::from_str(head);
    text.append(middle);
    text.append(tail);
    text
}

/// Four pieces in a row.
pub fn join4(first: &str, second: &str, third: &str, fourth: &str) -> (text: String)
    ensures
        text@ == first@ + second@ + third@ + fourth@,
{
    let mut text = String::from_str(first);
    text.append(second);
    text.append(third);
    text.append(fourth);
    text
}

} // verus!
