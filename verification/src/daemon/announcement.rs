//! The daemon's first line of output, which announces the port it listens
//! on.

use crate::daemon::error::DaemonError;
use crate::text::{
    all_digits, all_whitespace, chars_of, debug_quoted, debug_text, decimal_text, decimal_value,
    is_digit, lemma_decimal_round_trip, lemma_trim_end_drops_tail, matches_at, parse_u16,
    read_u16, starts_with, trim_end, trim_end_from,
};
use vstd::prelude::*;

verus! {

/// What the daemon's first line of output begins with.
pub const PORT_PREFIX: &'static str = "HTTP_PORT=";

/// The port that a first line of output announces: the line reads
/// `HTTP_PORT=`, then a number that fits a `u16`, then nothing but white
/// space. Any other line announces none.
pub open spec fn announced_port(line: Seq<char>) -> Option<u16> {
    if starts_with(line, PORT_PREFIX@) {
        parse_u16(trim_end(line.skip(PORT_PREFIX@.len() as int)))
    } else {
        None
    }
}

/// The port that `line` announces, if it announces one.
pub fn parse_port_line(line: &str) -> (port: Option<u16>)
    ensures
        port == announced_port(line@),
{
    let text = chars_of(line);
    let prefix = chars_of(PORT_PREFIX);
    if !matches_at(&text, &prefix, 0) {
        return None;
    }
    let from = prefix.len();
    let end = trim_end_from(&text, from);
    read_u16(&text, from, end)
}

/// What came of reading the first line of the daemon's output.
#[derive(Debug, Clone)]
pub enum FirstLine {
    /// The output ended before any line.
    Closed,
    /// The read failed, for the reason given.
    Failed(String),
    /// The line that was read, with its line end.
    Line(String),
}

/// What `read_announced_port` makes of a first line.
pub open spec fn port_reading(first: FirstLine, port: Result<u16, DaemonError>) -> bool {
    match first {
        FirstLine::Closed => port == Err::<u16, DaemonError>(DaemonError::StdoutClosed),
        FirstLine::Failed(why) => port == Err::<u16, DaemonError>(
            DaemonError::StdoutUnreadable(why),
        ),
        FirstLine::Line(line) => match announced_port(line@) {
            Some(number) => port == Ok::<u16, DaemonError>(number),
            None => port matches Err(DaemonError::PortNotReported(shown)) && shown@ == debug_text(
                line@,
            ),
        },
    }
}

/// The port that the daemon announced, or why none is known: its output
/// closed, could not be read, or began with another line, which the error
/// then shows.
pub fn read_announced_port(first: FirstLine) -> (port: Result<u16, DaemonError>)
    ensures
        port_reading(first, port),
{
    match first {
        FirstLine::Closed => Err(DaemonError::StdoutClosed),
        FirstLine::Failed(why) => Err(DaemonError::StdoutUnreadable(why)),
        FirstLine::Line(line) => match parse_port_line(line.as_str()) {
            Some(port) => Ok(port),
            None => Err(DaemonError::PortNotReported(debug_quoted(line.as_str()))),
        },
    }
}

/// A line that announces `port` the usual way, with a line feed at its end.
pub open spec fn port_line(port: u16) -> Seq<char> {
    PORT_PREFIX@ + decimal_text(port as nat) + seq!['\n']
}

/// Every line of the announced form is read as the number it writes: the
/// prefix, then digits that write a number that fits, then any white space.
pub proof fn lemma_announcement_is_read(digits: Seq<char>, tail: Seq<char>)
    requires
        all_digits(digits),
        decimal_value(digits) <= u16::MAX,
        all_whitespace(tail),
    ensures
        announced_port(PORT_PREFIX@ + digits + tail) == Some(decimal_value(digits) as u16),
{
    assert(is_digit(digits[0]));
    assert(is_digit(digits[digits.len() - 1]));
    let line = PORT_PREFIX@ + digits + tail;
    assert(line.subrange(0, PORT_PREFIX@.len() as int) =~= PORT_PREFIX@);
    assert(line.skip(PORT_PREFIX@.len() as int) =~= digits + tail);
    lemma_trim_end_drops_tail(digits, tail);
}

/// Every port is read back from the line that announces it the usual way,
/// whatever white space ends the line.
pub proof fn lemma_announced_port_is_read_back(port: u16, tail: Seq<char>)
    requires
        all_whitespace(tail),
    ensures
        announced_port(PORT_PREFIX@ + decimal_text(port as nat) + tail) == Some(port),
        announced_port(port_line(port)) == Some(port),
{
    lemma_decimal_round_trip(port as nat);
    lemma_announcement_is_read(decimal_text(port as nat), tail);
    let feed = seq!['\n'];
    assert(all_whitespace(feed));
    lemma_announcement_is_read(decimal_text(port as nat), feed);
}

/// A line that does not begin with the prefix announces no port, whatever
/// else it holds, and so does the end of the output: reading either is an
/// error.
pub proof fn lemma_other_lines_announce_nothing(first: FirstLine, port: Result<u16, DaemonError>)
    requires
        port_reading(first, port),
        first matches FirstLine::Line(line) ==> !starts_with(line@, PORT_PREFIX@),
    ensures
        port is Err,
        first is Closed ==> port->Err_0 is StdoutClosed,
        first is Line ==> port->Err_0 is PortNotReported,
{
}

} // verus!
