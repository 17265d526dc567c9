//! How a line that the daemon wrote to its standard error is classified
//! before it is logged again.

use crate::text::{chars_of, contains, is_digit, matches_at, occurs_at, str_contains};
use vstd::prelude::*;

verus! {

/// The severity under which a line is logged.
#[derive(Debug, Clone, Copy, PartialEq, Eq, Structural)]
pub enum LogLevel {
    Error,
    Warn,
    Info,
    Debug,
    Trace,
}

/// The severity that the markers in a structured log line give it. A marker
/// is the level's name between spaces, or followed by `[`. The levels are
/// asked for in the order error, warn, info, debug, trace, and a line with no
/// marker is informational.
pub open spec fn log_level_of(line: Seq<char>) -> LogLevel {
    if contains(line, " ERROR "@) || contains(line, "ERROR["@) {
        LogLevel::Error
    } else if contains(line, " WARN "@) || contains(line, "WARN["@) {
        LogLevel::Warn
    } else if contains(line, " INFO "@) || contains(line, "INFO["@) {
        LogLevel::Info
    } else if contains(line, " DEBUG "@) || contains(line, "DEBUG["@) {
        LogLevel::Debug
    } else if contains(line, " TRACE "@) || contains(line, "TRACE["@) {
        LogLevel::Trace
    } else {
        LogLevel::Info
    }
}

/// The severity of a line of a packaged build, which is read more coarsely:
/// any mention of an error makes it an error, any mention of a warning a
/// warning, and everything else is informational.
pub open spec fn production_level_of(line: Seq<char>) -> LogLevel {
    if contains(line, "ERROR"@) || contains(line, "error"@) || contains(line, "Error"@) {
        LogLevel::Error
    } else if contains(line, "WARN"@) || contains(line, "warn"@) || contains(line, "Warning"@) {
        LogLevel::Warn
    } else {
        LogLevel::Info
    }
}

/// A character that a timestamp may hold: a digit, a letter, or one of the
/// signs that stand between the parts of a date, a time and a zone.
pub open spec fn is_stamp_char(c: char) -> bool {
    ||| is_digit(c)
    ||| ('A' <= c && c <= 'Z')
    ||| ('a' <= c && c <= 'z')
    ||| c == '-'
    ||| c == ':'
    ||| c == '.'
    ||| c == ','
    ||| c == '+'
}

/// How many characters that a timestamp may hold stand at the start of
/// `line`.
pub open spec fn stamp_len(line: Seq<char>) -> int
    decreases line.len(),
{
    if line.len() > 0 && is_stamp_char(line[0]) {
        1 + stamp_len(line.skip(1))
    } else {
        0
    }
}

/// Whether `line` begins with a timestamp: a token that begins with the
/// four digits of a year.
pub open spec fn has_timestamp(line: Seq<char>) -> bool {
    &&& stamp_len(line) >= 4
    &&& is_digit(line[0])
    &&& is_digit(line[1])
    &&& is_digit(line[2])
    &&& is_digit(line[3])
}

/// What follows `marker` where it stands in `line` at `at`.
pub open spec fn after_marker(line: Seq<char>, marker: Seq<char>, at: int) -> Seq<char> {
    line.skip(at + marker.len())
}

/// The line without its timestamp: where the line begins with a timestamp
/// and a level name between spaces comes right after it, what follows the
/// level name; in every other case the line whole.
pub open spec fn without_timestamp(line: Seq<char>) -> Seq<char> {
    let at = stamp_len(line);
    if !has_timestamp(line) {
        line
    } else if occurs_at(line, " INFO "@, at) {
        after_marker(line, " INFO "@, at)
    } else if occurs_at(line, " ERROR "@, at) {
        after_marker(line, " ERROR "@, at)
    } else if occurs_at(line, " WARN "@, at) {
        after_marker(line, " WARN "@, at)
    } else if occurs_at(line, " DEBUG "@, at) {
        after_marker(line, " DEBUG "@, at)
    } else if occurs_at(line, " TRACE "@, at) {
        after_marker(line, " TRACE "@, at)
    } else {
        line
    }
}

/// The severity that the markers in `line` give it.
pub fn extract_log_level(line: &str) -> (level: LogLevel)
    ensures
        level == log_level_of(line@),
{
    let text = chars_of(line);
    if str_contains(&text, " ERROR ") || str_contains(&text, "ERROR[") {
        LogLevel::Error
    } else if str_contains(&text, " WARN ") || str_contains(&text, "WARN[") {
        LogLevel::Warn
    } else if str_contains(&text, " INFO ") || str_contains(&text, "INFO[") {
        LogLevel::Info
    } else if str_contains(&text, " DEBUG ") || str_contains(&text, "DEBUG[") {
        LogLevel::Debug
    } else if str_contains(&text, " TRACE ") || str_contains(&text, "TRACE[") {
        LogLevel::Trace
    } else {
        LogLevel::Info
    }
}

/// The severity of a line of a packaged build.
pub fn production_log_level(line: &str) -> (level: LogLevel)
    ensures
        level == production_level_of(line@),
{
    let text = chars_of(line);
    if str_contains(&text, "ERROR") || str_contains(&text, "error") || str_contains(
        &text,
        "Error",
    ) {
        LogLevel::Error
    } else if str_contains(&text, "WARN") || str_contains(&text, "warn") || str_contains(
        &text,
        "Warning",
    ) {
        LogLevel::Warn
    } else {
        LogLevel::Info
    }
}

fn stamp_char(c: char) -> (holds: bool)
    ensures
        holds == is_stamp_char(c),
{
    ('0' <= c && c <= '9') || ('A' <= c && c <= 'Z') || ('a' <= c && c <= 'z') || c == '-' || c
        == ':' || c == '.' || c == ',' || c == '+'
}

fn digit(c: char) -> (holds: bool)
    ensures
        holds == is_digit(c),
{
    '0' <= c && c <= '9'
}

/// How many characters that a timestamp may hold stand at the start of
/// `text`.
fn leading_stamp(text: &Vec<char>) -> (at: usize)
    ensures
        at == stamp_len(text@),
        at <= text.len(),
{
    let mut at: usize = 0;
    assert(text@.skip(0) == text@);
    while at < text.len() && stamp_char(text[at])
        invariant
            at <= text.len(),
            stamp_len(text@) == at + stamp_len(text@.skip(at as int)),
        decreases text.len() - at,
    {
        assert(text@.skip(at as int).skip(1) == text@.skip(at + 1));
        at += 1;
    }
    at
}

/// What follows `marker` in `line`, if it stands there at `at`.
fn rest_after<'a>(line: &'a str, text: &Vec<char>, marker: &str, at: usize) -> (rest: Option<
    &'a str,
>)
    requires
        text@ == line@,
    ensures
        match rest {
            Some(tail) => occurs_at(line@, marker@, at as int) && tail@ == after_marker(
                line@,
                marker@,
                at as int,
            ),
            None => !occurs_at(line@, marker@, at as int),
        },
{
    let pattern = chars_of(marker);
    if matches_at(text, &pattern, at) {
        let total = text.len();
        let from = at + pattern.len();
        let tail = line.substring_char(from, total);
        assert(line@.subrange(from as int, line@.len() as int) == line@.skip(from as int));
        Some(tail)
    } else {
        None
    }
}

/// The line without its timestamp, so that logging it again does not stamp
/// it twice. Only a timestamp at the start of the line is taken away, with
/// the level name that follows it; a line without one stays whole.
pub fn remove_timestamp(line: &str) -> (rest: &str)
    ensures
        rest@ == without_timestamp(line@),
{
    let text = chars_of(line);
    let at = leading_stamp(&text);
    if at < 4 || !digit(text[0]) || !digit(text[1]) || !digit(text[2]) || !digit(text[3]) {
        return line;
    }
    if let Some(tail) = rest_after(line, &text, " INFO ", at) {
        tail
    } else if let Some(tail) = rest_after(line, &text, " ERROR ", at) {
        tail
    } else if let Some(tail) = rest_after(line, &text, " WARN ", at) {
        tail
    } else if let Some(tail) = rest_after(line, &text, " DEBUG ", at) {
        tail
    } else if let Some(tail) = rest_after(line, &text, " TRACE ", at) {
        tail
    } else {
        line
    }
}

/// How one line of the daemon's standard error is logged again: in a
/// packaged build whole, by the coarse reading; in development without its
/// timestamp, by its markers.
pub fn classify_stderr_line(line: &str, is_prod: bool) -> (out: (LogLevel, &str))
    ensures
        is_prod ==> out.0 == production_level_of(line@) && out.1@ == line@,
        !is_prod ==> out.0 == log_level_of(line@) && out.1@ == without_timestamp(line@),
{
    if is_prod {
        (production_log_level(line), line)
    } else {
        (extract_log_level(line), remove_timestamp(line))
    }
}

/// Stripping the timestamp never adds anything: what is left is the end of
/// the line.
pub proof fn lemma_without_timestamp_is_suffix(line: Seq<char>)
    ensures
        without_timestamp(line).len() <= line.len(),
        without_timestamp(line) == line.skip(line.len() - without_timestamp(line).len()),
{
    assert(line.skip(0) == line);
}

/// A line that does not begin with a timestamp stays whole, whatever level
/// names stand in it: one that is empty, one that begins with anything but a
/// digit, and one in which white space comes before the fourth character.
pub proof fn lemma_line_without_timestamp_stays_whole(line: Seq<char>)
    requires
        line.len() == 0 || !is_digit(line[0]) || (exists|i: int|
            0 <= i < 4 && i < line.len() && !is_stamp_char(#[trigger] line[i])),
    ensures
        without_timestamp(line) == line,
{
    if line.len() > 0 && is_digit(line[0]) {
        let i = choose|i: int| 0 <= i < 4 && i < line.len() && !is_stamp_char(#[trigger] line[i]);
        lemma_stamp_len_stops(line, i);
    }
}

/// The timestamp at the start of a line ends before the first character
/// that a timestamp may not hold.
pub proof fn lemma_stamp_len_stops(line: Seq<char>, at: int)
    requires
        0 <= at < line.len(),
        !is_stamp_char(line[at]),
    ensures
        stamp_len(line) <= at,
    decreases at,
{
    if at > 0 && is_stamp_char(line[0]) {
        assert(line.skip(1)[at - 1] == line[at]);
        lemma_stamp_len_stops(line.skip(1), at - 1);
    }
}

/// A token of characters that a timestamp may hold, with anything after it
/// that begins with another character, is the whole of what `stamp_len`
/// counts.
pub proof fn lemma_stamp_len_of_token(stamp: Seq<char>, rest: Seq<char>)
    requires
        forall|i: int| 0 <= i < stamp.len() ==> is_stamp_char(#[trigger] stamp[i]),
        rest.len() == 0 || !is_stamp_char(rest[0]),
    ensures
        stamp_len(stamp + rest) == stamp.len(),
    decreases stamp.len(),
{
    let line = stamp + rest;
    if stamp.len() == 0 {
        assert(line =~= rest);
    } else {
        assert(line[0] == stamp[0]);
        assert(line.skip(1) =~= stamp.skip(1) + rest);
        assert forall|i: int| 0 <= i < stamp.skip(1).len() implies is_stamp_char(
            #[trigger] stamp.skip(1)[i],
        ) by {
            assert(stamp.skip(1)[i] == stamp[i + 1]);
        }
        lemma_stamp_len_of_token(stamp.skip(1), rest);
    }
}

/// The five level names between spaces, as they follow a timestamp.
pub open spec fn is_level_marker(marker: Seq<char>) -> bool {
    ||| marker == " INFO "@
    ||| marker == " ERROR "@
    ||| marker == " WARN "@
    ||| marker == " DEBUG "@
    ||| marker == " TRACE "@
}

/// A line that is a timestamp, a level name between spaces and a message
/// comes down to the message.
pub proof fn lemma_timestamp_is_stripped(stamp: Seq<char>, marker: Seq<char>, message: Seq<char>)
    requires
        stamp.len() >= 4,
        forall|i: int| 0 <= i < stamp.len() ==> is_stamp_char(#[trigger] stamp[i]),
        is_digit(stamp[0]) && is_digit(stamp[1]) && is_digit(stamp[2]) && is_digit(stamp[3]),
        is_level_marker(marker),
    ensures
        without_timestamp(stamp + marker + message) == message,
{
    reveal_strlit(" INFO ");
    reveal_strlit(" ERROR ");
    reveal_strlit(" WARN ");
    reveal_strlit(" DEBUG ");
    reveal_strlit(" TRACE ");
    let line = stamp + marker + message;
    let at = stamp.len() as int;
    assert(marker[0] == ' ');
    assert(line =~= stamp + (marker + message));
    assert((marker + message)[0] == ' ');
    lemma_stamp_len_of_token(stamp, marker + message);
    assert(line[0] == stamp[0] && line[1] == stamp[1] && line[2] == stamp[2] && line[3]
        == stamp[3]);
    assert(line.subrange(at, at + marker.len()) =~= marker);
    assert(line.skip(at + marker.len()) =~= message);
    assert(line[at + 1] == marker[1]);
    assert(line[at + 2] == marker[2]);
    if marker != " INFO "@ {
        assert(line.subrange(at, at + " INFO "@.len())[1] == line[at + 1]);
        assert(line.subrange(at, at + " INFO "@.len())[2] == line[at + 2]);
    }
    if marker != " INFO "@ && marker != " ERROR "@ && at + " ERROR "@.len() <= line.len() {
        assert(line.subrange(at, at + " ERROR "@.len())[1] == line[at + 1]);
    }
    if marker == " DEBUG "@ || marker == " TRACE "@ {
        assert(line.subrange(at, at + " WARN "@.len())[1] == line[at + 1]);
    }
    if marker == " TRACE "@ && at + " DEBUG "@.len() <= line.len() {
        assert(line.subrange(at, at + " DEBUG "@.len())[1] == line[at + 1]);
    }
}

} // verus!
