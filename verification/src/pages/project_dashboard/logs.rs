//! Container logs: one line is an optional UTC timestamp, a space and a message.

use crate::text::{
    before, chars_of, contains, contains_chars, find_char, lemma_position, line_ranges, lines,
    position, str_before, to_uppercase, trim_bounds, trimmed, uppercase,
};
use vstd::prelude::*;

verus! {

/// One rendered log line.
#[derive(Debug, PartialEq)]
pub struct LogLine {
    /// The timestamp without its fraction of a second; empty where the line has none.
    pub timestamp: String,
    pub message: String,
    /// The style class that marks the message's severity.
    pub level_class: &'static str,
}

/// A line's timestamp and message. A line has a timestamp where what stands before its
/// first space ends in `Z`; the message is then the rest, trimmed. Any other line is all
/// message.
pub open spec fn spec_parse_log_line(line: Seq<char>) -> (Seq<char>, Seq<char>) {
    let p = position(line, ' ');
    if 0 < p < line.len() && line[p - 1] == 'Z' {
        (line.take(p), trimmed(line.skip(p + 1)))
    } else {
        (Seq::empty(), line)
    }
}

/// Cuts a log line into its timestamp and its message.
pub fn parse_log_line<'a>(line: &'a str) -> (r: (&'a str, &'a str))
    ensures
        (r.0@, r.1@) == spec_parse_log_line(line@),
{
    let v = chars_of(line);
    let n = v.len();
    let p = find_char(&v, 0, n, ' ');
    proof {
        assert(v@.subrange(0, n as int) =~= v@);
        lemma_position(line@, ' ');
    }
    if 0 < p && p < n && v[p - 1] == 'Z' {
        let (a, b) = trim_bounds(&v, p + 1, n);
        (line.substring_char(0, p), line.substring_char(a, b))
    } else {
        proof {
            reveal_strlit("");
        }
        ("", line)
    }
}

/// A timestamp without its fraction of a second: what stands before its first `.`.
pub fn format_timestamp<'a>(timestamp: &'a str) -> (r: &'a str)
    ensures
        r@ == before(timestamp@, '.'),
{
    str_before(timestamp, '.')
}

/// The style class for a message whose upper-case form is `upper`: an error where it
/// holds `ERROR` or `FAILED`, else a warning where it holds `WARN`, else information.
pub open spec fn spec_level_class(upper: Seq<char>) -> Seq<char> {
    if contains(upper, "ERROR"@) || contains(upper, "FAILED"@) {
        "log-error"@
    } else if contains(upper, "WARN"@) || contains(upper, "WARNING"@) {
        "log-warn"@
    } else {
        "log-info"@
    }
}

/// The style class for a message, given its upper-case form.
pub fn level_class_of(upper: &str) -> (class: &'static str)
    ensures
        class@ == spec_level_class(upper@),
{
    let v = chars_of(upper);
    let error = chars_of("ERROR");
    let failed = chars_of("FAILED");
    let warn = chars_of("WARN");
    let warning = chars_of("WARNING");
    if contains_chars(&v, &error) || contains_chars(&v, &failed) {
        "log-error"
    } else if contains_chars(&v, &warn) || contains_chars(&v, &warning) {
        "log-warn"
    } else {
        "log-info"
    }
}

/// The style class for a message, whatever the case of its letters.
pub fn determine_log_level(message: &str) -> (class: &'static str)
    ensures
        class@ == spec_level_class(uppercase(message@)),
{
    let upper = to_uppercase(message);
    level_class_of(upper.as_str())
}

/// Renders one log line.
pub fn render_log_line(line: &str) -> (r: LogLine)
    ensures
        r.timestamp@ == before(spec_parse_log_line(line@).0, '.'),
        r.message@ == spec_parse_log_line(line@).1,
        r.level_class@ == spec_level_class(uppercase(spec_parse_log_line(line@).1)),
{
    let (timestamp, message) = parse_log_line(line);
    let level_class = determine_log_level(message);
    LogLine {
        timestamp: String::from_str(format_timestamp(timestamp)),
        message: String::from_str(message),
        level_class,
    }
}

/// Renders every line of `log_data`, in order.
pub fn render_logs(log_data: &str) -> (r: Vec<LogLine>)
    ensures
        r@.len() == lines(log_data@).len(),
        forall|i: int|
            0 <= i < r@.len() ==> {
                let parsed = spec_parse_log_line(lines(log_data@)[i]);
                &&& (#[trigger] r@[i]).timestamp@ == before(parsed.0, '.')
                &&& r@[i].message@ == parsed.1
                &&& r@[i].level_class@ == spec_level_class(uppercase(parsed.1))
            },
{
    let v = chars_of(log_data);
    let ranges = line_ranges(&v);
    let mut r: Vec<LogLine> = Vec::new();
    let mut i: usize = 0;
    while i < ranges.len()
        invariant
            i <= ranges.len(),
            v@ == log_data@,
            ranges@.len() == lines(log_data@).len(),
            forall|k: int|
                0 <= k < ranges@.len() ==> (#[trigger] ranges@[k]).0 <= ranges@[k].1 <= v.len()
                    && v@.subrange(ranges@[k].0 as int, ranges@[k].1 as int) == lines(
                    log_data@,
                )[k],
            r@.len() == i,
            forall|k: int|
                0 <= k < i ==> {
                    let parsed = spec_parse_log_line(lines(log_data@)[k]);
                    &&& (#[trigger] r@[k]).timestamp@ == before(parsed.0, '.')
                    &&& r@[k].message@ == parsed.1
                    &&& r@[k].level_class@ == spec_level_class(uppercase(parsed.1))
                },
        decreases ranges.len() - i,
    {
        let (a, b) = ranges[i];
        let line = log_data.substring_char(a, b);
        r.push(render_log_line(line));
        i += 1;
    }
    r
}

/// What the logs section shows.
#[derive(Debug, PartialEq)]
pub enum LogsView {
    /// The logs were not asked for yet.
    Placeholder,
    /// The last request failed; its message.
    Failed(String),
    /// The container wrote nothing.
    Empty,
    /// The rendered lines.
    Lines(Vec<LogLine>),
}

/// Decides what the logs section shows: a failure goes before the logs, and logs without
/// any text are told apart from logs that were never fetched.
pub fn logs_view(logs_error: &Option<String>, logs: &Option<String>) -> (view: LogsView)
    ensures
        match (*logs_error, *logs) {
            (Some(message), _) => view is Failed && view->Failed_0@ == message@,
            (None, None) => view is Placeholder,
            (None, Some(text)) => if text@.len() == 0 {
                view is Empty
            } else {
                &&& view is Lines
                &&& view->Lines_0@.len() == lines(text@).len()
                &&& forall|i: int|
                    0 <= i < view->Lines_0@.len() ==> {
                        let parsed = spec_parse_log_line(lines(text@)[i]);
                        &&& (#[trigger] view->Lines_0@[i]).timestamp@ == before(parsed.0, '.')
                        &&& view->Lines_0@[i].message@ == parsed.1
                        &&& view->Lines_0@[i].level_class@ == spec_level_class(
                            uppercase(parsed.1),
                        )
                    }
            },
        },
{
    match logs_error {
        Some(message) => LogsView::Failed(message.clone()),
        None => match logs {
            None => LogsView::Placeholder,
            Some(text) => {
                if text.as_str().is_empty() {
                    LogsView::Empty
                } else {
                    LogsView::Lines(render_logs(text.as_str()))
                }
            },
        },
    }
}

} // verus!
