//! The lines that the proxy logs. Writing them is the caller's part.

use crate::constants::{LOG_PREFIX_ERROR, LOG_PREFIX_WARNING};
use crate::text::{chars_of, push_chars, push_str, str_eq, string_of};
use vstd::prelude::*;

verus! {

/// What the log shows.
#[derive(Debug, Clone, Copy, PartialEq, Eq, Structural)]
pub struct LogConfig {
    pub debug_enabled: bool,
}

/// The level of a line of the log.
#[derive(Debug, Clone, Copy, PartialEq, Eq, Structural)]
pub enum LogLevel {
    Error,
    Warn,
    Info,
}

/// Whether a character is a control character: one of the code points
/// below 32, or from 127 to 159.
pub open spec fn is_control(c: char) -> bool {
    (c as u32) < 32 || (127 <= (c as u32) && (c as u32) <= 159)
}

/// A character as the log shows it: `?` for a control character other than
/// tab, line feed and carriage return; any other as it is.
pub open spec fn sanitized_char(c: char) -> char {
    if is_control(c) && c != '\t' && c != '\n' && c != '\r' {
        '?'
    } else {
        c
    }
}

/// A message as the log shows it.
pub open spec fn sanitized(message: Seq<char>) -> Seq<char> {
    Seq::new(message.len(), |i: int| sanitized_char(message[i]))
}

/// A message as the log shows it, as characters.
fn sanitize_chars(message: &str) -> (r: Vec<char>)
    ensures
        r@ == sanitized(message@),
{
    let chars = chars_of(message);
    let mut out: Vec<char> = Vec::new();
    let mut i: usize = 0;
    while i < chars.len()
        invariant
            i <= chars.len(),
            chars@ == message@,
            out@.len() == i,
            forall|j: int| 0 <= j < i ==> out@[j] == sanitized_char(chars@[j]),
        decreases chars.len() - i,
    {
        let c = chars[i];
        let code: u32 = c as u32;
        let control = code < 32 || (127 <= code && code <= 159);
        if control && c != '\t' && c != '\n' && c != '\r' {
            out.push('?');
        } else {
            out.push(c);
        }
        i = i + 1;
    }
    assert(out@ =~= sanitized(message@));
    out
}

/// A message as the log shows it.
pub fn sanitize_log_message(message: &str) -> (r: String)
    ensures
        r@ == sanitized(message@),
{
    string_of(&sanitize_chars(message))
}

/// The line that the log shows for a request.
pub open spec fn request_line(method: Seq<char>, path: Seq<char>, model: Option<Seq<char>>) -> Seq<
    char,
> {
    match model {
        Some(m) => method + " "@ + sanitized(path) + " (model: "@ + sanitized(m) + ")"@,
        None => method + " "@ + sanitized(path),
    }
}

/// The line that the log shows for a request.
pub fn log_request(method: &str, path: &str, model: Option<&str>) -> (r: String)
    ensures
        r@ == request_line(
            method@,
            path@,
            match model {
                Some(m) => Some(m@),
                None => None,
            },
        ),
{
    let mut line = chars_of(method);
    push_str(&mut line, " ");
    push_chars(&mut line, &sanitize_chars(path));
    match model {
        Some(m) => {
            push_str(&mut line, " (model: ");
            push_chars(&mut line, &sanitize_chars(m));
            push_str(&mut line, ")");
        },
        None => {},
    }
    string_of(&line)
}

/// The level at which a timed line is logged: by the prefix of its kind.
pub open spec fn timed_level(prefix: Seq<char>) -> LogLevel {
    if prefix == LOG_PREFIX_ERROR@ {
        LogLevel::Error
    } else if prefix == LOG_PREFIX_WARNING@ {
        LogLevel::Warn
    } else {
        LogLevel::Info
    }
}

/// The line that the log shows for an operation and the time that it
/// took, with the level of the line.
pub fn log_timed(prefix: &str, operation: &str, formatted_duration: &str) -> (r: (LogLevel, String))
    ensures
        r.0 == timed_level(prefix@),
        r.1@ == operation@ + " | "@ + formatted_duration@,
{
    let level = if str_eq(prefix, LOG_PREFIX_ERROR) {
        LogLevel::Error
    } else if str_eq(prefix, LOG_PREFIX_WARNING) {
        LogLevel::Warn
    } else {
        LogLevel::Info
    };
    let mut line = chars_of(operation);
    push_str(&mut line, " | ");
    push_str(&mut line, formatted_duration);
    (level, string_of(&line))
}

} // verus!
