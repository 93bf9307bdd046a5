//! The `keep_alive` of a request: how long the backend is to keep the model
//! loaded.

use crate::error::{bad_request, ProxyError, ProxyErrorV};
use crate::json::{jint, Json, JsonV};
use crate::text::{
    count_class, count_class_exec, parse_i64, parse_i64_exec, string_of, trim, trim_str, CharClass,
};
use vstd::prelude::*;

verus! {

/// The most digits that a text may hold to be read as a duration.
pub const MAX_DURATION_DIGITS: usize = 11;

/// The whole seconds of the duration that a text says in the notation of
/// `humantime` ("5m", "1h30m"), where it says one.
pub uninterp spec fn humantime_seconds(text: Seq<char>) -> Option<u64>;

/// `humantime::parse_duration`, then `Duration::as_secs`: the result is the
/// duration that the text says, in whole seconds, or nothing where the text
/// says none; the contract gives it a name. The outside function adds up
/// the spans of the text and does not return where their seconds reach the
/// largest `u64` and a full second of nanoseconds comes on top. A span is at
/// most its number times the seconds of a year, so a text of at most eleven
/// digits stays below a fifth of that limit: only such texts are admitted.
#[verifier::external_body]
fn parse_duration_seconds(text: &str) -> (r: Option<u64>)
    requires
        count_class(text@, CharClass::Digit) <= MAX_DURATION_DIGITS,
    ensures
        r == humantime_seconds(text@),
{
    match humantime::parse_duration(text) {
        Ok(duration) => Some(duration.as_secs()),
        Err(_) => None,
    }
}

/// The whole seconds of the duration that a text says: a text of more than
/// eleven digits is not read as a duration.
pub open spec fn duration_seconds(text: Seq<char>) -> Option<u64> {
    if count_class(text, CharClass::Digit) <= MAX_DURATION_DIGITS {
        humantime_seconds(text)
    } else {
        None
    }
}

/// The whole seconds of the duration that a text says.
pub fn parse_duration_text(text: &Vec<char>) -> (r: Option<u64>)
    ensures
        r == duration_seconds(text@),
{
    if count_class_exec(text, CharClass::Digit) <= MAX_DURATION_DIGITS {
        let owned = string_of(text);
        parse_duration_seconds(owned.as_str())
    } else {
        None
    }
}

/// The error for a `keep_alive` that says no time.
pub open spec fn invalid_keep_alive() -> ProxyErrorV {
    bad_request("Invalid keep_alive value. Use numeric seconds or durations like '5m'"@)
}

/// What the text of a `keep_alive` means, given the duration that it says
/// where it says one: nothing for an empty text; the seconds of the
/// duration, which have to fit; else the number that the text is.
pub open spec fn keep_alive_of_text(trimmed: Seq<char>, duration: Option<u64>) -> Result<
    Option<i64>,
    ProxyErrorV,
> {
    if trimmed.len() == 0 {
        Ok(None)
    } else {
        match duration {
            Some(seconds) => if seconds <= i64::MAX {
                Ok(Some(seconds as i64))
            } else {
                Err(bad_request("keep_alive duration exceeds supported range"@))
            },
            None => match parse_i64(trimmed) {
                Some(n) => Ok(Some(n)),
                None => Err(invalid_keep_alive()),
            },
        }
    }
}

/// What a `keep_alive` means in seconds: nothing where it is absent, `null`
/// or an empty text; a whole number itself, negative ones too; a text
/// through `keep_alive_of_text`; anything else is refused.
pub open spec fn keep_alive_seconds(raw: Option<JsonV>) -> Result<Option<i64>, ProxyErrorV> {
    match raw {
        None => Ok(None),
        Some(JsonV::Null) => Ok(None),
        Some(JsonV::Int(n)) => if i64::MIN <= n <= i64::MAX {
            Ok(Some(n as i64))
        } else {
            Err(bad_request("keep_alive value exceeds supported range"@))
        },
        Some(JsonV::Real(_)) => Err(bad_request("keep_alive must be integral"@)),
        Some(JsonV::Str(text)) => keep_alive_of_text(trim(text), duration_seconds(trim(text))),
        Some(_) => Err(invalid_keep_alive()),
    }
}

/// Whether a result of the library is what a contract says it is.
pub open spec fn seconds_result_is(
    r: Result<Option<i64>, ProxyError>,
    expected: Result<Option<i64>, ProxyErrorV>,
) -> bool {
    match (r, expected) {
        (Ok(a), Ok(b)) => a == b,
        (Err(a), Err(b)) => a@ == b,
        _ => false,
    }
}

/// What the trimmed text of a `keep_alive` means, given the duration that
/// it says.
pub fn keep_alive_from_text(trimmed: &Vec<char>, duration: Option<u64>) -> (r: Result<
    Option<i64>,
    ProxyError,
>)
    ensures
        seconds_result_is(r, keep_alive_of_text(trimmed@, duration)),
{
    if trimmed.len() == 0 {
        return Ok(None);
    }
    match duration {
        Some(seconds) => {
            if seconds <= 0x7fff_ffff_ffff_ffff {
                Ok(Some(seconds as i64))
            } else {
                Err(ProxyError::bad_request("keep_alive duration exceeds supported range"))
            }
        },
        None => match parse_i64_exec(trimmed) {
            Some(n) => Ok(Some(n)),
            None => Err(
                ProxyError::bad_request(
                    "Invalid keep_alive value. Use numeric seconds or durations like '5m'",
                ),
            ),
        },
    }
}

/// What the `keep_alive` of a request means in seconds.
pub fn parse_keep_alive_seconds(raw_value: Option<&Json>) -> (r: Result<Option<i64>, ProxyError>)
    ensures
        seconds_result_is(
            r,
            keep_alive_seconds(
                match raw_value {
                    Some(v) => Some(v@),
                    None => None,
                },
            ),
        ),
{
    let value = match raw_value {
        Some(v) => v,
        None => {
            return Ok(None);
        },
    };
    match value {
        Json::Null => Ok(None),
        Json::Number(_) => {
            match value.as_i64() {
                Some(signed) => Ok(Some(signed)),
                None => match value.as_u64() {
                    Some(_) => Err(
                        ProxyError::bad_request("keep_alive value exceeds supported range"),
                    ),
                    None => match value {
                        Json::Number(crate::json::JsonNumber::Real(_)) => Err(
                            ProxyError::bad_request("keep_alive must be integral"),
                        ),
                        _ => Err(
                            ProxyError::bad_request("keep_alive value exceeds supported range"),
                        ),
                    },
                },
            }
        },
        Json::Str(text) => {
            let trimmed = trim_str(text.as_str());
            let duration = parse_duration_text(&trimmed);
            keep_alive_from_text(&trimmed, duration)
        },
        _ => Err(
            ProxyError::bad_request(
                "Invalid keep_alive value. Use numeric seconds or durations like '5m'",
            ),
        ),
    }
}

/// `target` with the seconds as its `ttl`, where there are seconds and
/// `target` is an object.
pub open spec fn with_ttl(target: JsonV, keep_alive_seconds: Option<i64>) -> JsonV {
    match keep_alive_seconds {
        Some(ttl) => target.with("ttl"@, jint(ttl as int)),
        None => target,
    }
}

/// Puts the seconds into a backend request as its `ttl`: any number that
/// was given, negative ones too.
pub fn apply_keep_alive_ttl(target: &mut Json, keep_alive_seconds: Option<i64>)
    ensures
        final(target)@ == with_ttl(old(target)@, keep_alive_seconds),
{
    match keep_alive_seconds {
        Some(ttl) => {
            target.insert("ttl", Json::signed(ttl));
        },
        None => {},
    }
}

/// Whether a `keep_alive` asks to unload the model: it is zero.
pub fn keep_alive_requests_unload(ttl: Option<i64>) -> (r: bool)
    ensures
        r == (ttl == Some(0i64)),
{
    match ttl {
        Some(value) => value == 0,
        None => false,
    }
}

} // verus!
