//! What this library takes from other crates and from the standard library
//! without proof.
//!
//! Verus believes the contracts in this file; it does not read the code
//! behind them. Each one says what the called function's source or
//! documentation shows, and nothing more.

use std::fmt::Write;
use vstd::prelude::*;

verus! {

/// `String::push` of the standard library, which vstd leaves without a
/// specification. Its documentation says that it appends the given character
/// to the end of the string; the contract says the same of the views.
pub assume_specification[ String::push ](s: &mut String, c: char)
    ensures
        final(s)@ == old(s)@.push(c),
;

/// The error of `serde_json`. Nothing is known of a value of it but what
/// [`json_error_words`] gives.
#[verifier::external_type_specification]
#[verifier::external_body]
pub struct ExJsonError(serde_json::Error);

/// What `serde_json` makes of the member `key` of the JSON document `json`:
/// the member's value written as compact JSON, so a string with its quotes;
/// `null` where the document is no object or has no such member; and nothing
/// where `json` is no JSON document at all.
pub uninterp spec fn json_member_text(json: Seq<char>, key: Seq<char>) -> Option<Seq<char>>;

/// Parses `json` with `serde_json::from_str` into a `serde_json::Value`,
/// takes the member `key` by the value's index operator, which gives `null`
/// where there is none, and writes it with the value's `to_string`.
///
/// The contract gives the result its name and claims nothing else. The result
/// depends on the two texts alone.
#[verifier::external_body]
pub(crate) fn json_member(json: &str, key: &str) -> (out: Result<String, serde_json::Error>)
    ensures
        match out {
            Ok(text) => json_member_text(json@, key@) == Some(text@),
            Err(_) => json_member_text(json@, key@) is None,
        },
{
    match serde_json::from_str::<serde_json::Value>(json) {
        Ok(value) => Ok(value[key].to_string()),
        Err(error) => Err(error),
    }
}

/// The words of a `serde_json::Error`, by its `to_string`. Nothing is claimed
/// of them.
#[verifier::external_body]
pub(crate) fn json_error_words(error: &serde_json::Error) -> (out: String) {
    error.to_string()
}

/// What `chrono` writes for the moment `seconds` after the start of 1970, in
/// universal time, under the format `pattern`; nothing where `chrono` cannot
/// represent the moment or does not accept the pattern.
pub uninterp spec fn formatted_time(seconds: int, pattern: Seq<char>) -> Option<Seq<char>>;

/// Makes the moment with `chrono::DateTime::from_timestamp`, which gives
/// nothing for a number of seconds out of its range, and writes it with
/// `DateTime::format`, whose output fails to be written where the pattern is
/// not valid.
///
/// The contract gives the result its name and claims nothing else. The result
/// depends on the two arguments alone: the time zone is fixed and no locale
/// is read.
#[verifier::external_body]
pub(crate) fn format_time(seconds: i64, pattern: &str) -> (out: Option<String>)
    ensures
        match out {
            Some(text) => formatted_time(seconds as int, pattern@) == Some(text@),
            None => formatted_time(seconds as int, pattern@) is None,
        },
{
    match chrono::DateTime::from_timestamp(seconds, 0) {
        Some(moment) => {
            let mut out = String::new();
            match write!(out, "{}", moment.format(pattern)) {
                Ok(_) => Some(out),
                Err(_) => None,
            }
        },
        None => None,
    }
}

/// The random identifier that `uuid` makes of sixteen random bytes, as it
/// writes it: in small hexadecimal digits with hyphens.
pub uninterp spec fn uuid_text(random: Seq<u8>) -> Seq<char>;

/// Makes a version 4 identifier with `uuid::Builder::from_random_bytes`, which
/// sets the bits of version and variant and keeps the others, and writes it
/// with `Uuid`'s `to_string`.
///
/// The contract gives the result its name and claims nothing else. The result
/// depends on the bytes alone.
#[verifier::external_body]
pub(crate) fn uuid_of(random: [u8; 16]) -> (out: String)
    ensures
        out@ == uuid_text(random@),
{
    uuid::Builder::from_random_bytes(random).into_uuid().to_string()
}

} // verus!
