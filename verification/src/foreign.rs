//! The calls this library makes into other crates, each with the contract it is trusted to keep.
//!
//! Nothing here is proved. Every contract restates what the called function's source or
//! documentation says, over plain values, so that the rest of the library can be proved
//! against it.

use vstd::prelude::*;
use vstd::string::StringSliceAdditionalSpecFns;

verus! {

/// `str`'s `==` of the standard library: two strings are equal when they hold the same
/// characters.
pub assume_specification[ <str as PartialEq>::eq ](a: &str, b: &str) -> (res: bool)
    ensures
        res == (a@ == b@),
;

/// A string without the white space at its two ends, as `str::trim` of the standard library
/// leaves it.
pub uninterp spec fn trimmed(s: Seq<char>) -> Seq<char>;

/// `str::trim` of the standard library. The result depends on the string alone.
pub assume_specification[ str::trim ](s: &str) -> (res: &str)
    ensures
        res@ == trimmed(s@),
;

/// A string in lower case, as `str::to_lowercase` of the standard library writes it.
pub uninterp spec fn lowercased(s: Seq<char>) -> Seq<char>;

/// `str::to_lowercase` of the standard library. The result depends on the string alone.
pub assume_specification[ str::to_lowercase ](s: &str) -> (res: String)
    ensures
        res@ == lowercased(s@),
;

/// The bytes that pass through percent-encoding untouched: ASCII letters and digits, and
/// `-`, `.`, `_`, `~`.
pub open spec fn is_unreserved(b: u8) -> bool {
    ||| 0x30 <= b <= 0x39
    ||| 0x41 <= b <= 0x5a
    ||| 0x61 <= b <= 0x7a
    ||| b == 0x2d
    ||| b == 0x2e
    ||| b == 0x5f
    ||| b == 0x7e
}

/// The upper-case hexadecimal digit for a value below 16.
pub open spec fn hex_digit(d: u8) -> char {
    if d < 10 {
        (0x30 + d) as u8 as char
    } else {
        (0x41 + d - 10) as u8 as char
    }
}

/// One byte, percent-encoded.
pub open spec fn percent_encoded_byte(b: u8) -> Seq<char> {
    if is_unreserved(b) {
        seq![b as char]
    } else {
        seq!['%', hex_digit(b / 16), hex_digit(b % 16)]
    }
}

/// A run of bytes, percent-encoded byte by byte.
pub open spec fn percent_encoded(bytes: Seq<u8>) -> Seq<char>
    decreases bytes.len(),
{
    if bytes.len() == 0 {
        Seq::empty()
    } else {
        percent_encoded_byte(bytes[0]) + percent_encoded(bytes.drop_first())
    }
}

/// `urlencoding::encode`: every byte of the UTF-8 form of `data` is kept if it is
/// unreserved, and else written as `%` and two upper-case hexadecimal digits.
#[verifier::external_body]
pub(crate) fn url_encode(data: &str) -> (res: String)
    ensures
        res@ == percent_encoded(data.spec_bytes()),
{
    urlencoding::encode(data).into_owned()
}

/// A name made fit for a file system and still readable, as
/// `sanitize_filename_reader_friendly::sanitize` writes it.
pub uninterp spec fn sanitized_file_name(name: Seq<char>) -> Seq<char>;

/// `sanitize_filename_reader_friendly::sanitize`. The result depends on the name alone.
#[verifier::external_body]
pub(crate) fn sanitize_file_name(name: &str) -> (res: String)
    ensures
        res@ == sanitized_file_name(name@),
{
    sanitize_filename_reader_friendly::sanitize(name)
}

/// The Unix timestamp, in seconds, of midnight UTC at the start of a calendar date, as
/// chrono computes it; `None` where chrono has no such date.
pub uninterp spec fn midnight_utc_secs(year: int, month: int, day: int) -> Option<int>;

/// `chrono::NaiveDate::from_ymd_opt`, then `and_time` at midnight, read in UTC through
/// `DateTime::from_naive_utc_and_offset` and `timestamp`. The result depends on the three
/// numbers alone.
#[verifier::external_body]
pub(crate) fn midnight_utc(year: i32, month: u32, day: u32) -> (res: Option<i64>)
    ensures
        midnight_utc_secs(year as int, month as int, day as int) == match res {
            Some(secs) => Some(secs as int),
            None => None,
        },
{
    match chrono::NaiveDate::from_ymd_opt(year, month, day) {
        Some(date) => {
            let at_midnight = date.and_time(chrono::NaiveTime::MIN);
            Some(
                chrono::DateTime::<chrono::Utc>::from_naive_utc_and_offset(at_midnight, chrono::Utc)
                    .timestamp(),
            )
        },
        None => None,
    }
}

/// The error that serde_json gives for bytes it cannot read. Nothing is read from it.
#[verifier::external_type_specification]
#[verifier::external_body]
pub struct ExJsonError(serde_json::Error);

/// The type string of a raw event: the string under the key `type` of the JSON object
/// that the bytes hold, as serde_json and ruma's helper read it; `None` where they read
/// none.
pub uninterp spec fn wire_event_type(raw: Seq<char>) -> Option<Seq<char>>;

/// `serde_json::from_str` into ruma's `EventTypeDeHelper`, which reads the `type` field
/// and skips the rest. The result depends on the bytes alone.
#[verifier::external_body]
pub(crate) fn peek_event_type(raw: &str) -> (res: Result<String, serde_json::Error>)
    ensures
        wire_event_type(raw@) == match res {
            Ok(t) => Some(t@),
            Err(_) => None,
        },
{
    match serde_json::from_str::<ruma_events::EventTypeDeHelper<'_>>(raw) {
        Ok(helper) => Ok(helper.ev_type.into_owned()),
        Err(e) => Err(e),
    }
}

/// The error that ruma gives for a string that is no identifier. Nothing is read from it.
#[verifier::external_type_specification]
#[verifier::external_body]
pub struct ExIdParseError(ruma_common::IdParseError);

/// Whether ruma accepts a string as an event id.
pub uninterp spec fn is_event_id(s: Seq<char>) -> bool;

/// Whether ruma accepts a string as a room id.
pub uninterp spec fn is_room_id(s: Seq<char>) -> bool;

/// Whether ruma accepts a string as a user id.
pub uninterp spec fn is_user_id(s: Seq<char>) -> bool;

/// `ruma_common::EventId::parse`: validates the string and, where it is valid, hands the
/// same string back as an id.
#[verifier::external_body]
pub(crate) fn parse_event_id(s: &str) -> (res: Result<String, ruma_common::IdParseError>)
    ensures
        res is Ok == is_event_id(s@),
        res matches Ok(id) ==> id@ == s@,
{
    match ruma_common::EventId::parse(s) {
        Ok(id) => Ok(id.as_str().to_owned()),
        Err(e) => Err(e),
    }
}

/// `ruma_common::RoomId::parse`: validates the string and, where it is valid, hands the
/// same string back as an id.
#[verifier::external_body]
pub(crate) fn parse_room_id(s: &str) -> (res: Result<String, ruma_common::IdParseError>)
    ensures
        res is Ok == is_room_id(s@),
        res matches Ok(id) ==> id@ == s@,
{
    match ruma_common::RoomId::parse(s) {
        Ok(id) => Ok(id.as_str().to_owned()),
        Err(e) => Err(e),
    }
}

/// `ruma_common::UserId::parse`: validates the string and, where it is valid, hands the
/// same string back as an id.
#[verifier::external_body]
pub(crate) fn parse_user_id(s: &str) -> (res: Result<String, ruma_common::IdParseError>)
    ensures
        res is Ok == is_user_id(s@),
        res matches Ok(id) ==> id@ == s@,
{
    match ruma_common::UserId::parse(s) {
        Ok(id) => Ok(id.as_str().to_owned()),
        Err(e) => Err(e),
    }
}

} // verus!
