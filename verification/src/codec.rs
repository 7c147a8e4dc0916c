//! The textual forms of identifiers and timestamps.
//!
//! Identifiers are read and written by the `uuid` crate, timestamps by the
//! `chrono` crate. The functions of this module make those calls; their
//! contracts are taken on trust from the documentation and the source of the
//! two crates, and nothing in this library proves them.
//!
//! An identifier is held as the 128-bit number whose big-endian bytes are the
//! bytes of the UUID. A timestamp is held as the number of whole seconds
//! since 1970-01-01T00:00:00 and the nanoseconds into that second, where
//! 1,000,000,000 and more stand for a leap second.

use vstd::prelude::*;

verus! {

/// The identifier that `uuid::Uuid::parse_str` reads from `text`, or `None`
/// where it rejects the text.
pub uninterp spec fn uuid_parse(text: Seq<char>) -> Option<u128>;

/// The timestamp that `chrono::NaiveDateTime` reads from `text` through its
/// `FromStr`, or `None` where it rejects the text.
pub uninterp spec fn timestamp_parse(text: Seq<char>) -> Option<(i64, u32)>;

/// The text that the `Debug` form of `chrono::NaiveDateTime` gives the
/// timestamp, or `None` where `chrono` has no date and time for these
/// numbers.
pub uninterp spec fn timestamp_text(seconds: i64, nanos: u32) -> Option<Seq<char>>;

/// The lower-case hexadecimal digit of `value`.
pub open spec fn hex_digit(value: int) -> char
    recommends
        0 <= value < 16,
{
    if value < 10 {
        (value + 48) as char
    } else {
        (value + 87) as char
    }
}

/// Which of the 32 hexadecimal digits of an identifier stands at position
/// `i` of its hyphenated form, counted from the most significant.
pub open spec fn digit_index(i: int) -> int {
    if i < 8 {
        i
    } else if i < 13 {
        i - 1
    } else if i < 18 {
        i - 2
    } else if i < 23 {
        i - 3
    } else {
        i - 4
    }
}

/// The digit of `id` at position `k` of its 32 hexadecimal digits, counted
/// from the most significant.
pub open spec fn hex_value(id: u128, k: int) -> int
    recommends
        0 <= k < 32,
{
    (id as int / vstd::arithmetic::power::pow(16, (31 - k) as nat)) % 16
}

/// The hyphenated form of an identifier: its 32 lower-case hexadecimal
/// digits in groups of 8, 4, 4, 4 and 12, with a hyphen between the groups.
pub open spec fn hyphenated_text(id: u128) -> Seq<char> {
    Seq::new(
        36,
        |i: int|
            if i == 8 || i == 13 || i == 18 || i == 23 {
                '-'
            } else {
                hex_digit(hex_value(id, digit_index(i)))
            },
    )
}

/// Reads an identifier with `uuid::Uuid::parse_str` and hands it out as the
/// number that `Uuid::as_u128` gives. The contract only names the result of
/// the parser: it says nothing about which texts the parser accepts.
#[verifier::external_body]
pub(crate) fn parse_uuid(text: &str) -> (parsed: Option<u128>)
    ensures
        parsed == uuid_parse(text@),
{
    match uuid::Uuid::parse_str(text) {
        Ok(id) => Some(id.as_u128()),
        Err(_) => None,
    }
}

/// Writes an identifier in the hyphenated form of the `uuid` crate, through
/// `Uuid::from_u128` and the `Display` of `Uuid::hyphenated`. The contract
/// claims that the text is the hyphenated lower-case form, and that
/// `Uuid::parse_str` reads the same identifier back from it, as the
/// documentation of the parser promises of every form that the crate writes.
#[verifier::external_body]
pub(crate) fn format_uuid(id: u128) -> (text: String)
    ensures
        text@ == hyphenated_text(id),
        uuid_parse(text@) == Some(id),
{
    uuid::Uuid::from_u128(id).hyphenated().to_string()
}

/// Reads a timestamp with the `FromStr` of `chrono::NaiveDateTime` and hands
/// it out as seconds and nanoseconds, as `timestamp` and
/// `timestamp_subsec_nanos` give them. The contract only names the result of
/// the parser.
#[verifier::external_body]
pub(crate) fn parse_timestamp(text: &str) -> (parsed: Option<(i64, u32)>)
    ensures
        parsed == timestamp_parse(text@),
{
    match text.parse::<chrono::NaiveDateTime>() {
        Ok(at) => Some((at.and_utc().timestamp(), at.and_utc().timestamp_subsec_nanos())),
        Err(_) => None,
    }
}

/// Writes a timestamp in the `Debug` form of `chrono::NaiveDateTime`, which
/// is the form that its `FromStr` reads, after `DateTime::from_timestamp` has
/// made the date and time. The contract names the text, and claims that the
/// parser reads the same timestamp back from it, as the documentation of
/// that form promises. The one exception of the documentation, a leap second
/// inside a minute, is none that `from_timestamp` makes: it only takes a
/// leap second at the last second of a minute.
#[verifier::external_body]
pub(crate) fn format_timestamp(seconds: i64, nanos: u32) -> (text: Option<String>)
    ensures
        match text {
            Some(t) => timestamp_text(seconds, nanos) == Some(t@) && timestamp_parse(t@) == Some(
                (seconds, nanos),
            ),
            None => timestamp_text(seconds, nanos) is None,
        },
{
    match chrono::DateTime::from_timestamp(seconds, nanos) {
        Some(at) => Some(format!("{:?}", at.naive_utc())),
        None => None,
    }
}

} // verus!
