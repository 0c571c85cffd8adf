//! The calls that the library makes into `uuid`, `chrono`, `dirs` and `serde_json`,
//! each behind one trusted wrapper whose contract says what the outside code does.

use vstd::prelude::*;
use crate::base::Timestamp;

verus! {

/// The lower-case hexadecimal digit for a value below sixteen.
pub open spec fn hex_digit(n: int) -> char {
    if n < 10 {
        (n + 48) as char
    } else {
        (n + 87) as char
    }
}

/// The four bits of `bits` at nibble position `j`, counting from the most significant nibble.
pub open spec fn nibble(bits: u128, j: int) -> int {
    ((bits as int) / vstd::arithmetic::power2::pow2((124 - 4 * j) as nat) as int) % 16
}

/// The text of a UUID in the hyphenated form `8-4-4-4-12` with lower-case hexadecimal digits.
pub open spec fn hyphenated_text(bits: u128) -> Seq<char> {
    Seq::new(
        36,
        |i: int|
            if i == 8 || i == 13 || i == 18 || i == 23 {
                '-'
            } else {
                let hyphens_before: int = if i < 8 {
                    0
                } else if i < 13 {
                    1
                } else if i < 18 {
                    2
                } else if i < 23 {
                    3
                } else {
                    4
                };
                hex_digit(nibble(bits, i - hyphens_before))
            },
    )
}

/// Calls `uuid::Uuid::new_v4` and hands back the identifier's 128 bits (`Uuid::as_u128`).
/// The bits come from a random source; only the fields that `new_v4` fixes are stated:
/// its source masks the version nibble to 4 and the variant bits to the RFC 4122 value `0b10`.
#[verifier::external_body]
pub(crate) fn random_uuid_bits() -> (bits: u128)
    ensures
        (bits >> 76u128) & 0xfu128 == 4,
        (bits >> 62u128) & 0x3u128 == 2,
{
    uuid::Uuid::new_v4().as_u128()
}

/// Calls `uuid::Uuid::from_u128(bits).to_string()`. uuid's `Display` writes the hyphenated,
/// lower-case form; the contract states that text digit by digit.
#[verifier::external_body]
pub(crate) fn uuid_text(bits: u128) -> (text: String)
    ensures
        text@ == hyphenated_text(bits),
{
    uuid::Uuid::from_u128(bits).to_string()
}

/// Calls `chrono::Utc::now()` and hands back its `timestamp()` and `timestamp_subsec_nanos()`.
/// The value is the clock's, so only what holds of every outcome is stated: chrono's `Utc::now`
/// refuses (panics on) a system time before the Unix epoch, so the seconds are not negative.
#[verifier::external_body]
pub(crate) fn now_instant() -> (t: Timestamp)
    ensures
        t.secs >= 0,
{
    let now = chrono::Utc::now();
    Timestamp { secs: now.timestamp(), nanos: now.timestamp_subsec_nanos() }
}

/// Calls `dirs::home_dir()` and converts the path with `to_string_lossy`. What the directory is
/// depends on the environment and is left unsaid; the documentation of `dirs` promises that a
/// `Some` holds a value that is not empty (`$HOME` only when set and not empty, else the
/// password database entry, `None` when that is empty).
#[verifier::external_body]
pub(crate) fn home_directory() -> (home: Option<String>)
    ensures
        home matches Some(h) ==> h@.len() > 0,
{
    match dirs::home_dir() {
        Some(path) => Some(path.to_string_lossy().to_string()),
        None => None,
    }
}


/// What `uuid::Uuid::parse_str` makes of `text`: the identifier's 128 bits, or the text of
/// its error.
pub uninterp spec fn uuid_parse(text: Seq<char>) -> Result<u128, Seq<char>>;

/// Calls `uuid::Uuid::parse_str` and hands back the bits (`as_u128`) or the error's text.
/// The result is named; the one fact stated beside the name is what uuid's parser does with
/// the hyphenated lower-case form that `Display` writes: its `parse_hyphenated` checks the four
/// hyphens and decodes the 32 hexadecimal digits in order, so it reads back the same bits.
#[verifier::external_body]
pub(crate) fn parse_uuid(text: &str) -> (r: Result<u128, String>)
    ensures
        match uuid_parse(text@) {
            Ok(v) => r matches Ok(b) && b == v && forall|bits: u128|
                text@ == hyphenated_text(bits) ==> v == bits,
            Err(m) => r matches Err(e) && e@ == m && forall|bits: u128|
                text@ != hyphenated_text(bits),
        },
{
    match uuid::Uuid::parse_str(text) {
        Ok(u) => Ok(u.as_u128()),
        Err(e) => Err(e.to_string()),
    }
}

/// What `chrono::DateTime::parse_from_rfc3339` makes of `text`, in UTC
/// (`with_timezone(&Utc)`): the whole seconds since the Unix epoch and the nanoseconds past
/// them, or the text of its error.
pub uninterp spec fn rfc3339_parse(text: Seq<char>) -> Result<(i64, u32), Seq<char>>;

/// Calls `chrono::DateTime::parse_from_rfc3339` and hands back the instant in UTC
/// (`timestamp()` and `timestamp_subsec_nanos()`), or the error's text. The result is named
/// and nothing more is stated.
#[verifier::external_body]
pub(crate) fn parse_rfc3339(text: &str) -> (r: Result<Timestamp, String>)
    ensures
        match rfc3339_parse(text@) {
            Ok(p) => r matches Ok(t) && t.secs == p.0 && t.nanos == p.1,
            Err(m) => r matches Err(e) && e@ == m,
        },
{
    match chrono::DateTime::parse_from_rfc3339(text) {
        Ok(d) => {
            let utc = d.with_timezone(&chrono::Utc);
            Ok(Timestamp { secs: utc.timestamp(), nanos: utc.timestamp_subsec_nanos() })
        },
        Err(e) => Err(e.to_string()),
    }
}

/// What `serde_json::from_str::<serde_json::Value>` makes of `text`: the JSON document, or
/// the text of its error.
pub uninterp spec fn json_parse(text: Seq<char>) -> Result<serde_json::Value, Seq<char>>;

/// Calls `serde_json::from_str::<serde_json::Value>` and hands back the document or the
/// error's text. The result is named and nothing more is stated.
#[verifier::external_body]
pub(crate) fn parse_json(text: &str) -> (r: Result<serde_json::Value, String>)
    ensures
        match json_parse(text@) {
            Ok(v) => r matches Ok(d) && d == v,
            Err(m) => r matches Err(e) && e@ == m,
        },
{
    match serde_json::from_str::<serde_json::Value>(text) {
        Ok(v) => Ok(v),
        Err(e) => Err(e.to_string()),
    }
}

} // verus!
