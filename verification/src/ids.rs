//! Identifiers and timestamps.
//!
//! Device, message, transfer and clipboard-entry identifiers are UUIDs, held
//! here as their 128-bit big-endian value; timestamps are UTC instants held as
//! seconds since the Unix epoch plus a sub-second nanosecond count.

use vstd::prelude::*;
use vstd::arithmetic::power2::pow2;
use crate::text::hex_char;

verus! {

/// A UTC instant: whole seconds since the Unix epoch and the nanoseconds
/// past that second (up to `1_999_999_999` during a leap second).
#[derive(Clone, Copy, Debug, PartialEq, Eq, Structural)]
pub struct Timestamp {
    pub secs: i64,
    pub nanos: u32,
}

/// Nibble `k` (0 = most significant) of a 128-bit value.
pub open spec fn nibble_of(u: u128, k: int) -> int {
    ((u as int) / (pow2((4 * (31 - k)) as nat) as int)) % 16
}

/// The hyphenated lowercase form `xxxxxxxx-xxxx-xxxx-xxxx-xxxxxxxxxxxx` of a UUID.
pub open spec fn uuid_text(u: u128) -> Seq<char> {
    Seq::new(
        36,
        |i: int|
            if i == 8 || i == 13 || i == 18 || i == 23 {
                '-'
            } else {
                hex_char(
                    nibble_of(
                        u,
                        i - (if i < 8 {
                            0int
                        } else if i < 13 {
                            1int
                        } else if i < 18 {
                            2int
                        } else if i < 23 {
                            3int
                        } else {
                            4int
                        }),
                    ),
                )
            },
    )
}

/// What `uuid::Uuid::parse_str` gives for a string: the UUID's value, or
/// `None` where the string is not one of the accepted forms.
pub uninterp spec fn uuid_parsed(s: Seq<char>) -> Option<u128>;

/// A fresh random version-4 UUID (`uuid::Uuid::new_v4`).  The crate masks the
/// random bits so that the version nibble is 4 and the variant bits are `10`;
/// nothing else is known of the value.
#[verifier::external_body]
pub(crate) fn new_uuid() -> (u: u128)
    ensures
        ((u as int) / (pow2(76) as int)) % 16 == 4,
        ((u as int) / (pow2(62) as int)) % 4 == 2,
{
    uuid::Uuid::new_v4().as_u128()
}

/// `Uuid::to_string`: the hyphenated lowercase form.  The crate documents that
/// `Uuid::parse_str` accepts every form it generates, so parsing the text gives
/// the UUID back.
#[verifier::external_body]
pub(crate) fn uuid_to_string(u: u128) -> (s: String)
    ensures
        s@ == uuid_text(u),
        uuid_parsed(s@) == Some(u),
{
    uuid::Uuid::from_u128(u).to_string()
}

/// `Uuid::parse_str`, with the error dropped.
#[verifier::external_body]
pub(crate) fn uuid_parse(s: &str) -> (r: Option<u128>)
    ensures
        r == uuid_parsed(s@),
{
    match uuid::Uuid::parse_str(s) {
        Ok(u) => Some(u.as_u128()),
        Err(_) => None,
    }
}

/// The current UTC time (`chrono::Utc::now`).  Nothing is known of it but the
/// range of its sub-second part.
#[verifier::external_body]
pub(crate) fn now_utc() -> (t: Timestamp)
    ensures
        t.nanos < 2_000_000_000,
{
    let now = chrono::Utc::now();
    Timestamp { secs: now.timestamp(), nanos: now.timestamp_subsec_nanos() }
}

} // verus!
