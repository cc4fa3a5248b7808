//! Identifiers and clock readings: UUIDs (held as their 128-bit value) and
//! wall-clock time in milliseconds since the Unix epoch.
use crate::text::spec_lower_hex;
use vstd::prelude::*;

verus! {

/// The `n` low-order bytes of `u`, most significant first.
pub open spec fn spec_be_bytes(u: nat, n: nat) -> Seq<u8>
    decreases n,
{
    if n == 0 {
        Seq::empty()
    } else {
        spec_be_bytes(u / 256, (n - 1) as nat).push((u % 256) as u8)
    }
}

/// The hyphenated lowercase text of the UUID with value `u` (`Uuid::to_string`):
/// its 16 bytes, most significant first, as 32 lowercase hex digits grouped
/// 8-4-4-4-12 and joined by `-`.
pub open spec fn spec_uuid_text(u: u128) -> Seq<char> {
    let h = spec_lower_hex(spec_be_bytes(u as nat, 16));
    h.subrange(0, 8) + "-"@ + h.subrange(8, 12) + "-"@ + h.subrange(12, 16) + "-"@ + h.subrange(16, 20)
        + "-"@ + h.subrange(20, 32)
}

/// `Uuid::parse_str` of `s`: the UUID's value, or the parser's error message.
pub uninterp spec fn spec_uuid_parse(s: Seq<char>) -> Result<u128, Seq<char>>;

/// `uuid::Uuid::now_v7`: a new time-ordered UUID, as its 128-bit value.
/// Which value comes out (it depends on the clock and on chance) is left open.
#[verifier::external_body]
pub(crate) fn new_uuid_v7() -> (r: u128) {
    uuid::Uuid::now_v7().as_u128()
}

/// `Uuid::from_u128(u).to_string()`: the hyphenated lowercase text,
/// `spec_uuid_text`. `Uuid::parse_str` accepts every text this produces and
/// gives `u` back (the parser accepts all formats the crate produces).
#[verifier::external_body]
pub(crate) fn uuid_text(u: u128) -> (r: String)
    ensures
        r@ == spec_uuid_text(u),
        match spec_uuid_parse(r@) {
            Ok(v) => v == u,
            Err(_) => false,
        },
{
    uuid::Uuid::from_u128(u).to_string()
}

/// `Uuid::parse_str`: the value of the UUID `s` spells, or the parser's error
/// message; the outcome is named by `spec_uuid_parse`.
#[verifier::external_body]
pub(crate) fn uuid_parse(s: &str) -> (r: Result<u128, String>)
    ensures
        match r {
            Ok(u) => spec_uuid_parse(s@) == Ok::<u128, Seq<char>>(u),
            Err(m) => spec_uuid_parse(s@) == Err::<u128, Seq<char>>(m@),
        },
{
    uuid::Uuid::parse_str(s).map(|u| u.as_u128()).map_err(|e| e.to_string())
}

/// `chrono::Utc::now().timestamp_millis()`: the current time in milliseconds
/// since the Unix epoch. Nothing is stated of the value.
#[verifier::external_body]
pub(crate) fn now_millis() -> (r: i64) {
    chrono::Utc::now().timestamp_millis()
}

/// `DateTime::from_timestamp_millis(ms)` formatted by `to_rfc3339`; `None` when
/// `ms` lies outside chrono's date range.
pub uninterp spec fn spec_rfc3339(ms: i64) -> Option<Seq<char>>;

/// The RFC 3339 text of the instant `ms` milliseconds after the Unix epoch
/// (`chrono::DateTime::from_timestamp_millis` then `to_rfc3339`), named by
/// `spec_rfc3339`; `None` outside chrono's date range.
#[verifier::external_body]
pub(crate) fn rfc3339_from_millis(ms: i64) -> (r: Option<String>)
    ensures
        match r {
            Some(t) => spec_rfc3339(ms) == Some(t@),
            None => spec_rfc3339(ms) is None,
        },
{
    chrono::DateTime::from_timestamp_millis(ms).map(|d| d.to_rfc3339())
}

} // verus!
