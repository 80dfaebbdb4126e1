//! The trusted boundary to the outside crates.
//!
//! Each function here is believed, not verified: its contract states only
//! what the named outside function's source or documentation shows.  Results
//! that are functions of the arguments alone (the base64 encoding, the fields
//! of a JSON document) are given names as bodiless spec functions; results
//! that depend on randomness get no name, only the range that every outcome
//! lies in.

use base64::Engine;
use vstd::prelude::*;

verus! {

/// The standard padded base64 encoding of the UTF-8 bytes of `s`.
pub uninterp spec fn base64_of(s: Seq<char>) -> Seq<char>;

/// The string field stored under `key` in the JSON document `body`: `None`
/// when the body is not valid JSON, the field is absent, or the field is not
/// a string.
pub uninterp spec fn json_str_field(body: Seq<u8>, key: Seq<char>) -> Option<Seq<char>>;

/// The unsigned-integer field stored under `key` in the JSON document
/// `body`: `None` when the body is not valid JSON, the field is absent, or
/// the field is not an unsigned integer.
pub uninterp spec fn json_u64_field(body: Seq<u8>, key: Seq<char>) -> Option<u64>;

/// Relies on base64's `Engine::encode` with the `STANDARD` engine: the
/// encoding is a function of the input bytes alone.
#[verifier::external_body]
pub(crate) fn b64_encode(s: &str) -> (r: String)
    ensures
        r@ == base64_of(s@),
{
    base64::engine::general_purpose::STANDARD.encode(s.as_bytes())
}

/// Relies on uuid's `Uuid::new_v4` and its `Display` form: a fresh random
/// identifier rendered in the 36-character hyphenated format.  The draw is
/// random, so nothing relates two calls.
#[verifier::external_body]
pub(crate) fn new_instance_id() -> (r: String)
    ensures
        r@.len() == 36,
{
    uuid::Uuid::new_v4().to_string()
}

/// Relies on fastrand's `bool`: either outcome may come back.
#[verifier::external_body]
pub(crate) fn rand_bool() -> bool {
    fastrand::bool()
}

/// Relies on fastrand's `u8` over an inclusive range, which panics only on an
/// empty range and otherwise draws within it.
#[verifier::external_body]
pub(crate) fn rand_u8(lo: u8, hi: u8) -> (r: u8)
    requires
        lo <= hi,
    ensures
        lo <= r <= hi,
{
    fastrand::u8(lo..=hi)
}

/// Relies on fastrand's `usize` over a half-open range from zero, which
/// panics only on an empty range and otherwise draws a valid index.
#[verifier::external_body]
pub(crate) fn rand_index(n: usize) -> (r: usize)
    requires
        n >= 1,
    ensures
        r < n,
{
    fastrand::usize(..n)
}

/// Relies on serde_json's `from_slice` and `Value::{get, as_str}`: whether
/// the body parses to a document with a string under `key`, and that string's
/// text, are functions of the body and the key alone.
#[verifier::external_body]
pub(crate) fn json_get_str(body: &[u8], key: &str) -> (r: Option<String>)
    ensures
        r.deep_view() == json_str_field(body@, key@),
{
    let v: serde_json::Value = match serde_json::from_slice(body) {
        Ok(v) => v,
        Err(_) => return None,
    };
    match v.get(key) {
        Some(f) => f.as_str().map(|s| s.to_string()),
        None => None,
    }
}

/// Relies on serde_json's `from_slice` and `Value::{get, as_u64}`: whether
/// the body parses to a document with an unsigned integer under `key`, and
/// that integer, are functions of the body and the key alone.
#[verifier::external_body]
pub(crate) fn json_get_u64(body: &[u8], key: &str) -> (r: Option<u64>)
    ensures
        r == json_u64_field(body@, key@),
{
    let v: serde_json::Value = match serde_json::from_slice(body) {
        Ok(v) => v,
        Err(_) => return None,
    };
    match v.get(key) {
        Some(f) => f.as_u64(),
        None => None,
    }
}

} // verus!
