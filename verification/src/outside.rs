//! The crate's trusted boundary: declarations and thin wrappers for the
//! outside functions the library relies on. Verus believes the contracts
//! stated here without proof; everything else in the crate is verified
//! against them.

use vstd::prelude::*;
use vstd::utf8::is_ascii_chars;

use rand::distributions::DistString;

use crate::engine::TokenFields;
use crate::engine::TokenFieldsV;

verus! {

#[verifier::external_type_specification]
#[verifier::external_body]
pub struct ExValue(serde_json::Value);

/// True when `serde_json` accepts a text as JSON.
pub uninterp spec fn json_accepts(s: Seq<char>) -> bool;

/// Relies on `serde_json::from_str::<Value>`: parses a text as JSON,
/// succeeding exactly on well-formed JSON; the outcome depends on the text
/// alone.
#[verifier::external_body]
pub(crate) fn parse_json_value(s: &str) -> (r: Option<serde_json::Value>)
    ensures
        r is Some <==> json_accepts(s@),
{
    serde_json::from_str(s).ok()
}

/// What the four token fields of a JSON token-endpoint response read as;
/// the result depends on the body text alone.
pub uninterp spec fn token_fields_of(s: Seq<char>) -> TokenFieldsV;

/// Relies on `serde_json::from_str::<Value>` and on `Value::get`,
/// `Value::as_str` and `Value::as_u64`: reads the `access_token`,
/// `refresh_token`, `expires_in` and `scope` fields of a JSON object,
/// each absent when the body is not JSON, the field is missing, or the
/// field has the wrong type.
#[verifier::external_body]
pub(crate) fn read_token_fields(body: &str) -> (r: TokenFields)
    ensures
        r@ == token_fields_of(body@),
{
    let absent = TokenFields { access_token: None, refresh_token: None, expires_in: None, scope: None };
    let v: serde_json::Value = match serde_json::from_str(body) {
        Ok(v) => v,
        Err(_) => return absent,
    };
    TokenFields {
        access_token: v.get("access_token").and_then(|t| t.as_str()).map(|s| s.to_owned()),
        refresh_token: v.get("refresh_token").and_then(|t| t.as_str()).map(|s| s.to_owned()),
        expires_in: v.get("expires_in").and_then(|t| t.as_u64()),
        scope: v.get("scope").and_then(|t| t.as_str()).map(|s| s.to_owned()),
    }
}

/// The standard base64 encoding of a byte string.
pub uninterp spec fn base64_of(b: Seq<u8>) -> Seq<char>;

/// Relies on `base64::encode`: the standard alphabet (ASCII letters,
/// digits, `+`, `/`) with `=` padding; the result depends on the bytes
/// alone.
#[verifier::external_body]
pub(crate) fn base64_encode(b: &Vec<u8>) -> (r: String)
    ensures
        r@ == base64_of(b@),
        is_ascii_chars(r@),
{
    base64::encode(b)
}

/// True for ASCII letters and digits.
pub open spec fn is_alnum_char(c: char) -> bool {
    ||| '0' <= c <= '9'
    ||| 'A' <= c <= 'Z'
    ||| 'a' <= c <= 'z'
}

/// Relies on rand's `Alphanumeric` distribution and its `sample_string`:
/// exactly `len` characters, each an ASCII letter or digit, freshly drawn
/// each call.
#[verifier::external_body]
pub(crate) fn random_alphanumeric(len: usize) -> (r: String)
    ensures
        r@.len() == len,
        forall|i: int| 0 <= i < r@.len() ==> is_alnum_char(#[trigger] r@[i]),
{
    rand::distributions::Alphanumeric.sample_string(&mut rand::thread_rng(), len)
}

/// What a byte string reads as under lossy UTF-8 decoding; the result
/// depends on the bytes alone.
pub uninterp spec fn utf8_lossy_of(b: Seq<u8>) -> Seq<char>;

/// Relies on `String::from_utf8_lossy`: well-formed UTF-8 decodes to the
/// characters it encodes, so ASCII bytes decode to themselves one for
/// one; ill-formed sequences are replaced.
#[verifier::external_body]
pub(crate) fn bytes_to_string_lossy(b: &Vec<u8>) -> (r: String)
    ensures
        r@ == utf8_lossy_of(b@),
        (forall|i: int| 0 <= i < b@.len() ==> b@[i] < 128) ==> r@ == Seq::new(
            b@.len(),
            |i: int| b@[i] as char,
        ),
{
    String::from_utf8_lossy(b).into_owned()
}

} // verus!
