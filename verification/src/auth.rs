//! The credentials of the application-only token request: the HTTP `Basic`
//! authorization value made of the API key and the API secret.

use base64::Engine;
use vstd::prelude::*;
use vstd::string::StringExecFns;
use vstd::utf8::encode_utf8;

verus! {

/// The standard base64 encoding, with padding, of `input`: what
/// `base64::engine::general_purpose::STANDARD` makes of these bytes.
pub uninterp spec fn base64_standard(input: Seq<u8>) -> Seq<char>;

/// Whether the length that base64 gives to `len` bytes fits in `usize`.
pub open spec fn base64_fits(len: nat) -> bool {
    len / 3 * 4 + 4 <= usize::MAX
}

/// Encodes `input` with `base64::Engine::encode` on the `STANDARD` engine.
///
/// Trusted: the body is not verified. The encoding is a function of the
/// bytes alone and is named, not restated. The crate panics where the
/// encoded length overflows `usize`; such an input is kept out.
#[verifier::external_body]
fn base64_encode(input: &[u8]) -> (encoded: String)
    requires
        base64_fits(input@.len()),
    ensures
        encoded@ == base64_standard(input@),
{
    base64::engine::general_purpose::STANDARD.encode(input)
}

/// The text that the `Basic` scheme encodes: key, colon, secret.
pub open spec fn basic_pair(api_key: Seq<char>, api_secret: Seq<char>) -> Seq<char> {
    api_key + ":"@ + api_secret
}

/// The `Basic` authorization value of the given encoding.
pub open spec fn basic_value(encoded: Seq<char>) -> Seq<char> {
    "Basic "@ + encoded
}

/// Puts the scheme name before an encoded pair.
pub fn basic_authorization_of(encoded: &str) -> (value: String)
    ensures
        value@ == basic_value(encoded@),
{
    let mut value = String::from_str("Basic ");
    value.append(encoded);
    value
}

/// The `Basic` authorization value for `api_key` and `api_secret`: the
/// scheme name, a space, and the base64 encoding of the UTF-8 bytes of
/// `key:secret`. There is none where the pair is so long that its encoding
/// could not be held.
pub fn basic_authorization(api_key: &str, api_secret: &str) -> (value: Option<String>)
    ensures
        match value {
            Some(v) => base64_fits(encode_utf8(basic_pair(api_key@, api_secret@)).len()) && v@
                == basic_value(
                base64_standard(encode_utf8(basic_pair(api_key@, api_secret@))),
            ),
            None => !base64_fits(encode_utf8(basic_pair(api_key@, api_secret@)).len()),
        },
{
    let mut pair = String::from_str(api_key);
    pair.append(":");
    pair.append(api_secret);
    let bytes = pair.as_str().as_bytes();
    if bytes.len() / 3 > (usize::MAX - 4) / 4 {
        return None;
    }
    let encoded = base64_encode(bytes);
    Some(basic_authorization_of(encoded.as_str()))
}

} // verus!
