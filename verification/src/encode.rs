//! The base64 payload and its data-URI wrapping.

use vstd::prelude::*;
use vstd::string::StringExecFns;
use base64::Engine;

verus! {

/// The standard, '='-padded base64 rendering of a byte sequence.
pub uninterp spec fn base64_of(bytes: Seq<u8>) -> Seq<char>;

/// Relies on base64's `Engine::encode` with the `STANDARD` engine: the
/// standard alphabet with '=' padding, a function of the bytes alone, whose
/// padded length is `4 * ceil(n / 3)` (its `encoded_len`); the call panics
/// only when that length overflows `usize`.
#[verifier::external_body]
pub fn encode_base64(bytes: &Vec<u8>) -> (r: String)
    requires
        bytes@.len() / 3 * 4 + 4 <= usize::MAX,
    ensures
        r@ == base64_of(bytes@),
        r@.len() == 4 * ((bytes@.len() + 2) / 3),
{
    base64::engine::general_purpose::STANDARD.encode(bytes)
}

/// The data-URI that hands a base64 payload to the platform image decoder.
/// The media type is pinned to image/png whatever the source format was, as
/// the upload surface has always done; whether the detected MIME type should
/// stand there instead is left open.
pub fn data_uri(payload: &str) -> (r: String)
    ensures
        r@ == "data:image/png;base64,"@ + payload@,
{
    String::from_str("data:image/png;base64,").concat(payload)
}

} // verus!
