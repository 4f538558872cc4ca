//! The URL-safe base64 encoding without padding, as the parts of a token in
//! compact form are written: the bridge to the `base64` crate.
use vstd::prelude::*;

verus! {

#[verifier::external_type_specification]
#[verifier::external_body]
pub struct ExBase64DecodeError(base64::DecodeError);

/// The text that the engine `URL_SAFE_NO_PAD` of the `base64` crate encodes
/// `bytes` as.
pub uninterp spec fn base64url_encode(bytes: Seq<u8>) -> Seq<char>;

/// The bytes that the engine `URL_SAFE_NO_PAD` of the `base64` crate decodes
/// `text` as, or `None` where it reports an error.
pub uninterp spec fn base64url_decode(text: Seq<char>) -> Option<Seq<u8>>;

/// `Engine::encode` of `URL_SAFE_NO_PAD`: the result depends on the bytes
/// alone, and the same engine decodes it as those bytes.
#[verifier::external_body]
pub(crate) fn encode(bytes: &[u8]) -> (text: String)
    ensures
        text@ == base64url_encode(bytes@),
        base64url_decode(text@) == Some(bytes@),
{
    base64::Engine::encode(&base64::engine::general_purpose::URL_SAFE_NO_PAD, bytes)
}

/// `Engine::decode` of `URL_SAFE_NO_PAD`: the result depends on the text
/// alone.
#[verifier::external_body]
pub(crate) fn decode(text: &str) -> (r: Result<Vec<u8>, base64::DecodeError>)
    ensures
        match r {
            Ok(bytes) => base64url_decode(text@) == Some(bytes@),
            Err(_) => base64url_decode(text@).is_none(),
        },
{
    base64::Engine::decode(&base64::engine::general_purpose::URL_SAFE_NO_PAD, text)
}

} // verus!
