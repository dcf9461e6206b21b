//! The two text encodings of the wire: base58 for addresses, base64 for
//! instruction payloads. Both are computed by the crates that define them;
//! the library names their results and builds on the names.

use vstd::prelude::*;

verus! {

/// `bs58::decode::Error`, the failure to decode base58.
#[verifier::external_type_specification]
#[verifier::external_body]
pub struct ExBase58DecodeError(bs58::decode::Error);

/// `base64::DecodeError`, the failure to decode base64.
#[verifier::external_type_specification]
#[verifier::external_body]
pub struct ExBase64DecodeError(base64::DecodeError);

/// The bytes that a text stands for in base58 (Bitcoin alphabet), where it
/// stands for any.
pub uninterp spec fn base58_decoded(text: Seq<char>) -> Option<Seq<u8>>;

/// The base58 text (Bitcoin alphabet) of bytes.
pub uninterp spec fn base58_text(bytes: Seq<u8>) -> Seq<char>;

/// The bytes that a text stands for in base64 (standard alphabet, padded),
/// where it stands for any.
pub uninterp spec fn base64_decoded(text: Seq<char>) -> Option<Seq<u8>>;

/// `bs58::decode(..).into_vec()`: the bytes named by [`base58_decoded`], or
/// the crate's error where the text stands for none.
#[verifier::external_body]
pub(crate) fn base58_decode(text: &str) -> (decoded: Result<Vec<u8>, bs58::decode::Error>)
    ensures
        match decoded {
            Ok(bytes) => base58_decoded(text@) == Some(bytes@),
            Err(_) => base58_decoded(text@) is None,
        },
{
    bs58::decode(text).into_vec()
}

/// `bs58::encode(..).into_string()`: the text named by [`base58_text`].
#[verifier::external_body]
pub(crate) fn base58_encode(bytes: &[u8]) -> (text: String)
    ensures
        text@ == base58_text(bytes@),
{
    bs58::encode(bytes).into_string()
}

/// `decode` of base64's `STANDARD` engine: the bytes named by
/// [`base64_decoded`], or the crate's error where the text stands for none.
#[verifier::external_body]
pub(crate) fn base64_decode(text: &str) -> (decoded: Result<Vec<u8>, base64::DecodeError>)
    ensures
        match decoded {
            Ok(bytes) => base64_decoded(text@) == Some(bytes@),
            Err(_) => base64_decoded(text@) is None,
        },
{
    base64::Engine::decode(&base64::engine::general_purpose::STANDARD, text)
}

} // verus!
