//! Decoding of the base64 text in which signing keys and signatures travel.

use crate::error::KeyError;
use base64::Engine;
use vstd::prelude::*;

verus! {

#[verifier::external_type_specification]
#[verifier::external_body]
pub struct ExDecodeError(base64::DecodeError);

/// What the standard base64 alphabet, with canonical padding, makes of a
/// text: the decoded bytes, or `None` where the text is not valid base64.
pub uninterp spec fn base64_standard_decoding(text: Seq<char>) -> Option<Seq<u8>>;

/// Number of bytes in an Ed25519 public key.
pub const SIGNING_KEY_LEN: usize = 32;

/// Calls `Engine::decode` of the `base64` crate on its `STANDARD` engine.
/// Trusted: the outcome is the decoding named by
/// [`base64_standard_decoding`], success and failure alike; the call depends
/// on nothing but the text.
#[verifier::external_body]
pub(crate) fn decode_standard(text: &str) -> (decoded: Result<Vec<u8>, base64::DecodeError>)
    ensures
        match decoded {
            Ok(bytes) => base64_standard_decoding(text@) == Some(bytes@),
            Err(_) => base64_standard_decoding(text@) is None,
        },
{
    base64::engine::general_purpose::STANDARD.decode(text)
}

/// The signing key held in a base64 decoding: its 32 bytes, if the text
/// decoded and decoded to exactly that many.
pub open spec fn signing_key_of(decoding: Option<Seq<u8>>) -> Result<Seq<u8>, KeyError> {
    match decoding {
        Some(bytes) if bytes.len() == SIGNING_KEY_LEN => Ok(bytes),
        _ => Err(KeyError::MalformedKey),
    }
}

/// The signature bytes held in a base64 decoding.
pub open spec fn signature_of(decoding: Option<Seq<u8>>) -> Result<Seq<u8>, KeyError> {
    match decoding {
        Some(bytes) => Ok(bytes),
        None => Err(KeyError::MalformedSignature),
    }
}

/// The view of a decoding result: the bytes, with the reason for a failure
/// dropped.
pub open spec fn decoding_view(decoded: Result<Vec<u8>, base64::DecodeError>) -> Option<Seq<u8>> {
    match decoded {
        Ok(bytes) => Some(bytes@),
        Err(_) => None,
    }
}

/// Turns the decoding of a stored signing key into a fixed-size key, or
/// `MalformedKey` where decoding failed or gave another length than 32.
pub fn signing_key_bytes(decoded: Result<Vec<u8>, base64::DecodeError>) -> (key: Result<
    [u8; 32],
    KeyError,
>)
    ensures
        match key {
            Ok(bytes) => signing_key_of(decoding_view(decoded)) == Ok::<Seq<u8>, KeyError>(bytes@),
            Err(e) => signing_key_of(decoding_view(decoded)) == Err::<Seq<u8>, KeyError>(e),
        },
{
    match decoded {
        Ok(bytes) => {
            if bytes.len() != SIGNING_KEY_LEN {
                return Err(KeyError::MalformedKey);
            }
            let mut key = [0u8; 32];
            let mut i: usize = 0;
            while i < 32
                invariant
                    i <= 32,
                    bytes.len() == 32,
                    forall|j: int| 0 <= j < i ==> key@[j] == bytes@[j],
                decreases 32 - i,
            {
                key[i] = bytes[i];
                i += 1;
            }
            assert(key@ =~= bytes@);
            Ok(key)
        },
        Err(_) => Err(KeyError::MalformedKey),
    }
}

/// Turns the decoding of a supplied signature into its bytes, or
/// `MalformedSignature` where decoding failed.
pub fn signature_bytes(decoded: Result<Vec<u8>, base64::DecodeError>) -> (signature: Result<
    Vec<u8>,
    KeyError,
>)
    ensures
        match signature {
            Ok(bytes) => signature_of(decoding_view(decoded)) == Ok::<Seq<u8>, KeyError>(bytes@),
            Err(e) => signature_of(decoding_view(decoded)) == Err::<Seq<u8>, KeyError>(e),
        },
{
    match decoded {
        Ok(bytes) => Ok(bytes),
        Err(_) => Err(KeyError::MalformedSignature),
    }
}

} // verus!
