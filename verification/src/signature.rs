//! Authentication of a rotation request: the canonical message and the
//! Ed25519 check of its signature against the stored signing key.

use crate::codec::{
    base64_standard_decoding, decode_standard, signature_bytes, signature_of, signing_key_bytes,
    signing_key_of,
};
use crate::error::KeyError;
use ed25519_dalek::{Signature, VerifyingKey};
use vstd::prelude::*;
use vstd::string::StringExecFns;
use vstd::utf8::encode_utf8;

verus! {

/// Number of bytes in an Ed25519 signature.
pub const SIGNATURE_LEN: usize = 64;

/// Whether 32 bytes are the compressed encoding of a point of the curve, so
/// that they can serve as an Ed25519 public key.
pub uninterp spec fn ed25519_key_decodes(key: Seq<u8>) -> bool;

/// Whether strict Ed25519 verification accepts `signature` for `message`
/// under the public key encoded by `key`. Strict verification refuses
/// signatures with a non-canonical scalar and keys or signature points of
/// small order. It is `false` where the key or the signature cannot be
/// parsed at all.
pub uninterp spec fn ed25519_strict_accepts(
    key: Seq<u8>,
    message: Seq<u8>,
    signature: Seq<u8>,
) -> bool;

/// Calls `VerifyingKey::from_bytes` of `ed25519_dalek` and reports whether it
/// succeeded. Trusted: success is a function of the 32 bytes alone, named by
/// [`ed25519_key_decodes`].
#[verifier::external_body]
fn key_decodes(key: &[u8; 32]) -> (valid: bool)
    ensures
        valid == ed25519_key_decodes(key@),
{
    VerifyingKey::from_bytes(key).is_ok()
}

/// Calls `Signature::from_slice` of `ed25519_dalek` and reports whether it
/// succeeded. Trusted: it succeeds exactly on slices of 64 bytes.
#[verifier::external_body]
fn signature_parses(signature: &[u8]) -> (well_formed: bool)
    ensures
        well_formed == (signature@.len() == SIGNATURE_LEN),
{
    Signature::from_slice(signature).is_ok()
}

/// Calls `VerifyingKey::verify_strict` of `ed25519_dalek`, on the key and
/// the signature rebuilt from their bytes with `VerifyingKey::from_bytes`
/// and `Signature::from_slice`. Trusted: the outcome is a function of the
/// three byte strings alone, named by [`ed25519_strict_accepts`].
#[verifier::external_body]
fn verify_strict(key: &[u8; 32], message: &[u8], signature: &[u8]) -> (accepted: bool)
    ensures
        accepted == ed25519_strict_accepts(key@, message@, signature@),
{
    match (VerifyingKey::from_bytes(key), Signature::from_slice(signature)) {
        (Ok(key), Ok(signature)) => key.verify_strict(message, &signature).is_ok(),
        _ => false,
    }
}

/// The text a client signs to authorize a rotation: the three new values,
/// in this order, with nothing between them.
pub open spec fn canonical_text(
    encrypted_private_key: Seq<char>,
    encrypted_private_signing_key: Seq<char>,
    password_salt: Seq<char>,
) -> Seq<char> {
    encrypted_private_key + encrypted_private_signing_key + password_salt
}

/// The bytes that the signature is checked against: the canonical text in
/// UTF-8.
pub open spec fn canonical_bytes(
    encrypted_private_key: Seq<char>,
    encrypted_private_signing_key: Seq<char>,
    password_salt: Seq<char>,
) -> Seq<u8> {
    encode_utf8(
        canonical_text(encrypted_private_key, encrypted_private_signing_key, password_salt),
    )
}

/// What checking a signature over `message` against 32 key bytes yields.
pub open spec fn signature_verdict(key: Seq<u8>, message: Seq<u8>, signature: Seq<u8>) -> Result<
    (),
    KeyError,
> {
    if !ed25519_key_decodes(key) {
        Err(KeyError::InvalidKeyFormat)
    } else if signature.len() != SIGNATURE_LEN {
        Err(KeyError::InvalidSignatureFormat)
    } else if !ed25519_strict_accepts(key, message, signature) {
        Err(KeyError::SignatureMismatch)
    } else {
        Ok(())
    }
}

/// What verifying a rotation request yields, given what the two base64 texts
/// decode to.
pub open spec fn verdict_of_decodings(
    key_decoding: Option<Seq<u8>>,
    message: Seq<u8>,
    signature_decoding: Option<Seq<u8>>,
) -> Result<(), KeyError> {
    match signing_key_of(key_decoding) {
        Err(e) => Err(e),
        Ok(key) => match signature_of(signature_decoding) {
            Err(e) => Err(e),
            Ok(signature) => signature_verdict(key, message, signature),
        },
    }
}

/// What verifying a rotation request yields: `Ok` exactly when the
/// signature authorizes the three new values under the stored key, and else
/// the first check that failed.
pub open spec fn rotation_verdict(
    stored_public_signing_key: Seq<char>,
    new_encrypted_private_key: Seq<char>,
    new_encrypted_private_signing_key: Seq<char>,
    new_salt: Seq<char>,
    signature: Seq<char>,
) -> Result<(), KeyError> {
    verdict_of_decodings(
        base64_standard_decoding(stored_public_signing_key),
        canonical_bytes(new_encrypted_private_key, new_encrypted_private_signing_key, new_salt),
        base64_standard_decoding(signature),
    )
}

/// Builds the canonical text of a rotation request.
pub fn canonical_message(
    encrypted_private_key: &str,
    encrypted_private_signing_key: &str,
    password_salt: &str,
) -> (message: String)
    ensures
        message@ == canonical_text(
            encrypted_private_key@,
            encrypted_private_signing_key@,
            password_salt@,
        ),
{
    let mut message = String::new();
    message.append(encrypted_private_key);
    message.append(encrypted_private_signing_key);
    message.append(password_salt);
    assert(message@ =~= canonical_text(
        encrypted_private_key@,
        encrypted_private_signing_key@,
        password_salt@,
    ));
    message
}

/// Checks a signature over `message` against a 32-byte public key: the key
/// must be a curve point, the signature must have 64 bytes, and strict
/// verification must accept it.
pub fn check_signature(key: &[u8; 32], message: &[u8], signature: &[u8]) -> (r: Result<
    (),
    KeyError,
>)
    ensures
        r == signature_verdict(key@, message@, signature@),
{
    if !key_decodes(key) {
        Err(KeyError::InvalidKeyFormat)
    } else if !signature_parses(signature) {
        Err(KeyError::InvalidSignatureFormat)
    } else if !verify_strict(key, message, signature) {
        Err(KeyError::SignatureMismatch)
    } else {
        Ok(())
    }
}

/// Verifies that `signature` (base64) is a strict Ed25519 signature, by the
/// key stored as `stored_public_signing_key` (base64), over the canonical
/// message of the three new values. Pure: nothing is read or written but the
/// arguments.
pub fn verify_rotation(
    stored_public_signing_key: &str,
    new_encrypted_private_key: &str,
    new_encrypted_private_signing_key: &str,
    new_salt: &str,
    signature: &str,
) -> (r: Result<(), KeyError>)
    ensures
        r == rotation_verdict(
            stored_public_signing_key@,
            new_encrypted_private_key@,
            new_encrypted_private_signing_key@,
            new_salt@,
            signature@,
        ),
{
    let key = match signing_key_bytes(decode_standard(stored_public_signing_key)) {
        Ok(key) => key,
        Err(e) => {
            return Err(e);
        },
    };
    let signature = match signature_bytes(decode_standard(signature)) {
        Ok(signature) => signature,
        Err(e) => {
            return Err(e);
        },
    };
    let message = canonical_message(
        new_encrypted_private_key,
        new_encrypted_private_signing_key,
        new_salt,
    );
    check_signature(&key, message.as_str().as_bytes(), signature.as_slice())
}

} // verus!
