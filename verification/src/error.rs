//! The reasons for which an operation on the key store is refused.

use vstd::prelude::*;

verus! {

/// Why an operation was refused. No state changes when one is returned.
#[derive(Clone, Copy, Debug, PartialEq, Eq, Structural)]
pub enum KeyError {
    /// No record has been provisioned for the identity.
    UnknownIdentity,
    /// Bootstrap was attempted on a record that already carries key material.
    AlreadyInitialized,
    /// Rotation was attempted on a record that was never bootstrapped.
    NotInitialized,
    /// The stored signing key is not base64, or does not decode to 32 bytes.
    MalformedKey,
    /// The 32 key bytes do not encode a point of the curve.
    InvalidKeyFormat,
    /// The supplied signature is not base64.
    MalformedSignature,
    /// The decoded signature does not have the shape of an Ed25519 signature.
    InvalidSignatureFormat,
    /// The signature does not verify against the stored signing key.
    SignatureMismatch,
}

impl KeyError {
    /// The errors raised while authenticating a rotation. A caller sees all
    /// of them as one refusal, so that a probe cannot tell a malformed
    /// request from one signed with the wrong key.
    pub open spec fn unauthorized(self) -> bool {
        self is MalformedKey || self is InvalidKeyFormat || self is MalformedSignature
            || self is InvalidSignatureFormat || self is SignatureMismatch
    }

    /// The reason, in words, as a caller is told it.
    pub open spec fn text(self) -> Seq<char> {
        match self {
            KeyError::UnknownIdentity => "No key record exists for this identity."@,
            KeyError::AlreadyInitialized => "User keys are already initialized. Use update_encryption_keys instead."@,
            KeyError::NotInitialized => "User has no public signing key to verify with. Has the account been initialized?"@,
            KeyError::MalformedKey => "Public signing key is not valid base64 of 32 bytes."@,
            KeyError::InvalidKeyFormat => "Invalid public signing key format."@,
            KeyError::MalformedSignature => "Failed to decode signature."@,
            KeyError::InvalidSignatureFormat => "Invalid signature format."@,
            KeyError::SignatureMismatch => "Signature verification failed. Unauthorized."@,
        }
    }

    /// The reason, in words.
    pub fn message(&self) -> (message: String)
        ensures
            message@ == self.text(),
    {
        match self {
            KeyError::UnknownIdentity => "No key record exists for this identity.".to_owned(),
            KeyError::AlreadyInitialized => "User keys are already initialized. Use update_encryption_keys instead.".to_owned(),
            KeyError::NotInitialized => "User has no public signing key to verify with. Has the account been initialized?".to_owned(),
            KeyError::MalformedKey => "Public signing key is not valid base64 of 32 bytes.".to_owned(),
            KeyError::InvalidKeyFormat => "Invalid public signing key format.".to_owned(),
            KeyError::MalformedSignature => "Failed to decode signature.".to_owned(),
            KeyError::InvalidSignatureFormat => "Invalid signature format.".to_owned(),
            KeyError::SignatureMismatch => "Signature verification failed. Unauthorized.".to_owned(),
        }
    }

    /// Whether this error belongs to the unauthorized family.
    pub fn is_unauthorized(&self) -> (r: bool)
        ensures
            r == self.unauthorized(),
    {
        match self {
            KeyError::MalformedKey
            | KeyError::InvalidKeyFormat
            | KeyError::MalformedSignature
            | KeyError::InvalidSignatureFormat
            | KeyError::SignatureMismatch => true,
            _ => false,
        }
    }
}

} // verus!
