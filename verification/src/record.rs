//! The key-material record of one identity, and the two transitions it can
//! make: the one-time bootstrap and the signature-authorized rotation.

use crate::error::KeyError;
use crate::identity::Identity;
use crate::signature::{rotation_verdict, verify_rotation};
use vstd::prelude::*;

verus! {

/// The mathematical content of a record: who owns it, and the seven
/// optional texts it holds.
pub struct UserView {
    pub identity: Seq<u8>,
    pub public_key: Option<Seq<char>>,
    pub encrypted_private_key: Option<Seq<char>>,
    pub encrypted_backup_key: Option<Seq<char>>,
    pub public_signing_key: Option<Seq<char>>,
    pub encrypted_private_signing_key: Option<Seq<char>>,
    pub encrypted_private_backup_signing_key: Option<Seq<char>>,
    pub password_salt: Option<Seq<char>>,
}

impl UserView {
    /// The record of an identity that has connected and done nothing else.
    pub open spec fn empty(identity: Seq<u8>) -> UserView {
        UserView {
            identity,
            public_key: None,
            encrypted_private_key: None,
            encrypted_backup_key: None,
            public_signing_key: None,
            encrypted_private_signing_key: None,
            encrypted_private_backup_signing_key: None,
            password_salt: None,
        }
    }

    /// All seven fields are absent.
    pub open spec fn is_empty(self) -> bool {
        &&& self.public_key is None
        &&& self.encrypted_private_key is None
        &&& self.encrypted_backup_key is None
        &&& self.public_signing_key is None
        &&& self.encrypted_private_signing_key is None
        &&& self.encrypted_private_backup_signing_key is None
        &&& self.password_salt is None
    }

    /// All seven fields are present.
    pub open spec fn is_initialized(self) -> bool {
        &&& self.public_key is Some
        &&& self.encrypted_private_key is Some
        &&& self.encrypted_backup_key is Some
        &&& self.public_signing_key is Some
        &&& self.encrypted_private_signing_key is Some
        &&& self.encrypted_private_backup_signing_key is Some
        &&& self.password_salt is Some
    }

    /// The record is in one of its two states: empty or initialized. Never
    /// some fields without the others.
    pub open spec fn uniform(self) -> bool {
        self.is_empty() || self.is_initialized()
    }

    /// Whether the unauthenticated bootstrap must refuse this record.
    pub open spec fn carries_keys(self) -> bool {
        self.public_key is Some || self.public_signing_key is Some
    }

    /// This record with all seven fields set; the owner stays.
    pub open spec fn initialized(
        self,
        public_key: Seq<char>,
        encrypted_private_key: Seq<char>,
        encrypted_backup_key: Seq<char>,
        public_signing_key: Seq<char>,
        encrypted_private_signing_key: Seq<char>,
        encrypted_private_backup_signing_key: Seq<char>,
        password_salt: Seq<char>,
    ) -> UserView {
        UserView {
            identity: self.identity,
            public_key: Some(public_key),
            encrypted_private_key: Some(encrypted_private_key),
            encrypted_backup_key: Some(encrypted_backup_key),
            public_signing_key: Some(public_signing_key),
            encrypted_private_signing_key: Some(encrypted_private_signing_key),
            encrypted_private_backup_signing_key: Some(encrypted_private_backup_signing_key),
            password_salt: Some(password_salt),
        }
    }

    /// This record with the three rotated fields replaced and every other
    /// field as it was.
    pub open spec fn rotated(
        self,
        encrypted_private_key: Seq<char>,
        encrypted_private_signing_key: Seq<char>,
        password_salt: Seq<char>,
    ) -> UserView {
        UserView {
            encrypted_private_key: Some(encrypted_private_key),
            encrypted_private_signing_key: Some(encrypted_private_signing_key),
            password_salt: Some(password_salt),
            ..self
        }
    }
}

/// What a bootstrap request yields on the record found for the caller, if
/// any: the record to write, or why nothing is written.
pub open spec fn initialize_outcome(
    current: Option<UserView>,
    public_key: Seq<char>,
    encrypted_private_key: Seq<char>,
    encrypted_backup_key: Seq<char>,
    public_signing_key: Seq<char>,
    encrypted_private_signing_key: Seq<char>,
    encrypted_private_backup_signing_key: Seq<char>,
    password_salt: Seq<char>,
) -> Result<UserView, KeyError> {
    match current {
        None => Err(KeyError::UnknownIdentity),
        Some(user) => if user.carries_keys() {
            Err(KeyError::AlreadyInitialized)
        } else {
            Ok(
                user.initialized(
                    public_key,
                    encrypted_private_key,
                    encrypted_backup_key,
                    public_signing_key,
                    encrypted_private_signing_key,
                    encrypted_private_backup_signing_key,
                    password_salt,
                ),
            )
        },
    }
}

/// What a rotation request yields on the record found for the caller, if
/// any: the record to write, or why nothing is written.
pub open spec fn rotate_outcome(
    current: Option<UserView>,
    new_encrypted_private_key: Seq<char>,
    new_encrypted_private_signing_key: Seq<char>,
    new_salt: Seq<char>,
    signature: Seq<char>,
) -> Result<UserView, KeyError> {
    match current {
        None => Err(KeyError::UnknownIdentity),
        Some(user) => match user.public_signing_key {
            None => Err(KeyError::NotInitialized),
            Some(stored_key) => match rotation_verdict(
                stored_key,
                new_encrypted_private_key,
                new_encrypted_private_signing_key,
                new_salt,
                signature,
            ) {
                Err(e) => Err(e),
                Ok(()) => Ok(
                    user.rotated(
                        new_encrypted_private_key,
                        new_encrypted_private_signing_key,
                        new_salt,
                    ),
                ),
            },
        },
    }
}

/// The view of an optional text.
pub open spec fn text(field: Option<String>) -> Option<Seq<char>> {
    match field {
        Some(s) => Some(s@),
        None => None,
    }
}

/// The view of a borrowed optional text.
pub open spec fn text_ref(field: Option<&String>) -> Option<Seq<char>> {
    match field {
        Some(s) => Some(s@),
        None => None,
    }
}

/// The view of the record that a lookup found, if it found one.
pub open spec fn found(current: Option<&User>) -> Option<UserView> {
    match current {
        Some(user) => Some(user@),
        None => None,
    }
}

/// The view of a decision: the record to write, or the refusal.
pub open spec fn decision(r: Result<User, KeyError>) -> Result<UserView, KeyError> {
    match r {
        Ok(user) => Ok(user@),
        Err(e) => Err(e),
    }
}

fn copy_text(field: &Option<String>) -> (copy: Option<String>)
    ensures
        text(copy) == text(*field),
{
    match field {
        Some(s) => Some(s.clone()),
        None => None,
    }
}

/// The key material of one identity. It is either empty or holds all seven
/// fields; no operation can make a record that holds only some of them.
#[derive(Debug)]
pub struct User {
    identity: Identity,
    public_key: Option<String>,
    encrypted_private_key: Option<String>,
    encrypted_backup_key: Option<String>,
    public_signing_key: Option<String>,
    encrypted_private_signing_key: Option<String>,
    encrypted_private_backup_signing_key: Option<String>,
    password_salt: Option<String>,
}

impl View for User {
    type V = UserView;

    closed spec fn view(&self) -> UserView {
        UserView {
            identity: self.identity@,
            public_key: text(self.public_key),
            encrypted_private_key: text(self.encrypted_private_key),
            encrypted_backup_key: text(self.encrypted_backup_key),
            public_signing_key: text(self.public_signing_key),
            encrypted_private_signing_key: text(self.encrypted_private_signing_key),
            encrypted_private_backup_signing_key: text(self.encrypted_private_backup_signing_key),
            password_salt: text(self.password_salt),
        }
    }
}

impl User {
    #[verifier::type_invariant]
    pub open spec fn all_or_nothing(&self) -> bool {
        self@.uniform()
    }

    /// The empty record of `identity`.
    pub fn new(identity: Identity) -> (user: User)
        ensures
            user@ == UserView::empty(identity@),
    {
        User {
            identity,
            public_key: None,
            encrypted_private_key: None,
            encrypted_backup_key: None,
            public_signing_key: None,
            encrypted_private_signing_key: None,
            encrypted_private_backup_signing_key: None,
            password_salt: None,
        }
    }

    /// A record with the given fields, where they are all absent or all
    /// present; `None` for any other combination.
    pub fn from_fields(
        identity: Identity,
        public_key: Option<String>,
        encrypted_private_key: Option<String>,
        encrypted_backup_key: Option<String>,
        public_signing_key: Option<String>,
        encrypted_private_signing_key: Option<String>,
        encrypted_private_backup_signing_key: Option<String>,
        password_salt: Option<String>,
    ) -> (user: Option<User>)
        ensures
            ({
                let fields = UserView {
                    identity: identity@,
                    public_key: text(public_key),
                    encrypted_private_key: text(encrypted_private_key),
                    encrypted_backup_key: text(encrypted_backup_key),
                    public_signing_key: text(public_signing_key),
                    encrypted_private_signing_key: text(encrypted_private_signing_key),
                    encrypted_private_backup_signing_key: text(
                        encrypted_private_backup_signing_key,
                    ),
                    password_salt: text(password_salt),
                };
                match user {
                    Some(u) => fields.uniform() && u@ == fields,
                    None => !fields.uniform(),
                }
            }),
    {
        let all_absent = public_key.is_none() && encrypted_private_key.is_none()
            && encrypted_backup_key.is_none() && public_signing_key.is_none()
            && encrypted_private_signing_key.is_none()
            && encrypted_private_backup_signing_key.is_none() && password_salt.is_none();
        let all_present = public_key.is_some() && encrypted_private_key.is_some()
            && encrypted_backup_key.is_some() && public_signing_key.is_some()
            && encrypted_private_signing_key.is_some()
            && encrypted_private_backup_signing_key.is_some() && password_salt.is_some();
        if all_absent || all_present {
            Some(
                User {
                    identity,
                    public_key,
                    encrypted_private_key,
                    encrypted_backup_key,
                    public_signing_key,
                    encrypted_private_signing_key,
                    encrypted_private_backup_signing_key,
                    password_salt,
                },
            )
        } else {
            None
        }
    }

    /// Every record is empty or initialized.
    pub fn is_initialized(&self) -> (r: bool)
        ensures
            self@.uniform(),
            r == self@.is_initialized(),
            r == !self@.is_empty(),
    {
        proof {
            use_type_invariant(self);
        }
        self.public_signing_key.is_some()
    }

    /// The owner of the record.
    pub fn identity(&self) -> (identity: Identity)
        ensures
            identity@ == self@.identity,
    {
        self.identity
    }

    /// The encoded public encryption key.
    pub fn public_key(&self) -> (field: Option<&String>)
        ensures
            text_ref(field) == self@.public_key,
    {
        self.public_key.as_ref()
    }

    /// The ciphertext of the private encryption key.
    pub fn encrypted_private_key(&self) -> (field: Option<&String>)
        ensures
            text_ref(field) == self@.encrypted_private_key,
    {
        self.encrypted_private_key.as_ref()
    }

    /// The ciphertext of the recovery-wrapped private encryption key.
    pub fn encrypted_backup_key(&self) -> (field: Option<&String>)
        ensures
            text_ref(field) == self@.encrypted_backup_key,
    {
        self.encrypted_backup_key.as_ref()
    }

    /// The base64 text of the public signing key, the anchor against which
    /// rotations are authorized.
    pub fn public_signing_key(&self) -> (field: Option<&String>)
        ensures
            text_ref(field) == self@.public_signing_key,
    {
        self.public_signing_key.as_ref()
    }

    /// The ciphertext of the private signing key.
    pub fn encrypted_private_signing_key(&self) -> (field: Option<&String>)
        ensures
            text_ref(field) == self@.encrypted_private_signing_key,
    {
        self.encrypted_private_signing_key.as_ref()
    }

    /// The ciphertext of the recovery-wrapped private signing key.
    pub fn encrypted_private_backup_signing_key(&self) -> (field: Option<&String>)
        ensures
            text_ref(field) == self@.encrypted_private_backup_signing_key,
    {
        self.encrypted_private_backup_signing_key.as_ref()
    }

    /// The salt the client derives its wrapping key with.
    pub fn password_salt(&self) -> (field: Option<&String>)
        ensures
            text_ref(field) == self@.password_salt,
    {
        self.password_salt.as_ref()
    }
}

/// The provisioning decision. Given the record found for a connecting
/// identity, returns the record to file for it: an empty one where none was
/// found, and none where it already has one.
pub fn provision(current: Option<&User>, identity: Identity) -> (missing: Option<User>)
    ensures
        match missing {
            Some(user) => current is None && user@ == UserView::empty(identity@),
            None => current is Some,
        },
{
    match current {
        Some(_) => None,
        None => Some(User::new(identity)),
    }
}

/// The bootstrap decision. Given the record found for the caller, returns
/// the record to write in its place: `current` with all seven fields set.
/// Refuses with `UnknownIdentity` where no record was found, and with
/// `AlreadyInitialized` where the record already carries a public key or a
/// public signing key; the request carries no signature, so this is all that
/// keeps it from overwriting live key material.
pub fn initialize(
    current: Option<&User>,
    public_key: String,
    encrypted_private_key: String,
    encrypted_backup_key: String,
    public_signing_key: String,
    encrypted_private_signing_key: String,
    encrypted_private_backup_signing_key: String,
    password_salt: String,
) -> (r: Result<User, KeyError>)
    ensures
        decision(r) == initialize_outcome(
            found(current),
            public_key@,
            encrypted_private_key@,
            encrypted_backup_key@,
            public_signing_key@,
            encrypted_private_signing_key@,
            encrypted_private_backup_signing_key@,
            password_salt@,
        ),
        r matches Ok(user) ==> user@.is_initialized(),
{
    match current {
        None => Err(KeyError::UnknownIdentity),
        Some(user) => {
            if user.public_key.is_some() || user.public_signing_key.is_some() {
                return Err(KeyError::AlreadyInitialized);
            }
            Ok(
                User {
                    identity: user.identity,
                    public_key: Some(public_key),
                    encrypted_private_key: Some(encrypted_private_key),
                    encrypted_backup_key: Some(encrypted_backup_key),
                    public_signing_key: Some(public_signing_key),
                    encrypted_private_signing_key: Some(encrypted_private_signing_key),
                    encrypted_private_backup_signing_key: Some(
                        encrypted_private_backup_signing_key,
                    ),
                    password_salt: Some(password_salt),
                },
            )
        },
    }
}

/// The rotation decision. Given the record found for the caller, verifies
/// the signature over the three new values against the signing key the
/// record holds, and returns the record to write in its place: `current`
/// with exactly those three fields replaced. Refuses with `UnknownIdentity`
/// where no record was found, with `NotInitialized` where the record holds
/// no signing key, and else with whatever the verification refused with.
pub fn rotate(
    current: Option<&User>,
    new_encrypted_private_key: String,
    new_encrypted_private_signing_key: String,
    new_salt: String,
    signature: &str,
) -> (r: Result<User, KeyError>)
    ensures
        decision(r) == rotate_outcome(
            found(current),
            new_encrypted_private_key@,
            new_encrypted_private_signing_key@,
            new_salt@,
            signature@,
        ),
        r matches Ok(user) ==> user@.is_initialized(),
{
    let user = match current {
        None => {
            return Err(KeyError::UnknownIdentity);
        },
        Some(user) => user,
    };
    proof {
        use_type_invariant(user);
    }
    let verdict = match &user.public_signing_key {
        None => {
            return Err(KeyError::NotInitialized);
        },
        Some(stored_key) => verify_rotation(
            stored_key.as_str(),
            new_encrypted_private_key.as_str(),
            new_encrypted_private_signing_key.as_str(),
            new_salt.as_str(),
            signature,
        ),
    };
    match verdict {
        Err(e) => Err(e),
        Ok(()) => Ok(
            User {
                identity: user.identity,
                public_key: copy_text(&user.public_key),
                encrypted_private_key: Some(new_encrypted_private_key),
                encrypted_backup_key: copy_text(&user.encrypted_backup_key),
                public_signing_key: copy_text(&user.public_signing_key),
                encrypted_private_signing_key: Some(new_encrypted_private_signing_key),
                encrypted_private_backup_signing_key: copy_text(
                    &user.encrypted_private_backup_signing_key,
                ),
                password_salt: Some(new_salt),
            },
        ),
    }
}

} // verus!
