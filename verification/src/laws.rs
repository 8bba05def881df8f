//! What holds of the key store whatever requests it receives.

use crate::error::KeyError;
use crate::record::{initialize_outcome, rotate_outcome, UserView};
use crate::signature::{canonical_bytes, canonical_text, rotation_verdict};
use crate::store::{committed, connected, consistent, lookup, TableView};
use vstd::prelude::*;
use vstd::utf8::{decode_utf8, encode_utf8, encode_utf8_decode_utf8};

verus! {

/// A request as the table sees it, without its sender.
pub enum Request {
    /// The identity has connected.
    Connect,
    /// The unauthenticated bootstrap, with the seven values to store.
    Initialize {
        public_key: Seq<char>,
        encrypted_private_key: Seq<char>,
        encrypted_backup_key: Seq<char>,
        public_signing_key: Seq<char>,
        encrypted_private_signing_key: Seq<char>,
        encrypted_private_backup_signing_key: Seq<char>,
        password_salt: Seq<char>,
    },
    /// A rotation, with the three new values and the signature over them.
    Rotate {
        encrypted_private_key: Seq<char>,
        encrypted_private_signing_key: Seq<char>,
        password_salt: Seq<char>,
        signature: Seq<char>,
    },
}

/// What `request` decides for the record of `sender`: the record to write,
/// or a refusal. A connection is cast in the same form: it writes the empty
/// record where there is none and the record that is there otherwise.
pub open spec fn outcome(table: TableView, sender: Seq<u8>, request: Request) -> Result<
    UserView,
    KeyError,
> {
    match request {
        Request::Connect => Ok(connected(table, sender)[sender]),
        Request::Initialize {
            public_key,
            encrypted_private_key,
            encrypted_backup_key,
            public_signing_key,
            encrypted_private_signing_key,
            encrypted_private_backup_signing_key,
            password_salt,
        } => initialize_outcome(
            lookup(table, sender),
            public_key,
            encrypted_private_key,
            encrypted_backup_key,
            public_signing_key,
            encrypted_private_signing_key,
            encrypted_private_backup_signing_key,
            password_salt,
        ),
        Request::Rotate {
            encrypted_private_key,
            encrypted_private_signing_key,
            password_salt,
            signature,
        } => rotate_outcome(
            lookup(table, sender),
            encrypted_private_key,
            encrypted_private_signing_key,
            password_salt,
            signature,
        ),
    }
}

/// The table after `sender` has made `request`: what `client_connected`,
/// `init_encryption_and_signing` and `update_encryption_keys` leave behind.
pub open spec fn step(table: TableView, sender: Seq<u8>, request: Request) -> TableView {
    match request {
        Request::Connect => connected(table, sender),
        _ => committed(table, sender, outcome(table, sender, request)),
    }
}

/// The table after a sequence of requests, each with its sender, made in
/// order.
pub open spec fn run(table: TableView, requests: Seq<(Seq<u8>, Request)>) -> TableView
    decreases requests.len(),
{
    if requests.len() == 0 {
        table
    } else {
        step(run(table, requests.drop_last()), requests.last().0, requests.last().1)
    }
}

/// Provisioning is idempotent: after one connection the identity has a
/// record, a second connection changes nothing, and no other identity's
/// record is touched. A first connection adds exactly one record, the empty
/// one.
pub proof fn law_provisioning_idempotent(table: TableView, identity: Seq<u8>)
    requires
        consistent(table),
    ensures
        connected(connected(table, identity), identity) == connected(table, identity),
        connected(table, identity).contains_key(identity),
        forall|other: Seq<u8>|
            other != identity ==> lookup(connected(table, identity), other) == lookup(
                table,
                other,
            ),
        table.contains_key(identity) ==> connected(table, identity) == table,
        !table.contains_key(identity) ==> {
            &&& connected(table, identity)[identity] == UserView::empty(identity)
            &&& connected(table, identity).dom().len() == table.dom().len() + 1
        },
{
}

/// Bootstrap is all or nothing: it is granted only on an empty record, and
/// the record it writes holds all seven values it was given.
pub proof fn law_bootstrap_all_or_nothing(
    table: TableView,
    identity: Seq<u8>,
    public_key: Seq<char>,
    encrypted_private_key: Seq<char>,
    encrypted_backup_key: Seq<char>,
    public_signing_key: Seq<char>,
    encrypted_private_signing_key: Seq<char>,
    encrypted_private_backup_signing_key: Seq<char>,
    password_salt: Seq<char>,
)
    requires
        consistent(table),
    ensures
        ({
            let decided = initialize_outcome(
                lookup(table, identity),
                public_key,
                encrypted_private_key,
                encrypted_backup_key,
                public_signing_key,
                encrypted_private_signing_key,
                encrypted_private_backup_signing_key,
                password_salt,
            );
            &&& decided is Ok <==> table.contains_key(identity) && table[identity].is_empty()
            &&& decided matches Ok(user) ==> {
                &&& user.is_initialized()
                &&& user.identity == identity
                &&& user.public_key == Some(public_key)
                &&& user.encrypted_private_key == Some(encrypted_private_key)
                &&& user.encrypted_backup_key == Some(encrypted_backup_key)
                &&& user.public_signing_key == Some(public_signing_key)
                &&& user.encrypted_private_signing_key == Some(encrypted_private_signing_key)
                &&& user.encrypted_private_backup_signing_key == Some(
                    encrypted_private_backup_signing_key,
                )
                &&& user.password_salt == Some(password_salt)
            }
        }),
{
}

/// No request makes a record that holds some fields without the others:
/// each request takes a consistent table to a consistent table.
pub proof fn law_step_keeps_consistency(table: TableView, sender: Seq<u8>, request: Request)
    requires
        consistent(table),
    ensures
        consistent(step(table, sender, request)),
{
    let after = step(table, sender, request);
    assert(after.dom() =~= table.dom() || after.dom() =~= table.dom().insert(sender));
    assert forall|id: Seq<u8>| #[trigger] after.contains_key(id) implies after[id].identity == id
        && after[id].uniform() by {
        if id != sender {
            assert(table.contains_key(id));
        } else if table.contains_key(sender) {
            assert(table[sender].uniform());
        }
    }
}

/// No sequence of requests, from whatever senders, makes a record that
/// holds some fields without the others.
pub proof fn law_run_keeps_consistency(table: TableView, requests: Seq<(Seq<u8>, Request)>)
    requires
        consistent(table),
    ensures
        consistent(run(table, requests)),
    decreases requests.len(),
{
    if requests.len() > 0 {
        law_run_keeps_consistency(table, requests.drop_last());
        law_step_keeps_consistency(
            run(table, requests.drop_last()),
            requests.last().0,
            requests.last().1,
        );
    }
}

/// Bootstrap is one-shot: on a record that is initialized it is refused
/// with `AlreadyInitialized` whatever values it brings, and the table stays
/// as it was. In particular a second bootstrap after a granted one is
/// refused.
pub proof fn law_bootstrap_one_shot(
    table: TableView,
    identity: Seq<u8>,
    first: Request,
    second: Request,
)
    requires
        consistent(table),
        first is Initialize,
        second is Initialize,
    ensures
        table.contains_key(identity) && table[identity].is_initialized() ==> {
            &&& outcome(table, identity, second) == Err::<UserView, KeyError>(
                KeyError::AlreadyInitialized,
            )
            &&& step(table, identity, second) == table
        },
        outcome(table, identity, first) is Ok ==> {
            &&& outcome(step(table, identity, first), identity, second) == Err::<
                UserView,
                KeyError,
            >(KeyError::AlreadyInitialized)
            &&& step(step(table, identity, first), identity, second) == step(
                table,
                identity,
                first,
            )
        },
{
}

/// Rotation requires a prior bootstrap: on an identity without a record it
/// is refused with `UnknownIdentity`, on an empty record with
/// `NotInitialized`, whatever it brings, and the table stays as it was.
pub proof fn law_rotation_requires_bootstrap(
    table: TableView,
    identity: Seq<u8>,
    request: Request,
)
    requires
        consistent(table),
        request is Rotate,
    ensures
        !table.contains_key(identity) ==> outcome(table, identity, request) == Err::<
            UserView,
            KeyError,
        >(KeyError::UnknownIdentity),
        table.contains_key(identity) && table[identity].is_empty() ==> outcome(
            table,
            identity,
            request,
        ) == Err::<UserView, KeyError>(KeyError::NotInitialized),
        !(table.contains_key(identity) && table[identity].is_initialized()) ==> step(
            table,
            identity,
            request,
        ) == table,
{
}

/// A refused request changes nothing, and a granted one changes at most the
/// record of its sender.
pub proof fn law_refusal_changes_nothing(table: TableView, sender: Seq<u8>, request: Request)
    ensures
        outcome(table, sender, request) is Err ==> step(table, sender, request) == table,
        forall|other: Seq<u8>|
            other != sender ==> lookup(step(table, sender, request), other) == lookup(
                table,
                other,
            ),
{
}

/// Every refusal of a rotation on an initialized record belongs to the
/// unauthorized family, and a rotation is granted exactly when its
/// signature verifies against the stored signing key. A granted rotation
/// replaces the three rotated fields and no other.
pub proof fn law_rotation_is_authorized(
    user: UserView,
    encrypted_private_key: Seq<char>,
    encrypted_private_signing_key: Seq<char>,
    password_salt: Seq<char>,
    signature: Seq<char>,
)
    requires
        user.is_initialized(),
    ensures
        ({
            let decided = rotate_outcome(
                Some(user),
                encrypted_private_key,
                encrypted_private_signing_key,
                password_salt,
                signature,
            );
            let verdict = rotation_verdict(
                user.public_signing_key->0,
                encrypted_private_key,
                encrypted_private_signing_key,
                password_salt,
                signature,
            );
            &&& decided is Ok <==> verdict is Ok
            &&& decided matches Err(e) ==> e.unauthorized() && verdict == Err::<(), KeyError>(e)
            &&& decided matches Ok(after) ==> {
                &&& after.is_initialized()
                &&& after.identity == user.identity
                &&& after.public_key == user.public_key
                &&& after.public_signing_key == user.public_signing_key
                &&& after.encrypted_backup_key == user.encrypted_backup_key
                &&& after.encrypted_private_backup_signing_key
                    == user.encrypted_private_backup_signing_key
                &&& after.encrypted_private_key == Some(encrypted_private_key)
                &&& after.encrypted_private_signing_key == Some(encrypted_private_signing_key)
                &&& after.password_salt == Some(password_salt)
            }
        }),
{
}

/// The public keys are set at bootstrap and never change again: once the
/// record of an identity is initialized, its public key and its public
/// signing key stay what they are through any sequence of requests.
pub proof fn law_public_keys_are_immutable(
    table: TableView,
    identity: Seq<u8>,
    requests: Seq<(Seq<u8>, Request)>,
)
    requires
        consistent(table),
        table.contains_key(identity),
        table[identity].is_initialized(),
    ensures
        run(table, requests).contains_key(identity),
        run(table, requests)[identity].is_initialized(),
        run(table, requests)[identity].public_key == table[identity].public_key,
        run(table, requests)[identity].public_signing_key == table[identity].public_signing_key,
    decreases requests.len(),
{
    if requests.len() > 0 {
        law_public_keys_are_immutable(table, identity, requests.drop_last());
        law_run_keeps_consistency(table, requests.drop_last());
    }
}

/// The signature is bound to the canonical message and to nothing else:
/// two requests with the same stored key, the same signature and the same
/// concatenation get the same verdict.
pub proof fn law_verdict_follows_message(
    stored_key: Seq<char>,
    signature: Seq<char>,
    first: (Seq<char>, Seq<char>, Seq<char>),
    second: (Seq<char>, Seq<char>, Seq<char>),
)
    requires
        canonical_text(first.0, first.1, first.2) == canonical_text(second.0, second.1, second.2),
    ensures
        rotation_verdict(stored_key, first.0, first.1, first.2, signature) == rotation_verdict(
            stored_key,
            second.0,
            second.1,
            second.2,
            signature,
        ),
{
}

/// Replacing one of the three values by a different one, the other two
/// kept, changes the message that the signature is checked against.
pub proof fn law_message_binds_each_field(
    a: Seq<char>,
    b: Seq<char>,
    c: Seq<char>,
    other: Seq<char>,
)
    ensures
        other != a ==> canonical_bytes(other, b, c) != canonical_bytes(a, b, c),
        other != b ==> canonical_bytes(a, other, c) != canonical_bytes(a, b, c),
        other != c ==> canonical_bytes(a, b, other) != canonical_bytes(a, b, c),
{
    let base = canonical_text(a, b, c);
    encode_utf8_decode_utf8(base);
    if other != a {
        let changed = canonical_text(other, b, c);
        encode_utf8_decode_utf8(changed);
        if changed == base {
            assert(other.len() == a.len()) by {
                assert(changed.len() == other.len() + b.len() + c.len());
                assert(base.len() == a.len() + b.len() + c.len());
            }
            assert(other =~= changed.subrange(0, other.len() as int));
            assert(a =~= base.subrange(0, a.len() as int));
        }
        assert(decode_utf8(encode_utf8(changed)) != decode_utf8(encode_utf8(base)));
    }
    if other != b {
        let changed = canonical_text(a, other, c);
        encode_utf8_decode_utf8(changed);
        if changed == base {
            assert(other.len() == b.len()) by {
                assert(changed.len() == a.len() + other.len() + c.len());
                assert(base.len() == a.len() + b.len() + c.len());
            }
            assert(other =~= changed.subrange(a.len() as int, (a.len() + other.len()) as int));
            assert(b =~= base.subrange(a.len() as int, (a.len() + b.len()) as int));
        }
        assert(decode_utf8(encode_utf8(changed)) != decode_utf8(encode_utf8(base)));
    }
    if other != c {
        let changed = canonical_text(a, b, other);
        encode_utf8_decode_utf8(changed);
        if changed == base {
            assert(other.len() == c.len()) by {
                assert(changed.len() == a.len() + b.len() + other.len());
                assert(base.len() == a.len() + b.len() + c.len());
            }
            assert(other =~= changed.subrange((a.len() + b.len()) as int, changed.len() as int));
            assert(c =~= base.subrange((a.len() + b.len()) as int, base.len() as int));
        }
        assert(decode_utf8(encode_utf8(changed)) != decode_utf8(encode_utf8(base)));
    }
}

} // verus!
