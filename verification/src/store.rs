//! The table of records, keyed by identity, and the three operations that
//! the connection layer invokes on it.

use crate::error::KeyError;
use crate::identity::Identity;
use crate::record::{
    found, initialize, initialize_outcome, provision, rotate, rotate_outcome, User, UserView,
};
use vstd::prelude::*;

verus! {

/// The mathematical content of the table: at most one record per identity.
pub type TableView = Map<Seq<u8>, UserView>;

/// Every record is filed under its own identity and is empty or
/// initialized, and the table holds finitely many.
pub open spec fn consistent(table: TableView) -> bool {
    &&& table.dom().finite()
    &&& forall|id: Seq<u8>| #[trigger]
        table.contains_key(id) ==> table[id].identity == id && table[id].uniform()
}

/// The record filed under `identity`, if there is one.
pub open spec fn lookup(table: TableView, identity: Seq<u8>) -> Option<UserView> {
    if table.contains_key(identity) {
        Some(table[identity])
    } else {
        None
    }
}

/// The table after `identity` has connected: unchanged where it already has
/// a record, and else with an empty record added for it.
pub open spec fn connected(table: TableView, identity: Seq<u8>) -> TableView {
    if table.contains_key(identity) {
        table
    } else {
        table.insert(identity, UserView::empty(identity))
    }
}

/// The table after a request on the record of `identity` whose decision was
/// `outcome`: the record replaced where the request was granted, nothing
/// changed where it was refused.
pub open spec fn committed(
    table: TableView,
    identity: Seq<u8>,
    outcome: Result<UserView, KeyError>,
) -> TableView {
    match outcome {
        Ok(user) => table.insert(identity, user),
        Err(_) => table,
    }
}

/// What the caller of a request is told of its outcome.
pub open spec fn reply(outcome: Result<UserView, KeyError>) -> Result<(), KeyError> {
    match outcome {
        Ok(_) => Ok(()),
        Err(e) => Err(e),
    }
}

spec fn key_at(rows: Seq<User>, i: int) -> Seq<u8> {
    rows[i]@.identity
}

spec fn holds(rows: Seq<User>, identity: Seq<u8>) -> bool {
    exists|i: int| 0 <= i < rows.len() && #[trigger] key_at(rows, i) == identity
}

spec fn row_of(rows: Seq<User>, identity: Seq<u8>) -> int {
    choose|i: int| 0 <= i < rows.len() && #[trigger] key_at(rows, i) == identity
}

spec fn distinct(rows: Seq<User>) -> bool {
    forall|i: int, j: int|
        0 <= i < j < rows.len() ==> #[trigger] key_at(rows, i) != #[trigger] key_at(rows, j)
}

spec fn all_uniform(rows: Seq<User>) -> bool {
    forall|i: int| 0 <= i < rows.len() ==> (#[trigger] rows[i])@.uniform()
}

spec fn table_of(rows: Seq<User>) -> TableView {
    Map::new(|id: Seq<u8>| holds(rows, id), |id: Seq<u8>| rows[row_of(rows, id)]@)
}

proof fn lemma_row(rows: Seq<User>, i: int)
    requires
        distinct(rows),
        0 <= i < rows.len(),
    ensures
        table_of(rows).contains_key(key_at(rows, i)),
        table_of(rows)[key_at(rows, i)] == rows[i]@,
{
    let id = key_at(rows, i);
    assert(holds(rows, id));
    let k = row_of(rows, id);
    assert(key_at(rows, k) == id);
    if k < i {
        assert(key_at(rows, k) != key_at(rows, i));
    } else if i < k {
        assert(key_at(rows, i) != key_at(rows, k));
    }
}

proof fn lemma_push(rows: Seq<User>, user: User)
    requires
        distinct(rows),
        !holds(rows, user@.identity),
    ensures
        distinct(rows.push(user)),
        table_of(rows.push(user)) =~= table_of(rows).insert(user@.identity, user@),
{
    let after = rows.push(user);
    let n = rows.len() as int;
    assert forall|i: int, j: int| 0 <= i < j < after.len() implies #[trigger] key_at(after, i)
        != #[trigger] key_at(after, j) by {
        if j < n {
            assert(key_at(rows, i) != key_at(rows, j));
        } else {
            assert(key_at(after, j) == user@.identity);
            if key_at(after, i) == user@.identity {
                assert(key_at(rows, i) == user@.identity);
                assert(holds(rows, user@.identity));
            }
        }
    }
    assert forall|id: Seq<u8>| holds(after, id) <==> (holds(rows, id) || id == user@.identity) by {
        if holds(after, id) {
            let k = row_of(after, id);
            if k < n {
                assert(key_at(rows, k) == id);
            }
        }
        if holds(rows, id) {
            let k = row_of(rows, id);
            assert(key_at(after, k) == id);
        }
        if id == user@.identity {
            assert(key_at(after, n) == id);
        }
    }
    assert forall|id: Seq<u8>| holds(after, id) implies #[trigger] table_of(after)[id]
        == table_of(rows).insert(user@.identity, user@)[id] by {
        if id == user@.identity {
            assert(key_at(after, n) == id);
            lemma_row(after, n);
        } else {
            let k = row_of(rows, id);
            assert(key_at(after, k) == id);
            lemma_row(after, k);
            lemma_row(rows, k);
        }
    }
}

proof fn lemma_replace(rows: Seq<User>, i: int, user: User)
    requires
        distinct(rows),
        0 <= i < rows.len(),
        user@.identity == key_at(rows, i),
    ensures
        distinct(rows.update(i, user)),
        table_of(rows.update(i, user)) =~= table_of(rows).insert(user@.identity, user@),
{
    let after = rows.update(i, user);
    assert forall|k: int| 0 <= k < rows.len() implies #[trigger] key_at(after, k) == key_at(
        rows,
        k,
    ) by {}
    assert forall|a: int, b: int| 0 <= a < b < after.len() implies #[trigger] key_at(after, a)
        != #[trigger] key_at(after, b) by {
        assert(key_at(rows, a) != key_at(rows, b));
    }
    assert forall|id: Seq<u8>| holds(after, id) <==> holds(rows, id) by {
        if holds(after, id) {
            let k = row_of(after, id);
            assert(key_at(rows, k) == id);
        }
        if holds(rows, id) {
            let k = row_of(rows, id);
            assert(key_at(after, k) == id);
        }
    }
    lemma_row(rows, i);
    assert forall|id: Seq<u8>| holds(after, id) implies #[trigger] table_of(after)[id]
        == table_of(rows).insert(user@.identity, user@)[id] by {
        let k = row_of(after, id);
        lemma_row(after, k);
        if k != i {
            assert(key_at(rows, k) == id);
            lemma_row(rows, k);
            assert(key_at(rows, k) != key_at(rows, i)) by {
                if k < i {
                    assert(key_at(rows, k) != key_at(rows, i));
                } else {
                    assert(key_at(rows, i) != key_at(rows, k));
                }
            }
        }
    }
}

proof fn lemma_count(rows: Seq<User>)
    requires
        distinct(rows),
    ensures
        table_of(rows).dom().finite(),
        table_of(rows).dom().len() == rows.len(),
    decreases rows.len(),
{
    if rows.len() == 0 {
        assert(table_of(rows).dom() =~= Set::<Seq<u8>>::empty());
    } else {
        let front = rows.drop_last();
        let last = rows.last();
        assert(rows =~= front.push(last));
        assert forall|i: int, j: int| 0 <= i < j < front.len() implies #[trigger] key_at(front, i)
            != #[trigger] key_at(front, j) by {
            assert(key_at(rows, i) != key_at(rows, j));
        }
        if holds(front, last@.identity) {
            let k = row_of(front, last@.identity);
            assert(key_at(rows, k) != key_at(rows, rows.len() - 1));
        }
        lemma_count(front);
        lemma_push(front, last);
        assert(table_of(rows).dom() =~= table_of(front).dom().insert(last@.identity));
    }
}

proof fn lemma_consistent(rows: Seq<User>)
    requires
        distinct(rows),
        all_uniform(rows),
    ensures
        consistent(table_of(rows)),
{
    lemma_count(rows);
    assert forall|id: Seq<u8>| #[trigger]
        table_of(rows).contains_key(id) implies table_of(rows)[id].identity == id && table_of(
        rows,
    )[id].uniform() by {
        let k = row_of(rows, id);
        assert(key_at(rows, k) == id);
        assert(rows[k]@.uniform());
    }
}

/// The table of key-material records: one per identity that has connected.
/// It starts out empty and changes only through [`client_connected`],
/// [`init_encryption_and_signing`] and [`update_encryption_keys`].
#[derive(Debug)]
pub struct UserTable {
    rows: Vec<User>,
}

impl View for UserTable {
    type V = TableView;

    closed spec fn view(&self) -> TableView {
        table_of(self.rows@)
    }
}

impl UserTable {
    #[verifier::type_invariant]
    spec fn one_row_per_identity(&self) -> bool {
        distinct(self.rows@) && all_uniform(self.rows@)
    }

    /// A table without records.
    pub fn new() -> (table: UserTable)
        ensures
            table@ == Map::<Seq<u8>, UserView>::empty(),
            consistent(table@),
    {
        let table = UserTable { rows: Vec::new() };
        proof {
            assert(table@ =~= Map::<Seq<u8>, UserView>::empty());
        }
        table
    }

    /// The number of records; every table a caller can hold is consistent.
    pub fn len(&self) -> (n: usize)
        ensures
            consistent(self@),
            n == self@.dom().len(),
    {
        proof {
            use_type_invariant(self);
            lemma_count(self.rows@);
            lemma_consistent(self.rows@);
        }
        self.rows.len()
    }

    fn position(&self, identity: &Identity) -> (at: Option<usize>)
        ensures
            match at {
                Some(i) => i < self.rows@.len() && key_at(self.rows@, i as int) == identity@,
                None => !holds(self.rows@, identity@),
            },
    {
        let mut i: usize = 0;
        while i < self.rows.len()
            invariant
                i <= self.rows@.len(),
                forall|j: int| 0 <= j < i ==> #[trigger] key_at(self.rows@, j) != identity@,
            decreases self.rows@.len() - i,
        {
            if self.rows[i].identity().same_as(identity) {
                return Some(i);
            }
            i += 1;
        }
        None
    }

    /// The record filed under `identity`, if there is one.
    pub fn find(&self, identity: &Identity) -> (record: Option<&User>)
        ensures
            consistent(self@),
            found(record) == lookup(self@, identity@),
    {
        proof {
            use_type_invariant(self);
            lemma_consistent(self.rows@);
        }
        match self.position(identity) {
            Some(i) => {
                proof {
                    lemma_row(self.rows@, i as int);
                }
                Some(&self.rows[i])
            },
            None => None,
        }
    }

    /// Files `user` under its identity, unless that identity already has a
    /// record: then nothing changes and the answer is `false`.
    pub(crate) fn insert(&mut self, user: User) -> (inserted: bool)
        ensures
            consistent(final(self)@),
            inserted == !old(self)@.contains_key(user@.identity),
            final(self)@ == if inserted {
                old(self)@.insert(user@.identity, user@)
            } else {
                old(self)@
            },
    {
        proof {
            use_type_invariant(&*self);
            use_type_invariant(&user);
        }
        let identity = user.identity();
        proof {
            lemma_consistent(self.rows@);
        }
        match self.position(&identity) {
            Some(_) => false,
            None => {
                let mut rows = Vec::new();
                core::mem::swap(&mut self.rows, &mut rows);
                proof {
                    lemma_push(rows@, user);
                }
                rows.push(user);
                proof {
                    lemma_consistent(rows@);
                }
                self.rows = rows;
                true
            },
        }
    }

    /// Replaces the record filed under the identity of `user` by `user`,
    /// unless that identity has no record: then nothing changes and the
    /// answer is `false`.
    pub(crate) fn update(&mut self, user: User) -> (updated: bool)
        ensures
            consistent(final(self)@),
            updated == old(self)@.contains_key(user@.identity),
            final(self)@ == if updated {
                old(self)@.insert(user@.identity, user@)
            } else {
                old(self)@
            },
    {
        proof {
            use_type_invariant(&*self);
            use_type_invariant(&user);
        }
        let identity = user.identity();
        proof {
            lemma_consistent(self.rows@);
        }
        match self.position(&identity) {
            Some(i) => {
                let mut rows = Vec::new();
                core::mem::swap(&mut self.rows, &mut rows);
                proof {
                    lemma_replace(rows@, i as int, user);
                }
                rows[i] = user;
                proof {
                    lemma_consistent(rows@);
                }
                self.rows = rows;
                true
            },
            None => false,
        }
    }
}

/// Provisioning. Makes sure that `sender` has a record: files an empty one
/// where it has none, and changes nothing where it has one. Never fails, and
/// a second call changes nothing.
pub fn client_connected(table: &mut UserTable, sender: Identity)
    ensures
        consistent(final(table)@),
        final(table)@ == connected(old(table)@, sender@),
{
    match provision(table.find(&sender), sender) {
        Some(user) => {
            table.insert(user);
        },
        None => {},
    }
}

/// Bootstrap. Sets all seven fields of the record of `sender`, once. The
/// request is refused, and the table left as it was, with `UnknownIdentity`
/// where `sender` has no record and with `AlreadyInitialized` where its
/// record already carries a public key or a public signing key.
pub fn init_encryption_and_signing(
    table: &mut UserTable,
    sender: Identity,
    public_key: String,
    encrypted_private_key: String,
    encrypted_backup_key: String,
    public_signing_key: String,
    encrypted_private_signing_key: String,
    encrypted_private_backup_signing_key: String,
    password_salt: String,
) -> (r: Result<(), KeyError>)
    ensures
        consistent(final(table)@),
        r == reply(
            initialize_outcome(
                lookup(old(table)@, sender@),
                public_key@,
                encrypted_private_key@,
                encrypted_backup_key@,
                public_signing_key@,
                encrypted_private_signing_key@,
                encrypted_private_backup_signing_key@,
                password_salt@,
            ),
        ),
        final(table)@ == committed(
            old(table)@,
            sender@,
            initialize_outcome(
                lookup(old(table)@, sender@),
                public_key@,
                encrypted_private_key@,
                encrypted_backup_key@,
                public_signing_key@,
                encrypted_private_signing_key@,
                encrypted_private_backup_signing_key@,
                password_salt@,
            ),
        ),
{
    let decided = initialize(
        table.find(&sender),
        public_key,
        encrypted_private_key,
        encrypted_backup_key,
        public_signing_key,
        encrypted_private_signing_key,
        encrypted_private_backup_signing_key,
        password_salt,
    );
    match decided {
        Ok(user) => {
            table.update(user);
            Ok(())
        },
        Err(e) => Err(e),
    }
}

/// Rotation. Replaces the encrypted private key, the encrypted private
/// signing key and the salt of the record of `sender`, if `signature_base64`
/// is, in base64, a strict Ed25519 signature over the three new values by
/// the signing key the record holds. The request is refused, and the table
/// left as it was, with
/// `UnknownIdentity` where `sender` has no record, with `NotInitialized`
/// where its record holds no signing key, and else with the error of the
/// check that failed.
pub fn update_encryption_keys(
    table: &mut UserTable,
    sender: Identity,
    new_encrypted_private_key: String,
    new_encrypted_private_signing_key: String,
    new_salt: String,
    signature_base64: String,
) -> (r: Result<(), KeyError>)
    ensures
        consistent(final(table)@),
        r == reply(
            rotate_outcome(
                lookup(old(table)@, sender@),
                new_encrypted_private_key@,
                new_encrypted_private_signing_key@,
                new_salt@,
                signature_base64@,
            ),
        ),
        final(table)@ == committed(
            old(table)@,
            sender@,
            rotate_outcome(
                lookup(old(table)@, sender@),
                new_encrypted_private_key@,
                new_encrypted_private_signing_key@,
                new_salt@,
                signature_base64@,
            ),
        ),
{
    let decided = rotate(
        table.find(&sender),
        new_encrypted_private_key,
        new_encrypted_private_signing_key,
        new_salt,
        signature_base64.as_str(),
    );
    match decided {
        Ok(user) => {
            table.update(user);
            Ok(())
        },
        Err(e) => Err(e),
    }
}

} // verus!
