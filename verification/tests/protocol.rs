use base64::engine::general_purpose::STANDARD;
use base64::Engine;
use ed25519_dalek::{Signer, SigningKey};
use keystore::error::KeyError;
use keystore::identity::Identity;
use keystore::record::{initialize, provision, rotate, User};
use keystore::store::{
    client_connected, init_encryption_and_signing, update_encryption_keys, UserTable,
};

fn identity(tag: u8) -> Identity {
    let mut bytes = [0u8; 32];
    bytes[0] = tag;
    bytes[31] = 0xA5;
    Identity::from_byte_array(bytes)
}

fn keypair(seed: u8) -> SigningKey {
    SigningKey::from_bytes(&[seed; 32])
}

fn public_b64(key: &SigningKey) -> String {
    STANDARD.encode(key.verifying_key().to_bytes())
}

fn sign_b64(key: &SigningKey, a: &str, b: &str, c: &str) -> String {
    let message = format!("{}{}{}", a, b, c);
    STANDARD.encode(key.sign(message.as_bytes()).to_bytes())
}

fn s(text: &str) -> String {
    text.to_string()
}

fn bootstrap(table: &mut UserTable, who: Identity, psk: &str) -> Result<(), KeyError> {
    init_encryption_and_signing(
        table,
        who,
        s("pk"),
        s("epk"),
        s("ebk"),
        s(psk),
        s("epsk"),
        s("epbsk"),
        s("salt1"),
    )
}

fn fields(user: &User) -> [Option<String>; 7] {
    [
        user.public_key().cloned(),
        user.encrypted_private_key().cloned(),
        user.encrypted_backup_key().cloned(),
        user.public_signing_key().cloned(),
        user.encrypted_private_signing_key().cloned(),
        user.encrypted_private_backup_signing_key().cloned(),
        user.password_salt().cloned(),
    ]
}

fn snapshot(table: &UserTable, who: &Identity) -> Option<[Option<String>; 7]> {
    table.find(who).map(fields)
}

#[test]
fn connect_creates_one_empty_record() {
    let mut table = UserTable::new();
    assert_eq!(table.len(), 0);
    let who = identity(1);
    assert!(table.find(&who).is_none());
    client_connected(&mut table, who);
    assert_eq!(table.len(), 1);
    let user = table.find(&who).expect("record was provisioned");
    assert_eq!(user.identity(), who);
    assert!(!user.is_initialized());
    assert_eq!(fields(user), [None, None, None, None, None, None, None]);
}

#[test]
fn connect_twice_equals_connect_once() {
    let who = identity(2);
    let mut once = UserTable::new();
    client_connected(&mut once, who);
    let mut twice = UserTable::new();
    client_connected(&mut twice, who);
    client_connected(&mut twice, who);
    assert_eq!(twice.len(), 1);
    assert_eq!(snapshot(&twice, &who), snapshot(&once, &who));
}

#[test]
fn connect_keeps_an_initialized_record() {
    let who = identity(3);
    let key = keypair(7);
    let mut table = UserTable::new();
    client_connected(&mut table, who);
    assert_eq!(bootstrap(&mut table, who, &public_b64(&key)), Ok(()));
    let before = snapshot(&table, &who);
    client_connected(&mut table, who);
    assert_eq!(table.len(), 1);
    assert_eq!(snapshot(&table, &who), before);
}

#[test]
fn connect_of_another_identity_adds_a_second_record() {
    let mut table = UserTable::new();
    client_connected(&mut table, identity(1));
    client_connected(&mut table, identity(2));
    assert_eq!(table.len(), 2);
    assert!(table.find(&identity(1)).is_some());
    assert!(table.find(&identity(2)).is_some());
    assert!(table.find(&identity(3)).is_none());
}

#[test]
fn bootstrap_sets_all_seven_fields() {
    let who = identity(4);
    let mut table = UserTable::new();
    client_connected(&mut table, who);
    assert_eq!(snapshot(&table, &who), Some([None, None, None, None, None, None, None]));
    assert_eq!(bootstrap(&mut table, who, "psk"), Ok(()));
    let user = table.find(&who).unwrap();
    assert!(user.is_initialized());
    assert_eq!(
        fields(user),
        [
            Some(s("pk")),
            Some(s("epk")),
            Some(s("ebk")),
            Some(s("psk")),
            Some(s("epsk")),
            Some(s("epbsk")),
            Some(s("salt1")),
        ]
    );
    assert_eq!(table.len(), 1);
}

#[test]
fn bootstrap_of_unknown_identity_is_refused() {
    let mut table = UserTable::new();
    client_connected(&mut table, identity(1));
    assert_eq!(bootstrap(&mut table, identity(9), "psk"), Err(KeyError::UnknownIdentity));
    assert_eq!(table.len(), 1);
    assert!(table.find(&identity(9)).is_none());
    assert_eq!(
        snapshot(&table, &identity(1)),
        Some([None, None, None, None, None, None, None])
    );
}

#[test]
fn second_bootstrap_is_refused_and_changes_nothing() {
    let who = identity(5);
    let mut table = UserTable::new();
    client_connected(&mut table, who);
    assert_eq!(bootstrap(&mut table, who, "psk"), Ok(()));
    let before = snapshot(&table, &who);
    let again = init_encryption_and_signing(
        &mut table,
        who,
        s("other-pk"),
        s("other-epk"),
        s("other-ebk"),
        s("other-psk"),
        s("other-epsk"),
        s("other-epbsk"),
        s("other-salt"),
    );
    assert_eq!(again, Err(KeyError::AlreadyInitialized));
    assert_eq!(snapshot(&table, &who), before);
    assert_eq!(bootstrap(&mut table, who, "psk"), Err(KeyError::AlreadyInitialized));
    assert_eq!(snapshot(&table, &who), before);
}

#[test]
fn rotation_of_unknown_identity_is_refused() {
    let key = keypair(1);
    let mut table = UserTable::new();
    let r = update_encryption_keys(
        &mut table,
        identity(1),
        s("a"),
        s("b"),
        s("c"),
        sign_b64(&key, "a", "b", "c"),
    );
    assert_eq!(r, Err(KeyError::UnknownIdentity));
    assert_eq!(table.len(), 0);
}

#[test]
fn rotation_before_bootstrap_is_refused() {
    let who = identity(6);
    let key = keypair(1);
    let mut table = UserTable::new();
    client_connected(&mut table, who);
    let r = update_encryption_keys(
        &mut table,
        who,
        s("a"),
        s("b"),
        s("c"),
        sign_b64(&key, "a", "b", "c"),
    );
    assert_eq!(r, Err(KeyError::NotInitialized));
    assert_eq!(snapshot(&table, &who), Some([None, None, None, None, None, None, None]));
}

#[test]
fn end_to_end_bootstrap_then_rotation() {
    let who = identity(7);
    let key = keypair(42);
    let psk = public_b64(&key);
    let mut table = UserTable::new();
    client_connected(&mut table, who);
    assert_eq!(snapshot(&table, &who), Some([None, None, None, None, None, None, None]));
    assert_eq!(bootstrap(&mut table, who, &psk), Ok(()));
    let r = update_encryption_keys(
        &mut table,
        who,
        s("epk2"),
        s("epsk2"),
        s("salt2"),
        sign_b64(&key, "epk2", "epsk2", "salt2"),
    );
    assert_eq!(r, Ok(()));
    assert_eq!(
        snapshot(&table, &who),
        Some([
            Some(s("pk")),
            Some(s("epk2")),
            Some(s("ebk")),
            Some(psk),
            Some(s("epsk2")),
            Some(s("epbsk")),
            Some(s("salt2")),
        ])
    );
    assert_eq!(table.len(), 1);
}

#[test]
fn signature_is_bound_to_each_field() {
    let who = identity(8);
    let key = keypair(3);
    let mut table = UserTable::new();
    client_connected(&mut table, who);
    assert_eq!(bootstrap(&mut table, who, &public_b64(&key)), Ok(()));
    let before = snapshot(&table, &who);
    let sig = sign_b64(&key, "A", "B", "C");

    let r = update_encryption_keys(&mut table, who, s("A'"), s("B"), s("C"), sig.clone());
    assert_eq!(r, Err(KeyError::SignatureMismatch));
    assert_eq!(snapshot(&table, &who), before);
    let r = update_encryption_keys(&mut table, who, s("A"), s("B'"), s("C"), sig.clone());
    assert_eq!(r, Err(KeyError::SignatureMismatch));
    assert_eq!(snapshot(&table, &who), before);
    let r = update_encryption_keys(&mut table, who, s("A"), s("B"), s("C'"), sig.clone());
    assert_eq!(r, Err(KeyError::SignatureMismatch));
    assert_eq!(snapshot(&table, &who), before);
    let r = update_encryption_keys(&mut table, who, s("C"), s("B"), s("A"), sig.clone());
    assert_eq!(r, Err(KeyError::SignatureMismatch));
    assert_eq!(snapshot(&table, &who), before);

    let r = update_encryption_keys(&mut table, who, s("A"), s("B"), s("C"), sig);
    assert_eq!(r, Ok(()));
    let user = table.find(&who).unwrap();
    assert_eq!(user.encrypted_private_key(), Some(&s("A")));
    assert_eq!(user.encrypted_private_signing_key(), Some(&s("B")));
    assert_eq!(user.password_salt(), Some(&s("C")));
}

#[test]
fn signature_covers_the_concatenation_only() {
    let who = identity(9);
    let key = keypair(4);
    let mut table = UserTable::new();
    client_connected(&mut table, who);
    assert_eq!(bootstrap(&mut table, who, &public_b64(&key)), Ok(()));
    let sig = sign_b64(&key, "ab", "c", "d");
    let r = update_encryption_keys(&mut table, who, s("a"), s("bc"), s("d"), sig);
    assert_eq!(r, Ok(()));
    let user = table.find(&who).unwrap();
    assert_eq!(user.encrypted_private_key(), Some(&s("a")));
    assert_eq!(user.encrypted_private_signing_key(), Some(&s("bc")));
}

#[test]
fn rotations_never_change_the_public_keys() {
    let who = identity(10);
    let key = keypair(5);
    let psk = public_b64(&key);
    let mut table = UserTable::new();
    client_connected(&mut table, who);
    assert_eq!(bootstrap(&mut table, who, &psk), Ok(()));
    for round in 0..5 {
        let a = format!("epk-{}", round);
        let b = format!("epsk-{}", round);
        let c = format!("salt-{}", round);
        let sig = sign_b64(&key, &a, &b, &c);
        let r = update_encryption_keys(&mut table, who, a.clone(), b.clone(), c.clone(), sig);
        assert_eq!(r, Ok(()));
        let user = table.find(&who).unwrap();
        assert!(user.is_initialized());
        assert_eq!(user.public_key(), Some(&s("pk")));
        assert_eq!(user.public_signing_key(), Some(&psk));
        assert_eq!(user.encrypted_backup_key(), Some(&s("ebk")));
        assert_eq!(user.encrypted_private_backup_signing_key(), Some(&s("epbsk")));
        assert_eq!(user.encrypted_private_key(), Some(&a));
        assert_eq!(user.encrypted_private_signing_key(), Some(&b));
        assert_eq!(user.password_salt(), Some(&c));
    }
    assert_eq!(table.len(), 1);
}

#[test]
fn rotation_signed_by_another_key_is_unauthorized() {
    let who = identity(11);
    let owner = keypair(6);
    let intruder = keypair(7);
    let mut table = UserTable::new();
    client_connected(&mut table, who);
    assert_eq!(bootstrap(&mut table, who, &public_b64(&owner)), Ok(()));
    let before = snapshot(&table, &who);
    let r = update_encryption_keys(
        &mut table,
        who,
        s("epk2"),
        s("epsk2"),
        s("salt2"),
        sign_b64(&intruder, "epk2", "epsk2", "salt2"),
    );
    assert_eq!(r, Err(KeyError::SignatureMismatch));
    assert!(r.unwrap_err().is_unauthorized());
    assert_eq!(snapshot(&table, &who), before);
    assert_eq!(table.len(), 1);
}

#[test]
fn rotation_touches_only_the_senders_record() {
    let alice = identity(12);
    let bob = identity(13);
    let alice_key = keypair(8);
    let bob_key = keypair(9);
    let mut table = UserTable::new();
    client_connected(&mut table, alice);
    client_connected(&mut table, bob);
    assert_eq!(bootstrap(&mut table, alice, &public_b64(&alice_key)), Ok(()));
    assert_eq!(bootstrap(&mut table, bob, &public_b64(&bob_key)), Ok(()));
    let bob_before = snapshot(&table, &bob);
    let r = update_encryption_keys(
        &mut table,
        alice,
        s("x"),
        s("y"),
        s("z"),
        sign_b64(&alice_key, "x", "y", "z"),
    );
    assert_eq!(r, Ok(()));
    assert_eq!(snapshot(&table, &bob), bob_before);
    let r = update_encryption_keys(
        &mut table,
        bob,
        s("x"),
        s("y"),
        s("z"),
        sign_b64(&alice_key, "x", "y", "z"),
    );
    assert_eq!(r, Err(KeyError::SignatureMismatch));
    assert_eq!(snapshot(&table, &bob), bob_before);
    assert_eq!(table.len(), 2);
}

#[test]
fn rotation_against_a_stored_key_that_is_not_base64() {
    let who = identity(14);
    let key = keypair(1);
    let mut table = UserTable::new();
    client_connected(&mut table, who);
    assert_eq!(bootstrap(&mut table, who, "psk"), Ok(()));
    let before = snapshot(&table, &who);
    let r = update_encryption_keys(
        &mut table,
        who,
        s("a"),
        s("b"),
        s("c"),
        sign_b64(&key, "a", "b", "c"),
    );
    assert_eq!(r, Err(KeyError::MalformedKey));
    assert_eq!(snapshot(&table, &who), before);
}

#[test]
fn record_level_decisions_match_the_table_operations() {
    let who = identity(15);
    let key = keypair(2);
    let psk = public_b64(&key);
    assert_eq!(
        initialize(None, s("pk"), s("epk"), s("ebk"), s("psk"), s("epsk"), s("epbsk"), s("salt"))
            .err(),
        Some(KeyError::UnknownIdentity)
    );
    assert_eq!(
        rotate(None, s("a"), s("b"), s("c"), "sig").err(),
        Some(KeyError::UnknownIdentity)
    );
    let empty = provision(None, who).expect("an identity without a record gets one");
    assert!(provision(Some(&empty), who).is_none());
    assert_eq!(empty.identity(), who);
    assert!(!empty.is_initialized());
    assert_eq!(
        rotate(Some(&empty), s("a"), s("b"), s("c"), "sig").err(),
        Some(KeyError::NotInitialized)
    );
    let full = initialize(
        Some(&empty),
        s("pk"),
        s("epk"),
        s("ebk"),
        psk.clone(),
        s("epsk"),
        s("epbsk"),
        s("salt"),
    )
    .ok()
    .expect("an empty record can be bootstrapped");
    assert_eq!(full.identity(), who);
    assert!(full.is_initialized());
    assert_eq!(
        initialize(Some(&full), s("x"), s("x"), s("x"), s("x"), s("x"), s("x"), s("x")).err(),
        Some(KeyError::AlreadyInitialized)
    );
    let sig = sign_b64(&key, "epk2", "epsk2", "salt2");
    let rotated = rotate(Some(&full), s("epk2"), s("epsk2"), s("salt2"), &sig)
        .ok()
        .expect("a signed rotation is granted");
    assert_eq!(
        fields(&rotated),
        [
            Some(s("pk")),
            Some(s("epk2")),
            Some(s("ebk")),
            Some(psk),
            Some(s("epsk2")),
            Some(s("epbsk")),
            Some(s("salt2")),
        ]
    );
    assert_eq!(rotated.identity(), who);
}

#[test]
fn records_are_all_or_nothing() {
    let who = identity(16);
    assert!(User::from_fields(who, None, None, None, None, None, None, None).is_some());
    let full = User::from_fields(
        who,
        Some(s("1")),
        Some(s("2")),
        Some(s("3")),
        Some(s("4")),
        Some(s("5")),
        Some(s("6")),
        Some(s("7")),
    )
    .expect("all seven fields present");
    assert!(full.is_initialized());
    assert_eq!(full.password_salt(), Some(&s("7")));
    assert_eq!(full.public_key(), Some(&s("1")));
    assert!(User::from_fields(who, Some(s("1")), None, None, None, None, None, None).is_none());
    assert!(User::from_fields(
        who,
        Some(s("1")),
        Some(s("2")),
        Some(s("3")),
        Some(s("4")),
        Some(s("5")),
        Some(s("6")),
        None
    )
    .is_none());
    assert!(User::from_fields(who, None, None, None, Some(s("4")), None, None, None).is_none());
}

#[test]
fn identities_compare_by_their_bytes() {
    let mut bytes = [7u8; 32];
    let a = Identity::from_byte_array(bytes);
    assert_eq!(a.to_byte_array(), bytes);
    assert!(a.same_as(&Identity::from_byte_array(bytes)));
    bytes[31] = 8;
    assert!(!a.same_as(&Identity::from_byte_array(bytes)));
    bytes[31] = 7;
    bytes[0] = 0;
    assert!(!a.same_as(&Identity::from_byte_array(bytes)));
}
