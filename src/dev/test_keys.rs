//! Deterministic ed25519 key pairs for development and tests.

use vstd::prelude::*;
use std::collections::HashMap;
use vstd::std_specs::hash::obeys_key_model;
use vstd::utf8::encode_utf8;
use crate::crypto::{
    all_hex, decimal_string, decimal_text, ed25519_accepts, ed25519_key_decodes, ed25519_public_key,
    ed25519_public_of, ed25519_sign, ed25519_signature_of, hex_bytes, hex_decode, hex_encode, hex_lower,
    lemma_hex_round_trip, to_array32,
};
use crate::models::websocket::signed_payload;
use crate::services::signature::{payload_bytes, signature_check};
use crate::storage::memory::{lemma_push_keeps_owners, lemma_push_unique, owner, user_by_id};
use crate::errors::DashboardResult;
use crate::models::websocket::WebSocketAuthMessage;
use crate::storage::memory::InMemoryUserStorage;

verus! {

/// How many test key pairs there are.
pub const NUM_TEST_KEYS: usize = 10;

/// The seed all test keys derive from: `"dashboard_test_key_seed_123456"`
/// followed by two zero bytes.
pub open spec fn test_seed_base() -> Seq<u8> {
    seq![
        100u8, 97, 115, 104, 98, 111, 97, 114, 100, 95, 116, 101, 115, 116, 95, 107, 101, 121, 95,
        115, 101, 101, 100, 95, 49, 50, 51, 52, 53, 54, 0, 0,
    ]
}

/// The secret key of test key `i`: the base seed with its last byte set to `i`.
pub open spec fn test_seed(i: int) -> Seq<u8> {
    test_seed_base().update(31, i as u8)
}

/// An ed25519 key pair for testing.
#[derive(Clone, Debug)]
pub struct TestKeyPair {
    /// User the key pair belongs to
    pub user_id: i64,
    /// Name of that user
    pub username: String,
    /// Secret key, hex-encoded
    pub private_key: String,
    /// Public key, hex-encoded
    pub public_key: String,
    /// Position among the test keys
    pub index: usize,
}

/// `k` is test key number `i`: user `i + 1`, named `test_user_{i + 1}`, with
/// the keys derived from the `i`-th seed.
pub open spec fn is_test_key(k: TestKeyPair, i: int) -> bool {
    &&& k.index == i
    &&& k.user_id == i + 1
    &&& k.username@ == "test_user_"@ + decimal_text(i + 1)
    &&& k.private_key@ == hex_lower(test_seed(i))
    &&& k.public_key@ == hex_lower(ed25519_public_of(test_seed(i)))
    &&& ed25519_public_of(test_seed(i)).len() == 32
    &&& ed25519_key_decodes(ed25519_public_of(test_seed(i)))
}

/// All test keys, in order.
pub open spec fn are_test_keys(v: Seq<TestKeyPair>) -> bool {
    v.len() == NUM_TEST_KEYS && forall|i: int| 0 <= i < v.len() ==> is_test_key(#[trigger] v[i], i)
}

fn copy_key(k: &TestKeyPair) -> (r: TestKeyPair)
    ensures
        r == *k,
{
    TestKeyPair {
        user_id: k.user_id,
        username: k.username.clone(),
        private_key: k.private_key.clone(),
        public_key: k.public_key.clone(),
        index: k.index,
    }
}

fn test_secret(i: usize) -> (r: [u8; 32])
    requires
        i < NUM_TEST_KEYS,
    ensures
        r@ == test_seed(i as int),
{
    let mut seed: Vec<u8> = vec![
        100u8, 97, 115, 104, 98, 111, 97, 114, 100, 95, 116, 101, 115, 116, 95, 107, 101, 121, 95,
        115, 101, 101, 100, 95, 49, 50, 51, 52, 53, 54, 0, 0,
    ];
    assert(seed@ =~= test_seed_base());
    seed.set(31, i as u8);
    to_array32(&seed)
}

fn generate_test_keys() -> (r: Vec<TestKeyPair>)
    ensures
        are_test_keys(r@),
{
    let mut keys: Vec<TestKeyPair> = Vec::new();
    let mut i: usize = 0;
    while i < NUM_TEST_KEYS
        invariant
            i <= NUM_TEST_KEYS,
            keys@.len() == i,
            forall|j: int| 0 <= j < i ==> is_test_key(#[trigger] keys@[j], j),
        decreases NUM_TEST_KEYS - i,
    {
        let secret = test_secret(i);
        let public = ed25519_public_key(&secret);
        let private_key = hex_encode(&secret);
        let public_key = hex_encode(&public);
        let user_id = (i + 1) as i64;
        let username = "test_user_".to_owned().concat(decimal_string(user_id as i128).as_str());
        keys.push(TestKeyPair { user_id, username, private_key, public_key, index: i });
        i = i + 1;
    }
    keys
}

/// Build the test key fixture.
pub fn initialize_test_keys() -> (r: Vec<TestKeyPair>)
    ensures
        are_test_keys(r@),
{
    generate_test_keys()
}

/// All test keys.
pub fn get_test_keys() -> (r: Vec<TestKeyPair>)
    ensures
        are_test_keys(r@),
{
    initialize_test_keys()
}

/// Test key number `index`, if there is one.
pub fn get_test_key(index: usize) -> (r: Option<TestKeyPair>)
    ensures
        index < NUM_TEST_KEYS ==> (r matches Some(k) && is_test_key(k, index as int)),
        index >= NUM_TEST_KEYS ==> r is None,
{
    let keys = get_test_keys();
    if index < keys.len() {
        Some(copy_key(&keys[index]))
    } else {
        None
    }
}

/// The test key of a user, if there is one.
pub fn get_test_key_for_user(user_id: i64) -> (r: Option<TestKeyPair>)
    ensures
        1 <= user_id <= NUM_TEST_KEYS ==> (r matches Some(k) && is_test_key(k, user_id - 1)),
        !(1 <= user_id <= NUM_TEST_KEYS) ==> r is None,
{
    let keys = get_test_keys();
    let mut i: usize = 0;
    while i < keys.len()
        invariant
            are_test_keys(keys@),
            i <= keys@.len(),
            forall|j: int| 0 <= j < i ==> keys@[j].user_id != user_id,
        decreases keys@.len() - i,
    {
        if keys[i].user_id == user_id {
            return Some(copy_key(&keys[i]));
        }
        i = i + 1;
    }
    proof {
        if 1 <= user_id <= NUM_TEST_KEYS {
            assert(keys@[user_id - 1].user_id == user_id);
        }
    }
    None
}

/// The map that inserting each key's public key with its user gives, in order.
pub open spec fn inserted_keys(keys: Seq<TestKeyPair>) -> Map<String, i64>
    decreases keys.len(),
{
    if keys.len() == 0 {
        Map::empty()
    } else {
        inserted_keys(keys.drop_last()).insert(keys.last().public_key, keys.last().user_id)
    }
}

/// The test keys' public keys mapped to their users. What the map holds is
/// known where `String` keys follow vstd's hash-map model.
pub fn get_public_key_to_user_id_map() -> (r: HashMap<String, i64>)
    ensures
        obeys_key_model::<String>() ==> exists|keys: Seq<TestKeyPair>|
            are_test_keys(keys) && r@ == inserted_keys(keys),
{
    let keys = get_test_keys();
    let mut map: HashMap<String, i64> = HashMap::new();
    let mut i: usize = 0;
    while i < keys.len()
        invariant
            i <= keys@.len(),
            are_test_keys(keys@),
            obeys_key_model::<String>() ==> map@ == inserted_keys(keys@.take(i as int)),
        decreases keys@.len() - i,
    {
        proof {
            assert(keys@.take(i + 1).drop_last() =~= keys@.take(i as int));
            assert(keys@.take(i + 1).last() == keys@[i as int]);
        }
        map.insert(keys[i].public_key.clone(), keys[i].user_id);
        i = i + 1;
    }
    proof {
        assert(keys@.take(keys@.len() as int) =~= keys@);
    }
    map
}

/// Sign a message with a hex-encoded 32-byte secret key; the signature comes
/// back hex-encoded.
pub fn sign_test_message(private_key_hex: &str, message: &str) -> (r: Result<String, String>)
    ensures
        !(private_key_hex@.len() % 2 == 0 && crate::crypto::all_hex(private_key_hex@)) ==> (r
            matches Err(e) && e@ == "Invalid private key format"@),
        private_key_hex@.len() % 2 == 0 && crate::crypto::all_hex(private_key_hex@) && hex_bytes(
            private_key_hex@,
        ).len() != 32 ==> (r matches Err(e) && e@ == "Invalid private key length"@),
        private_key_hex@.len() % 2 == 0 && crate::crypto::all_hex(private_key_hex@) && hex_bytes(
            private_key_hex@,
        ).len() == 32 ==> (r matches Ok(s) && s@ == hex_lower(
            ed25519_signature_of(hex_bytes(private_key_hex@), encode_utf8(message@)),
        )),
        r matches Ok(s) ==> hex_bytes(s@) == ed25519_signature_of(
            hex_bytes(private_key_hex@),
            encode_utf8(message@),
        ) && s@.len() == 128 && all_hex(s@) && ed25519_accepts(
            ed25519_public_of(hex_bytes(private_key_hex@)),
            encode_utf8(message@),
            hex_bytes(s@),
        ),
{
    let secret = match hex_decode(private_key_hex) {
        Ok(b) => b,
        Err(_) => {
            return Err("Invalid private key format".to_owned());
        },
    };
    if secret.len() != 32 {
        return Err("Invalid private key length".to_owned());
    }
    let secret = to_array32(&secret);
    let signature = ed25519_sign(&secret, message.as_bytes());
    let text = hex_encode(&signature);
    proof {
        lemma_hex_round_trip(signature@);
    }
    Ok(text)
}

/// A signed authentication message from test key `key_index`, over
/// `"{timestamp}:{nonce}"`; it passes signature verification.
pub fn build_auth_message(key_index: usize, timestamp: i64, nonce: String) -> (r: Result<
    WebSocketAuthMessage,
    String,
>)
    ensures
        key_index >= NUM_TEST_KEYS ==> (r matches Err(e) && e@ == "Test key not found"@),
        key_index < NUM_TEST_KEYS ==> (r matches Ok(m) && m.timestamp == timestamp && m.nonce
            == nonce && m.public_key@ == hex_lower(ed25519_public_of(test_seed(key_index as int)))
            && m.signature@ == hex_lower(
            ed25519_signature_of(
                test_seed(key_index as int),
                encode_utf8(signed_payload(timestamp, nonce@)),
            ),
        ) && signature_check(m.public_key@, payload_bytes(m), m.signature@) == Ok::<
            bool,
            Seq<char>,
        >(true)),
{
    let key = match get_test_key(key_index) {
        Some(k) => k,
        None => {
            return Err("Test key not found".to_owned());
        },
    };
    let m0 = WebSocketAuthMessage::new(key.public_key.clone(), timestamp, nonce, String::new());
    let payload = m0.get_signed_message();
    proof {
        let seed = test_seed(key_index as int);
        lemma_hex_round_trip(seed);
        lemma_hex_round_trip(ed25519_public_of(seed));
    }
    let signature = sign_test_message(key.private_key.as_str(), payload.as_str())?;
    let m = WebSocketAuthMessage::new(key.public_key, timestamp, m0.nonce, signature);
    proof {
        let seed = test_seed(key_index as int);
        lemma_hex_round_trip(hex_bytes(m.signature@));
        assert(hex_bytes(m.signature@) == ed25519_signature_of(seed, payload_bytes(m)));
    }
    Ok(m)
}

/// Bind each test key to its user, for the users that exist. Keys already
/// bound to their user stay as they are; a key bound to another user stops
/// the registration with that error.
pub fn register_test_keys_with_users(storage: &mut InMemoryUserStorage) -> (r: DashboardResult<()>)
    requires
        old(storage).wf(),
    ensures
        final(storage).wf(),
        final(storage).user_list() == old(storage).user_list(),
        r is Ok ==> forall|i: int|
            0 <= i < NUM_TEST_KEYS && #[trigger] user_by_id(final(storage).user_list(), (i + 1) as i64) is Some
                ==> owner(
                final(storage).bindings(),
                hex_lower(ed25519_public_of(test_seed(i))),
            ) == Some((i + 1) as i64),
{
    let keys = get_test_keys();
    let mut i: usize = 0;
    while i < keys.len()
        invariant
            are_test_keys(keys@),
            i <= keys@.len(),
            storage.wf(),
            storage.user_list() == old(storage).user_list(),
            forall|j: int|
                0 <= j < i && #[trigger] user_by_id(storage.user_list(), (j + 1) as i64) is Some ==> owner(
                    storage.bindings(),
                    hex_lower(ed25519_public_of(test_seed(j))),
                ) == Some((j + 1) as i64),
        decreases keys@.len() - i,
    {
        let user = storage.find_user_by_id(keys[i].user_id)?;
        if let Some(user) = user {
            let ghost before = storage.bindings();
            proof {
                storage.lemma_keys_unique();
            }
            storage.store_public_key(user.id, keys[i].public_key.as_str())?;
            proof {
                let k = keys@[i as int].public_key@;
                let u = keys@[i as int].user_id;
                if owner(before, k) is None {
                    assert forall|j: int|
                        0 <= j < i && #[trigger] user_by_id(storage.user_list(), (j + 1) as i64) is Some
                            implies owner(
                            storage.bindings(),
                            hex_lower(ed25519_public_of(test_seed(j))),
                        ) == Some((j + 1) as i64) by {
                        let kj = hex_lower(ed25519_public_of(test_seed(j)));
                        assert(owner(before, kj) == Some((j + 1) as i64));
                        lemma_push_keeps_owners(before, k, u, kj);
                    }
                    lemma_push_unique(before, k, u);
                }
            }
        }
        i = i + 1;
    }
    Ok(())
}

} // verus!
