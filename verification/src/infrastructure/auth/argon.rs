//! API keys: how a new key is written, and which business a presented key
//! belongs to. Keys are stored only as Argon2 hashes.
use vstd::prelude::*;
use argon2::password_hash::{PasswordHasher, SaltString};
use argon2::PasswordVerifier;
use crate::shared::errors::AppError;
use crate::shared::random::{is_alphanumeric, random_alphanumeric_string};

verus! {

/// Whether `key` is the key that the stored Argon2 hash `hash` was made
/// from.
pub uninterp spec fn api_key_matches(key: Seq<char>, hash: Seq<char>) -> bool;

/// `argon2::password_hash::PasswordHash::new(hash)` and
/// `Argon2::default().verify_password(key, ..)`: whether `key` matches the
/// stored hash in PHC format; a hash that does not parse matches nothing.
/// Trusted: the outcome is named, not specified; it depends only on the key
/// and the hash string, which holds the algorithm, its parameters and the
/// salt.
#[verifier::external_body]
fn verify_api_key(key: &str, hash: &str) -> (res: bool)
    ensures
        res == api_key_matches(key@, hash@),
{
    match argon2::password_hash::PasswordHash::new(hash) {
        Ok(parsed) => argon2::Argon2::default().verify_password(key.as_bytes(), &parsed).is_ok(),
        Err(_) => false,
    }
}

/// A failure of Argon2 hashing.
#[verifier::external_type_specification]
#[verifier::external_body]
pub struct ExPasswordHashError(argon2::password_hash::Error);

/// `SaltString::generate` with the thread's random generator, then
/// `Argon2::default().hash_password(key, &salt)`: the Argon2id hash of `key`
/// under a fresh random salt, in PHC format. Trusted: the hash itself
/// depends on the random salt and is left open; what holds of every hash it
/// returns is that `key` verifies against it (verification recomputes the
/// hash with the algorithm, parameters and salt that the PHC string records
/// and compares), and that it is a PHC string of the default algorithm,
/// Argon2id, so it starts with `$argon2id$`. When hashing fails its error is
/// returned.
#[verifier::external_body]
pub fn hash_api_key(key: &str) -> (res: Result<String, argon2::password_hash::Error>)
    ensures
        res matches Ok(hash) ==> api_key_matches(key@, hash@),
        res matches Ok(hash) ==> hash@.len() >= 10 && hash@.take(10) == argon2id_marker(),
{
    let salt = SaltString::generate(&mut rand::thread_rng());
    match argon2::Argon2::default().hash_password(key.as_bytes(), &salt) {
        Ok(hash) => Ok(hash.to_string()),
        Err(e) => Err(e),
    }
}

/// How a PHC string of an Argon2id hash begins.
pub open spec fn argon2id_marker() -> Seq<char> {
    "$argon2id$"@
}

/// The first part of every key that the service issues, stored as the
/// key's prefix.
pub open spec fn key_prefix() -> Seq<char> {
    "dodo_live"@
}

/// A new API key: `dodo_live_` followed by the random `suffix`.
pub fn compose_api_key(suffix: &str) -> (res: String)
    ensures
        res@ == key_prefix() + "_"@ + suffix@,
{
    let mut key = String::from_str("dodo_live_");
    key.append(suffix);
    proof {
        reveal_strlit("dodo_live_");
        reveal_strlit("dodo_live");
        reveal_strlit("_");
        assert("dodo_live_"@ =~= key_prefix() + "_"@);
    }
    key
}

/// A stored, unrevoked API key: its business and its hash.
#[derive(Debug)]
pub struct StoredApiKey {
    pub business_id: u128,
    pub key_hash: String,
}

/// The business of the first stored key, in the given order, that `key`
/// matches.
pub open spec fn first_matching_business(key: Seq<char>, stored: Seq<StoredApiKey>) -> Option<u128>
    decreases stored.len(),
{
    if stored.len() == 0 {
        None
    } else if api_key_matches(key, stored[0].key_hash@) {
        Some(stored[0].business_id)
    } else {
        first_matching_business(key, stored.drop_first())
    }
}

/// The business that `key` authenticates, among the unrevoked keys
/// `stored`: that of the first stored key it matches; unauthorized if it
/// matches none.
pub fn authenticate(key: &str, stored: &Vec<StoredApiKey>) -> (res: Result<u128, AppError>)
    ensures
        match first_matching_business(key@, stored@) {
            Some(id) => res == Ok::<u128, AppError>(id),
            None => res matches Err(AppError::Unauthorized),
        },
{
    let n = stored.len();
    let mut i: usize = 0;
    assert(stored@.skip(0) =~= stored@);
    while i < n
        invariant
            n == stored@.len(),
            i <= n,
            first_matching_business(key@, stored@) == first_matching_business(
                key@,
                stored@.skip(i as int),
            ),
        decreases n - i,
    {
        let candidate = &stored[i];
        assert(stored@.skip(i as int)[0] == stored@[i as int]);
        assert(stored@.skip(i as int).drop_first() =~= stored@.skip(i + 1));
        if verify_api_key(key, candidate.key_hash.as_str()) {
            return Ok(candidate.business_id);
        }
        i = i + 1;
    }
    assert(stored@.skip(n as int).len() == 0);
    Err(AppError::Unauthorized)
}

/// The text of a key the service issues: `dodo_live_` and 43 random ASCII
/// letters and digits.
pub open spec fn is_issued_key_text(key: Seq<char>) -> bool {
    &&& key.len() == 53
    &&& key.take(10) == key_prefix() + "_"@
    &&& forall|i: int| 10 <= i < 53 ==> is_alphanumeric(#[trigger] key[i])
}

/// A newly issued API key: the key, handed out once, and the row stored
/// for it.
#[derive(Debug)]
pub struct IssuedApiKey {
    pub key: String,
    pub stored: StoredApiKey,
}

/// Issues a new API key for `business_id`: `dodo_live_` and 43 random
/// letters and digits, stored only as its Argon2 hash, which the key
/// verifies against. Fails only if hashing fails.
pub fn issue_api_key(business_id: u128) -> (res: Result<IssuedApiKey, argon2::password_hash::Error>)
    ensures
        res matches Ok(issued) ==> {
            &&& issued.stored.business_id == business_id
            &&& is_issued_key_text(issued.key@)
            &&& api_key_matches(issued.key@, issued.stored.key_hash@)
            &&& issued.stored.key_hash@.take(10) == argon2id_marker()
            &&& issued.stored.key_hash@ != issued.key@
        },
{
    let suffix = random_alphanumeric_string(43);
    let key = compose_api_key(suffix.as_str());
    proof {
        reveal_strlit("dodo_live");
        reveal_strlit("_");
        assert(key@.take(10) =~= key_prefix() + "_"@);
        assert forall|i: int| 10 <= i < 53 implies is_alphanumeric(#[trigger] key@[i]) by {
            assert(key@[i] == suffix@[i - 10]);
        }
    }
    match hash_api_key(key.as_str()) {
        Ok(key_hash) => {
            proof {
                reveal_strlit("$argon2id$");
                assert(key_hash@[0] == key_hash@.take(10)[0]);
                assert(key@[0] == key@.take(10)[0]);
                assert(key_hash@[0] != key@[0]);
            }
            Ok(IssuedApiKey { key, stored: StoredApiKey { business_id, key_hash } })
        },
        Err(e) => Err(e),
    }
}

/// Stored keys that a presented key does not match do not change which
/// business it authenticates, wherever they stand before the first match.
pub proof fn lemma_unmatched_keys_are_skipped(
    key: Seq<char>,
    earlier: Seq<StoredApiKey>,
    rest: Seq<StoredApiKey>,
)
    requires
        forall|i: int| 0 <= i < earlier.len() ==> !api_key_matches(key, #[trigger] earlier[i].key_hash@),
    ensures
        first_matching_business(key, earlier + rest) == first_matching_business(key, rest),
    decreases earlier.len(),
{
    if earlier.len() > 0 {
        assert((earlier + rest)[0] == earlier[0]);
        assert((earlier + rest).drop_first() =~= earlier.drop_first() + rest);
        assert forall|i: int| 0 <= i < earlier.drop_first().len() implies !api_key_matches(
            key,
            #[trigger] earlier.drop_first()[i].key_hash@,
        ) by {
            assert(earlier.drop_first()[i] == earlier[i + 1]);
        }
        lemma_unmatched_keys_are_skipped(key, earlier.drop_first(), rest);
    } else {
        assert(earlier + rest =~= rest);
    }
}

/// An issued key authenticates the business it was issued for, whatever keys
/// are stored after it, provided no hash stored before it also verifies it;
/// a key that matches no stored hash authenticates nobody. (Should an
/// earlier hash also verify the key, the earlier business is the one
/// authenticated, as `authenticate` states.)
pub proof fn lemma_issued_key_authenticates_its_business(
    key: Seq<char>,
    earlier: Seq<StoredApiKey>,
    issued: StoredApiKey,
    later: Seq<StoredApiKey>,
)
    requires
        api_key_matches(key, issued.key_hash@),
        forall|i: int| 0 <= i < earlier.len() ==> !api_key_matches(key, #[trigger] earlier[i].key_hash@),
    ensures
        first_matching_business(key, earlier.push(issued) + later) == Some(issued.business_id),
        (forall|i: int| 0 <= i < later.len() ==> !api_key_matches(key, #[trigger] later[i].key_hash@))
            ==> first_matching_business(key, earlier + later) is None,
{
    assert(earlier.push(issued) + later =~= earlier + (seq![issued] + later));
    lemma_unmatched_keys_are_skipped(key, earlier, seq![issued] + later);
    assert((seq![issued] + later)[0] == issued);
    lemma_unmatched_keys_are_skipped(key, earlier, later);
    if forall|i: int| 0 <= i < later.len() ==> !api_key_matches(key, #[trigger] later[i].key_hash@) {
        assert(later + Seq::<StoredApiKey>::empty() =~= later);
        lemma_unmatched_keys_are_skipped(key, later, Seq::<StoredApiKey>::empty());
    }
}

} // verus!
