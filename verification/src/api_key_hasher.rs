//! API key hashing with Argon2id.
//!
//! Keys are stored as PHC strings (`$argon2id$v=19$m=19456,t=2,p=1$...`). A stored key that
//! does not start with `$argon2` is a plaintext key that should be migrated.

use vstd::prelude::*;

use crate::text;

verus! {

/// Errors of API key hashing.
#[derive(Debug, Clone, PartialEq, Eq)]
pub enum ApiKeyHashError {
    /// Hashing the key failed.
    HashingFailed(String),
    /// Verifying the key failed.
    VerificationFailed(String),
    /// The stored hash is not a valid PHC string.
    InvalidHashFormat(String),
}

/// The message of an error.
pub open spec fn hash_error_text(e: ApiKeyHashError) -> Seq<char> {
    match e {
        ApiKeyHashError::HashingFailed(m) => "Failed to hash API key: "@ + m@,
        ApiKeyHashError::VerificationFailed(m) => "Failed to verify API key: "@ + m@,
        ApiKeyHashError::InvalidHashFormat(m) => "Invalid hash format: "@ + m@,
    }
}

impl ApiKeyHashError {
    /// The error message.
    pub fn to_string(&self) -> (s: String)
        ensures
            s@ == hash_error_text(*self),
    {
        match self {
            ApiKeyHashError::HashingFailed(m) => text::owned("Failed to hash API key: ").concat(
                m.as_str(),
            ),
            ApiKeyHashError::VerificationFailed(m) => text::owned(
                "Failed to verify API key: ",
            ).concat(m.as_str()),
            ApiKeyHashError::InvalidHashFormat(m) => text::owned("Invalid hash format: ").concat(
                m.as_str(),
            ),
        }
    }
}

/// What verifying a key against a stored PHC string gives: whether the key
/// matches, or the parse error's message when the string is no PHC hash.
pub uninterp spec fn argon2_verification(key: Seq<char>, phc: Seq<char>) -> Result<bool, Seq<char>>;

/// Whether checking `key` against the PHC string `phc` succeeds.
pub open spec fn key_verifies(key: Seq<char>, phc: Seq<char>) -> bool {
    argon2_verification(key, phc) == Ok::<bool, Seq<char>>(true)
}

/// The start of every hash made with the default parameters: the
/// algorithm, version 19 (0x13) and the parameters `m=19456,t=2,p=1`, each
/// behind a `$`, followed by the `$` before the salt.
pub open spec fn default_phc_prefix() -> Seq<char> {
    "$argon2id$v=19$m=19456,t=2,p=1$"@
}

/// Whether a key is short enough to hash: at most `0xFFFFFFFF` bytes of
/// UTF-8 (Argon2's `MAX_PWD_LEN`).
pub open spec fn hashable_key(key: Seq<char>) -> bool {
    vstd::utf8::encode_utf8(key).len() <= 0xFFFFFFFF
}

/// Hashes `key` with the default Argon2id parameters and a fresh random salt
/// (`SaltString::generate` with `OsRng`, then `Argon2::hash_password`).
///
/// Claimed: hashing fails only for a key longer than `MAX_PWD_LEN` bytes,
/// since the generated salt (16 random bytes in B64) and the default output
/// length and parameters always pass `hash_password`'s checks. A hash is the
/// PHC string that `PasswordHash`'s `Display` writes: `$argon2id`, `$v=19`,
/// `$m=19456,t=2,p=1`, then `$`, the salt and the hash. Checking the same key
/// against it (see `argon2_verify`) succeeds, as the crate's documented
/// hash-then-verify use shows, since the string carries the salt and
/// parameters that were used. The salt is random, so nothing more is said of
/// the value.
#[verifier::external_body]
fn argon2_hash(key: &str) -> (r: Result<String, String>)
    ensures
        hashable_key(key@) ==> r is Ok,
        r matches Ok(h) ==> text::is_prefix(default_phc_prefix(), h@),
        r matches Ok(h) ==> key_verifies(key@, h@),
{
    let salt = argon2::password_hash::SaltString::generate(
        &mut argon2::password_hash::rand_core::OsRng,
    );
    argon2::PasswordHasher::hash_password(&argon2::Argon2::default(), key.as_bytes(), &salt)
        .map(|h| h.to_string())
        .map_err(|e| e.to_string())
}

/// Whether a text can begin a PHC string: it starts with `$`.
pub open spec fn starts_like_phc(s: Seq<char>) -> bool {
    s.len() > 0 && s[0] == '$'
}

/// The message of `password_hash::Error::PhcStringField`.
pub open spec fn phc_missing_field_text() -> Seq<char> {
    "password hash string missing field"@
}

/// Whether a verification outcome is the `PhcStringField` parse error.
pub open spec fn missing_field_error(r: Result<bool, String>) -> bool {
    r matches Err(m) && m@ == phc_missing_field_text()
}

/// Parses `phc` with `PasswordHash::new` and checks `key` against it with
/// `Argon2::verify_password` (which compares in constant time).
///
/// Claimed: the outcome depends on the two strings alone; a text that does
/// not start with `$` fails to parse, with `PhcStringField`'s message
/// (`PasswordHash::parse` rejects an empty text and one whose part before
/// the first `$` is not empty).
#[verifier::external_body]
fn argon2_verify(key: &str, phc: &str) -> (r: Result<bool, String>)
    ensures
        match (r, argon2_verification(key@, phc@)) {
            (Ok(b), Ok(c)) => b == c,
            (Err(m), Err(n)) => m@ == n,
            _ => false,
        },
        !starts_like_phc(phc@) ==> missing_field_error(r),
{
    match argon2::password_hash::PasswordHash::new(phc) {
        Ok(parsed) => Ok(
            argon2::PasswordVerifier::verify_password(
                &argon2::Argon2::default(),
                key.as_bytes(),
                &parsed,
            ).is_ok(),
        ),
        Err(e) => Err(e.to_string()),
    }
}

/// Whether a stored key is in PHC form, i.e. begins with `$argon2`.
pub open spec fn looks_hashed(s: Seq<char>) -> bool {
    text::is_prefix("$argon2"@, s)
}

/// How many of the stored keys are not in PHC form.
pub open spec fn plaintext_count(keys: Seq<Seq<char>>) -> nat
    decreases keys.len(),
{
    if keys.len() == 0 {
        0
    } else {
        plaintext_count(keys.drop_last()) + if looks_hashed(keys.last()) {
            0nat
        } else {
            1nat
        }
    }
}

/// Secure API key hasher using Argon2id.
#[derive(Debug, Clone)]
pub struct ApiKeyHasher {}

impl Default for ApiKeyHasher {
    fn default() -> (h: Self) {
        ApiKeyHasher {  }
    }
}

impl ApiKeyHasher {
    /// A hasher with the default Argon2id parameters.
    pub fn new() -> (h: Self) {
        ApiKeyHasher {  }
    }

    /// Hashes an API key into a PHC string with a fresh salt: it succeeds for
    /// every key of at most `0xFFFFFFFF` bytes, the string starts with
    /// `$argon2id$v=19$m=19456,t=2,p=1$`, and verifying the same key against
    /// it then succeeds (see `verify`).
    pub fn hash(&self, api_key: &str) -> (r: Result<String, ApiKeyHashError>)
        ensures
            hashable_key(api_key@) ==> r is Ok,
            r matches Ok(h) ==> text::is_prefix(default_phc_prefix(), h@),
            r matches Ok(h) ==> looks_hashed(h@),
            r matches Ok(h) ==> key_verifies(api_key@, h@),
            r matches Err(e) ==> e is HashingFailed,
    {
        match argon2_hash(api_key) {
            Ok(h) => {
                proof {
                    reveal_strlit("$argon2");
                    reveal_strlit("$argon2id$v=19$m=19456,t=2,p=1$");
                    assert("$argon2"@ =~= default_phc_prefix().subrange(0, 7));
                    assert(h@.subrange(0, 7) =~= h@.subrange(
                        0,
                        default_phc_prefix().len() as int,
                    ).subrange(0, 7));
                }
                Ok(h)
            },
            Err(m) => Err(ApiKeyHashError::HashingFailed(m)),
        }
    }

    /// Verifies an API key against a stored PHC hash.
    pub fn verify(&self, api_key: &str, hash: &str) -> (r: Result<bool, ApiKeyHashError>)
        ensures
            match argon2_verification(api_key@, hash@) {
                Ok(b) => r == Ok::<bool, ApiKeyHashError>(b),
                Err(m) => r matches Err(ApiKeyHashError::InvalidHashFormat(e)) && e@ == m,
            },
            !starts_like_phc(hash@) ==> (r matches Err(ApiKeyHashError::InvalidHashFormat(e))
                && e@ == phc_missing_field_text()),
    {
        match argon2_verify(api_key, hash) {
            Ok(b) => Ok(b),
            Err(m) => Err(ApiKeyHashError::InvalidHashFormat(m)),
        }
    }

    /// Whether a string looks like a hashed key (PHC format, `$argon2...`).
    pub fn is_hashed(value: &str) -> (r: bool)
        ensures
            r == looks_hashed(value@),
    {
        text::starts_with(value, "$argon2")
    }

    /// Number of keys that are not hashed.
    pub fn detect_plaintext_keys(api_keys: &[&str]) -> (n: usize)
        ensures
            n == plaintext_count(api_keys@.map_values(|k: &str| k@)),
    {
        let ghost keys = api_keys@.map_values(|k: &str| k@);
        let mut count: usize = 0;
        let mut i: usize = 0;
        while i < api_keys.len()
            invariant
                i <= api_keys.len(),
                keys == api_keys@.map_values(|k: &str| k@),
                count == plaintext_count(keys.take(i as int)),
                count <= i,
            decreases api_keys.len() - i,
        {
            let hashed = Self::is_hashed(api_keys[i]);
            proof {
                assert(keys.take(i + 1).drop_last() =~= keys.take(i as int));
                assert(keys.take(i + 1).last() == api_keys@[i as int]@);
            }
            if !hashed {
                count = count + 1;
            }
            i = i + 1;
        }
        proof {
            assert(keys.take(i as int) =~= keys);
        }
        count
    }
}

/// A key checks out against its own hash: whatever `hash` gives for a key,
/// `verify` of that key against it answers `Ok(true)`.
pub proof fn lemma_hash_then_verify(key: Seq<char>, phc: Seq<char>, answer: Result<bool, ApiKeyHashError>)
    requires
        key_verifies(key, phc),
        match argon2_verification(key, phc) {
            Ok(b) => answer == Ok::<bool, ApiKeyHashError>(b),
            Err(m) => answer matches Err(ApiKeyHashError::InvalidHashFormat(e)) && e@ == m,
        },
    ensures
        answer == Ok::<bool, ApiKeyHashError>(true),
{
}

} // verus!
