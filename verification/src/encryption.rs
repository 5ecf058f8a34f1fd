//! Authenticated encryption of stored content with XChaCha20-Poly1305.
//!
//! A ciphertext is the 24-byte nonce followed by the sealed message (the
//! encrypted bytes and the 16-byte Poly1305 tag). Every encryption draws a
//! fresh random nonce.

use vstd::prelude::*;

use crate::error::ApplicationError;
use crate::text;

verus! {

/// Nonce size of XChaCha20-Poly1305 (192 bits).
pub const NONCE_SIZE: usize = 24;

/// Key size of XChaCha20-Poly1305 (256 bits).
pub const KEY_SIZE: usize = 32;

/// Size of the Poly1305 authentication tag.
pub const TAG_SIZE: usize = 16;

/// What sealing `plaintext` under `key` and `nonce` gives (no associated data),
/// or `None` when the cipher refuses.
pub uninterp spec fn xchacha_seal(key: Seq<u8>, nonce: Seq<u8>, plaintext: Seq<u8>) -> Option<Seq<u8>>;

/// What opening `ciphertext` under `key` and `nonce` gives (no associated
/// data), or `None` when the tag does not verify.
pub uninterp spec fn xchacha_open(key: Seq<u8>, nonce: Seq<u8>, ciphertext: Seq<u8>) -> Option<Seq<u8>>;

/// The view of an optional byte vector.
pub open spec fn bytes_view(o: Option<Vec<u8>>) -> Option<Seq<u8>> {
    match o {
        Some(v) => Some(v@),
        None => None,
    }
}

/// Seals `plaintext` with `XChaCha20Poly1305::new_from_slice(key)` and
/// `Aead::encrypt` under `nonce`.
///
/// Claimed, as the crate's source shows: the result depends on the key, the
/// nonce and the plaintext alone; a plaintext of fewer than 2^32 - 1 blocks of
/// 64 bytes is always sealed; the sealed message is the plaintext's length
/// plus the 16-byte tag. (A 32-byte key is always accepted.)
#[verifier::external_body]
fn xchacha_encrypt(key: &[u8], nonce: &[u8], plaintext: &[u8]) -> (r: Option<Vec<u8>>)
    requires
        key@.len() == KEY_SIZE,
        nonce@.len() == NONCE_SIZE,
    ensures
        bytes_view(r) == xchacha_seal(key@, nonce@, plaintext@),
        plaintext@.len() / 64 < u32::MAX ==> r is Some,
        r matches Some(c) ==> c@.len() == plaintext@.len() + TAG_SIZE,
{
    let made: Result<chacha20poly1305::XChaCha20Poly1305, _> =
        chacha20poly1305::KeyInit::new_from_slice(key);
    match made {
        Ok(cipher) => chacha20poly1305::aead::Aead::encrypt(
            &cipher,
            chacha20poly1305::XNonce::from_slice(nonce),
            plaintext,
        ).ok(),
        Err(_) => None,
    }
}

/// Opens `ciphertext` with `XChaCha20Poly1305::new_from_slice(key)` and
/// `Aead::decrypt` under `nonce`.
///
/// Claimed: the result depends on the key, the nonce and the ciphertext
/// alone, and opening what sealing a plaintext under the same key and nonce
/// gave yields that plaintext (the AEAD's correctness).
#[verifier::external_body]
fn xchacha_decrypt(key: &[u8], nonce: &[u8], ciphertext: &[u8]) -> (r: Option<Vec<u8>>)
    requires
        key@.len() == KEY_SIZE,
        nonce@.len() == NONCE_SIZE,
    ensures
        bytes_view(r) == xchacha_open(key@, nonce@, ciphertext@),
        forall|p: Seq<u8>|
            #[trigger] xchacha_seal(key@, nonce@, p) == Some(ciphertext@) ==> bytes_view(r) == Some(
                p,
            ),
{
    let made: Result<chacha20poly1305::XChaCha20Poly1305, _> =
        chacha20poly1305::KeyInit::new_from_slice(key);
    match made {
        Ok(cipher) => chacha20poly1305::aead::Aead::decrypt(
            &cipher,
            chacha20poly1305::XNonce::from_slice(nonce),
            ciphertext,
        ).ok(),
        Err(_) => None,
    }
}

/// 24 random bytes from the operating system (`OsRng::fill_bytes`).
///
/// Nothing is claimed of the bytes.
#[verifier::external_body]
fn random_nonce() -> (n: [u8; 24]) {
    let mut nonce = [0u8; 24];
    chacha20poly1305::aead::rand_core::RngCore::fill_bytes(
        &mut chacha20poly1305::aead::OsRng,
        &mut nonce,
    );
    nonce
}

/// 32 random bytes from the operating system (`OsRng::fill_bytes`).
///
/// Nothing is claimed of the bytes.
#[verifier::external_body]
fn random_key() -> (k: [u8; 32]) {
    let mut key = [0u8; 32];
    chacha20poly1305::aead::rand_core::RngCore::fill_bytes(&mut chacha20poly1305::aead::OsRng, &mut key);
    key
}

/// The message for a key of the wrong length.
pub open spec fn key_length_text(len: nat) -> Seq<char> {
    "Encryption key must be 32 bytes, got "@ + text::decimal(len)
}

/// The message when sealing fails.
pub open spec fn encryption_failed_text() -> Seq<char> {
    "Encryption failed: aead::Error"@
}

/// The message when opening fails.
pub open spec fn decryption_failed_text() -> Seq<char> {
    "Decryption failed: aead::Error"@
}

/// The message for a ciphertext shorter than a nonce.
pub open spec fn too_short_text() -> Seq<char> {
    "Ciphertext too short - missing nonce"@
}

/// What encrypting `plaintext` under `key` with the nonce `nonce` gives.
pub open spec fn sealed_with(key: Seq<u8>, nonce: Seq<u8>, plaintext: Seq<u8>) -> Result<
    Seq<u8>,
    Seq<char>,
> {
    match xchacha_seal(key, nonce, plaintext) {
        Some(c) => Ok(nonce + c),
        None => Err(encryption_failed_text()),
    }
}

/// What decrypting `ciphertext` under `key` gives.
pub open spec fn opened(key: Seq<u8>, ciphertext: Seq<u8>) -> Result<Seq<u8>, Seq<char>> {
    if ciphertext.len() < NONCE_SIZE {
        Err(too_short_text())
    } else {
        match xchacha_open(
            key,
            ciphertext.take(NONCE_SIZE as int),
            ciphertext.skip(NONCE_SIZE as int),
        ) {
            Some(p) => Ok(p),
            None => Err(decryption_failed_text()),
        }
    }
}

/// An outcome as bytes or the message of an internal error.
pub open spec fn outcome_view(r: Result<Vec<u8>, ApplicationError>) -> Result<Seq<u8>, Seq<char>> {
    match r {
        Ok(v) => Ok(v@),
        Err(ApplicationError::Internal(m)) => Err(m@),
        Err(_) => Err(Seq::empty()),
    }
}

/// Encryption of stored content with a fixed 256-bit key.
pub struct ChaChaEncryptionAdapter {
    key: Vec<u8>,
}

impl ChaChaEncryptionAdapter {
    #[verifier::type_invariant]
    spec fn key_is_full(self) -> bool {
        self.key@.len() == KEY_SIZE
    }

    /// The key.
    pub closed spec fn spec_key(self) -> Seq<u8> {
        self.key@
    }

    /// An adapter for `key`, which must be exactly 32 bytes.
    pub fn new(key: &[u8]) -> (r: Result<Self, ApplicationError>)
        ensures
            key@.len() == KEY_SIZE ==> (r matches Ok(a) && a.spec_key() == key@),
            key@.len() != KEY_SIZE ==> (r matches Err(ApplicationError::Configuration(m))
                && m@ == key_length_text(key@.len())),
    {
        if key.len() != KEY_SIZE {
            let m = text::owned("Encryption key must be 32 bytes, got ").concat(
                text::decimal_text(key.len() as u64).as_str(),
            );
            return Err(ApplicationError::Configuration(m));
        }
        let mut k: Vec<u8> = Vec::new();
        let mut i: usize = 0;
        while i < key.len()
            invariant
                i <= key@.len(),
                k@ == key@.take(i as int),
            decreases key@.len() - i,
        {
            k.push(key[i]);
            proof {
                assert(key@.take(i + 1) =~= key@.take(i as int).push(key@[i as int]));
            }
            i = i + 1;
        }
        proof {
            assert(key@.take(i as int) =~= key@);
        }
        Ok(ChaChaEncryptionAdapter { key: k })
    }

    /// Encryption is always on for this adapter.
    pub fn is_enabled(&self) -> (r: bool)
        ensures
            r,
    {
        true
    }

    /// A new random key.
    pub fn generate_key() -> (k: [u8; 32]) {
        random_key()
    }

    /// Encrypts `plaintext` under the nonce `nonce`: the nonce followed by the
    /// sealed message, 24 + plaintext length + 16 bytes in all.
    pub fn encrypt_with_nonce(&self, nonce: &[u8; 24], plaintext: &[u8]) -> (r: Result<
        Vec<u8>,
        ApplicationError,
    >)
        ensures
            outcome_view(r) == sealed_with(self.spec_key(), nonce@, plaintext@),
            r is Err ==> r matches Err(ApplicationError::Internal(_)),
            plaintext@.len() / 64 < u32::MAX ==> r is Ok,
            r matches Ok(c) ==> c@.len() == NONCE_SIZE + plaintext@.len() + TAG_SIZE,
            r matches Ok(c) ==> c@.take(NONCE_SIZE as int) == nonce@,
    {
        proof {
            use_type_invariant(self);
        }
        match xchacha_encrypt(self.key.as_slice(), vstd::array::array_as_slice(nonce), plaintext) {
            Some(sealed) => {
                let mut out: Vec<u8> = Vec::new();
                let mut i: usize = 0;
                while i < NONCE_SIZE
                    invariant
                        i <= NONCE_SIZE,
                        nonce@.len() == NONCE_SIZE,
                        out@ == nonce@.take(i as int),
                    decreases NONCE_SIZE - i,
                {
                    out.push(nonce[i]);
                    proof {
                        assert(nonce@.take(i + 1) =~= nonce@.take(i as int).push(nonce@[i as int]));
                    }
                    i = i + 1;
                }
                let mut j: usize = 0;
                while j < sealed.len()
                    invariant
                        j <= sealed@.len(),
                        out@ == nonce@ + sealed@.take(j as int),
                    decreases sealed@.len() - j,
                {
                    proof {
                        assert(nonce@.take(NONCE_SIZE as int) =~= nonce@);
                    }
                    out.push(sealed[j]);
                    proof {
                        assert(sealed@.take(j + 1) =~= sealed@.take(j as int).push(sealed@[j as int]));
                        assert(nonce@ + sealed@.take(j + 1) =~= (nonce@ + sealed@.take(j as int)).push(
                            sealed@[j as int],
                        ));
                    }
                    j = j + 1;
                }
                proof {
                    assert(sealed@.take(j as int) =~= sealed@);
                    assert(out@.take(NONCE_SIZE as int) =~= nonce@);
                }
                Ok(out)
            },
            None => {
                proof {
                    reveal_strlit("Encryption failed: aead::Error");
                }
                Err(ApplicationError::Internal(text::owned("Encryption failed: aead::Error")))
            },
        }
    }

    /// Encrypts `plaintext` under a fresh random nonce: the nonce followed by
    /// the sealed message, 24 + plaintext length + 16 bytes in all.
    pub fn encrypt(&self, plaintext: &[u8]) -> (r: Result<Vec<u8>, ApplicationError>)
        ensures
            exists|nonce: Seq<u8>|
                nonce.len() == NONCE_SIZE && outcome_view(r) == #[trigger] sealed_with(
                    self.spec_key(),
                    nonce,
                    plaintext@,
                ),
            r is Err ==> r matches Err(ApplicationError::Internal(_)),
            plaintext@.len() / 64 < u32::MAX ==> r is Ok,
            r matches Ok(c) ==> c@.len() == NONCE_SIZE + plaintext@.len() + TAG_SIZE,
    {
        let nonce = random_nonce();
        self.encrypt_with_nonce(&nonce, plaintext)
    }

    /// Decrypts a ciphertext made by `encrypt`: splits off the nonce and opens
    /// the rest.
    pub fn decrypt(&self, ciphertext: &[u8]) -> (r: Result<Vec<u8>, ApplicationError>)
        ensures
            outcome_view(r) == opened(self.spec_key(), ciphertext@),
            r is Err ==> r matches Err(ApplicationError::Internal(_)),
            forall|nonce: Seq<u8>, p: Seq<u8>|
                nonce.len() == NONCE_SIZE && #[trigger] sealed_with(self.spec_key(), nonce, p) == Ok::<
                    Seq<u8>,
                    Seq<char>,
                >(ciphertext@) ==> outcome_view(r) == Ok::<Seq<u8>, Seq<char>>(p),
    {
        proof {
            use_type_invariant(self);
        }
        if ciphertext.len() < NONCE_SIZE {
            proof {
                assert forall|nonce: Seq<u8>, p: Seq<u8>|
                    nonce.len() == NONCE_SIZE && #[trigger] sealed_with(self.spec_key(), nonce, p)
                        == Ok::<Seq<u8>, Seq<char>>(ciphertext@) implies false by {
                    let c = xchacha_seal(self.spec_key(), nonce, p)->Some_0;
                    assert((nonce + c).len() >= NONCE_SIZE);
                }
            }
            return Err(ApplicationError::Internal(text::owned("Ciphertext too short - missing nonce")));
        }
        let mut nonce: Vec<u8> = Vec::new();
        let mut body: Vec<u8> = Vec::new();
        let mut i: usize = 0;
        while i < ciphertext.len()
            invariant
                NONCE_SIZE <= ciphertext@.len(),
                i <= ciphertext@.len(),
                i <= NONCE_SIZE ==> nonce@ == ciphertext@.take(i as int) && body@.len() == 0,
                i > NONCE_SIZE ==> nonce@ == ciphertext@.take(NONCE_SIZE as int) && body@
                    == ciphertext@.subrange(NONCE_SIZE as int, i as int),
            decreases ciphertext@.len() - i,
        {
            if i < NONCE_SIZE {
                nonce.push(ciphertext[i]);
                proof {
                    assert(ciphertext@.take(i + 1) =~= ciphertext@.take(i as int).push(
                        ciphertext@[i as int],
                    ));
                }
            } else {
                body.push(ciphertext[i]);
                proof {
                    assert(ciphertext@.subrange(NONCE_SIZE as int, i + 1) =~= ciphertext@.subrange(
                        NONCE_SIZE as int,
                        i as int,
                    ).push(ciphertext@[i as int]));
                }
            }
            i = i + 1;
        }
        proof {
            assert(body@ =~= ciphertext@.skip(NONCE_SIZE as int));
            assert(nonce@ =~= ciphertext@.take(NONCE_SIZE as int));
        }
        let opened_bytes = xchacha_decrypt(self.key.as_slice(), nonce.as_slice(), body.as_slice());
        proof {
            assert forall|n: Seq<u8>, p: Seq<u8>|
                n.len() == NONCE_SIZE && #[trigger] sealed_with(self.spec_key(), n, p) == Ok::<
                    Seq<u8>,
                    Seq<char>,
                >(ciphertext@) implies bytes_view(opened_bytes) == Some(p) by {
                let c = xchacha_seal(self.spec_key(), n, p)->Some_0;
                assert(n + c == ciphertext@);
                assert(ciphertext@.take(NONCE_SIZE as int) =~= n);
                assert(ciphertext@.skip(NONCE_SIZE as int) =~= c);
                assert(xchacha_seal(self.spec_key(), nonce@, p) == Some(body@));
            }
        }
        match opened_bytes {
            Some(p) => Ok(p),
            None => Err(ApplicationError::Internal(text::owned("Decryption failed: aead::Error"))),
        }
    }
}

} // verus!
