//! Cryptographic primitives: X25519 key pairs and shared secrets,
//! AES-256-GCM authenticated encryption with a random nonce prepended to the
//! ciphertext, and device fingerprints derived from public keys.

use vstd::prelude::*;
use aes_gcm::aead::{Aead, KeyInit, OsRng};
use aes_gcm::{Aes256Gcm, Key, Nonce};
use rand::RngCore;
use sha2::{Digest, Sha256};
use x25519_dalek::{EphemeralSecret, PublicKey, StaticSecret};
use crate::error::StarkLinkError;
use crate::text::{chars_of, concat2, hex_encode, hex_of, is_hex_char, string_of};

verus! {

/// Length of an AES-256-GCM nonce in bytes.
pub const NONCE_LEN: usize = 12;

/// Largest plaintext, in bytes, that AES-GCM encrypts.
pub const AES_GCM_MAX_PLAINTEXT: u64 = 68_719_476_736;

/// The SHA-256 digest of a byte sequence.
pub uninterp spec fn sha256_of(data: Seq<u8>) -> Seq<u8>;

/// The X25519 public key of a 32-byte secret.
pub uninterp spec fn x25519_public_of(secret: Seq<u8>) -> Seq<u8>;

/// The X25519 shared secret of a 32-byte secret and a peer's public key.
pub uninterp spec fn x25519_shared_of(secret: Seq<u8>, peer_public: Seq<u8>) -> Seq<u8>;

/// The AES-256-GCM ciphertext (with its 16-byte tag appended) of a plaintext
/// under a key and a nonce, with no associated data.
pub uninterp spec fn aes_gcm_sealed(key: Seq<u8>, nonce: Seq<u8>, plaintext: Seq<u8>) -> Seq<u8>;

/// The AES-256-GCM decryption of a ciphertext under a key and a nonce, with
/// no associated data: `None` where authentication fails.
pub uninterp spec fn aes_gcm_opened(key: Seq<u8>, nonce: Seq<u8>, ciphertext: Seq<u8>) -> Option<
    Seq<u8>,
>;

/// The SHA-256 digest of `data` (`sha2::Sha256`), 32 bytes long.
#[verifier::external_body]
pub(crate) fn sha256(data: &[u8]) -> (r: [u8; 32])
    ensures
        r@ == sha256_of(data@),
{
    let mut hasher = Sha256::new();
    hasher.update(data);
    hasher.finalize().into()
}

/// A random 32-byte X25519 secret (`StaticSecret::random_from_rng(OsRng)`).
/// Nothing is known of its value.
#[verifier::external_body]
fn random_secret() -> (r: [u8; 32]) {
    StaticSecret::random_from_rng(OsRng).to_bytes()
}

/// The public key of a secret (`PublicKey::from(&StaticSecret::from(..))`).
#[verifier::external_body]
fn x25519_public(secret: &[u8; 32]) -> (r: [u8; 32])
    ensures
        r@ == x25519_public_of(secret@),
{
    PublicKey::from(&StaticSecret::from(*secret)).to_bytes()
}

/// `StaticSecret::diffie_hellman`: the shared secret of our secret and a
/// peer's public key.  As the crate documents (RFC 7748), when the peer's
/// public key is the public key of a secret `t`, the result is what `t`'s
/// holder computes from our public key.
#[verifier::external_body]
fn x25519_shared(secret: &[u8; 32], peer_public: &[u8; 32]) -> (r: [u8; 32])
    ensures
        r@ == x25519_shared_of(secret@, peer_public@),
        forall|t: Seq<u8>|
            t.len() == 32 && peer_public@ == #[trigger] x25519_public_of(t) ==> r@
                == x25519_shared_of(t, x25519_public_of(secret@)),
{
    StaticSecret::from(*secret).diffie_hellman(&PublicKey::from(*peer_public)).to_bytes()
}

/// A random nonce (`OsRng::fill_bytes`).  Nothing is known of its value.
#[verifier::external_body]
pub fn generate_nonce() -> (r: [u8; 12]) {
    let mut nonce = [0u8; 12];
    OsRng.fill_bytes(&mut nonce);
    nonce
}

/// `Aes256Gcm::encrypt` with no associated data.  It fails exactly when the
/// plaintext is longer than 2^36 bytes, with the error text `aead::Error`;
/// otherwise the ciphertext is the plaintext's length followed by the
/// 16-byte tag, and decrypts, under the same key and nonce, to the
/// plaintext (the AEAD correctness the crate documents).
#[verifier::external_body]
fn aes_gcm_seal(key: &[u8; 32], nonce: &[u8], plaintext: &[u8]) -> (r: Result<Vec<u8>, String>)
    requires
        nonce@.len() == 12,
    ensures
        (plaintext@.len() <= AES_GCM_MAX_PLAINTEXT) <==> r is Ok,
        r matches Ok(c) ==> c@.len() == plaintext@.len() + 16,
        r matches Ok(c) ==> c@ == aes_gcm_sealed(key@, nonce@, plaintext@) && aes_gcm_opened(
            key@,
            nonce@,
            c@,
        ) == Some(plaintext@),
        r matches Err(t) ==> t@ == "aead::Error"@,
{
    let cipher = Aes256Gcm::new(Key::<Aes256Gcm>::from_slice(key));
    match cipher.encrypt(Nonce::from_slice(nonce), plaintext) {
        Ok(c) => Ok(c),
        Err(e) => Err(e.to_string()),
    }
}

/// `Aes256Gcm::decrypt` with no associated data; the error text is
/// `aead::Error`.
#[verifier::external_body]
fn aes_gcm_open(key: &[u8; 32], nonce: &[u8], ciphertext: &[u8]) -> (r: Result<Vec<u8>, String>)
    requires
        nonce@.len() == 12,
    ensures
        r matches Ok(p) ==> aes_gcm_opened(key@, nonce@, ciphertext@) == Some(p@),
        r is Err ==> aes_gcm_opened(key@, nonce@, ciphertext@) is None,
        r matches Err(t) ==> t@ == "aead::Error"@,
{
    let cipher = Aes256Gcm::new(Key::<Aes256Gcm>::from_slice(key));
    match cipher.decrypt(Nonce::from_slice(nonce), ciphertext) {
        Ok(p) => Ok(p),
        Err(e) => Err(e.to_string()),
    }
}

/// Whether a key is the X25519 public key of some 32-byte secret.
pub open spec fn is_x25519_public(key: Seq<u8>) -> bool {
    exists|t: Seq<u8>| t.len() == 32 && key == #[trigger] x25519_public_of(t)
}

/// A single-use secret (`x25519_dalek::EphemeralSecret`), kept opaque.
#[verifier::external_type_specification]
#[verifier::external_body]
pub struct ExEphemeralSecret(EphemeralSecret);

/// `EphemeralSecret::random_from_rng(OsRng)` and its public key.  The secret
/// holds 32 random bytes, and `PublicKey::from(&EphemeralSecret)` computes the
/// same clamped base-point multiple as `PublicKey::from(&StaticSecret)` does
/// for those bytes, so the public key is the X25519 public key of a 32-byte
/// secret.  Which bytes were drawn is not known, and the opaque secret has no
/// view to tie them to.
#[verifier::external_body]
fn random_ephemeral() -> (keys: (EphemeralSecret, [u8; 32]))
    ensures
        is_x25519_public(keys.1@),
{
    let secret = EphemeralSecret::random_from_rng(OsRng);
    let public = PublicKey::from(&secret).to_bytes();
    (secret, public)
}

/// A long-lived X25519 key pair used for device identity and key exchange.
pub struct KeyPair {
    secret: [u8; 32],
    public: [u8; 32],
}

impl KeyPair {
    #[verifier::type_invariant]
    spec fn keys_match(self) -> bool {
        self.public@ == x25519_public_of(self.secret@)
    }

    /// The secret key's bytes (never leave this device).
    pub closed spec fn secret_bytes(self) -> Seq<u8> {
        self.secret@
    }

    /// The public key's bytes.
    pub closed spec fn public_bytes(self) -> Seq<u8> {
        self.public@
    }

    /// Generate a fresh random key pair: the public key is the one that
    /// belongs to the secret.
    pub fn generate() -> (r: Self)
        ensures
            r.secret_bytes().len() == 32,
            r.public_bytes() == x25519_public_of(r.secret_bytes()),
    {
        let secret = random_secret();
        let public = x25519_public(&secret);
        KeyPair { secret, public }
    }

    /// The public key bytes (32 bytes).
    pub fn public_key_bytes(&self) -> (r: [u8; 32])
        ensures
            r@ == self.public_bytes(),
            r@ == x25519_public_of(self.secret_bytes()),
    {
        proof {
            use_type_invariant(self);
        }
        self.public
    }

    /// The public key.
    pub fn public_key(&self) -> (r: &[u8; 32])
        ensures
            r@ == self.public_bytes(),
            r@ == x25519_public_of(self.secret_bytes()),
    {
        proof {
            use_type_invariant(self);
        }
        &self.public
    }

    /// ECDH with a peer's public key.
    pub fn diffie_hellman(&self, peer_public: &[u8; 32]) -> (r: [u8; 32])
        ensures
            r@ == x25519_shared_of(self.secret_bytes(), peer_public@),
    {
        x25519_shared(&self.secret, peer_public)
    }

    /// The 32-byte AES key for a peer: the SHA-256 digest of the ECDH shared
    /// secret.  When the peer's public key belongs to a secret `t`, the peer
    /// derives the same key from our public key.
    pub fn derive_aes_key(&self, peer_public: &[u8; 32]) -> (r: [u8; 32])
        ensures
            r@ == sha256_of(x25519_shared_of(self.secret_bytes(), peer_public@)),
            forall|t: Seq<u8>|
                t.len() == 32 && peer_public@ == #[trigger] x25519_public_of(t) ==> r@
                    == sha256_of(x25519_shared_of(t, self.public_bytes())),
    {
        proof {
            use_type_invariant(self);
        }
        let shared = x25519_shared(&self.secret, peer_public);
        sha256(&shared)
    }

    /// The fingerprint of the public key: 19 characters, lowercase hex
    /// digits with `-` at positions 4, 9 and 14.
    pub fn fingerprint(&self) -> (r: String)
        ensures
            r@ == fingerprint_text(self.public_bytes()),
            r@.len() == 19,
            forall|i: int| 0 <= i < 19 ==> (#[trigger] r@[i] == '-' <==> (i == 4 || i == 9 || i == 14)),
            forall|i: int|
                0 <= i < 19 && i != 4 && i != 9 && i != 14 ==> is_hex_char(#[trigger] r@[i]),
    {
        fingerprint_of(&self.public)
    }
}

/// Generate an ephemeral key pair for a single key exchange: the secret
/// and its public key, which is the X25519 public key of the secret's 32
/// random bytes.
pub fn ephemeral_keypair() -> (r: (EphemeralSecret, [u8; 32]))
    ensures
        is_x25519_public(r.1@),
{
    random_ephemeral()
}

/// The fingerprint of a public key: the first 16 lowercase hex characters of
/// its SHA-256 digest, in groups of four joined by `-`.
pub open spec fn fingerprint_text(public_key: Seq<u8>) -> Seq<char> {
    let h = hex_of(sha256_of(public_key).subrange(0, 8));
    h.subrange(0, 4) + seq!['-'] + h.subrange(4, 8) + seq!['-'] + h.subrange(8, 12) + seq!['-']
        + h.subrange(12, 16)
}

spec fn fingerprint_char(hs: Seq<char>, j: int) -> char {
    if j == 4 || j == 9 || j == 14 {
        '-'
    } else {
        hs[j - j / 5]
    }
}

/// Compute the device fingerprint from raw public-key bytes.  It is 19
/// characters long: lowercase hex digits with `-` at positions 4, 9 and 14.
pub fn fingerprint_of(public_key_bytes: &[u8; 32]) -> (r: String)
    ensures
        r@ == fingerprint_text(public_key_bytes@),
        r@.len() == 19,
        forall|i: int| 0 <= i < 19 ==> (#[trigger] r@[i] == '-' <==> (i == 4 || i == 9 || i == 14)),
        forall|i: int|
            0 <= i < 19 && i != 4 && i != 9 && i != 14 ==> is_hex_char(#[trigger] r@[i]),
{
    let hash = sha256(public_key_bytes);
    let mut head: Vec<u8> = Vec::new();
    let mut i: usize = 0;
    while i < 8
        invariant
            i <= 8,
            hash@.len() == 32,
            head@ =~= hash@.subrange(0, i as int),
        decreases 8 - i,
    {
        head.push(hash[i]);
        i = i + 1;
    }
    let hex = hex_encode(head.as_slice());
    let h = chars_of(hex.as_str());
    let ghost hs = hex_of(sha256_of(public_key_bytes@).subrange(0, 8));
    assert(h@ == hs);
    let mut out: Vec<char> = Vec::new();
    let mut k: usize = 0;
    while k < 19
        invariant
            k <= 19,
            h@ == hs,
            hs.len() == 16,
            out@ =~= Seq::new(k as nat, |j: int| fingerprint_char(hs, j)),
        decreases 19 - k,
    {
        if k == 4 || k == 9 || k == 14 {
            out.push('-');
        } else {
            out.push(h[k - k / 5]);
        }
        k = k + 1;
    }
    assert(fingerprint_text(public_key_bytes@) =~= Seq::new(19, |j: int| fingerprint_char(hs, j)));
    assert forall|i: int| 0 <= i < 16 implies is_hex_char(#[trigger] hs[i]) by {
        let b = sha256_of(public_key_bytes@).subrange(0, 8)[i / 2];
        assert(0 <= b / 16 < 16 && 0 <= b % 16 < 16);
    }
    string_of(out.as_slice())
}

/// What [`decrypt`] recovers from `nonce || ciphertext` under a key: nothing
/// when the data is shorter than a nonce or fails authentication.
pub open spec fn decrypt_outcome(key: Seq<u8>, data: Seq<u8>) -> Option<Seq<u8>> {
    if data.len() < NONCE_LEN {
        None
    } else {
        aes_gcm_opened(key, data.subrange(0, NONCE_LEN as int), data.subrange(NONCE_LEN as int, data.len() as int))
    }
}

/// Encrypt `plaintext` with AES-256-GCM under a fresh random nonce.
///
/// Returns `nonce || ciphertext || tag` (12, the plaintext's length, and 16
/// bytes).  It fails, with a `Crypto` error, exactly
/// when the plaintext is longer than AES-GCM allows.  Whatever nonce was
/// drawn, the output decrypts under the same key to the plaintext.
pub fn encrypt(key: &[u8; 32], plaintext: &[u8]) -> (r: Result<Vec<u8>, StarkLinkError>)
    ensures
        r is Ok <==> plaintext@.len() <= AES_GCM_MAX_PLAINTEXT,
        r matches Ok(out) ==> {
            &&& out@.len() == NONCE_LEN + plaintext@.len() + 16
            &&& out@.subrange(NONCE_LEN as int, out@.len() as int) == aes_gcm_sealed(
                key@,
                out@.subrange(0, NONCE_LEN as int),
                plaintext@,
            )
            &&& decrypt_outcome(key@, out@) == Some(plaintext@)
        },
        r matches Err(e) ==> e matches StarkLinkError::Crypto(m) && m@ == "encryption failed: "@
            + "aead::Error"@,
{
    let nonce = generate_nonce();
    match aes_gcm_seal(key, &nonce, plaintext) {
        Ok(ciphertext) => {
            let mut output: Vec<u8> = Vec::new();
            output.extend_from_slice(&nonce);
            output.extend_from_slice(ciphertext.as_slice());
            assert(output@.subrange(0, 12) =~= nonce@);
            assert(output@.subrange(12, output@.len() as int) =~= ciphertext@);
            Ok(output)
        },
        Err(text) => Err(StarkLinkError::Crypto(concat2("encryption failed: ", text.as_str()))),
    }
}

/// Decrypt `nonce || ciphertext` as produced by [`encrypt`].
pub fn decrypt(key: &[u8; 32], data: &[u8]) -> (r: Result<Vec<u8>, StarkLinkError>)
    ensures
        r matches Ok(p) ==> decrypt_outcome(key@, data@) == Some(p@),
        r is Err ==> decrypt_outcome(key@, data@) is None,
        r matches Err(e) ==> e matches StarkLinkError::Crypto(m) && m@ == (if data@.len() < NONCE_LEN {
            "ciphertext too short to contain a nonce"@
        } else {
            "decryption failed: "@ + "aead::Error"@
        }),
{
    if data.len() < NONCE_LEN {
        return Err(StarkLinkError::Crypto(crate::text::own("ciphertext too short to contain a nonce")));
    }
    let (nonce, ciphertext) = data.split_at(NONCE_LEN);
    match aes_gcm_open(key, nonce, ciphertext) {
        Ok(p) => Ok(p),
        Err(text) => Err(StarkLinkError::Crypto(concat2("decryption failed: ", text.as_str()))),
    }
}

} // verus!
