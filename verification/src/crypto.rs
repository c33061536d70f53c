//! End-to-end encryption: ECDH (P-256) key agreement, HKDF-SHA256 key
//! derivation and AES-256-GCM chunk encryption.
//!
//! Encrypted chunks are laid out as `[12-byte nonce][ciphertext + 16-byte tag]`.
//! Nonces are 4 zero bytes followed by a big-endian 64-bit counter that
//! advances with every encryption.
use aes_gcm::aead::{Aead, KeyInit};
use base64::Engine;
use p256::elliptic_curve::sec1::ToEncodedPoint;
use vstd::prelude::*;
use vstd::string::StringSliceAdditionalSpecFns;

verus! {

/// Errors of key agreement and chunk encryption.
#[derive(Debug, Clone, PartialEq, Eq)]
pub enum CryptoError {
    /// The key pair's secret was already used.
    SecretConsumed,
    /// The peer's public key is not a valid SEC1-encoded P-256 point.
    InvalidPeerKey,
    /// HKDF expansion failed.
    KeyDerivationFailed,
    /// AES-GCM refused to encrypt (plaintext too long).
    EncryptionFailed,
    /// The chunk is shorter than a nonce and a tag (its length is given).
    DataTooShort(usize),
    /// Authentication of the chunk failed.
    DecryptionFailed,
    /// The text is not unpadded URL-safe base64.
    InvalidBase64,
}

// ─── Outside functions ──────────────────────────────────────────────────────

/// AES-256-GCM encryption (no associated data) of `pt` under `key` and
/// `nonce`: ciphertext followed by the 16-byte tag.
pub uninterp spec fn aes_gcm_seal(key: Seq<u8>, nonce: Seq<u8>, pt: Seq<u8>) -> Seq<u8>;

/// AES-256-GCM decryption (no associated data): the plaintext when the tag
/// authenticates, else `None`.
pub uninterp spec fn aes_gcm_open(key: Seq<u8>, nonce: Seq<u8>, ct: Seq<u8>) -> Option<Seq<u8>>;

/// HKDF-SHA256 without salt: 32 bytes of output keying material for `ikm`
/// and `info`.
pub uninterp spec fn hkdf_sha256_32(ikm: Seq<u8>, info: Seq<u8>) -> Seq<u8>;

/// `bytes` is a SEC1 encoding of a point of the P-256 curve.
pub uninterp spec fn p256_point_valid(bytes: Seq<u8>) -> bool;

/// The uncompressed SEC1 encoding of the public key of a P-256 secret.
pub uninterp spec fn p256_public_encoding(s: P256Secret) -> Seq<u8>;

/// The P-256 public key that a SEC1 encoding denotes.
pub uninterp spec fn p256_key_from(bytes: Seq<u8>) -> P256PublicKey;

/// The x-coordinate of the ECDH shared point of the parties whose public
/// keys are encoded by `own` and `their`: the product of the two secret
/// scalars times the generator, which either party computes from its own
/// secret and the other's public key.
pub uninterp spec fn p256_shared_x(own: Seq<u8>, their: Seq<u8>) -> Seq<u8>;

/// Unpadded URL-safe base64 text of `bytes`.
pub uninterp spec fn base64_url(bytes: Seq<u8>) -> Seq<char>;

/// The bytes that unpadded URL-safe base64 text denotes, if it is valid.
pub uninterp spec fn base64_url_decode(text: Seq<char>) -> Option<Seq<u8>>;

/// Largest plaintext, in bytes, that AES-GCM accepts (2^36).
pub open spec fn aes_gcm_max_plaintext() -> nat {
    0x10_0000_0000
}

/// `Aes256Gcm::encrypt` with an empty associated data. The `aes-gcm`
/// source refuses only plaintexts longer than 2^36 bytes; the result is the
/// ciphertext plus a 16-byte tag, and decrypting it with the same key and
/// nonce gives the plaintext back.
#[verifier::external_body]
fn aes_encrypt(key: &[u8; 32], nonce: &[u8; 12], pt: &[u8]) -> (r: Option<Vec<u8>>)
    ensures
        r is Some <==> pt@.len() <= aes_gcm_max_plaintext(),
        r matches Some(c) ==> {
            &&& c@ == aes_gcm_seal(key@, nonce@, pt@)
            &&& c@.len() == pt@.len() + 16
            &&& aes_gcm_open(key@, nonce@, c@) == Some(pt@)
        },
{
    let cipher = aes_gcm::Aes256Gcm::new(key.into());
    cipher.encrypt(aes_gcm::Nonce::from_slice(nonce), pt).ok()
}

/// `Aes256Gcm::decrypt` with an empty associated data; inputs shorter than
/// the 16-byte tag are refused.
#[verifier::external_body]
fn aes_decrypt(key: &[u8; 32], nonce: &[u8], ct: &[u8]) -> (r: Option<Vec<u8>>)
    requires
        nonce@.len() == 12,
    ensures
        match r {
            Some(p) => aes_gcm_open(key@, nonce@, ct@) == Some(p@),
            None => aes_gcm_open(key@, nonce@, ct@) is None,
        },
        ct@.len() < 16 ==> r is None,
{
    let cipher = aes_gcm::Aes256Gcm::new(key.into());
    cipher.decrypt(aes_gcm::Nonce::from_slice(nonce), ct).ok()
}

/// `Hkdf::<Sha256>::new(None, ikm)` then `expand(info, 32 bytes)`; the
/// `hkdf` source fails only for outputs longer than 255 hash lengths, so a
/// 32-byte output always succeeds.
#[verifier::external_body]
fn hkdf_expand_32(ikm: &[u8], info: &[u8]) -> (r: Option<[u8; 32]>)
    ensures
        r is Some,
        r matches Some(k) ==> k@ == hkdf_sha256_32(ikm@, info@),
{
    let hk = hkdf::Hkdf::<sha2::Sha256>::new(None, ikm);
    let mut okm = [0u8; 32];
    hk.expand(info, &mut okm).ok().map(|_| okm)
}

/// `base64::engine::general_purpose::URL_SAFE_NO_PAD.encode`; decoding the
/// text gives the bytes back.
#[verifier::external_body]
fn base64_url_encode(bytes: &[u8]) -> (r: String)
    ensures
        r@ == base64_url(bytes@),
        base64_url_decode(r@) == Some(bytes@),
{
    base64::engine::general_purpose::URL_SAFE_NO_PAD.encode(bytes)
}

/// `base64::engine::general_purpose::URL_SAFE_NO_PAD.decode`.
#[verifier::external_body]
fn base64_url_decode_str(text: &str) -> (r: Option<Vec<u8>>)
    ensures
        match r {
            Some(b) => base64_url_decode(text@) == Some(b@),
            None => base64_url_decode(text@) is None,
        },
{
    base64::engine::general_purpose::URL_SAFE_NO_PAD.decode(text).ok()
}

/// An ephemeral P-256 secret scalar (`p256::ecdh::EphemeralSecret`, held
/// opaquely: it is an alias of a generic `elliptic-curve` type).
#[verifier::external_body]
pub struct P256Secret {
    inner: p256::ecdh::EphemeralSecret,
}

/// A P-256 public key (`p256::PublicKey`, held opaquely for the same reason).
#[verifier::external_body]
pub struct P256PublicKey {
    inner: p256::PublicKey,
}

/// `EphemeralSecret::random` with the thread-local generator of `rand`.
/// The secret is random; nothing is claimed about it.
#[verifier::external_body]
fn random_secret() -> (r: P256Secret) {
    P256Secret { inner: p256::ecdh::EphemeralSecret::random(&mut rand::thread_rng()) }
}

/// `EphemeralSecret::public_key` in uncompressed SEC1 form
/// (`to_encoded_point(false)`): a `0x04` tag byte and two 32-byte
/// coordinates of a point on the curve, so a valid encoding of a public key.
#[verifier::external_body]
fn public_point_of(s: &P256Secret) -> (r: Vec<u8>)
    ensures
        r@ == p256_public_encoding(*s),
        p256_point_valid(r@),
        r@.len() == 65,
        r@[0] == 4u8,
{
    s.inner.public_key().to_encoded_point(false).as_bytes().to_vec()
}

/// `PublicKey::from_sec1_bytes`: succeeds exactly on valid encodings, and
/// the key depends on the bytes alone.
#[verifier::external_body]
fn parse_public_key(bytes: &[u8]) -> (r: Option<P256PublicKey>)
    ensures
        r is Some <==> p256_point_valid(bytes@),
        r matches Some(k) ==> k == p256_key_from(bytes@),
{
    p256::PublicKey::from_sec1_bytes(bytes).ok().map(|k| P256PublicKey { inner: k })
}

/// `EphemeralSecret::diffie_hellman` followed by `raw_secret_bytes`: the
/// 32-byte x-coordinate of the shared point, secret scalar times the peer's
/// point. For every valid encoding of the peer's key it is the shared
/// x-coordinate of the two public keys, the same value the peer computes
/// from its own secret and our public key (ECDH agreement).
#[verifier::external_body]
fn shared_secret(s: &P256Secret, peer: &P256PublicKey) -> (r: Vec<u8>)
    ensures
        r@.len() == 32,
        forall|b: Seq<u8>|
            p256_point_valid(b) && #[trigger] p256_key_from(b) == *peer ==> r@ == p256_shared_x(
                p256_public_encoding(*s),
                b,
            ) && r@ == p256_shared_x(b, p256_public_encoding(*s)),
{
    s.inner.diffie_hellman(&peer.inner).raw_secret_bytes().to_vec()
}

// ─── Key agreement ──────────────────────────────────────────────────────────

/// The HKDF `info` label of session keys.
pub const KDF_INFO: &'static str = "filedrop-e2e-v1";

/// An ephemeral ECDH P-256 key pair; the secret is consumed when the
/// session key is derived.
pub struct EphemeralKeyPair {
    secret: Option<P256Secret>,
    public_bytes: Vec<u8>,
}

/// The session key of a party whose public key is encoded by `own`, talking
/// to the party whose public key is encoded by `their`.
pub open spec fn session_key_for(own: Seq<u8>, their: Seq<u8>) -> Seq<u8> {
    hkdf_sha256_32(p256_shared_x(own, their), KDF_INFO.spec_bytes())
}

impl EphemeralKeyPair {
    /// The public bytes are those of the secret while it is held.
    #[verifier::type_invariant]
    spec fn pair_matches(&self) -> bool {
        self.secret matches Some(s) ==> self.public_bytes@ == p256_public_encoding(s)
    }

    /// The uncompressed SEC1 encoding of the public key.
    pub closed spec fn public_encoding(&self) -> Seq<u8> {
        self.public_bytes@
    }

    /// The secret has not been used yet.
    pub closed spec fn has_secret(&self) -> bool {
        self.secret is Some
    }

    /// Generates a new random key pair.
    pub fn generate() -> (r: EphemeralKeyPair)
        ensures
            r.has_secret(),
            p256_point_valid(r.public_encoding()),
            r.public_encoding().len() == 65,
            r.public_encoding()[0] == 4u8,
    {
        let secret = random_secret();
        let public_bytes = public_point_of(&secret);
        EphemeralKeyPair { secret: Some(secret), public_bytes }
    }

    /// The public key as SEC1-encoded uncompressed bytes.
    pub fn public_key_bytes(&self) -> (r: Vec<u8>)
        ensures
            r@ == self.public_encoding(),
    {
        self.public_bytes.clone()
    }

    /// The public key as unpadded URL-safe base64 (for embedding in URLs).
    pub fn public_key_base64(&self) -> (r: String)
        ensures
            r@ == base64_url(self.public_encoding()),
            base64_url_decode(r@) == Some(self.public_encoding()),
    {
        base64_url_encode(self.public_bytes.as_slice())
    }

    /// Consumes the key pair and derives a session key from the peer's
    /// SEC1-encoded public key: HKDF-SHA256 of the ECDH shared secret with
    /// the label [`KDF_INFO`]. The new key's nonce counter starts at zero.
    /// It is the key the peer derives from our public key: both sides of
    /// the exchange hold the same session key.
    pub fn derive_session_key(self, their_public_bytes: &[u8]) -> (r: Result<SessionKey, CryptoError>)
        ensures
            !self.has_secret() ==> r == Err::<SessionKey, CryptoError>(CryptoError::SecretConsumed),
            self.has_secret() ==> match r {
                Ok(k) => {
                    &&& p256_point_valid(their_public_bytes@)
                    &&& k.counter() == 0
                    &&& k.key_seq() == session_key_for(self.public_encoding(), their_public_bytes@)
                    &&& k.key_seq() == session_key_for(their_public_bytes@, self.public_encoding())
                },
                Err(e) => e == CryptoError::InvalidPeerKey && !p256_point_valid(
                    their_public_bytes@,
                ),
            },
    {
        proof {
            use_type_invariant(&self);
        }
        let ghost own = self.public_bytes@;
        let secret = match self.secret {
            Some(s) => s,
            None => {
                return Err(CryptoError::SecretConsumed);
            },
        };
        let their_public = match parse_public_key(their_public_bytes) {
            Some(k) => k,
            None => {
                return Err(CryptoError::InvalidPeerKey);
            },
        };
        let shared = shared_secret(&secret, &their_public);
        assert(shared@ == p256_shared_x(own, their_public_bytes@));
        assert(shared@ == p256_shared_x(their_public_bytes@, own));
        let info = KDF_INFO.as_bytes();
        match hkdf_expand_32(shared.as_slice(), info) {
            Some(key) => Ok(SessionKey { key, nonce_counter: 0 }),
            None => Err(CryptoError::KeyDerivationFailed),
        }
    }
}

/// Decodes an unpadded URL-safe base64 public key back to raw bytes.
pub fn public_key_from_base64(b64: &str) -> (r: Result<Vec<u8>, CryptoError>)
    ensures
        match r {
            Ok(b) => base64_url_decode(b64@) == Some(b@),
            Err(e) => e == CryptoError::InvalidBase64 && base64_url_decode(b64@) is None,
        },
{
    match base64_url_decode_str(b64) {
        Some(b) => Ok(b),
        None => Err(CryptoError::InvalidBase64),
    }
}

// ─── Session keys and chunks ────────────────────────────────────────────────

/// The 12-byte nonce of counter value `c`: four zero bytes, then `c` big-endian.
pub open spec fn nonce_seq(c: u64) -> Seq<u8> {
    seq![
        0u8,
        0u8,
        0u8,
        0u8,
        ((c >> 56u64) & 0xff) as u8,
        ((c >> 48u64) & 0xff) as u8,
        ((c >> 40u64) & 0xff) as u8,
        ((c >> 32u64) & 0xff) as u8,
        ((c >> 24u64) & 0xff) as u8,
        ((c >> 16u64) & 0xff) as u8,
        ((c >> 8u64) & 0xff) as u8,
        (c & 0xff) as u8,
    ]
}

/// What decrypting a chunk yields: nothing for chunks shorter than a nonce
/// and a tag, else the AES-GCM opening of the rest under the leading nonce.
pub open spec fn chunk_open(key: Seq<u8>, data: Seq<u8>) -> Option<Seq<u8>> {
    if data.len() < 28 {
        None
    } else {
        aes_gcm_open(key, data.subrange(0, 12), data.subrange(12, data.len() as int))
    }
}

/// A derived AES-256-GCM session key with its nonce counter.
pub struct SessionKey {
    key: [u8; 32],
    nonce_counter: u64,
}

/// The nonce of counter value `c`.
fn nonce_for(c: u64) -> (r: [u8; 12])
    ensures
        r@ == nonce_seq(c),
{
    let r: [u8; 12] = [
        0,
        0,
        0,
        0,
        ((c >> 56u64) & 0xff) as u8,
        ((c >> 48u64) & 0xff) as u8,
        ((c >> 40u64) & 0xff) as u8,
        ((c >> 32u64) & 0xff) as u8,
        ((c >> 24u64) & 0xff) as u8,
        ((c >> 16u64) & 0xff) as u8,
        ((c >> 8u64) & 0xff) as u8,
        (c & 0xff) as u8,
    ];
    assert(r@ =~= nonce_seq(c));
    r
}

impl SessionKey {
    /// The 32 key bytes.
    pub closed spec fn key_seq(&self) -> Seq<u8> {
        self.key@
    }

    /// The counter the next encryption will use.
    pub closed spec fn counter(&self) -> u64 {
        self.nonce_counter
    }

    /// The 32 key bytes.
    pub fn key_bytes(&self) -> (r: [u8; 32])
        ensures
            r@ == self.key_seq(),
    {
        self.key
    }

    /// Encrypts a plaintext chunk: `[nonce][ciphertext + tag]`, using the
    /// current counter for the nonce and advancing it (wrapping).
    pub fn encrypt_chunk(&mut self, plaintext: &[u8]) -> (r: Result<Vec<u8>, CryptoError>)
        ensures
            final(self).key_seq() == old(self).key_seq(),
            final(self).counter() == if old(self).counter() == u64::MAX {
                0
            } else {
                (old(self).counter() + 1) as u64
            },
            match r {
                Ok(v) => {
                    &&& v@ == nonce_seq(old(self).counter()) + aes_gcm_seal(
                        old(self).key_seq(),
                        nonce_seq(old(self).counter()),
                        plaintext@,
                    )
                    &&& chunk_open(old(self).key_seq(), v@) == Some(plaintext@)
                    &&& v@.len() == 12 + plaintext@.len() + 16
                },
                Err(e) => e == CryptoError::EncryptionFailed && plaintext@.len()
                    > aes_gcm_max_plaintext(),
            },
    {
        let counter = self.nonce_counter;
        self.nonce_counter = counter.wrapping_add(1);
        let nonce = nonce_for(counter);
        match aes_encrypt(&self.key, &nonce, plaintext) {
            Some(ct) => {
                let mut out: Vec<u8> = Vec::new();
                let mut i: usize = 0;
                while i < 12
                    invariant
                        i <= 12,
                        out@ == nonce@.subrange(0, i as int),
                    decreases 12 - i,
                {
                    out.push(nonce[i]);
                    assert(out@ =~= nonce@.subrange(0, i + 1));
                    i = i + 1;
                }
                let mut j: usize = 0;
                while j < ct.len()
                    invariant
                        j <= ct@.len(),
                        out@ == nonce@ + ct@.subrange(0, j as int),
                    decreases ct@.len() - j,
                {
                    out.push(ct[j]);
                    assert(out@ =~= nonce@ + ct@.subrange(0, j + 1));
                    j = j + 1;
                }
                assert(ct@.subrange(0, ct@.len() as int) =~= ct@);
                assert(out@.subrange(0, 12) =~= nonce@);
                assert(out@.subrange(12, out@.len() as int) =~= ct@);
                Ok(out)
            },
            None => Err(CryptoError::EncryptionFailed),
        }
    }

    /// Decrypts a chunk `[nonce][ciphertext + tag]`.
    pub fn decrypt_chunk(&self, data: &[u8]) -> (r: Result<Vec<u8>, CryptoError>)
        ensures
            data@.len() < 28 ==> r == Err::<Vec<u8>, CryptoError>(
                CryptoError::DataTooShort(data@.len() as usize),
            ),
            data@.len() >= 28 ==> match chunk_open(self.key_seq(), data@) {
                Some(p) => r matches Ok(v) && v@ == p,
                None => r == Err::<Vec<u8>, CryptoError>(CryptoError::DecryptionFailed),
            },
    {
        let n = data.len();
        if n < 28 {
            return Err(CryptoError::DataTooShort(n));
        }
        let nonce = slice_range(data, 0, 12);
        let ct = slice_range(data, 12, n);
        match aes_decrypt(&self.key, nonce.as_slice(), ct.as_slice()) {
            Some(p) => Ok(p),
            None => Err(CryptoError::DecryptionFailed),
        }
    }
}

/// The bytes `data[lo..hi]` as a new vector.
fn slice_range(data: &[u8], lo: usize, hi: usize) -> (r: Vec<u8>)
    requires
        lo <= hi <= data@.len(),
    ensures
        r@ == data@.subrange(lo as int, hi as int),
{
    let mut out: Vec<u8> = Vec::new();
    let mut i: usize = lo;
    while i < hi
        invariant
            lo <= i <= hi <= data@.len(),
            out@ == data@.subrange(lo as int, i as int),
        decreases hi - i,
    {
        out.push(data[i]);
        assert(out@ =~= data@.subrange(lo as int, i + 1));
        i = i + 1;
    }
    out
}

/// Different counter values give different nonces, so a session key never
/// reuses a nonce before its counter wraps around.
pub proof fn lemma_nonces_distinct(c1: u64, c2: u64)
    requires
        c1 != c2,
    ensures
        nonce_seq(c1) != nonce_seq(c2),
{
    if nonce_seq(c1) == nonce_seq(c2) {
        assert(nonce_seq(c1)[4] == nonce_seq(c2)[4]);
        assert(nonce_seq(c1)[5] == nonce_seq(c2)[5]);
        assert(nonce_seq(c1)[6] == nonce_seq(c2)[6]);
        assert(nonce_seq(c1)[7] == nonce_seq(c2)[7]);
        assert(nonce_seq(c1)[8] == nonce_seq(c2)[8]);
        assert(nonce_seq(c1)[9] == nonce_seq(c2)[9]);
        assert(nonce_seq(c1)[10] == nonce_seq(c2)[10]);
        assert(nonce_seq(c1)[11] == nonce_seq(c2)[11]);
        assert(c1 == c2) by (bit_vector)
            requires
                ((c1 >> 56u64) & 0xff) as u8 == ((c2 >> 56u64) & 0xff) as u8,
                ((c1 >> 48u64) & 0xff) as u8 == ((c2 >> 48u64) & 0xff) as u8,
                ((c1 >> 40u64) & 0xff) as u8 == ((c2 >> 40u64) & 0xff) as u8,
                ((c1 >> 32u64) & 0xff) as u8 == ((c2 >> 32u64) & 0xff) as u8,
                ((c1 >> 24u64) & 0xff) as u8 == ((c2 >> 24u64) & 0xff) as u8,
                ((c1 >> 16u64) & 0xff) as u8 == ((c2 >> 16u64) & 0xff) as u8,
                ((c1 >> 8u64) & 0xff) as u8 == ((c2 >> 8u64) & 0xff) as u8,
                (c1 & 0xff) as u8 == (c2 & 0xff) as u8,
        ;
    }
}

} // verus!
