//! SHA-256 integrity checks of transferred files.
//!
//! A sender announces a file's digest as `"sha256:<hex>"` (or as the bare hex
//! digest); the receiver hashes what arrived and accepts the file only when
//! the two digests agree.
use sha2::Digest;
use vstd::prelude::*;
use crate::text::{decimal, push_decimal, seq_starts_with, starts_with, str_eq};

verus! {

// ─── Outside functions ──────────────────────────────────────────────────────

/// The SHA-256 digest of `data`, as computed by the `sha2` crate.
pub uninterp spec fn sha256(data: Seq<u8>) -> Seq<u8>;

/// The incremental SHA-256 hasher of the `sha2` crate (`sha2::Sha256`, an
/// alias of a generic type with type-level bounds, held here opaquely).
#[verifier::external_body]
pub struct Sha256Hasher {
    inner: sha2::Sha256,
}

/// The bytes that a hasher has absorbed since it was created.
pub uninterp spec fn absorbed(h: Sha256Hasher) -> Seq<u8>;

/// `sha2::Sha256::digest`: the 32-byte SHA-256 digest of `data`.
#[verifier::external_body]
pub(crate) fn sha256_digest(data: &[u8]) -> (r: Vec<u8>)
    ensures
        r@ == sha256(data@),
        r@.len() == 32,
{
    sha2::Sha256::digest(data).to_vec()
}

/// `sha2::Sha256::new`: a hasher that has absorbed nothing.
#[verifier::external_body]
fn hasher_new() -> (r: Sha256Hasher)
    ensures
        absorbed(r) == Seq::<u8>::empty(),
{
    Sha256Hasher { inner: sha2::Sha256::new() }
}

/// `Digest::update`: the hasher absorbs `data` after what it already holds.
#[verifier::external_body]
fn hasher_update(h: &mut Sha256Hasher, data: &[u8])
    ensures
        absorbed(*final(h)) == absorbed(*old(h)) + data@,
{
    h.inner.update(data);
}

/// `Digest::finalize`: the digest of everything the hasher absorbed, which
/// is the one-shot digest of those bytes (`Digest::digest` is defined as
/// `new`, `update`, `finalize`).
#[verifier::external_body]
fn hasher_finalize(h: Sha256Hasher) -> (r: Vec<u8>)
    ensures
        r@ == sha256(absorbed(h)),
        r@.len() == 32,
{
    h.inner.finalize().to_vec()
}

/// The lower-case hexadecimal digit of a value below 16.
pub open spec fn hex_digit(d: nat) -> char {
    if d < 10 {
        ((d + 48) as u32) as char
    } else {
        ((d + 87) as u32) as char
    }
}

/// Lower-case hexadecimal text of `bytes`, two digits per byte, high
/// nibble first.
pub open spec fn hex_lower(bytes: Seq<u8>) -> Seq<char>
    decreases bytes.len(),
{
    if bytes.len() == 0 {
        Seq::empty()
    } else {
        hex_lower(bytes.drop_last()) + seq![
            hex_digit((bytes.last() / 16) as nat),
            hex_digit((bytes.last() % 16) as nat),
        ]
    }
}

/// `hex::encode`: lower-case hexadecimal text of `bytes`.
#[verifier::external_body]
pub(crate) fn hex_encode(bytes: &[u8]) -> (r: String)
    ensures
        r@ == hex_lower(bytes@),
{
    hex::encode(bytes)
}

// ─── Checksums ──────────────────────────────────────────────────────────────

/// The announced digest with an optional `"sha256:"` prefix removed.
pub open spec fn strip_sha256_prefix(s: Seq<char>) -> Seq<char> {
    if seq_starts_with(s, "sha256:"@) {
        s.skip(7)
    } else {
        s
    }
}

/// A computed hex digest agrees with an announced checksum.
pub open spec fn checksum_agrees(computed: Seq<char>, announced: Seq<char>) -> bool {
    computed == strip_sha256_prefix(announced)
}

/// The lower-case hex SHA-256 digest of `data`.
pub open spec fn digest_hex(data: Seq<u8>) -> Seq<char> {
    hex_lower(sha256(data))
}

/// Whether a computed hex digest equals the announced checksum, once an
/// optional `"sha256:"` prefix is stripped from the latter.
pub fn checksum_matches(computed: &str, announced: &str) -> (r: bool)
    ensures
        r == checksum_agrees(computed@, announced@),
{
    proof {
        reveal_strlit("sha256:");
    }
    if starts_with(announced, "sha256:") {
        let n = announced.unicode_len();
        str_eq(computed, announced.substring_char(7, n))
    } else {
        str_eq(computed, announced)
    }
}

/// The checksum a sender announces in `FileDone`: `"sha256:<hex>"`.
pub fn file_done_checksum(hex: &str) -> (r: String)
    ensures
        r@ == "sha256:"@ + hex@,
{
    let mut s = String::from_str("sha256:");
    s.append(hex);
    s
}

/// The lower-case hex SHA-256 digest of `data` (`hex::encode(Sha256::digest(data))`).
pub fn sha256_hex(data: &[u8]) -> (r: String)
    ensures
        r@ == digest_hex(data@),
{
    let d = sha256_digest(data);
    hex_encode(d.as_slice())
}

/// Whether received bytes match the announced checksum.
pub fn verify_received(data: &[u8], announced: &str) -> (r: bool)
    ensures
        r == checksum_agrees(digest_hex(data@), announced@),
{
    let h = sha256_hex(data);
    checksum_matches(h.as_str(), announced)
}

// ─── Streaming verification ─────────────────────────────────────────────────

/// Errors of chunked file transfer.
#[derive(Debug, Clone, PartialEq, Eq)]
pub enum ChunkerError {
    /// The file is larger than allowed.
    FileTooLarge { size: u64, max: u64 },
    /// The received bytes do not match the announced checksum.
    ChecksumFailed,
    /// The received bytes could not be written.
    WriteError(String),
}

impl ChunkerError {
    /// The message shown to the user.
    pub fn message(&self) -> (r: String)
        ensures
            r@ == match *self {
                ChunkerError::FileTooLarge { size, max } => "File too large: "@ + decimal(
                    size as nat,
                ) + " bytes (max: "@ + decimal(max as nat) + ")"@,
                ChunkerError::ChecksumFailed => "Checksum verification failed"@,
                ChunkerError::WriteError(e) => "Write error: "@ + e@,
            },
    {
        match self {
            ChunkerError::FileTooLarge { size, max } => {
                let mut s = String::from_str("File too large: ");
                push_decimal(&mut s, *size);
                s.append(" bytes (max: ");
                push_decimal(&mut s, *max);
                s.append(")");
                s
            },
            ChunkerError::ChecksumFailed => String::from_str("Checksum verification failed"),
            ChunkerError::WriteError(e) => {
                let mut s = String::from_str("Write error: ");
                s.append(e.as_str());
                s
            },
        }
    }
}

/// Hash-while-receiving bookkeeping for one file: the digest of the chunks
/// seen so far, their total length, and the announced size and checksum.
pub struct ChunkVerifier {
    hasher: Sha256Hasher,
    bytes_written: u64,
    expected_size: u64,
    expected_hash: String,
}

impl ChunkVerifier {
    /// All bytes recorded so far, in order.
    pub closed spec fn received(&self) -> Seq<u8> {
        absorbed(self.hasher)
    }

    /// The number of bytes recorded so far.
    pub closed spec fn written(&self) -> nat {
        self.bytes_written as nat
    }

    /// The announced file size.
    pub closed spec fn size(&self) -> u64 {
        self.expected_size
    }

    /// The announced checksum.
    pub closed spec fn announced(&self) -> Seq<char> {
        self.expected_hash@
    }

    /// The count of bytes is the length of what was recorded.
    pub closed spec fn well_formed(&self) -> bool {
        self.bytes_written as nat == absorbed(self.hasher).len()
    }

    /// A verifier for a file of `expected_size` bytes announced with
    /// `expected_hash`, that has recorded nothing.
    pub fn new(expected_size: u64, expected_hash: String) -> (r: ChunkVerifier)
        ensures
            r.well_formed(),
            r.received() == Seq::<u8>::empty(),
            r.written() == 0,
            r.size() == expected_size,
            r.announced() == expected_hash@,
    {
        ChunkVerifier { hasher: hasher_new(), bytes_written: 0, expected_size, expected_hash }
    }

    /// Records the next chunk and returns the total number of bytes recorded.
    pub fn record_chunk(&mut self, data: &[u8]) -> (r: u64)
        requires
            old(self).well_formed(),
            old(self).written() + data@.len() <= u64::MAX,
        ensures
            final(self).well_formed(),
            final(self).received() == old(self).received() + data@,
            final(self).written() == old(self).written() + data@.len(),
            r == final(self).written(),
            final(self).size() == old(self).size(),
            final(self).announced() == old(self).announced(),
    {
        hasher_update(&mut self.hasher, data);
        self.bytes_written = self.bytes_written + data.len() as u64;
        self.bytes_written
    }

    /// Replaces the announced checksum (the one that `FileDone` carries).
    pub fn set_expected_hash(&mut self, checksum: String)
        ensures
            final(self).announced() == checksum@,
            final(self).received() == old(self).received(),
            final(self).written() == old(self).written(),
            final(self).size() == old(self).size(),
            old(self).well_formed() ==> final(self).well_formed(),
    {
        self.expected_hash = checksum;
    }

    /// The number of bytes recorded so far.
    pub fn bytes_written(&self) -> (r: u64)
        ensures
            r == self.written(),
    {
        self.bytes_written
    }

    /// The announced file size.
    pub fn expected_size(&self) -> (r: u64)
        ensures
            r == self.size(),
    {
        self.expected_size
    }

    /// The SHA-256 hex digest of everything recorded (a file hashed as it is
    /// read, chunk by chunk).
    pub fn digest(self) -> (r: String)
        ensures
            r@ == digest_hex(self.received()),
    {
        let d = hasher_finalize(self.hasher);
        hex_encode(d.as_slice())
    }

    /// Whether the digest of everything recorded matches the announced
    /// checksum.
    pub fn finalize(self) -> (r: bool)
        ensures
            r == checksum_agrees(digest_hex(self.received()), self.announced()),
    {
        let d = hasher_finalize(self.hasher);
        let h = hex_encode(d.as_slice());
        checksum_matches(h.as_str(), self.expected_hash.as_str())
    }
}

// ─── Laws ───────────────────────────────────────────────────────────────────

/// A file announced with the checksum its sender computed — the bare hex
/// digest or `"sha256:"` followed by it — is accepted by the receiver when
/// the bytes arrive unchanged.
pub proof fn lemma_sender_checksum_accepted(data: Seq<u8>)
    ensures
        checksum_agrees(digest_hex(data), "sha256:"@ + digest_hex(data)),
        checksum_agrees(digest_hex(data), digest_hex(data)),
{
    reveal_strlit("sha256:");
    let h = digest_hex(data);
    let s = "sha256:"@ + h;
    assert(s.subrange(0, 7) =~= "sha256:"@);
    assert(s.skip(7) =~= h);
    lemma_hex_has_no_colon(sha256(data));
    if seq_starts_with(h, "sha256:"@) {
        assert(h.subrange(0, 7)[6] == "sha256:"@[6]);
        assert(h.subrange(0, 7)[6] == h[6]);
        assert(h[6] == ':');
    }
}

/// Hex text never contains a colon.
proof fn lemma_hex_has_no_colon(bytes: Seq<u8>)
    ensures
        forall|i: int| 0 <= i < hex_lower(bytes).len() ==> hex_lower(bytes)[i] != ':',
    decreases bytes.len(),
{
    if bytes.len() > 0 {
        lemma_hex_has_no_colon(bytes.drop_last());
        let b = bytes.last();
        let a = hex_lower(bytes.drop_last());
        let tail = seq![hex_digit((b / 16) as nat), hex_digit((b % 16) as nat)];
        assert(hex_digit((b / 16) as nat) != ':');
        assert(hex_digit((b % 16) as nat) != ':');
        assert forall|i: int| 0 <= i < hex_lower(bytes).len() implies hex_lower(bytes)[i] != ':' by {
            assert(hex_lower(bytes) == a + tail);
            if i < a.len() {
                assert(hex_lower(bytes)[i] == a[i]);
            } else {
                assert(hex_lower(bytes)[i] == tail[i - a.len()]);
            }
        }
    }
}

/// Bytes whose digest differs from the announced one are refused: an
/// accepted file's digest is the announced digest.
pub proof fn lemma_accepted_digest_is_announced(data: Seq<u8>, announced: Seq<char>)
    requires
        checksum_agrees(digest_hex(data), announced),
    ensures
        announced == digest_hex(data) || announced == "sha256:"@ + digest_hex(data),
{
    reveal_strlit("sha256:");
    if seq_starts_with(announced, "sha256:"@) {
        assert(announced =~= announced.subrange(0, 7) + announced.skip(7));
    }
}

} // verus!
