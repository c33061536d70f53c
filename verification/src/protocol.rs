//! Wire protocol types for the FileDrop transfer protocol, and the
//! human-readable rendering of byte counts.
//!
//! The protocol uses WebSocket frames:
//! - Control frames: JSON-encoded messages (text frames)
//! - Data frames: raw binary chunks (binary frames)
//!
//! Transfer flow:
//! 1. Sender sends `FileStart` with metadata
//! 2. Sender sends binary chunk frames
//! 3. Sender sends `FileDone` with the final checksum
//! 4. Receiver verifies the checksum and sends `FileAck`
use vstd::prelude::*;
use crate::text::{decimal, digit, digit_char, push_char, push_decimal};

verus! {

/// Protocol-level errors.
#[derive(Debug, Clone, PartialEq, Eq)]
pub enum ProtocolError {
    /// The message tag was not recognised.
    InvalidMessageType(String),
    /// The received file's digest differs from the announced one.
    ChecksumMismatch { expected: String, actual: String },
    /// A frame could not be decoded or encoded.
    InvalidFrame { reason: String },
    /// The peer cancelled the transfer.
    Cancelled,
    /// The transfer failed.
    TransferFailed { reason: String },
    /// A message arrived out of order.
    UnexpectedMessage { expected: String, actual: String },
}

/// Control messages sent as JSON text frames (`"type"` tag, snake_case).
#[derive(Debug, Clone, PartialEq, Eq)]
pub enum ControlMessage {
    /// Announce a file transfer is starting.
    FileStart { name: String, size: u64, sha256: String, mime_type: Option<String> },
    /// Announce a file transfer is complete; `checksum` is `"sha256:<hex>"`.
    FileDone { checksum: String },
    /// Acknowledge receipt of a complete file.
    FileAck { success: bool, error: Option<String> },
    /// Progress update from receiver to sender.
    Progress { bytes_received: u64, bytes_total: u64 },
    /// Request to cancel the current transfer.
    Cancel { reason: String },
    /// Batch transfer start — multiple files.
    BatchStart { file_count: usize, total_size: u64 },
    /// Batch transfer complete.
    BatchDone { successful: usize, failed: usize },
    /// Keep-alive with a timestamp in milliseconds.
    Ping { timestamp: u64 },
    /// Answer to a ping, echoing its timestamp.
    Pong { timestamp: u64 },
}

/// Status of a file transfer.
#[derive(Debug, Clone, PartialEq, Eq)]
pub enum TransferStatus {
    /// Waiting in queue.
    Queued,
    /// Currently being transferred.
    InProgress,
    /// Transfer completed successfully.
    Completed,
    /// Transfer failed with an error.
    Failed(String),
    /// Transfer was cancelled.
    Cancelled,
}

/// A file being transferred.
#[derive(Debug, Clone, PartialEq, Eq)]
pub struct TransferFile {
    /// The file name as the sender gave it.
    pub name: String,
    /// File size in bytes.
    pub size: u64,
    /// SHA-256 hash of the file.
    pub sha256: String,
    /// MIME type if known.
    pub mime_type: Option<String>,
    /// Bytes transferred so far.
    pub bytes_transferred: u64,
    /// Current transfer status.
    pub status: TransferStatus,
}

impl TransferFile {
    /// A new queued transfer entry with nothing transferred yet.
    pub fn new(name: String, size: u64, sha256: String) -> (r: TransferFile)
        ensures
            r.name == name,
            r.size == size,
            r.sha256 == sha256,
            r.mime_type is None,
            r.bytes_transferred == 0,
            r.status == TransferStatus::Queued,
    {
        TransferFile {
            name,
            size,
            sha256,
            mime_type: None,
            bytes_transferred: 0,
            status: TransferStatus::Queued,
        }
    }

    /// The file size rendered by [`format_bytes`].
    pub fn size_display(&self) -> (r: String)
        ensures
            r@ == format_bytes_spec(self.size as nat),
    {
        format_bytes(self.size)
    }

    /// The transferred byte count rendered by [`format_bytes`].
    pub fn transferred_display(&self) -> (r: String)
        ensures
            r@ == format_bytes_spec(self.bytes_transferred as nat),
    {
        format_bytes(self.bytes_transferred)
    }
}

// ─── Byte counts for humans ─────────────────────────────────────────────────

/// One kibibyte.
pub open spec fn kib() -> nat {
    1024
}

/// One mebibyte.
pub open spec fn mib() -> nat {
    1048576
}

/// One gibibyte.
pub open spec fn gib() -> nat {
    1073741824
}

/// `num / den` rounded to the nearest integer, ties to the even neighbour
/// (the rounding of fixed-precision float formatting).
pub open spec fn round_half_even(num: nat, den: nat) -> nat
    recommends
        den > 0,
{
    let q = num / den;
    let r = num % den;
    if 2 * r > den || (2 * r == den && q % 2 == 1) {
        q + 1
    } else {
        q
    }
}

/// Spacing of the doubles around `b`: 1 below 2^53, doubling with each
/// further binary digit.
pub open spec fn f64_ulp(b: nat) -> nat
    decreases b,
{
    if b < 0x20_0000_0000_0000 {
        1
    } else {
        2 * f64_ulp(b / 2)
    }
}

/// The integer value of the double nearest to `b` (ties to even), which is
/// what `b as f64` yields for a `u64`.
pub open spec fn f64_value(b: nat) -> nat {
    round_half_even(b, f64_ulp(b)) * f64_ulp(b)
}

/// `n / 10` written with one decimal place.
pub open spec fn fixed1(n: nat) -> Seq<char> {
    decimal(n / 10) + seq!['.', digit_char(n % 10)]
}

/// The text of [`format_bytes`]: values of a gibibyte or more in GB with one
/// decimal, of a mebibyte or more in MB with one decimal, of a kibibyte or
/// more in whole KB, and smaller values in bytes. Decimals are rounded to
/// the nearest value, ties to even, from the double that the byte count
/// converts to.
pub open spec fn format_bytes_spec(b: nat) -> Seq<char> {
    if b >= gib() {
        fixed1(round_half_even(10 * f64_value(b), gib())) + " GB"@
    } else if b >= mib() {
        fixed1(round_half_even(10 * b, mib())) + " MB"@
    } else if b >= kib() {
        decimal(round_half_even(b, kib())) + " KB"@
    } else {
        decimal(b) + " B"@
    }
}

/// `num / den` rounded half to even.
fn round_half_even_u128(num: u128, den: u128) -> (r: u128)
    requires
        den > 0,
        num < 0x8000_0000_0000_0000_0000_0000_0000_0000,
        den < 0x8000_0000_0000_0000_0000_0000_0000_0000,
    ensures
        r == round_half_even(num as nat, den as nat),
        r <= num / den + 1,
{
    let q = num / den;
    let r = num % den;
    if 2 * r > den || (2 * r == den && q % 2 == 1) {
        q + 1
    } else {
        q
    }
}

proof fn lemma_ulp_bound(t: nat, p: nat, b: nat)
    requires
        p > 0,
        t == b / p,
        t >= 0x20_0000_0000_0000,
        b < 0x1_0000_0000_0000_0000,
    ensures
        p < 0x800,
{
    assert(p * t <= b) by (nonlinear_arith)
        requires
            p > 0,
            t == b / p,
    ;
    assert(p * 0x20_0000_0000_0000 <= p * t) by (nonlinear_arith)
        requires
            t >= 0x20_0000_0000_0000,
            p > 0,
    ;
}

/// The integer value of `b as f64`.
fn f64_of(b: u64) -> (r: u128)
    ensures
        r == f64_value(b as nat),
        r <= b as nat + 0x1000,
{
    let mut t: u128 = b as u128;
    let mut p: u128 = 1;
    while t >= 0x20_0000_0000_0000
        invariant
            p > 0,
            p < 0x1000,
            t == (b as nat) / (p as nat),
            f64_ulp(b as nat) == p * f64_ulp(t as nat),
        decreases t,
    {
        proof {
            lemma_ulp_bound(t as nat, p as nat, b as nat);
            vstd::arithmetic::div_mod::lemma_div_denominator(b as int, p as int, 2);
            assert(f64_ulp(t as nat) == 2 * f64_ulp((t / 2) as nat));
        }
        t = t / 2;
        p = p * 2;
        proof {
            assert(f64_ulp(b as nat) == p * f64_ulp(t as nat)) by (nonlinear_arith)
                requires
                    f64_ulp(b as nat) == (p / 2) * (2 * f64_ulp(t as nat)),
                    p % 2 == 0,
            ;
        }
    }
    assert(f64_ulp(t as nat) == 1);
    assert(f64_ulp(b as nat) == p) by (nonlinear_arith)
        requires
            f64_ulp(b as nat) == p * f64_ulp(t as nat),
            f64_ulp(t as nat) == 1,
    ;
    let q = round_half_even_u128(b as u128, p);
    assert(q == round_half_even(b as nat, f64_ulp(b as nat)));
    proof {
        assert(q * p <= b as nat + p) by (nonlinear_arith)
            requires
                q <= (b as nat) / (p as nat) + 1,
                p > 0,
        ;
    }
    q * p
}

/// Appends `n / 10` with one decimal place.
fn push_fixed1(out: &mut String, n: u64)
    ensures
        final(out)@ == old(out)@ + fixed1(n as nat),
{
    push_decimal(out, n / 10);
    push_char(out, '.');
    push_char(out, digit(n % 10));
    assert(out@ =~= old(out)@ + fixed1(n as nat));
}

/// Formats a byte count for humans, e.g. `"512 B"`, `"1 KB"`, `"5.0 MB"`,
/// `"2.0 GB"`.
pub fn format_bytes(bytes: u64) -> (r: String)
    ensures
        r@ == format_bytes_spec(bytes as nat),
{
    let mut out = String::new();
    if bytes >= 1073741824 {
        let m = f64_of(bytes);
        let n = round_half_even_u128(10 * m, 1073741824);
        push_fixed1(&mut out, n as u64);
        out.append(" GB");
    } else if bytes >= 1048576 {
        let n = round_half_even_u128(10 * (bytes as u128), 1048576);
        push_fixed1(&mut out, n as u64);
        out.append(" MB");
    } else if bytes >= 1024 {
        let n = round_half_even_u128(bytes as u128, 1024);
        push_decimal(&mut out, n as u64);
        out.append(" KB");
    } else {
        push_decimal(&mut out, bytes);
        out.append(" B");
    }
    out
}

} // verus!
