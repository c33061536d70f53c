//! The sending side of a transfer, as decisions: which control messages
//! frame each file and a batch, how the receiver's acknowledgement is
//! read, and what the dashboard is told.
//!
//! The socket, the files on disk and the clock live outside the library.
use vstd::prelude::*;
use crate::protocol::{format_bytes, format_bytes_spec, ControlMessage};
use crate::text::{decimal, push_decimal};

verus! {

/// The WebSocket URL of a peer given as `host:port`.
pub fn ws_url(peer_addr: &str) -> (r: String)
    ensures
        r@ == "ws://"@ + peer_addr@ + "/ws"@,
{
    let mut s = String::from_str("ws://");
    s.append(peer_addr);
    s.append("/ws");
    s
}

/// The log line shown while connecting.
pub fn connecting_log(peer_addr: &str) -> (r: String)
    ensures
        r@ == "Connecting to ws://"@ + peer_addr@ + "..."@,
{
    let mut s = String::from_str("Connecting to ws://");
    s.append(peer_addr);
    s.append("...");
    s
}

/// The log line before the files are sent.
pub fn preparing_log(file_count: usize) -> (r: String)
    ensures
        r@ == "Preparing "@ + decimal(file_count as nat) + " file(s) for transfer..."@,
{
    let mut s = String::from_str("Preparing ");
    push_decimal(&mut s, file_count as u64);
    s.append(" file(s) for transfer...");
    s
}

/// The message that opens a batch: only sent for more than one file.
pub fn batch_start(file_count: usize, total_size: u64) -> (r: Option<ControlMessage>)
    ensures
        file_count > 1 ==> r == Some(ControlMessage::BatchStart { file_count, total_size }),
        file_count <= 1 ==> r is None,
{
    if file_count > 1 {
        Some(ControlMessage::BatchStart { file_count, total_size })
    } else {
        None
    }
}

/// The message that closes a batch: only sent for more than one file.
pub fn batch_done(file_count: usize, tally: &BatchTally) -> (r: Option<ControlMessage>)
    ensures
        file_count > 1 ==> r == Some(
            ControlMessage::BatchDone { successful: tally.successful, failed: tally.failed },
        ),
        file_count <= 1 ==> r is None,
{
    if file_count > 1 {
        Some(ControlMessage::BatchDone { successful: tally.successful, failed: tally.failed })
    } else {
        None
    }
}

/// The message that announces a file; no MIME type is sent.
pub fn file_start_message(name: &str, size: u64, sha256: &str) -> (r: ControlMessage)
    ensures
        r matches ControlMessage::FileStart { name: n, size: s, sha256: h, mime_type } && n@ == name@
            && s == size && h@ == sha256@ && mime_type is None,
{
    ControlMessage::FileStart {
        name: String::from_str(name),
        size,
        sha256: String::from_str(sha256),
        mime_type: None,
    }
}

/// The message that ends a file, carrying `"sha256:<hex>"`.
pub fn file_done_message(sha256: &str) -> (r: ControlMessage)
    ensures
        r matches ControlMessage::FileDone { checksum } && checksum@ == "sha256:"@ + sha256@,
{
    ControlMessage::FileDone { checksum: crate::integrity::file_done_checksum(sha256) }
}

/// The log line while a file is hashed.
pub fn hashing_log(name: &str) -> (r: String)
    ensures
        r@ == "Hashing '"@ + name@ + "'..."@,
{
    let mut s = String::from_str("Hashing '");
    s.append(name);
    s.append("'...");
    s
}

/// The log line once a file is hashed: its name, size and the first twelve
/// characters of its digest (every hex SHA-256 digest has 64).
pub fn hashed_log(name: &str, size: u64, sha256: &str) -> (r: String)
    requires
        sha256@.len() >= 12,
    ensures
        r@ == "'"@ + name@ + "' ("@ + format_bytes_spec(size as nat) + ") sha256:"@
            + sha256@.take(12) + "..."@,
{
    let mut s = String::from_str("'");
    s.append(name);
    s.append("' (");
    let f = format_bytes(size);
    s.append(f.as_str());
    s.append(") sha256:");
    s.append(sha256.substring_char(0, 12));
    s.append("...");
    s
}

/// The log line while the acknowledgement is awaited.
pub fn awaiting_log(name: &str) -> (r: String)
    ensures
        r@ == "Awaiting ACK for '"@ + name@ + "'..."@,
{
    let mut s = String::from_str("Awaiting ACK for '");
    s.append(name);
    s.append("'...");
    s
}

/// The start of the log line of a sent file: `✓ 'name' sent (size in `;
/// the caller appends the elapsed seconds and `s)`.
pub fn sent_log_prefix(name: &str, size: u64) -> (r: String)
    ensures
        r@ == "✓ '"@ + name@ + "' sent ("@ + format_bytes_spec(size as nat) + " in "@,
{
    let mut s = String::from_str("✓ '");
    s.append(name);
    s.append("' sent (");
    let f = format_bytes(size);
    s.append(f.as_str());
    s.append(" in ");
    s
}

// ─── Waiting for the acknowledgement ────────────────────────────────────────

/// What happened while waiting for a file's acknowledgement.
#[derive(Debug, Clone, PartialEq, Eq)]
pub enum AckWait {
    /// A text frame: the control message it holds, or `None` when it is not one.
    Text(Option<ControlMessage>),
    /// The receiver closed the connection.
    Closed,
    /// The socket failed.
    SocketError(String),
    /// The stream ended.
    Ended,
    /// No acknowledgement within the time allowed.
    TimedOut,
}

/// What the sender makes of it.
#[derive(Debug, Clone, PartialEq, Eq)]
pub enum AckDecision {
    /// Nothing decisive yet: keep reading.
    KeepWaiting,
    /// The receiver verified and kept the file.
    Accepted,
    /// The file was not delivered, for this reason.
    Failed(String),
}

/// The decision on one event while waiting for a file's acknowledgement.
pub open spec fn ack_decision(name: Seq<char>, ev: AckWait) -> Option<Option<Seq<char>>> {
    match ev {
        AckWait::Text(Some(ControlMessage::FileAck { success, error })) => if success {
            Some(None)
        } else {
            Some(
                Some(
                    "Receiver rejected '"@ + name + "': "@ + match error {
                        Some(e) => e@,
                        None => "Unknown error"@,
                    },
                ),
            )
        },
        AckWait::Text(_) => None,
        AckWait::Closed => Some(Some("Connection closed before ACK"@)),
        AckWait::SocketError(e) => Some(Some("WebSocket error waiting for ACK: "@ + e@)),
        AckWait::Ended => Some(Some("Connection ended without ACK"@)),
        AckWait::TimedOut => Some(Some("Timed out waiting for ACK for '"@ + name + "'"@)),
    }
}

/// Reads one event while waiting for the acknowledgement of file `name`:
/// a positive `FileAck` accepts, a negative one or the end of the
/// connection fails with a reason, anything else keeps waiting.
pub fn on_ack_event(name: &str, ev: AckWait) -> (r: AckDecision)
    ensures
        match ack_decision(name@, ev) {
            None => r == AckDecision::KeepWaiting,
            Some(None) => r == AckDecision::Accepted,
            Some(Some(reason)) => r matches AckDecision::Failed(m) && m@ == reason,
        },
{
    match ev {
        AckWait::Text(Some(ControlMessage::FileAck { success, error })) => {
            if success {
                AckDecision::Accepted
            } else {
                let mut m = String::from_str("Receiver rejected '");
                m.append(name);
                m.append("': ");
                match error {
                    Some(e) => m.append(e.as_str()),
                    None => m.append("Unknown error"),
                }
                AckDecision::Failed(m)
            }
        },
        AckWait::Text(_) => AckDecision::KeepWaiting,
        AckWait::Closed => AckDecision::Failed(String::from_str("Connection closed before ACK")),
        AckWait::SocketError(e) => {
            let mut m = String::from_str("WebSocket error waiting for ACK: ");
            m.append(e.as_str());
            AckDecision::Failed(m)
        },
        AckWait::Ended => AckDecision::Failed(String::from_str("Connection ended without ACK")),
        AckWait::TimedOut => {
            let mut m = String::from_str("Timed out waiting for ACK for '");
            m.append(name);
            m.append("'");
            AckDecision::Failed(m)
        },
    }
}

// ─── The batch ──────────────────────────────────────────────────────────────

/// How many files of a batch were delivered and how many failed.
#[derive(Debug, Clone, Copy, PartialEq, Eq, Structural)]
pub struct BatchTally {
    pub successful: usize,
    pub failed: usize,
}

impl BatchTally {
    /// Nothing sent yet.
    pub fn new() -> (r: BatchTally)
        ensures
            r.successful == 0 && r.failed == 0,
    {
        BatchTally { successful: 0, failed: 0 }
    }

    /// Counts one file's outcome. A batch never holds more files than fit
    /// in memory, so the counts cannot overflow.
    pub fn record(&mut self, delivered: bool)
        requires
            old(self).successful + old(self).failed < usize::MAX,
        ensures
            delivered ==> final(self).successful == old(self).successful + 1 && final(self).failed
                == old(self).failed,
            !delivered ==> final(self).failed == old(self).failed + 1 && final(self).successful
                == old(self).successful,
    {
        if delivered {
            self.successful = self.successful + 1;
        } else {
            self.failed = self.failed + 1;
        }
    }
}

/// The error line of a file that could not be sent.
pub fn failure_log(name: &str, error: &str) -> (r: String)
    ensures
        r@ == "Failed to send '"@ + name@ + "': "@ + error@,
{
    let mut s = String::from_str("Failed to send '");
    s.append(name);
    s.append("': ");
    s.append(error);
    s
}

} // verus!
