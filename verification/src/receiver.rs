//! The receive loop of one phone connection, as decisions: what each
//! control message or data frame does to the file being received, which
//! notices the dashboard gets, and what is answered to the phone.
//!
//! The socket, the output file on disk and the clock live outside the
//! library: the caller opens and writes the file and reports back how that
//! went, and this session keeps the digest of what was written.
use vstd::prelude::*;
use vstd::string::StringSliceAdditionalSpecFns;
use crate::integrity::{checksum_agrees, digest_hex, ChunkVerifier};
use crate::protocol::{format_bytes, format_bytes_spec, ControlMessage, TransferFile, TransferStatus};
use crate::server::{file_ack, write_failure_ack};
use crate::text::decimal;

verus! {

/// What the receive loop reports to the dashboard.
#[derive(Debug, Clone, PartialEq, Eq)]
pub enum ReceiverNotice {
    /// A line for the log panel.
    Log(String),
    /// An error line for the log panel.
    Error(String),
    /// A device connected.
    PeerConnected { name: String, addr: String },
    /// The device disconnected.
    PeerDisconnected { name: String },
    /// A file transfer started; the entry to add to the queue.
    FileStarted(TransferFile),
    /// A file was received and checked.
    FileCompleted { file_name: String, verified: bool },
    /// A file transfer failed.
    FileFailed { file_name: String, error: String },
}

/// Frames the phone's app sends beside the transfer protocol.
#[derive(Debug)]
pub enum PhoneFrame {
    /// The phone's answer to a file pushed to it.
    PushAck { success: bool, transfer_id: String },
    /// The phone's ECDH public key.
    KeyExchange { public_key: String },
}

/// `h` is the text of the first eight bytes of `id`.
pub open spec fn is_id_head(h: Seq<char>, id: Seq<char>) -> bool {
    vstd::utf8::encode_utf8(h) == vstd::utf8::encode_utf8(id).subrange(0, 8)
}

/// The file currently being received.
pub struct ActiveFile {
    /// Its name as announced.
    pub file_name: String,
    /// Its announced size.
    pub total_size: u64,
    /// The digest and byte count of what was written so far.
    pub verifier: ChunkVerifier,
}

/// The receiving side of one connection.
pub struct ReceiveSession {
    /// The file being received, if any.
    pub active: Option<ActiveFile>,
}

/// What to do with a control message.
#[derive(Debug, Clone, PartialEq, Eq)]
pub enum ControlAction {
    /// A file is announced: report it, then create the output file and
    /// call [`ReceiveSession::file_opened`] or
    /// [`ReceiveSession::file_open_failed`].
    StartFile { name: String, size: u64, sha256: String, notices: Vec<ReceiverNotice> },
    /// The file is complete: flush it, then call
    /// [`ReceiveSession::finish_file`] with the announced checksum.
    FinishFile { checksum: String },
    /// The transfer was cancelled: drop the output file.
    CancelFile { notice: ReceiverNotice },
    /// Answer the phone.
    Reply(ControlMessage),
    /// Only report.
    Report(ReceiverNotice),
    /// Nothing to do.
    Ignore,
}

/// `m` is a `FileAck` with this outcome and error text.
pub open spec fn is_file_ack(m: ControlMessage, success: bool, error: Option<Seq<char>>) -> bool {
    match m {
        ControlMessage::FileAck { success: s, error: e } => s == success && match e {
            Some(t) => error == Some(t@),
            None => error is None,
        },
        _ => false,
    }
}

/// What a control message calls for.
pub open spec fn control_action(msg: ControlMessage, a: ControlAction) -> bool {
    match msg {
        ControlMessage::FileStart { name, size, sha256, .. } => match a {
            ControlAction::StartFile { name: n, size: s, sha256: h, notices } => {
                &&& n == name
                &&& s == size
                &&& h == sha256
                &&& notices@.len() == 2
                &&& notices@[0] matches ReceiverNotice::Log(m) && m@ == "Incoming: '"@ + name@ + "' ("@
                    + format_bytes_spec(size as nat) + ")"@
                &&& notices@[1] matches ReceiverNotice::FileStarted(f) && f.name == name && f.size
                    == size && f.sha256 == sha256 && f.mime_type is None && f.bytes_transferred == 0
                    && f.status == TransferStatus::InProgress
            },
            _ => false,
        },
        ControlMessage::FileDone { checksum } => a == ControlAction::FinishFile { checksum },
        ControlMessage::Cancel { reason } => match a {
            ControlAction::CancelFile { notice } => notice matches ReceiverNotice::Log(m) && m@
                == "Transfer cancelled: "@ + reason@,
            _ => false,
        },
        ControlMessage::Ping { timestamp } => a == ControlAction::Reply(
            ControlMessage::Pong { timestamp },
        ),
        ControlMessage::BatchStart { file_count, total_size } => match a {
            ControlAction::Report(notice) => notice matches ReceiverNotice::Log(m) && m@
                == "Batch: "@ + decimal(file_count as nat) + " files, "@ + format_bytes_spec(
                total_size as nat,
            ) + " total"@,
            _ => false,
        },
        _ => a == ControlAction::Ignore,
    }
}

/// `'name' saved (size in ` — the start of the log line of a saved file;
/// the elapsed seconds and `s)` follow.
pub open spec fn saved_prefix(name: Seq<char>, bytes: nat) -> Seq<char> {
    "✓ '"@ + name + "' saved ("@ + format_bytes_spec(bytes) + " in "@
}

/// How a finished file ends: its name, whether it was kept, the notices,
/// and the acknowledgement to send.
pub struct FinishOutcome {
    /// The finished file's name.
    pub file_name: String,
    /// The number of bytes written.
    pub bytes: u64,
    /// Whether the file was written, flushed and matched its checksum.
    pub saved: bool,
    /// What the dashboard is told.
    pub notices: Vec<ReceiverNotice>,
    /// The acknowledgement for the phone, when one is owed.
    pub reply: Option<ControlMessage>,
}

impl ReceiveSession {
    /// The session invariant: the file being received has consistent
    /// bookkeeping.
    pub open spec fn well_formed(&self) -> bool {
        self.active matches Some(a) ==> a.verifier.well_formed()
    }

    /// A session with no file in progress.
    pub fn new() -> (r: ReceiveSession)
        ensures
            r.well_formed(),
            r.active is None,
    {
        ReceiveSession { active: None }
    }

    /// The notices for a device that connected from `peer` (its IP is
    /// `ip`): in single-device mode first that the session is now locked to
    /// it, then the connection and a log line.
    pub fn connected(peer: &str, ip: &str, single: bool) -> (r: Vec<ReceiverNotice>)
        ensures
            r@.len() == if single {
                3nat
            } else {
                2nat
            },
            single ==> (r@[0] matches ReceiverNotice::Log(m) && m@ == "[LOCK] Session locked to "@
                + ip@ + ". Further connections rejected."@),
            r@[r@.len() - 2] matches ReceiverNotice::PeerConnected { name, addr } && name@ == peer@
                && addr@ == ip@,
            r@[r@.len() - 1] matches ReceiverNotice::Log(m) && m@ == "Device connected from "@
                + peer@,
    {
        let mut out: Vec<ReceiverNotice> = Vec::new();
        if single {
            let mut m = String::from_str("[LOCK] Session locked to ");
            m.append(ip);
            m.append(". Further connections rejected.");
            out.push(ReceiverNotice::Log(m));
        }
        out.push(
            ReceiverNotice::PeerConnected { name: String::from_str(peer), addr: String::from_str(ip) },
        );
        let mut m = String::from_str("Device connected from ");
        m.append(peer);
        out.push(ReceiverNotice::Log(m));
        out
    }

    /// Decides what a control message calls for; the file in progress is
    /// dropped on a cancel.
    pub fn on_control(&mut self, msg: ControlMessage) -> (r: ControlAction)
        requires
            old(self).well_formed(),
        ensures
            final(self).well_formed(),
            control_action(msg, r),
            msg is Cancel ==> final(self).active is None,
            !(msg is Cancel) ==> final(self).active == old(self).active,
    {
        match msg {
            ControlMessage::FileStart { name, size, sha256, .. } => {
                let mut log = String::from_str("Incoming: '");
                log.append(name.as_str());
                log.append("' (");
                let sz = format_bytes(size);
                log.append(sz.as_str());
                log.append(")");
                let mut tf = TransferFile::new(name.clone(), size, sha256.clone());
                tf.status = TransferStatus::InProgress;
                let mut notices: Vec<ReceiverNotice> = Vec::new();
                notices.push(ReceiverNotice::Log(log));
                notices.push(ReceiverNotice::FileStarted(tf));
                ControlAction::StartFile { name, size, sha256, notices }
            },
            ControlMessage::FileDone { checksum } => ControlAction::FinishFile { checksum },
            ControlMessage::Cancel { reason } => {
                self.active = None;
                let mut m = String::from_str("Transfer cancelled: ");
                m.append(reason.as_str());
                ControlAction::CancelFile { notice: ReceiverNotice::Log(m) }
            },
            ControlMessage::Ping { timestamp } => ControlAction::Reply(
                ControlMessage::Pong { timestamp },
            ),
            ControlMessage::BatchStart { file_count, total_size } => {
                let mut m = String::from_str("Batch: ");
                crate::text::push_decimal(&mut m, file_count as u64);
                m.append(" files, ");
                let t = format_bytes(total_size);
                m.append(t.as_str());
                m.append(" total");
                ControlAction::Report(ReceiverNotice::Log(m))
            },
            _ => ControlAction::Ignore,
        }
    }

    /// The output file of an announced file was created: it becomes the
    /// file in progress, with nothing written yet.
    pub fn file_opened(&mut self, name: String, size: u64, sha256: String)
        requires
            old(self).well_formed(),
        ensures
            final(self).well_formed(),
            final(self).active matches Some(a) && a.file_name == name && a.total_size == size
                && a.verifier.received() == Seq::<u8>::empty() && a.verifier.size() == size
                && a.verifier.announced() == sha256@,
    {
        self.active = Some(
            ActiveFile { file_name: name, total_size: size, verifier: ChunkVerifier::new(size, sha256) },
        );
    }

    /// The output file could not be created: the error is reported and the
    /// phone gets a negative acknowledgement. The file in progress, if any,
    /// stays.
    pub fn file_open_failed(&self, error: &str) -> (r: (ReceiverNotice, ControlMessage))
        ensures
            r.0 matches ReceiverNotice::Error(m) && m@ == "Failed to create output file: "@ + error@,
            is_file_ack(r.1, false, Some("Cannot write file: "@ + error@)),
    {
        let mut m = String::from_str("Failed to create output file: ");
        m.append(error);
        (ReceiverNotice::Error(m), write_failure_ack(error))
    }

    /// Whether a data frame has a file to go to; without one it is refused
    /// with [`ReceiveSession::stray_chunk`].
    pub fn has_active(&self) -> (r: bool)
        ensures
            r == self.active is Some,
    {
        self.active.is_some()
    }

    /// The notice for data that arrived with no file in progress.
    pub fn stray_chunk() -> (r: ReceiverNotice)
        ensures
            r matches ReceiverNotice::Error(m) && m@ == "Received binary data without active transfer"@,
    {
        ReceiverNotice::Error(String::from_str("Received binary data without active transfer"))
    }

    /// A data frame was written to the output file: it is added to the
    /// digest, and the total written so far is returned.
    pub fn chunk_written(&mut self, data: &[u8]) -> (r: u64)
        requires
            old(self).well_formed(),
            old(self).active is Some,
            old(self).active->0.verifier.written() + data@.len() <= u64::MAX,
        ensures
            final(self).well_formed(),
            final(self).active matches Some(a) && a.file_name == old(self).active->0.file_name
                && a.total_size == old(self).active->0.total_size && a.verifier.received()
                == old(self).active->0.verifier.received() + data@ && a.verifier.announced()
                == old(self).active->0.verifier.announced() && r == a.verifier.written(),
    {
        let mut a = self.active.take().unwrap();
        let w = a.verifier.record_chunk(data);
        self.active = Some(a);
        w
    }

    /// Writing a data frame failed: the error is reported and the frame is
    /// not counted.
    pub fn chunk_failed(&self, error: &str) -> (r: ReceiverNotice)
        requires
            self.active is Some,
        ensures
            r matches ReceiverNotice::Error(m) && m@ == "Write error for '"@
                + self.active->0.file_name@ + "': "@ + error@,
    {
        let a = self.active.as_ref().unwrap();
        let mut m = String::from_str("Write error for '");
        m.append(a.file_name.as_str());
        m.append("': ");
        m.append(error);
        ReceiverNotice::Error(m)
    }

    /// The file in progress is complete: `flushed` tells whether flushing
    /// the output file worked. The announced checksum replaces the one from
    /// the start of the file; the file is kept only when the digest of what
    /// was written matches it. With no file in progress nothing happens.
    pub fn finish_file(&mut self, checksum: String, flushed: Result<(), String>) -> (r: Option<FinishOutcome>)
        requires
            old(self).well_formed(),
        ensures
            final(self).well_formed(),
            final(self).active is None,
            old(self).active is None ==> r is None,
            old(self).active matches Some(a) ==> r matches Some(o) && {
                let verified = checksum_agrees(digest_hex(a.verifier.received()), checksum@);
                &&& o.file_name == a.file_name
                &&& o.bytes == a.verifier.written()
                &&& match flushed {
                    Err(e) => {
                        &&& !o.saved
                        &&& o.reply is None
                        &&& o.notices@ == seq![
                            ReceiverNotice::FileFailed { file_name: a.file_name, error: e },
                        ]
                    },
                    Ok(_) => {
                        &&& o.saved == verified
                        &&& o.reply matches Some(m) && is_file_ack(
                            m,
                            verified,
                            if verified {
                                None
                            } else {
                                Some("Checksum mismatch"@)
                            },
                        )
                        &&& verified ==> o.notices@ == seq![
                            ReceiverNotice::FileCompleted { file_name: a.file_name, verified: true },
                        ]
                        &&& !verified ==> o.notices@.len() == 2 && (o.notices@[0] matches ReceiverNotice::FileFailed {
                            file_name,
                            error,
                        } && file_name == a.file_name && error@ == "Checksum mismatch"@) && (
                        o.notices@[1] matches ReceiverNotice::Error(m) && m@ == "✗ '"@
                            + a.file_name@ + "' checksum FAILED"@)
                    },
                }
            },
    {
        let a = match self.active.take() {
            Some(a) => a,
            None => {
                return None;
            },
        };
        let ActiveFile { file_name, total_size: _, verifier } = a;
        let bytes = verifier.bytes_written();
        let mut notices: Vec<ReceiverNotice> = Vec::new();
        match flushed {
            Err(e) => {
                notices.push(ReceiverNotice::FileFailed { file_name: file_name.clone(), error: e });
                Some(FinishOutcome { file_name, bytes, saved: false, notices, reply: None })
            },
            Ok(_) => {
                let mut v = verifier;
                v.set_expected_hash(checksum);
                let verified = v.finalize();
                if verified {
                    notices.push(
                        ReceiverNotice::FileCompleted { file_name: file_name.clone(), verified: true },
                    );
                } else {
                    notices.push(
                        ReceiverNotice::FileFailed {
                            file_name: file_name.clone(),
                            error: String::from_str("Checksum mismatch"),
                        },
                    );
                    let mut m = String::from_str("✗ '");
                    m.append(file_name.as_str());
                    m.append("' checksum FAILED");
                    notices.push(ReceiverNotice::Error(m));
                }
                Some(
                    FinishOutcome {
                        file_name,
                        bytes,
                        saved: verified,
                        notices,
                        reply: Some(file_ack(verified)),
                    },
                )
            },
        }
    }

    /// The log line for a frame the phone's app sends beside the transfer
    /// protocol: a push acknowledgement names the transfer by the first
    /// eight bytes of its id (the id must be at least that long, split at a
    /// character boundary); a key exchange is only noted.
    pub fn phone_frame_notice(frame: &PhoneFrame) -> (r: ReceiverNotice)
        requires
            frame matches PhoneFrame::PushAck { transfer_id, .. } ==> vstd::utf8::is_char_boundary(
                vstd::utf8::encode_utf8(transfer_id@),
                8,
            ),
        ensures
            match *frame {
                PhoneFrame::PushAck { success, transfer_id } => exists|h: Seq<char>|
                    #[trigger] is_id_head(h, transfer_id@) && if success {
                        r matches ReceiverNotice::Log(m) && m@ == "[PUSH] Transfer "@ + h
                            + " acknowledged by phone"@
                    } else {
                        r matches ReceiverNotice::Error(m) && m@ == "[PUSH] Transfer "@ + h
                            + " failed on phone side"@
                    },
                PhoneFrame::KeyExchange { .. } => r matches ReceiverNotice::Log(m) && m@
                    == "[ENC] Received phone's ECDH public key"@,
            },
    {
        match frame {
            PhoneFrame::PushAck { success, transfer_id } => {
                let (head, _) = transfer_id.as_str().split_at(8);
                let mut m = String::from_str("[PUSH] Transfer ");
                m.append(head);
                assert(is_id_head(head@, transfer_id@));
                if *success {
                    m.append(" acknowledged by phone");
                    ReceiverNotice::Log(m)
                } else {
                    m.append(" failed on phone side");
                    ReceiverNotice::Error(m)
                }
            },
            PhoneFrame::KeyExchange { .. } => ReceiverNotice::Log(
                String::from_str("[ENC] Received phone's ECDH public key"),
            ),
        }
    }

    /// A text frame that is not a valid control message.
    pub fn bad_control(error: &str) -> (r: ReceiverNotice)
        ensures
            r matches ReceiverNotice::Error(m) && m@ == "Bad control frame: "@ + error@,
    {
        let mut m = String::from_str("Bad control frame: ");
        m.append(error);
        ReceiverNotice::Error(m)
    }
}

/// The log line of a saved file without its elapsed time: `✓ 'name' saved
/// (size in `; the caller appends the seconds and `s)`.
pub fn saved_log_prefix(name: &str, bytes: u64) -> (r: String)
    ensures
        r@ == saved_prefix(name@, bytes as nat),
{
    let mut m = String::from_str("✓ '");
    m.append(name);
    m.append("' saved (");
    let b = format_bytes(bytes);
    m.append(b.as_str());
    m.append(" in ");
    m
}

} // verus!
