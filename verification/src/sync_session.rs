//! The two ends of a folder sync, as decisions: how the manifest is built
//! and ordered, which frames carry a file, what the source sends for each
//! change in the watched folder, and what the listener does with each
//! message it receives.
//!
//! Reading and writing files, the watcher and the socket live outside the
//! library.
use vstd::prelude::*;
use crate::integrity::{checksum_agrees, digest_hex, file_done_checksum, sha256_hex, verify_received};
use crate::protocol::{format_bytes, format_bytes_spec};
use crate::server::{chunks_spec, split_into_chunks};
use crate::sync::{SyncEvent, SyncFileEntry, SyncMessage, SyncStatus, SyncTuiEvent, SYNC_CHUNK_SIZE, SYNC_PORT};
use crate::text::{
    decimal, lemma_seq_le_trans, lemma_seq_lt_irreflexive, lemma_seq_lt_total, lemma_seq_lt_trans,
    push_char, push_decimal, seq_lt, str_less,
};

verus! {

broadcast use vstd::seq_lib::to_multiset_insert, vstd::seq_lib::to_multiset_build;

// ─── Paths ──────────────────────────────────────────────────────────────────

/// `s` with every backslash turned into a slash.
pub open spec fn slashed(s: Seq<char>) -> Seq<char> {
    s.map_values(|c: char| if c == '\\' { '/' } else { c })
}

/// A relative path as the sync protocol writes it: with `/` separators on
/// every platform.
pub fn slash_path(s: &str) -> (r: String)
    ensures
        r@ == slashed(s@),
{
    let n = s.unicode_len();
    let mut out = String::new();
    let mut i: usize = 0;
    while i < n
        invariant
            n == s@.len(),
            i <= n,
            out@ == slashed(s@.take(i as int)),
        decreases n - i,
    {
        let c = s.get_char(i);
        push_char(&mut out, if c == '\\' { '/' } else { c });
        assert(slashed(s@.take(i + 1)) =~= slashed(s@.take(i as int)).push(
            if c == '\\' { '/' } else { c },
        ));
        i = i + 1;
    }
    assert(s@.take(n as int) =~= s@);
    out
}

// ─── Manifest ───────────────────────────────────────────────────────────────

/// The manifest entry of a file at relative path `rel` with contents
/// `data`: its slashed path, its size and its SHA-256 hex digest.
pub fn manifest_entry(rel: &str, data: &[u8]) -> (r: SyncFileEntry)
    ensures
        r.path@ == slashed(rel@),
        r.size == data@.len(),
        r.sha256@ == digest_hex(data@),
{
    SyncFileEntry { path: slash_path(rel), size: data.len() as u64, sha256: sha256_hex(data) }
}

/// Entries in non-decreasing path order.
pub open spec fn sorted_by_path(s: Seq<SyncFileEntry>) -> bool {
    forall|i: int, j: int| 0 <= i < j < s.len() ==> !seq_lt(#[trigger] s[j].path@, #[trigger] s[i].path@)
}

/// Orders a manifest by path, keeping entries with equal paths in their
/// order (`sort_by` on the path).
pub fn sort_manifest(entries: Vec<SyncFileEntry>) -> (r: Vec<SyncFileEntry>)
    ensures
        sorted_by_path(r@),
        r@.to_multiset() == entries@.to_multiset(),
{
    let ghost input = entries@;
    let mut rest = entries;
    let mut out: Vec<SyncFileEntry> = Vec::new();
    let mut done: usize = 0;
    let total = rest.len();
    assert(input.len() == total);
    assert(input.take(0) =~= Seq::<SyncFileEntry>::empty());
    assert(input.skip(0) =~= input);
    assert(out@ =~= Seq::<SyncFileEntry>::empty());
    while rest.len() > 0
        invariant
            input.len() <= usize::MAX,
            done + rest@.len() == input.len(),
            rest@ == input.skip(done as int),
            out@.to_multiset() == input.take(done as int).to_multiset(),
            sorted_by_path(out@),
        decreases rest@.len(),
    {
        let e = rest.remove(0);
        assert(e == input[done as int]);
        let mut k: usize = out.len();
        while k > 0 && str_less(e.path.as_str(), out[k - 1].path.as_str())
            invariant
                k <= out@.len(),
                sorted_by_path(out@),
                forall|j: int| k <= j < out@.len() ==> seq_lt(e.path@, #[trigger] out@[j].path@),
            decreases k,
        {
            k = k - 1;
        }
        let ghost before = out@;
        proof {
            if k > 0 {
                assert forall|i: int| 0 <= i < k implies !seq_lt(e.path@, #[trigger] before[i].path@) by {
                    if i < k - 1 {
                        lemma_seq_le_trans(before[i].path@, before[k - 1].path@, e.path@);
                    }
                }
            }
        }
        out.insert(k, e);
        proof {
            let s = out@;
            assert(s == before.insert(k as int, e));
            assert forall|i: int, j: int| 0 <= i < j < s.len() implies !seq_lt(
                #[trigger] s[j].path@,
                #[trigger] s[i].path@,
            ) by {
                if j < k {
                    assert(s[i] == before[i] && s[j] == before[j]);
                } else if j == k {
                    assert(s[i] == before[i]);
                } else if i == k {
                    assert(s[j] == before[j - 1]);
                    lemma_seq_lt_total(e.path@, before[j - 1].path@);
                    if seq_lt(before[j - 1].path@, e.path@) {
                        lemma_seq_lt_trans(e.path@, before[j - 1].path@, e.path@);
                        lemma_seq_lt_irreflexive(e.path@);
                    }
                } else if i < k {
                    assert(s[i] == before[i] && s[j] == before[j - 1]);
                    lemma_seq_lt_total(e.path@, before[j - 1].path@);
                    if seq_lt(before[j - 1].path@, before[i].path@) {
                        if seq_lt(before[j - 1].path@, e.path@) {
                            lemma_seq_lt_trans(e.path@, before[j - 1].path@, e.path@);
                            lemma_seq_lt_irreflexive(e.path@);
                        }
                        lemma_seq_lt_trans(e.path@, before[j - 1].path@, before[i].path@);
                    }
                } else {
                    assert(s[i] == before[i - 1] && s[j] == before[j - 1]);
                }
            }
            assert(input.take(done + 1) =~= input.take(done as int).push(input[done as int]));
        }
        done = done + 1;
        assert(rest@ =~= input.skip(done as int));
    }
    assert(input.take(done as int) =~= input);
    out
}

// ─── Sending a file ─────────────────────────────────────────────────────────

/// The frames that carry one file to the peer.
pub struct SyncFrames {
    /// `SyncFileStart` with the path, size and digest.
    pub start: SyncMessage,
    /// The contents in chunks of [`SYNC_CHUNK_SIZE`] bytes.
    pub chunks: Vec<Vec<u8>>,
    /// `SyncFileDone` with the path and `"sha256:<hex>"`.
    pub done: SyncMessage,
    /// What the dashboard is told once the frames are sent.
    pub sent: SyncTuiEvent,
}

/// Frames the file at relative path `path` with contents `data`.
pub fn file_frames(path: &str, data: &[u8]) -> (r: SyncFrames)
    ensures
        r.start matches SyncMessage::SyncFileStart { path: p, size, sha256 } && p@ == path@ && size
            == data@.len() && sha256@ == digest_hex(data@),
        r.chunks@.map_values(|c: Vec<u8>| c@) == chunks_spec(data@, SYNC_CHUNK_SIZE as nat),
        r.done matches SyncMessage::SyncFileDone { path: p, checksum } && p@ == path@ && checksum@
            == "sha256:"@ + digest_hex(data@),
        r.sent matches SyncTuiEvent::FileSync { path: p, size, direction } && p@ == path@ && size
            == data@.len() && direction@ == "→ sent"@,
{
    let hash = sha256_hex(data);
    let size = data.len() as u64;
    let start = SyncMessage::SyncFileStart {
        path: String::from_str(path),
        size,
        sha256: hash.clone(),
    };
    let chunks = split_into_chunks(data, SYNC_CHUNK_SIZE);
    let done = SyncMessage::SyncFileDone {
        path: String::from_str(path),
        checksum: file_done_checksum(hash.as_str()),
    };
    let sent = SyncTuiEvent::FileSync {
        path: String::from_str(path),
        size,
        direction: String::from_str("→ sent"),
    };
    SyncFrames { start, chunks, done, sent }
}

// ─── Source side ────────────────────────────────────────────────────────────

/// What the source does about one change in the watched folder.
pub enum SourceAction {
    /// Read the file at this (slashed) path and send its frames
    /// ([`file_frames`]); afterwards the status returns to watching.
    SendFile { path: String },
    /// Send this message.
    Send(SyncMessage),
}

/// The source's reaction to a change: created and modified files are sent,
/// deletions and new directories are forwarded.
pub fn on_watch_event(ev: &SyncEvent) -> (r: (Vec<SyncTuiEvent>, SourceAction))
    ensures
        match *ev {
            SyncEvent::FileCreated { relative_path } => {
                &&& r.0@.len() == 2
                &&& r.0@[0] matches SyncTuiEvent::StatusChanged(SyncStatus::Syncing)
                &&& r.0@[1] matches SyncTuiEvent::Log(m) && m@ == "[SYNC] Modified: "@ + slashed(
                    relative_path@,
                )
                &&& r.1 matches SourceAction::SendFile { path } && path@ == slashed(relative_path@)
            },
            SyncEvent::FileModified { relative_path } => {
                &&& r.0@.len() == 2
                &&& r.0@[0] matches SyncTuiEvent::StatusChanged(SyncStatus::Syncing)
                &&& r.0@[1] matches SyncTuiEvent::Log(m) && m@ == "[SYNC] Modified: "@ + slashed(
                    relative_path@,
                )
                &&& r.1 matches SourceAction::SendFile { path } && path@ == slashed(relative_path@)
            },
            SyncEvent::FileDeleted { relative_path } => {
                &&& r.0@.len() == 1
                &&& r.0@[0] matches SyncTuiEvent::Log(m) && m@ == "[SYNC] Deleted: "@ + slashed(
                    relative_path@,
                )
                &&& r.1 matches SourceAction::Send(SyncMessage::SyncDelete { path }) && path@
                    == slashed(relative_path@)
            },
            SyncEvent::DirCreated { relative_path } => {
                &&& r.0@.len() == 0
                &&& r.1 matches SourceAction::Send(SyncMessage::SyncMkdir { path }) && path@
                    == slashed(relative_path@)
            },
        },
{
    let mut events: Vec<SyncTuiEvent> = Vec::new();
    match ev {
        SyncEvent::FileCreated { relative_path } | SyncEvent::FileModified { relative_path } => {
            let rel = slash_path(relative_path.as_str());
            events.push(SyncTuiEvent::StatusChanged(SyncStatus::Syncing));
            let mut m = String::from_str("[SYNC] Modified: ");
            m.append(rel.as_str());
            events.push(SyncTuiEvent::Log(m));
            (events, SourceAction::SendFile { path: rel })
        },
        SyncEvent::FileDeleted { relative_path } => {
            let rel = slash_path(relative_path.as_str());
            let mut m = String::from_str("[SYNC] Deleted: ");
            m.append(rel.as_str());
            events.push(SyncTuiEvent::Log(m));
            (events, SourceAction::Send(SyncMessage::SyncDelete { path: rel }))
        },
        SyncEvent::DirCreated { relative_path } => {
            let rel = slash_path(relative_path.as_str());
            (events, SourceAction::Send(SyncMessage::SyncMkdir { path: rel }))
        },
    }
}

/// The log line before connecting to the listener at `peer_ip`.
pub fn source_connecting_log(peer_ip: &str) -> (r: String)
    ensures
        r@ == "[SYNC] Connecting to "@ + peer_ip@ + ":"@ + decimal(SYNC_PORT as nat) + "..."@,
{
    let mut s = String::from_str("[SYNC] Connecting to ");
    s.append(peer_ip);
    s.append(":");
    push_decimal(&mut s, SYNC_PORT as u64);
    s.append("...");
    s
}

/// The sync endpoint of the listener at `peer_ip`.
pub fn sync_url(peer_ip: &str) -> (r: String)
    ensures
        r@ == "ws://"@ + peer_ip@ + ":"@ + decimal(SYNC_PORT as nat) + "/sync"@,
{
    let mut s = String::from_str("ws://");
    s.append(peer_ip);
    s.append(":");
    push_decimal(&mut s, SYNC_PORT as u64);
    s.append("/sync");
    s
}

/// The log line announcing the initial transfer.
pub fn initial_sync_log(count: usize) -> (r: String)
    ensures
        r@ == "[SYNC] Initial sync: "@ + decimal(count as nat) + " files to transfer"@,
{
    let mut s = String::from_str("[SYNC] Initial sync: ");
    push_decimal(&mut s, count as u64);
    s.append(" files to transfer");
    s
}

// ─── Listener side ──────────────────────────────────────────────────────────

/// A file the listener is receiving.
pub struct SyncReceive {
    /// Its path relative to the save directory.
    pub path: String,
    /// The bytes received so far.
    pub data: Vec<u8>,
    /// Its announced size.
    pub expected_size: u64,
    /// Its announced digest.
    pub expected_hash: String,
}

/// The listener's side of one sync connection.
pub struct SyncListenerSession {
    /// The file being received, if any.
    pub active: Option<SyncReceive>,
}

/// What the listener does with a message, besides what it reports.
pub enum ListenerAction {
    /// Send our own manifest back.
    ReplyManifest,
    /// Write these bytes to this path under the save directory (creating
    /// its parent directories), then report with [`stored_event`]; the
    /// message's own path is kept for the error report.
    Store { path: String, data: Vec<u8>, size: u64, message_path: String },
    /// Remove this path under the save directory, if it exists.
    Delete { path: String },
    /// Create this directory under the save directory.
    Mkdir { path: String },
    /// Nothing.
    Nothing,
}

/// One step of the listener.
pub struct ListenerStep {
    /// What the dashboard is told.
    pub events: Vec<SyncTuiEvent>,
    /// What to do.
    pub action: ListenerAction,
    /// The acknowledgement to send, when one is owed.
    pub ack: Option<SyncMessage>,
}

impl SyncListenerSession {
    /// A connection with nothing being received.
    pub fn new() -> (r: SyncListenerSession)
        ensures
            r.active is None,
    {
        SyncListenerSession { active: None }
    }

    /// Data arrived: it is appended to the file being received, if any.
    pub fn on_binary(&mut self, data: &[u8])
        ensures
            old(self).active is None ==> final(self).active is None,
            old(self).active matches Some(a) ==> final(self).active matches Some(b) && b.path
                == a.path && b.expected_size == a.expected_size && b.expected_hash
                == a.expected_hash && b.data@ == a.data@ + data@,
    {
        match self.active.take() {
            None => {},
            Some(a) => {
                let SyncReceive { path, data: mut buf, expected_size, expected_hash } = a;
                let mut i: usize = 0;
                let ghost start = buf@;
                while i < data.len()
                    invariant
                        i <= data@.len(),
                        buf@ == start + data@.take(i as int),
                    decreases data@.len() - i,
                {
                    buf.push(data[i]);
                    assert(buf@ =~= start + data@.take(i + 1));
                    i = i + 1;
                }
                assert(data@.take(data@.len() as int) =~= data@);
                self.active = Some(SyncReceive { path, data: buf, expected_size, expected_hash });
            },
        }
    }

    /// A control message arrived.
    pub fn on_message(&mut self, msg: SyncMessage) -> (r: ListenerStep)
        ensures
            match msg {
                SyncMessage::SyncManifest { .. } => {
                    &&& r.events@.len() == 0
                    &&& r.action matches ListenerAction::ReplyManifest
                    &&& r.ack is None
                    &&& final(self).active == old(self).active
                },
                SyncMessage::SyncFileStart { path, size, sha256 } => {
                    &&& r.events@.len() == 1
                    &&& r.events@[0] matches SyncTuiEvent::Log(m) && m@ == "[SYNC] Receiving: "@
                        + path@ + " ("@ + format_bytes_spec(size as nat) + ")"@
                    &&& r.action matches ListenerAction::Nothing
                    &&& r.ack is None
                    &&& final(self).active matches Some(a) && a.path == path && a.data@.len() == 0
                        && a.expected_size == size && a.expected_hash == sha256
                },
                SyncMessage::SyncFileDone { path, checksum } => {
                    &&& final(self).active is None
                    &&& match old(self).active {
                        None => r.events@.len() == 0 && r.action is Nothing && r.ack is None,
                        Some(a) => {
                            let ok = checksum_agrees(digest_hex(a.data@), checksum@);
                            &&& r.ack matches Some(SyncMessage::SyncAck { success }) && success == ok
                            &&& ok ==> r.events@.len() == 0 && (r.action matches ListenerAction::Store {
                                path: p,
                                data,
                                size,
                                message_path,
                            } && p == a.path && data@ == a.data@ && size == a.expected_size
                                && message_path == path)
                            &&& !ok ==> r.action is Nothing && r.events@.len() == 1 && (
                            r.events@[0] matches SyncTuiEvent::Error(m) && m@
                                == "[SYNC] Checksum mismatch for "@ + path@)
                        },
                    }
                },
                SyncMessage::SyncDelete { path } => {
                    &&& r.events@.len() == 1
                    &&& r.events@[0] matches SyncTuiEvent::Log(m) && m@ == "[SYNC] Deleting: "@
                        + path@
                    &&& r.action matches ListenerAction::Delete { path: p } && p == path
                    &&& r.ack is None
                    &&& final(self).active == old(self).active
                },
                SyncMessage::SyncMkdir { path } => {
                    &&& r.events@.len() == 0
                    &&& r.action matches ListenerAction::Mkdir { path: p } && p == path
                    &&& r.ack is None
                    &&& final(self).active == old(self).active
                },
                SyncMessage::SyncAck { .. } => {
                    &&& r.events@.len() == 0
                    &&& r.action is Nothing
                    &&& r.ack is None
                    &&& final(self).active == old(self).active
                },
            },
    {
        let mut events: Vec<SyncTuiEvent> = Vec::new();
        match msg {
            SyncMessage::SyncManifest { .. } => ListenerStep {
                events,
                action: ListenerAction::ReplyManifest,
                ack: None,
            },
            SyncMessage::SyncFileStart { path, size, sha256 } => {
                let mut m = String::from_str("[SYNC] Receiving: ");
                m.append(path.as_str());
                m.append(" (");
                let f = format_bytes(size);
                m.append(f.as_str());
                m.append(")");
                events.push(SyncTuiEvent::Log(m));
                self.active = Some(
                    SyncReceive { path, data: Vec::new(), expected_size: size, expected_hash: sha256 },
                );
                ListenerStep { events, action: ListenerAction::Nothing, ack: None }
            },
            SyncMessage::SyncFileDone { path, checksum } => {
                match self.active.take() {
                    None => ListenerStep { events, action: ListenerAction::Nothing, ack: None },
                    Some(a) => {
                        let ok = verify_received(a.data.as_slice(), checksum.as_str());
                        if ok {
                            ListenerStep {
                                events,
                                action: ListenerAction::Store {
                                    path: a.path,
                                    data: a.data,
                                    size: a.expected_size,
                                    message_path: path,
                                },
                                ack: Some(SyncMessage::SyncAck { success: true }),
                            }
                        } else {
                            let mut m = String::from_str("[SYNC] Checksum mismatch for ");
                            m.append(path.as_str());
                            events.push(SyncTuiEvent::Error(m));
                            ListenerStep {
                                events,
                                action: ListenerAction::Nothing,
                                ack: Some(SyncMessage::SyncAck { success: false }),
                            }
                        }
                    },
                }
            },
            SyncMessage::SyncDelete { path } => {
                let mut m = String::from_str("[SYNC] Deleting: ");
                m.append(path.as_str());
                events.push(SyncTuiEvent::Log(m));
                ListenerStep { events, action: ListenerAction::Delete { path }, ack: None }
            },
            SyncMessage::SyncMkdir { path } => ListenerStep {
                events,
                action: ListenerAction::Mkdir { path },
                ack: None,
            },
            SyncMessage::SyncAck { .. } => ListenerStep {
                events,
                action: ListenerAction::Nothing,
                ack: None,
            },
        }
    }
}

/// What the dashboard is told after a verified file was written (`Ok`) or
/// could not be written (`Err` with the reason).
pub fn stored_event(message_path: &str, path: &str, size: u64, written: Result<(), String>) -> (r: SyncTuiEvent)
    ensures
        match written {
            Ok(_) => r matches SyncTuiEvent::FileSync { path: p, size: s, direction } && p@ == path@
                && s == size && direction@ == "← received"@,
            Err(e) => r matches SyncTuiEvent::Error(m) && m@ == "[SYNC] Write error for "@
                + message_path@ + ": "@ + e@,
        },
{
    match written {
        Ok(_) => SyncTuiEvent::FileSync {
            path: String::from_str(path),
            size,
            direction: String::from_str("← received"),
        },
        Err(e) => {
            let mut m = String::from_str("[SYNC] Write error for ");
            m.append(message_path);
            m.append(": ");
            m.append(e.as_str());
            SyncTuiEvent::Error(m)
        },
    }
}

/// A file sent by the source unchanged is written by the listener: the
/// frames of [`file_frames`], appended in order by the listener, give back
/// the contents, and its `SyncFileDone` checksum is accepted for them.
pub proof fn lemma_synced_file_is_stored(data: Seq<u8>)
    ensures
        crate::server::concat_chunks(chunks_spec(data, SYNC_CHUNK_SIZE as nat)) == data,
        checksum_agrees(
            digest_hex(crate::server::concat_chunks(chunks_spec(data, SYNC_CHUNK_SIZE as nat))),
            "sha256:"@ + digest_hex(data),
        ),
{
    crate::server::lemma_reassembled_file_accepted(data, SYNC_CHUNK_SIZE as nat);
    crate::server::lemma_chunks_reassemble(data, SYNC_CHUNK_SIZE as nat);
}

} // verus!
