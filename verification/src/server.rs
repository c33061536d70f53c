//! Decisions of the receiving server and of senders: the single-device
//! session lock, how control messages are answered, how files are cut into
//! binary frames, and how a finished file is acknowledged.
//!
//! Sockets, the HTTP server and the files on disk live outside the library.
use vstd::prelude::*;
use crate::integrity::{checksum_agrees, digest_hex, ChunkVerifier};
use crate::protocol::ControlMessage;
use crate::text::str_eq;

verus! {

/// A request to push a file from the laptop to the phone.
#[derive(Debug, Clone, PartialEq, Eq)]
pub struct PushRequest {
    pub name: String,
    pub data: Vec<u8>,
    pub sha256: String,
}

// ─── Session lock ───────────────────────────────────────────────────────────

/// Admission of devices to the receiving server. In single-device mode the
/// first device that connects locks the session until it disconnects; in
/// multi-device mode every device is admitted.
pub struct SessionGate {
    /// Whether several devices may be connected at once.
    pub multi: bool,
    /// The address of the device the session is locked to, if any.
    pub locked_to: Option<String>,
}

/// Whether a device at `peer` may open a connection.
pub open spec fn admits_spec(g: SessionGate, peer: Seq<char>) -> bool {
    g.multi || match g.locked_to {
        None => true,
        Some(a) => a@ == peer,
    }
}

impl SessionGate {
    /// A gate with no device connected.
    pub fn new(multi: bool) -> (r: SessionGate)
        ensures
            r.multi == multi,
            r.locked_to is None,
    {
        SessionGate { multi, locked_to: None }
    }

    /// Whether a device at `peer` may open a connection: always in
    /// multi-device mode, otherwise when no other device holds the lock.
    pub fn admits(&self, peer: &str) -> (r: bool)
        ensures
            r == admits_spec(*self, peer@),
    {
        if self.multi {
            return true;
        }
        match &self.locked_to {
            None => true,
            Some(a) => str_eq(a.as_str(), peer),
        }
    }

    /// A device connected: in single-device mode the session is locked to it.
    pub fn lock(&mut self, peer: String)
        ensures
            final(self).multi == old(self).multi,
            final(self).locked_to == if old(self).multi {
                old(self).locked_to
            } else {
                Some(peer)
            },
    {
        if !self.multi {
            self.locked_to = Some(peer);
        }
    }

    /// The connected device left: the lock is released.
    pub fn release(&mut self)
        ensures
            final(self).multi == old(self).multi,
            final(self).locked_to is None,
    {
        self.locked_to = None;
    }
}

/// In single-device mode, once a device holds the session every other
/// device is refused and the holder itself is still admitted.
pub proof fn lemma_lock_excludes_others(g: SessionGate, holder: String, other: Seq<char>)
    requires
        !g.multi,
        g.locked_to == Some(holder),
    ensures
        other != holder@ ==> !admits_spec(g, other),
        admits_spec(g, holder@),
{
}

/// After the holder disconnects, any device is admitted again; in
/// multi-device mode every device is always admitted.
pub proof fn lemma_release_readmits(g: SessionGate, peer: Seq<char>)
    ensures
        g.locked_to is None ==> admits_spec(g, peer),
        g.multi ==> admits_spec(g, peer),
{
}

// ─── Answers to control messages ────────────────────────────────────────────

/// The answer the receiver owes a control message that needs one at once:
/// a pong echoing a ping's timestamp.
pub open spec fn immediate_reply(msg: ControlMessage) -> Option<ControlMessage> {
    match msg {
        ControlMessage::Ping { timestamp } => Some(ControlMessage::Pong { timestamp }),
        _ => None,
    }
}

/// Answers a control message that requires an immediate reply.
pub fn reply_to(msg: &ControlMessage) -> (r: Option<ControlMessage>)
    ensures
        r == immediate_reply(*msg),
{
    match msg {
        ControlMessage::Ping { timestamp } => Some(ControlMessage::Pong { timestamp: *timestamp }),
        _ => None,
    }
}

/// The acknowledgement for a file whose digest did (or did not) match.
pub fn file_ack(verified: bool) -> (r: ControlMessage)
    ensures
        match r {
            ControlMessage::FileAck { success, error } => {
                &&& success == verified
                &&& match error {
                    None => verified,
                    Some(e) => !verified && e@ == "Checksum mismatch"@,
                }
            },
            _ => false,
        },
{
    if verified {
        ControlMessage::FileAck { success: true, error: None }
    } else {
        ControlMessage::FileAck { success: false, error: Some(String::from_str("Checksum mismatch")) }
    }
}

/// Finishes a received file: its digest is checked against the announced
/// checksum and the sender is answered with a positive or negative
/// acknowledgement accordingly.
pub fn acknowledge(verifier: ChunkVerifier) -> (r: (bool, ControlMessage))
    ensures
        r.0 == checksum_agrees(digest_hex(verifier.received()), verifier.announced()),
        match r.1 {
            ControlMessage::FileAck { success, error } => {
                &&& success == r.0
                &&& match error {
                    None => r.0,
                    Some(e) => !r.0 && e@ == "Checksum mismatch"@,
                }
            },
            _ => false,
        },
{
    let verified = verifier.finalize();
    (verified, file_ack(verified))
}

/// The negative acknowledgement sent when the output file cannot be created.
pub fn write_failure_ack(reason: &str) -> (r: ControlMessage)
    ensures
        match r {
            ControlMessage::FileAck { success, error } => {
                &&& !success
                &&& match error {
                    Some(e) => e@ == "Cannot write file: "@ + reason@,
                    None => false,
                }
            },
            _ => false,
        },
{
    let mut e = String::from_str("Cannot write file: ");
    e.append(reason);
    ControlMessage::FileAck { success: false, error: Some(e) }
}

// ─── Framing ────────────────────────────────────────────────────────────────

/// `data` cut into consecutive pieces of `size` bytes, the last one possibly
/// shorter (`slice::chunks`).
pub open spec fn chunks_spec(data: Seq<u8>, size: nat) -> Seq<Seq<u8>>
    decreases data.len(),
{
    if data.len() == 0 || size == 0 {
        Seq::empty()
    } else if data.len() <= size {
        seq![data]
    } else {
        seq![data.take(size as int)] + chunks_spec(data.skip(size as int), size)
    }
}

/// The pieces joined back together.
pub open spec fn concat_chunks(chunks: Seq<Seq<u8>>) -> Seq<u8>
    decreases chunks.len(),
{
    if chunks.len() == 0 {
        Seq::empty()
    } else {
        chunks[0] + concat_chunks(chunks.drop_first())
    }
}

/// Joining the frames of a file gives the file back, and every frame is
/// non-empty and at most `size` bytes long.
pub proof fn lemma_chunks_reassemble(data: Seq<u8>, size: nat)
    requires
        size > 0,
    ensures
        concat_chunks(chunks_spec(data, size)) == data,
        forall|i: int|
            0 <= i < chunks_spec(data, size).len() ==> 0 < (#[trigger] chunks_spec(data, size)[i]).len()
                <= size,
    decreases data.len(),
{
    if data.len() > size {
        lemma_chunks_reassemble(data.skip(size as int), size);
        let rest = chunks_spec(data.skip(size as int), size);
        let all = chunks_spec(data, size);
        assert(all.drop_first() =~= rest);
        assert(all[0] == data.take(size as int));
        assert(concat_chunks(all) == all[0] + concat_chunks(all.drop_first()));
        assert(data.take(size as int) + data.skip(size as int) =~= data);
        assert forall|i: int| 0 <= i < chunks_spec(data, size).len() implies 0 < (
        #[trigger] chunks_spec(data, size)[i]).len() <= size by {
            if i > 0 {
                assert(chunks_spec(data, size)[i] == rest[i - 1]);
            }
        }
    } else if data.len() > 0 {
        let all = chunks_spec(data, size);
        assert(all.drop_first() =~= Seq::<Seq<u8>>::empty());
        assert(concat_chunks(all) == all[0] + concat_chunks(all.drop_first()));
        assert(data + Seq::<u8>::empty() =~= data);
    } else {
        assert(data =~= Seq::<u8>::empty());
    }
}

/// A copy of `data[lo..hi]`.
fn copy_range(data: &[u8], lo: usize, hi: usize) -> (r: Vec<u8>)
    requires
        lo <= hi <= data@.len(),
    ensures
        r@ == data@.subrange(lo as int, hi as int),
{
    let mut out: Vec<u8> = Vec::new();
    let mut i: usize = lo;
    while i < hi
        invariant
            lo <= i <= hi <= data@.len(),
            out@ == data@.subrange(lo as int, i as int),
        decreases hi - i,
    {
        out.push(data[i]);
        assert(out@ =~= data@.subrange(lo as int, i + 1));
        i = i + 1;
    }
    out
}

/// Cuts a file's bytes into binary frames of at most `size` bytes.
pub fn split_into_chunks(data: &[u8], size: usize) -> (r: Vec<Vec<u8>>)
    requires
        size > 0,
    ensures
        r@.map_values(|c: Vec<u8>| c@) == chunks_spec(data@, size as nat),
{
    let n = data.len();
    let mut out: Vec<Vec<u8>> = Vec::new();
    let mut lo: usize = 0;
    assert(data@.skip(0) =~= data@);
    assert(out@.map_values(|c: Vec<u8>| c@) + chunks_spec(data@, size as nat) =~= chunks_spec(
        data@,
        size as nat,
    ));
    while lo < n
        invariant
            n == data@.len(),
            lo <= n,
            size > 0,
            out@.map_values(|c: Vec<u8>| c@) + chunks_spec(data@.skip(lo as int), size as nat)
                == chunks_spec(data@, size as nat),
        decreases n - lo,
    {
        let hi = if n - lo > size {
            lo + size
        } else {
            n
        };
        let piece = copy_range(data, lo, hi);
        let ghost rest = data@.skip(lo as int);
        proof {
            if n - lo > size {
                assert(rest.take(size as int) =~= piece@);
                assert(rest.skip(size as int) =~= data@.skip(hi as int));
            } else {
                assert(rest =~= piece@);
                assert(data@.skip(hi as int) =~= Seq::<u8>::empty());
            }
        }
        out.push(piece);
        assert(out@.map_values(|c: Vec<u8>| c@) + chunks_spec(data@.skip(hi as int), size as nat)
            =~= chunks_spec(data@, size as nat));
        lo = hi;
    }
    assert(data@.skip(n as int) =~= Seq::<u8>::empty());
    assert(out@.map_values(|c: Vec<u8>| c@) =~= chunks_spec(data@, size as nat));
    out
}

/// A sender's whole file, cut into frames and recorded frame by frame on
/// the receiving side, is accepted when it is announced with the sender's
/// own checksum.
pub proof fn lemma_reassembled_file_accepted(data: Seq<u8>, size: nat)
    requires
        size > 0,
    ensures
        checksum_agrees(
            digest_hex(concat_chunks(chunks_spec(data, size))),
            "sha256:"@ + digest_hex(data),
        ),
{
    lemma_chunks_reassemble(data, size);
    crate::integrity::lemma_sender_checksum_accepted(data);
}

} // verus!
