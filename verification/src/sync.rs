//! LAN folder sync: the protocol types, the meaning of file-system change
//! notifications, burst de-duplication, and the initial manifest diff.
//!
//! Watching the folder, reading files and talking to the peer happen
//! outside the library; paths are carried as text relative to the synced
//! folder.
use vstd::prelude::*;
use crate::text::{seq_ends_with, seq_starts_with, ends_with, starts_with, str_eq};

verus! {

/// Sync port (separate from the transfer and share ports).
pub const SYNC_PORT: u16 = 7880;

/// Chunk size of file frames sent during sync.
pub const SYNC_CHUNK_SIZE: usize = 262144;

/// Sync mode — source pushes, listener receives.
#[derive(Debug, Clone, Copy, PartialEq, Eq, Structural)]
pub enum SyncMode {
    Source,
    Listener,
}

/// A file entry in the sync manifest.
#[derive(Debug, Clone, PartialEq, Eq)]
pub struct SyncFileEntry {
    pub path: String,
    pub size: u64,
    pub sha256: String,
}

/// Sync protocol messages (JSON, `"type"` tag, snake_case).
#[derive(Debug, Clone, PartialEq, Eq)]
pub enum SyncMessage {
    /// File manifest for initial sync comparison.
    SyncManifest { files: Vec<SyncFileEntry> },
    /// Start sending a file.
    SyncFileStart { path: String, size: u64, sha256: String },
    /// File transfer complete.
    SyncFileDone { path: String, checksum: String },
    /// Delete a file on the destination.
    SyncDelete { path: String },
    /// Create a directory on the destination.
    SyncMkdir { path: String },
    /// Acknowledgment.
    SyncAck { success: bool },
}

/// Sync status for the TUI.
#[derive(Debug, Clone, PartialEq, Eq)]
pub enum SyncStatus {
    Connecting,
    Watching,
    Syncing,
    Idle,
    Error(String),
}

/// The text a status is displayed as.
pub open spec fn status_text(s: SyncStatus) -> Seq<char> {
    match s {
        SyncStatus::Connecting => "CONNECTING"@,
        SyncStatus::Watching => "WATCHING"@,
        SyncStatus::Syncing => "SYNCING"@,
        SyncStatus::Idle => "IDLE"@,
        SyncStatus::Error(e) => "ERROR: "@ + e@,
    }
}

impl SyncStatus {
    /// The upper-case text the status is displayed as.
    pub fn display_string(&self) -> (r: String)
        ensures
            r@ == status_text(*self),
    {
        match self {
            SyncStatus::Connecting => String::from_str("CONNECTING"),
            SyncStatus::Watching => String::from_str("WATCHING"),
            SyncStatus::Syncing => String::from_str("SYNCING"),
            SyncStatus::Idle => String::from_str("IDLE"),
            SyncStatus::Error(e) => {
                let mut s = String::from_str("ERROR: ");
                s.append(e.as_str());
                s
            },
        }
    }
}

/// Events sent to the TUI from sync operations.
#[derive(Debug, Clone, PartialEq, Eq)]
pub enum SyncTuiEvent {
    StatusChanged(SyncStatus),
    Log(String),
    Error(String),
    FileSync { path: String, size: u64, direction: String },
}

// ─── File-system changes ────────────────────────────────────────────────────

/// A single file-system change, relative to the watched root.
#[derive(Debug, Clone, PartialEq, Eq)]
pub enum SyncEvent {
    /// A new regular file appeared.
    FileCreated { relative_path: String },
    /// An existing file's content was modified.
    FileModified { relative_path: String },
    /// A file was removed.
    FileDeleted { relative_path: String },
    /// A new directory was created.
    DirCreated { relative_path: String },
}

/// The path an event is about.
pub open spec fn path_of(ev: SyncEvent) -> Seq<char> {
    match ev {
        SyncEvent::FileCreated { relative_path } => relative_path@,
        SyncEvent::FileModified { relative_path } => relative_path@,
        SyncEvent::FileDeleted { relative_path } => relative_path@,
        SyncEvent::DirCreated { relative_path } => relative_path@,
    }
}

/// Extracts the relative path from any event.
pub fn event_path(ev: &SyncEvent) -> (r: &String)
    ensures
        r@ == path_of(*ev),
{
    match ev {
        SyncEvent::FileCreated { relative_path } => relative_path,
        SyncEvent::FileModified { relative_path } => relative_path,
        SyncEvent::FileDeleted { relative_path } => relative_path,
        SyncEvent::DirCreated { relative_path } => relative_path,
    }
}

impl SyncEvent {
    /// An identical, separately owned event.
    pub fn duplicate(&self) -> (r: SyncEvent)
        ensures
            r == *self,
    {
        match self {
            SyncEvent::FileCreated { relative_path } => SyncEvent::FileCreated {
                relative_path: relative_path.clone(),
            },
            SyncEvent::FileModified { relative_path } => SyncEvent::FileModified {
                relative_path: relative_path.clone(),
            },
            SyncEvent::FileDeleted { relative_path } => SyncEvent::FileDeleted {
                relative_path: relative_path.clone(),
            },
            SyncEvent::DirCreated { relative_path } => SyncEvent::DirCreated {
                relative_path: relative_path.clone(),
            },
        }
    }
}

/// A file name that editors and systems use for hidden, swap, backup or
/// lock files: `.x`, `x~`, `x.swp`, `x.swx`, `x.tmp`, `~$x`.
pub open spec fn temp_or_hidden_name(name: Seq<char>) -> bool {
    ||| seq_starts_with(name, "."@)
    ||| seq_ends_with(name, "~"@)
    ||| seq_ends_with(name, ".swp"@)
    ||| seq_ends_with(name, ".swx"@)
    ||| seq_ends_with(name, ".tmp"@)
    ||| seq_starts_with(name, "~$"@)
}

/// Returns `true` for paths that are likely editor swap or temporary files,
/// given the path's final component as text (`None` when the path has no
/// final component, or it is not valid UTF-8, which counts as temporary).
pub fn is_temp_or_hidden(file_name: Option<&str>) -> (r: bool)
    ensures
        r == match file_name {
            Some(n) => temp_or_hidden_name(n@),
            None => true,
        },
{
    match file_name {
        None => true,
        Some(name) => starts_with(name, ".") || ends_with(name, "~") || ends_with(name, ".swp")
            || ends_with(name, ".swx") || ends_with(name, ".tmp") || starts_with(name, "~$"),
    }
}

/// The kinds of raw change notification that the watcher distinguishes
/// (those of `notify::EventKind` it reacts to, and `Other` for the rest).
#[derive(Debug, Clone, Copy, PartialEq, Eq, Structural)]
pub enum FsEventKind {
    CreateFile,
    CreateFolder,
    CreateAny,
    ModifyData,
    ModifyAny,
    RenameTo,
    RenameFrom,
    RemoveFile,
    RemoveAny,
    RemoveFolder,
    Other,
}

/// Which event (by variant) a notification becomes: `0` created file,
/// `1` modified file, `2` deleted file, `3` created directory.
pub open spec fn event_variant(ev: SyncEvent) -> int {
    match ev {
        SyncEvent::FileCreated { .. } => 0,
        SyncEvent::FileModified { .. } => 1,
        SyncEvent::FileDeleted { .. } => 2,
        SyncEvent::DirCreated { .. } => 3,
    }
}

/// The variant a notification of `kind` on a path that is (or is not) a
/// directory maps to, if the sync reacts to it at all.
pub open spec fn translated_variant(kind: FsEventKind, is_dir: bool) -> Option<int> {
    match kind {
        FsEventKind::CreateFile => Some(0),
        FsEventKind::CreateFolder => Some(3),
        FsEventKind::CreateAny | FsEventKind::RenameTo => if is_dir {
            Some(3)
        } else {
            Some(0)
        },
        FsEventKind::ModifyData | FsEventKind::ModifyAny => if is_dir {
            None
        } else {
            Some(1)
        },
        FsEventKind::RenameFrom | FsEventKind::RemoveFile | FsEventKind::RemoveAny => Some(2),
        FsEventKind::RemoveFolder | FsEventKind::Other => None,
    }
}

/// The notification names a hidden or temporary file, or names none.
pub open spec fn temp_or_hidden_file(file_name: Option<&str>) -> bool {
    match file_name {
        Some(n) => temp_or_hidden_name(n@),
        None => true,
    }
}

/// What the notifications mean, whatever the path: removals and renames
/// away delete a file, creations and renames in create a file or a
/// directory, data changes modify a file, and a removed directory or any
/// other notification is not acted on.
pub proof fn lemma_notification_meanings(is_dir: bool)
    ensures
        translated_variant(FsEventKind::RemoveFile, is_dir) == Some(2int),
        translated_variant(FsEventKind::RemoveAny, is_dir) == Some(2int),
        translated_variant(FsEventKind::RenameFrom, is_dir) == Some(2int),
        translated_variant(FsEventKind::CreateFile, is_dir) == Some(0int),
        translated_variant(FsEventKind::CreateFolder, is_dir) == Some(3int),
        translated_variant(FsEventKind::CreateAny, is_dir) == Some(if is_dir { 3int } else { 0int }),
        translated_variant(FsEventKind::RenameTo, is_dir) == Some(if is_dir { 3int } else { 0int }),
        !is_dir ==> translated_variant(FsEventKind::ModifyData, is_dir) == Some(1int),
        !is_dir ==> translated_variant(FsEventKind::ModifyAny, is_dir) == Some(1int),
        translated_variant(FsEventKind::RemoveFolder, is_dir) is None,
        translated_variant(FsEventKind::Other, is_dir) is None,
{
}

/// Maps a raw notification to a sync event.
///
/// `relative_path` is the first path of the notification made relative to
/// the watched root (`None` when the notification has no path or the path is
/// outside the root), `file_name` its final component as text, and `is_dir`
/// whether that path is a directory. Hidden and temporary files are ignored.
pub fn translate_event(
    kind: FsEventKind,
    relative_path: Option<String>,
    file_name: Option<&str>,
    is_dir: bool,
) -> (r: Option<SyncEvent>)
    ensures
        match relative_path {
            None => r is None,
            Some(p) => {
                let ignored = match file_name {
                    Some(n) => temp_or_hidden_name(n@),
                    None => true,
                };
                if ignored {
                    r is None
                } else {
                    match translated_variant(kind, is_dir) {
                        None => r is None,
                        Some(v) => r matches Some(ev) && event_variant(ev) == v && path_of(ev)
                            == p@,
                    }
                }
            },
        },
        match relative_path {
            Some(p) => !temp_or_hidden_file(file_name) ==> {
                &&& (kind == FsEventKind::RemoveFile || kind == FsEventKind::RemoveAny || kind
                    == FsEventKind::RenameFrom) ==> (r matches Some(
                    SyncEvent::FileDeleted { relative_path: q },
                ) && q@ == p@)
                &&& (kind == FsEventKind::CreateFile || (!is_dir && (kind == FsEventKind::CreateAny
                    || kind == FsEventKind::RenameTo))) ==> (r matches Some(
                    SyncEvent::FileCreated { relative_path: q },
                ) && q@ == p@)
                &&& (kind == FsEventKind::CreateFolder || (is_dir && (kind
                    == FsEventKind::CreateAny || kind == FsEventKind::RenameTo))) ==> (r matches Some(
                    SyncEvent::DirCreated { relative_path: q },
                ) && q@ == p@)
                &&& (!is_dir && (kind == FsEventKind::ModifyData || kind == FsEventKind::ModifyAny))
                    ==> (r matches Some(SyncEvent::FileModified { relative_path: q }) && q@ == p@)
                &&& (kind == FsEventKind::RemoveFolder || kind == FsEventKind::Other || (is_dir
                    && (kind == FsEventKind::ModifyData || kind == FsEventKind::ModifyAny))) ==> r is None
            },
            None => true,
        },
{
    let relative = match relative_path {
        Some(p) => p,
        None => {
            return None;
        },
    };
    if is_temp_or_hidden(file_name) {
        return None;
    }
    match kind {
        FsEventKind::CreateFile => Some(SyncEvent::FileCreated { relative_path: relative }),
        FsEventKind::CreateFolder => Some(SyncEvent::DirCreated { relative_path: relative }),
        FsEventKind::CreateAny | FsEventKind::RenameTo => {
            if is_dir {
                Some(SyncEvent::DirCreated { relative_path: relative })
            } else {
                Some(SyncEvent::FileCreated { relative_path: relative })
            }
        },
        FsEventKind::ModifyData | FsEventKind::ModifyAny => {
            if !is_dir {
                Some(SyncEvent::FileModified { relative_path: relative })
            } else {
                None
            }
        },
        FsEventKind::RenameFrom | FsEventKind::RemoveFile | FsEventKind::RemoveAny => {
            Some(SyncEvent::FileDeleted { relative_path: relative })
        },
        FsEventKind::RemoveFolder | FsEventKind::Other => None,
    }
}

// ─── Burst de-duplication ───────────────────────────────────────────────────

/// Some event after position `i` is about the same path as event `i`.
pub open spec fn superseded(evs: Seq<SyncEvent>, i: int) -> bool {
    exists|j: int| i < j < evs.len() && path_of(#[trigger] evs[j]) == path_of(evs[i])
}

/// The events of a burst that survive de-duplication: for each path only its
/// last event, in the order they happened.
pub open spec fn keep_last(evs: Seq<SyncEvent>) -> Seq<SyncEvent>
    decreases evs.len(),
{
    if evs.len() == 0 {
        Seq::empty()
    } else {
        let rest = keep_last(evs.drop_first());
        if superseded(evs, 0) {
            rest
        } else {
            seq![evs[0]] + rest
        }
    }
}

/// Whether some event after position `i` has the same path as event `i`.
fn has_later_same_path(evs: &Vec<SyncEvent>, i: usize) -> (r: bool)
    requires
        i < evs@.len(),
    ensures
        r == superseded(evs@, i as int),
{
    let p = event_path(&evs[i]);
    let n = evs.len();
    let mut j: usize = i + 1;
    while j < evs.len()
        invariant
            i < j <= evs@.len(),
            p@ == path_of(evs@[i as int]),
            forall|k: int| i < k < j ==> path_of(evs@[k]) != path_of(evs@[i as int]),
        decreases evs@.len() - j,
    {
        if str_eq(event_path(&evs[j]).as_str(), p.as_str()) {
            return true;
        }
        j = j + 1;
    }
    false
}

proof fn lemma_keep_last_step(evs: Seq<SyncEvent>, i: int)
    requires
        0 <= i < evs.len(),
    ensures
        keep_last(evs.skip(i)) == if superseded(evs, i) {
            keep_last(evs.skip(i + 1))
        } else {
            seq![evs[i]] + keep_last(evs.skip(i + 1))
        },
{
    let s = evs.skip(i);
    assert(s.drop_first() =~= evs.skip(i + 1));
    assert(s[0] == evs[i]);
    if superseded(evs, i) {
        let j = choose|j: int| i < j < evs.len() && path_of(#[trigger] evs[j]) == path_of(evs[i]);
        assert(s[j - i] == evs[j]);
        assert(superseded(s, 0));
    }
    if superseded(s, 0) {
        let j = choose|j: int| 0 < j < s.len() && path_of(#[trigger] s[j]) == path_of(s[0]);
        assert(s[j] == evs[j + i]);
        assert(superseded(evs, i));
    }
}

/// De-duplicates a burst of events: only the last event per path is kept
/// (the final state after the burst matters), in chronological order.
pub fn dedup_keep_last(pending: &Vec<SyncEvent>) -> (r: Vec<SyncEvent>)
    ensures
        r@ == keep_last(pending@),
{
    let mut out: Vec<SyncEvent> = Vec::new();
    let mut i: usize = 0;
    assert(pending@.skip(0) =~= pending@);
    while i < pending.len()
        invariant
            i <= pending@.len(),
            out@ + keep_last(pending@.skip(i as int)) == keep_last(pending@),
        decreases pending@.len() - i,
    {
        proof {
            lemma_keep_last_step(pending@, i as int);
        }
        if !has_later_same_path(pending, i) {
            let ev = pending[i].duplicate();
            out.push(ev);
            assert(out@ + keep_last(pending@.skip(i + 1)) =~= keep_last(pending@));
        }
        i = i + 1;
    }
    assert(pending@.skip(i as int) =~= Seq::<SyncEvent>::empty());
    assert(keep_last(Seq::<SyncEvent>::empty()) == Seq::<SyncEvent>::empty());
    assert(out@ =~= keep_last(pending@));
    out
}

// ─── Laws of de-duplication ─────────────────────────────────────────────────

/// `e` is an event of the burst that no later event supersedes.
pub open spec fn last_of_its_path(evs: Seq<SyncEvent>, e: SyncEvent) -> bool {
    exists|i: int| 0 <= i < evs.len() && #[trigger] evs[i] == e && !superseded(evs, i)
}

/// Some event of `kept` is about `path`.
pub open spec fn path_kept(kept: Seq<SyncEvent>, path: Seq<char>) -> bool {
    exists|k: int| 0 <= k < kept.len() && path_of(#[trigger] kept[k]) == path
}

proof fn lemma_tail_unsuperseded(evs: Seq<SyncEvent>, e: SyncEvent)
    requires
        evs.len() > 0,
        last_of_its_path(evs.drop_first(), e),
    ensures
        last_of_its_path(evs, e),
        e != evs[0] || superseded(evs, 0),
{
    let t = evs.drop_first();
    let i = choose|i: int| 0 <= i < t.len() && #[trigger] t[i] == e && !superseded(t, i);
    assert(evs[i + 1] == t[i]);
    if superseded(evs, i + 1) {
        let j = choose|j: int| i + 1 < j < evs.len() && path_of(#[trigger] evs[j]) == path_of(
            evs[i + 1],
        );
        assert(t[j - 1] == evs[j]);
        assert(superseded(t, i));
    }
    if e == evs[0] {
        assert(path_of(evs[i + 1]) == path_of(evs[0]));
        assert(superseded(evs, 0));
    }
}

/// Every event kept after de-duplication is the last event for its path in
/// the burst.
pub proof fn lemma_kept_events_are_last(evs: Seq<SyncEvent>)
    ensures
        forall|k: int|
            0 <= k < keep_last(evs).len() ==> last_of_its_path(evs, #[trigger] keep_last(evs)[k]),
    decreases evs.len(),
{
    if evs.len() > 0 {
        let t = evs.drop_first();
        lemma_kept_events_are_last(t);
        let kt = keep_last(t);
        let k = keep_last(evs);
        assert forall|m: int| 0 <= m < k.len() implies last_of_its_path(
            evs,
            #[trigger] k[m],
        ) by {
            if superseded(evs, 0) {
                assert(k[m] == kt[m]);
                lemma_tail_unsuperseded(evs, kt[m]);
            } else if m == 0 {
                assert(k[0] == evs[0]);
                assert(evs[0] == k[m]);
            } else {
                assert(k[m] == kt[m - 1]);
                lemma_tail_unsuperseded(evs, kt[m - 1]);
            }
        }
    }
}

/// No two events kept after de-duplication are about the same path.
pub proof fn lemma_kept_paths_distinct(evs: Seq<SyncEvent>)
    ensures
        forall|k1: int, k2: int|
            0 <= k1 < k2 < keep_last(evs).len() ==> path_of(#[trigger] keep_last(evs)[k1])
                != path_of(#[trigger] keep_last(evs)[k2]),
    decreases evs.len(),
{
    if evs.len() > 0 {
        let t = evs.drop_first();
        lemma_kept_paths_distinct(t);
        lemma_kept_events_are_last(t);
        let kt = keep_last(t);
        let k = keep_last(evs);
        if !superseded(evs, 0) {
            assert forall|k1: int, k2: int| 0 <= k1 < k2 < k.len() implies path_of(
                #[trigger] k[k1],
            ) != path_of(#[trigger] k[k2]) by {
                assert(k[k2] == kt[k2 - 1]);
                if k1 == 0 {
                    assert(k[0] == evs[0]);
                    assert(last_of_its_path(t, kt[k2 - 1]));
                    let i = choose|i: int|
                        0 <= i < t.len() && #[trigger] t[i] == kt[k2 - 1] && !superseded(t, i);
                    assert(evs[i + 1] == t[i]);
                    if path_of(evs[i + 1]) == path_of(evs[0]) {
                        assert(superseded(evs, 0));
                    }
                } else {
                    assert(k[k1] == kt[k1 - 1]);
                }
            }
        } else {
            assert forall|k1: int, k2: int| 0 <= k1 < k2 < k.len() implies path_of(
                #[trigger] k[k1],
            ) != path_of(#[trigger] k[k2]) by {
                assert(k[k1] == kt[k1]);
                assert(k[k2] == kt[k2]);
            }
        }
    }
}

/// Every path that occurs in a burst is still represented after
/// de-duplication.
pub proof fn lemma_every_path_kept(evs: Seq<SyncEvent>)
    ensures
        forall|i: int| 0 <= i < evs.len() ==> path_kept(keep_last(evs), path_of(#[trigger] evs[i])),
    decreases evs.len(),
{
    if evs.len() > 0 {
        let t = evs.drop_first();
        lemma_every_path_kept(t);
        let kt = keep_last(t);
        let k = keep_last(evs);
        assert forall|i: int| 0 <= i < evs.len() implies path_kept(k, path_of(#[trigger] evs[i])) by {
            let p = path_of(evs[i]);
            if i == 0 && !superseded(evs, 0) {
                assert(k[0] == evs[0]);
            } else {
                let i2 = if i == 0 {
                    let j = choose|j: int| 0 < j < evs.len() && path_of(#[trigger] evs[j])
                        == path_of(evs[0]);
                    j - 1
                } else {
                    i - 1
                };
                assert(t[i2] == evs[i2 + 1]);
                assert(path_of(t[i2]) == p);
                assert(path_kept(kt, path_of(t[i2])));
                let m = choose|m: int| 0 <= m < kt.len() && path_of(#[trigger] kt[m]) == p;
                if superseded(evs, 0) {
                    assert(k[m] == kt[m]);
                } else {
                    assert(k[m + 1] == kt[m]);
                }
            }
        }
    }
}

// ─── Manifest diff ──────────────────────────────────────────────────────────

/// The digest the peer's manifest lists for `path` (its last entry for it).
pub open spec fn peer_digest(peer: Seq<SyncFileEntry>, path: Seq<char>) -> Option<Seq<char>>
    decreases peer.len(),
{
    if peer.len() == 0 {
        None
    } else if peer.last().path@ == path {
        Some(peer.last().sha256@)
    } else {
        peer_digest(peer.drop_last(), path)
    }
}

/// An entry of ours must be sent: the peer lacks the path or lists another
/// digest for it.
pub open spec fn needs_sync(entry: SyncFileEntry, peer: Seq<SyncFileEntry>) -> bool {
    match peer_digest(peer, entry.path@) {
        None => true,
        Some(h) => h != entry.sha256@,
    }
}

/// The paths of our entries that must be sent, in manifest order.
pub open spec fn sync_plan(ours: Seq<SyncFileEntry>, peer: Seq<SyncFileEntry>) -> Seq<Seq<char>>
    decreases ours.len(),
{
    if ours.len() == 0 {
        Seq::empty()
    } else {
        let rest = sync_plan(ours.drop_last(), peer);
        if needs_sync(ours.last(), peer) {
            rest.push(ours.last().path@)
        } else {
            rest
        }
    }
}

/// Entry `j` is the peer's last listing of `path`.
pub open spec fn listed_last(peer: Seq<SyncFileEntry>, path: Seq<char>, j: int) -> bool {
    &&& 0 <= j < peer.len()
    &&& peer[j].path@ == path
    &&& forall|k: int| j < k < peer.len() ==> #[trigger] peer[k].path@ != path
}

/// The peer's manifest does not list `path` at all.
pub open spec fn peer_lacks(peer: Seq<SyncFileEntry>, path: Seq<char>) -> bool {
    forall|j: int| 0 <= j < peer.len() ==> #[trigger] peer[j].path@ != path
}

/// The peer lists `path` last with a digest other than `sha`.
pub open spec fn peer_differs(peer: Seq<SyncFileEntry>, path: Seq<char>, sha: Seq<char>) -> bool {
    exists|j: int| #[trigger] listed_last(peer, path, j) && peer[j].sha256@ != sha
}

/// The digest the peer gives for a path is that of its last listing, and
/// there is none exactly when the peer does not list the path.
pub proof fn lemma_peer_digest_is_last_listing(peer: Seq<SyncFileEntry>, path: Seq<char>)
    ensures
        peer_digest(peer, path) is None <==> peer_lacks(peer, path),
        forall|j: int| #[trigger] listed_last(peer, path, j) ==> peer_digest(peer, path) == Some(
            peer[j].sha256@,
        ),
        peer_digest(peer, path) matches Some(h) ==> exists|j: int|
            #[trigger] listed_last(peer, path, j) && peer[j].sha256@ == h,
    decreases peer.len(),
{
    if peer.len() > 0 {
        let n = peer.len() - 1;
        let rest = peer.drop_last();
        lemma_peer_digest_is_last_listing(rest, path);
        if peer.last().path@ == path {
            assert(listed_last(peer, path, n));
            assert forall|j: int| #[trigger] listed_last(peer, path, j) implies peer_digest(
                peer,
                path,
            ) == Some(peer[j].sha256@) by {
                if j < n {
                    assert(peer[n].path@ != path);
                }
            }
        } else {
            assert forall|j: int| #[trigger] listed_last(peer, path, j) implies listed_last(
                rest,
                path,
                j,
            ) by {
                assert(j != n);
                assert forall|k: int| j < k < rest.len() implies #[trigger] rest[k].path@ != path by {
                    assert(rest[k] == peer[k]);
                }
            }
            match peer_digest(peer, path) {
                Some(h) => {
                    let j = choose|j: int| #[trigger] listed_last(rest, path, j) && rest[j].sha256@ == h;
                    assert(rest[j] == peer[j]);
                    assert forall|k: int| j < k < peer.len() implies #[trigger] peer[k].path@
                        != path by {
                        if k < n {
                            assert(rest[k] == peer[k]);
                        }
                    }
                    assert(listed_last(peer, path, j));
                },
                None => {},
            }
            if peer_lacks(rest, path) {
                assert forall|j: int| 0 <= j < peer.len() implies #[trigger] peer[j].path@ != path by {
                    if j < n {
                        assert(peer[j] == rest[j]);
                    }
                }
            }
            if peer_lacks(peer, path) {
                assert forall|j: int| 0 <= j < rest.len() implies #[trigger] rest[j].path@ != path by {
                    assert(rest[j] == peer[j]);
                }
            }
        }
    }
}

/// One of our entries must be sent exactly when the peer lacks its path or
/// lists it last with another digest.
pub proof fn lemma_needs_sync_meaning(entry: SyncFileEntry, peer: Seq<SyncFileEntry>)
    ensures
        needs_sync(entry, peer) <==> peer_lacks(peer, entry.path@) || peer_differs(
            peer,
            entry.path@,
            entry.sha256@,
        ),
{
    lemma_peer_digest_is_last_listing(peer, entry.path@);
}

/// A path is planned exactly when one of our entries for it must be sent.
pub proof fn lemma_sync_plan_members(ours: Seq<SyncFileEntry>, peer: Seq<SyncFileEntry>)
    ensures
        forall|i: int|
            0 <= i < ours.len() && needs_sync(#[trigger] ours[i], peer) ==> sync_plan(
                ours,
                peer,
            ).contains(ours[i].path@),
        forall|p: Seq<char>|
            #[trigger] sync_plan(ours, peer).contains(p) ==> exists|i: int|
                0 <= i < ours.len() && #[trigger] ours[i].path@ == p && needs_sync(ours[i], peer),
    decreases ours.len(),
{
    if ours.len() > 0 {
        let rest = ours.drop_last();
        let n = ours.len() - 1;
        lemma_sync_plan_members(rest, peer);
        let plan = sync_plan(ours, peer);
        let rplan = sync_plan(rest, peer);
        assert forall|i: int| 0 <= i < ours.len() && needs_sync(#[trigger] ours[i], peer) implies plan.contains(
            ours[i].path@,
        ) by {
            if i < n {
                assert(ours[i] == rest[i]);
                let k = choose|k: int| 0 <= k < rplan.len() && rplan[k] == rest[i].path@;
                assert(plan[k] == rplan[k]);
            } else {
                assert(plan[plan.len() - 1] == ours[i].path@);
            }
        }
        assert forall|p: Seq<char>| #[trigger] plan.contains(p) implies exists|i: int|
            0 <= i < ours.len() && #[trigger] ours[i].path@ == p && needs_sync(ours[i], peer) by {
            let k = choose|k: int| 0 <= k < plan.len() && plan[k] == p;
            if k < rplan.len() {
                assert(rplan[k] == p);
                assert(rplan.contains(p));
                let i = choose|i: int|
                    0 <= i < rest.len() && #[trigger] rest[i].path@ == p && needs_sync(rest[i], peer);
                assert(ours[i] == rest[i]);
            } else {
                assert(ours[n].path@ == p);
            }
        }
    }
}

/// The digest that the peer's manifest gives for `path`.
fn lookup_peer<'a>(peer: &'a Vec<SyncFileEntry>, path: &str) -> (r: Option<&'a String>)
    ensures
        match peer_digest(peer@, path@) {
            None => r is None,
            Some(h) => r matches Some(s) && s@ == h,
        },
{
    let mut i: usize = peer.len();
    assert(peer@.take(i as int) =~= peer@);
    while i > 0
        invariant
            i <= peer@.len(),
            peer_digest(peer@, path@) == peer_digest(peer@.take(i as int), path@),
        decreases i,
    {
        let e = &peer[i - 1];
        assert(peer@.take(i as int).last() == peer@[i - 1]);
        assert(peer@.take(i as int).drop_last() =~= peer@.take(i - 1));
        if str_eq(e.path.as_str(), path) {
            return Some(&e.sha256);
        }
        i = i - 1;
    }
    None
}

/// The paths of our files that the peer lacks or holds with another
/// digest, in the order of our manifest.
pub fn files_to_sync(ours: &Vec<SyncFileEntry>, peer: &Vec<SyncFileEntry>) -> (r: Vec<String>)
    ensures
        crate::text::views(r@) == sync_plan(ours@, peer@),
        forall|i: int|
            0 <= i < ours@.len() && (peer_lacks(peer@, ours@[i].path@) || peer_differs(
                peer@,
                ours@[i].path@,
                ours@[i].sha256@,
            )) ==> crate::text::views(r@).contains(#[trigger] ours@[i].path@),
        forall|p: Seq<char>|
            #[trigger] crate::text::views(r@).contains(p) ==> exists|i: int|
                0 <= i < ours@.len() && #[trigger] ours@[i].path@ == p && (peer_lacks(peer@, p)
                    || peer_differs(peer@, p, ours@[i].sha256@)),
{
    proof {
        lemma_sync_plan_members(ours@, peer@);
        assert forall|e: SyncFileEntry| true implies (needs_sync(e, peer@) <==> peer_lacks(
            peer@,
            e.path@,
        ) || peer_differs(peer@, e.path@, e.sha256@)) by {
            lemma_needs_sync_meaning(e, peer@);
        }
    }
    let mut out: Vec<String> = Vec::new();
    let mut i: usize = 0;
    while i < ours.len()
        invariant
            i <= ours@.len(),
            crate::text::views(out@) == sync_plan(ours@.take(i as int), peer@),
        decreases ours@.len() - i,
    {
        let entry = &ours[i];
        let send = match lookup_peer(peer, entry.path.as_str()) {
            None => true,
            Some(h) => !str_eq(h.as_str(), entry.sha256.as_str()),
        };
        assert(ours@.take(i + 1).drop_last() =~= ours@.take(i as int));
        assert(ours@.take(i + 1).last() == ours@[i as int]);
        if send {
            out.push(entry.path.clone());
        }
        assert(crate::text::views(out@) =~= sync_plan(ours@.take(i + 1), peer@));
        i = i + 1;
    }
    assert(ours@.take(i as int) =~= ours@);
    out
}

} // verus!
