//! State of the transfer dashboard: modes and statuses, the transfer queue
//! and its byte counters, the system log buffer, the file browser used to
//! push files to the phone, and the key bindings.
//!
//! Drawing the dashboard and reading the terminal happen outside the library.
use vstd::prelude::*;
use std::collections::HashSet;
use std::path::PathBuf;
use crate::protocol::{TransferFile, TransferStatus};
use crate::text::{
    lemma_seq_le_trans, lemma_seq_lt_irreflexive, lemma_seq_lt_total, lemma_seq_lt_trans, seq_lt,
    str_eq, str_less, to_lowercase, unicode_lowercase,
};

verus! {

broadcast use {
    vstd::std_specs::hash::group_hash_axioms,
    vstd::seq_lib::to_multiset_insert,
    vstd::seq_lib::to_multiset_build,
};

/// A file-system path, carried through unchanged.
#[verifier::external_type_specification]
#[verifier::external_body]
pub struct ExPathBuf(std::path::PathBuf);

/// A cloned path is the same path.
pub assume_specification[ <std::path::PathBuf as Clone>::clone ](p: &std::path::PathBuf) -> (r: std::path::PathBuf)
    ensures
        r == *p,
;

// ─── Modes and statuses ─────────────────────────────────────────────────────

/// Application mode.
#[derive(Debug, Clone, Copy, PartialEq, Eq, Structural)]
pub enum AppMode {
    Receive,
    Send,
}

impl AppMode {
    /// The text the mode is displayed as.
    pub fn display_string(&self) -> (r: String)
        ensures
            r@ == match *self {
                AppMode::Receive => "RECEIVE MODE"@,
                AppMode::Send => "SEND MODE"@,
            },
    {
        match self {
            AppMode::Receive => String::from_str("RECEIVE MODE"),
            AppMode::Send => String::from_str("SEND MODE"),
        }
    }
}

/// Current connection status.
#[derive(Debug, Clone, PartialEq, Eq)]
pub enum ConnectionStatus {
    /// Waiting for a connection.
    Ready,
    /// Connected to a peer.
    Connected { peer_name: String },
    /// Transferring files.
    Transferring,
    /// All transfers complete.
    Complete,
    /// Connection lost.
    Disconnected,
    /// An error occurred.
    Error(String),
}

/// The text a connection status is displayed as.
pub open spec fn connection_status_text(s: ConnectionStatus) -> Seq<char> {
    match s {
        ConnectionStatus::Ready => "📡 Ready"@,
        ConnectionStatus::Connected { peer_name } => "🔗 Connected to "@ + peer_name@,
        ConnectionStatus::Transferring => "📤 Transferring"@,
        ConnectionStatus::Complete => "✅ Complete"@,
        ConnectionStatus::Disconnected => "⚠ Disconnected"@,
        ConnectionStatus::Error(msg) => "❌ "@ + msg@,
    }
}

impl ConnectionStatus {
    /// The text the status is displayed as.
    pub fn display_string(&self) -> (r: String)
        ensures
            r@ == connection_status_text(*self),
    {
        match self {
            ConnectionStatus::Ready => String::from_str("📡 Ready"),
            ConnectionStatus::Connected { peer_name } => {
                let mut s = String::from_str("🔗 Connected to ");
                s.append(peer_name.as_str());
                s
            },
            ConnectionStatus::Transferring => String::from_str("📤 Transferring"),
            ConnectionStatus::Complete => String::from_str("✅ Complete"),
            ConnectionStatus::Disconnected => String::from_str("⚠ Disconnected"),
            ConnectionStatus::Error(msg) => {
                let mut s = String::from_str("❌ ");
                s.append(msg.as_str());
                s
            },
        }
    }
}

/// Log entry severity level for coloring.
#[derive(Debug, Clone, Copy, PartialEq, Eq, Structural)]
pub enum LogLevel {
    Info,
    Success,
    Warning,
    Error,
}

/// A log entry displayed in the transfer log panel.
#[derive(Debug, Clone, PartialEq, Eq)]
pub struct LogEntry {
    pub timestamp: String,
    pub message: String,
    pub level: LogLevel,
}

/// Which pane has focus.
#[derive(Debug, Clone, Copy, PartialEq, Eq, Structural)]
pub enum FocusPane {
    TransferQueue,
    SystemLog,
    FileBrowser,
}

/// The pane that `Tab` moves the focus to: queue, then log, then the file
/// browser when one is open, then back to the queue.
pub open spec fn next_focus_spec(f: FocusPane, browser_open: bool) -> FocusPane {
    match f {
        FocusPane::TransferQueue => FocusPane::SystemLog,
        FocusPane::SystemLog => if browser_open {
            FocusPane::FileBrowser
        } else {
            FocusPane::TransferQueue
        },
        FocusPane::FileBrowser => FocusPane::TransferQueue,
    }
}

/// Cycles the focus between the panes.
pub fn next_focus(f: FocusPane, browser_open: bool) -> (r: FocusPane)
    ensures
        r == next_focus_spec(f, browser_open),
{
    match f {
        FocusPane::TransferQueue => FocusPane::SystemLog,
        FocusPane::SystemLog => if browser_open {
            FocusPane::FileBrowser
        } else {
            FocusPane::TransferQueue
        },
        FocusPane::FileBrowser => FocusPane::TransferQueue,
    }
}

// ─── Key bindings ───────────────────────────────────────────────────────────

/// Application events triggered by user input.
#[derive(Debug, Clone, Copy, PartialEq, Eq, Structural)]
pub enum AppEvent {
    /// User requested quit (Q or Ctrl+C).
    Quit,
    /// Scroll up.
    ScrollUp,
    /// Scroll down.
    ScrollDown,
    /// Scroll the log panel up one page.
    LogScrollUp,
    /// Scroll the log panel down one page.
    LogScrollDown,
    /// Jump to the top.
    ScrollHome,
    /// Jump to the bottom.
    ScrollEnd,
    /// Periodic tick for updates.
    Tick,
    /// Switch focus between panes.
    TabFocus,
    /// Enter directory or confirm.
    Enter,
    /// Go up one directory.
    GoBack,
    /// Toggle selection of the item under the cursor.
    ToggleSelect,
    /// Select all items in the current directory.
    SelectAll,
    /// Send the selected files to the phone.
    SendSelected,
    /// Clear the selection.
    ClearSelection,
    /// Select option 1 (Router mode).
    SelectOption1,
    /// Select option 2 (Hotspot mode).
    SelectOption2,
    /// Skip the prompt (use the last saved choice).
    SkipPrompt,
    /// Auto-create a hotspot (Linux only).
    AutoSetup,
    /// Confirm on the hotspot guide.
    ConfirmYes,
    /// Go back to the previous screen.
    GoBackScreen,
}

/// Current input context for key mapping.
#[derive(Debug, Clone, Copy, PartialEq, Eq, Structural)]
pub enum InputContext {
    MainTui,
    FileBrowser,
    ModeSelection,
    HotspotGuide,
}

/// A key press, as far as the bindings distinguish keys.
#[derive(Debug, Clone, Copy, PartialEq, Eq, Structural)]
pub enum KeyInput {
    Char(char),
    Up,
    Down,
    Home,
    End,
    PageUp,
    PageDown,
    Tab,
    Enter,
    Backspace,
    Esc,
    Other,
}

/// The event a key press (with Ctrl held or not) is bound to.
pub open spec fn key_binding(key: KeyInput, ctrl: bool) -> Option<AppEvent> {
    match key {
        KeyInput::Char(c) => if c == 'q' || c == 'Q' {
            Some(AppEvent::Quit)
        } else if c == 'c' && ctrl {
            Some(AppEvent::Quit)
        } else if c == 'k' {
            Some(AppEvent::ScrollUp)
        } else if c == 'j' {
            Some(AppEvent::ScrollDown)
        } else if c == ' ' {
            Some(AppEvent::ToggleSelect)
        } else if c == 'a' || c == 'A' {
            Some(AppEvent::SelectAll)
        } else if c == 's' || c == 'S' {
            Some(AppEvent::SendSelected)
        } else if c == '1' {
            Some(AppEvent::SelectOption1)
        } else if c == '2' {
            Some(AppEvent::SelectOption2)
        } else if c == 'y' || c == 'Y' {
            Some(AppEvent::ConfirmYes)
        } else if c == 'b' || c == 'B' {
            Some(AppEvent::GoBackScreen)
        } else if c == 'h' || c == 'H' {
            Some(AppEvent::ScrollHome)
        } else if c == 'e' || c == 'E' {
            Some(AppEvent::ScrollEnd)
        } else {
            None
        },
        KeyInput::Up => Some(AppEvent::ScrollUp),
        KeyInput::Down => Some(AppEvent::ScrollDown),
        KeyInput::Home => Some(AppEvent::ScrollHome),
        KeyInput::End => Some(AppEvent::ScrollEnd),
        KeyInput::PageUp => Some(AppEvent::LogScrollUp),
        KeyInput::PageDown => Some(AppEvent::LogScrollDown),
        KeyInput::Tab => Some(AppEvent::TabFocus),
        KeyInput::Enter => Some(AppEvent::Enter),
        KeyInput::Backspace => Some(AppEvent::GoBack),
        KeyInput::Esc => Some(AppEvent::ClearSelection),
        KeyInput::Other => None,
    }
}

/// Maps a key press to an application event; the mapping covers all
/// screens, and each screen uses the events relevant to it.
pub fn map_key_event(key: KeyInput, ctrl: bool) -> (r: Option<AppEvent>)
    ensures
        r == key_binding(key, ctrl),
{
    match key {
        KeyInput::Char(c) => if c == 'q' || c == 'Q' {
            Some(AppEvent::Quit)
        } else if c == 'c' && ctrl {
            Some(AppEvent::Quit)
        } else if c == 'k' {
            Some(AppEvent::ScrollUp)
        } else if c == 'j' {
            Some(AppEvent::ScrollDown)
        } else if c == ' ' {
            Some(AppEvent::ToggleSelect)
        } else if c == 'a' || c == 'A' {
            Some(AppEvent::SelectAll)
        } else if c == 's' || c == 'S' {
            Some(AppEvent::SendSelected)
        } else if c == '1' {
            Some(AppEvent::SelectOption1)
        } else if c == '2' {
            Some(AppEvent::SelectOption2)
        } else if c == 'y' || c == 'Y' {
            Some(AppEvent::ConfirmYes)
        } else if c == 'b' || c == 'B' {
            Some(AppEvent::GoBackScreen)
        } else if c == 'h' || c == 'H' {
            Some(AppEvent::ScrollHome)
        } else if c == 'e' || c == 'E' {
            Some(AppEvent::ScrollEnd)
        } else {
            None
        },
        KeyInput::Up => Some(AppEvent::ScrollUp),
        KeyInput::Down => Some(AppEvent::ScrollDown),
        KeyInput::Home => Some(AppEvent::ScrollHome),
        KeyInput::End => Some(AppEvent::ScrollEnd),
        KeyInput::PageUp => Some(AppEvent::LogScrollUp),
        KeyInput::PageDown => Some(AppEvent::LogScrollDown),
        KeyInput::Tab => Some(AppEvent::TabFocus),
        KeyInput::Enter => Some(AppEvent::Enter),
        KeyInput::Backspace => Some(AppEvent::GoBack),
        KeyInput::Esc => Some(AppEvent::ClearSelection),
        KeyInput::Other => None,
    }
}

// ─── System log ─────────────────────────────────────────────────────────────

/// Most entries the log keeps before trimming.
pub const LOG_CAPACITY: usize = 500;

/// Entries dropped from the front when the log overflows.
pub const LOG_TRIM: usize = 100;

/// Appends an entry to the log; when the log then holds more than
/// [`LOG_CAPACITY`] entries the oldest [`LOG_TRIM`] are dropped. Returns the
/// scroll position of the newest entry.
pub fn push_log(entries: &mut Vec<LogEntry>, entry: LogEntry) -> (scroll: usize)
    ensures
        ({
            let grown = old(entries)@.push(entry);
            if grown.len() > LOG_CAPACITY {
                final(entries)@ == grown.skip(LOG_TRIM as int)
            } else {
                final(entries)@ == grown
            }
        }),
        scroll == final(entries)@.len() - 1,
{
    entries.push(entry);
    if entries.len() > LOG_CAPACITY {
        let mut kept: Vec<LogEntry> = entries.split_off(LOG_TRIM);
        std::mem::swap(entries, &mut kept);
    }
    entries.len() - 1
}

/// The log never grows beyond [`LOG_CAPACITY`] entries.
pub proof fn lemma_log_bounded(entries: Seq<LogEntry>, entry: LogEntry)
    requires
        entries.len() <= LOG_CAPACITY,
    ensures
        ({
            let grown = entries.push(entry);
            let after = if grown.len() > LOG_CAPACITY {
                grown.skip(LOG_TRIM as int)
            } else {
                grown
            };
            after.len() <= LOG_CAPACITY && after.len() > 0 && after.last() == entry
        }),
{
}

// ─── Speed history ──────────────────────────────────────────────────────────

/// Number of samples the speed sparkline shows.
pub const SPEED_HISTORY_LEN: usize = 60;

/// The history after a sample is appended: the oldest sample is dropped
/// when the history then holds more than [`SPEED_HISTORY_LEN`] samples.
pub open spec fn recorded(history: Seq<u64>, sample: u64) -> Seq<u64> {
    let grown = history.push(sample);
    if grown.len() > SPEED_HISTORY_LEN {
        grown.drop_first()
    } else {
        grown
    }
}

/// Appends a speed sample; when the history then holds more than
/// [`SPEED_HISTORY_LEN`] samples, the oldest is dropped.
pub fn record_speed_sample(history: &mut Vec<u64>, sample: u64)
    ensures
        final(history)@ == recorded(old(history)@, sample),
{
    history.push(sample);
    if history.len() > SPEED_HISTORY_LEN {
        history.remove(0);
    }
}

/// The speed history never grows past [`SPEED_HISTORY_LEN`] samples, a
/// full history stays full, and the newest sample is always last.
pub proof fn lemma_speed_history_bounded(history: Seq<u64>, sample: u64)
    requires
        history.len() <= SPEED_HISTORY_LEN,
    ensures
        recorded(history, sample).len() <= SPEED_HISTORY_LEN,
        history.len() == SPEED_HISTORY_LEN ==> recorded(history, sample).len() == SPEED_HISTORY_LEN,
        recorded(history, sample).last() == sample,
        history.len() == SPEED_HISTORY_LEN ==> recorded(history, sample) == history.drop_first().push(
            sample,
        ),
{
    if history.len() == SPEED_HISTORY_LEN {
        assert(history.push(sample).drop_first() =~= history.drop_first().push(sample));
    }
}

// ─── Transfer queue ─────────────────────────────────────────────────────────

/// Index of the first file named `name` at or after `start`.
pub open spec fn find_file(q: Seq<TransferFile>, name: Seq<char>, start: int) -> Option<int>
    decreases q.len() - start,
{
    if start < 0 || start >= q.len() {
        None
    } else if q[start].name@ == name {
        Some(start)
    } else {
        find_file(q, name, start + 1)
    }
}

/// Sum of the transferred byte counts of the first `n` files.
pub open spec fn transferred_sum(q: Seq<TransferFile>, n: int) -> nat
    decreases n,
{
    if n <= 0 || n > q.len() {
        0
    } else {
        transferred_sum(q, n - 1) + q[n - 1].bytes_transferred as nat
    }
}

/// The file is finished: completed or failed.
pub open spec fn is_finished(f: TransferFile) -> bool {
    f.status == TransferStatus::Completed || f.status is Failed
}

/// Every file of the queue is finished.
pub open spec fn all_finished(q: Seq<TransferFile>) -> bool {
    forall|i: int| 0 <= i < q.len() ==> is_finished(#[trigger] q[i])
}

/// The queue of transfers shown on the dashboard with its byte counters
/// and connection status.
pub struct TransferQueue {
    /// Files being transferred, in arrival order.
    pub file_queue: Vec<TransferFile>,
    /// Total bytes transferred in this session.
    pub total_bytes_transferred: u64,
    /// Total bytes expected in this session.
    pub total_bytes_expected: u64,
    /// Connection status.
    pub status: ConnectionStatus,
}

impl TransferQueue {
    /// An empty queue with status `Ready`.
    pub fn new() -> (r: TransferQueue)
        ensures
            r.file_queue@ == Seq::<TransferFile>::empty(),
            r.total_bytes_transferred == 0,
            r.total_bytes_expected == 0,
            r.status == ConnectionStatus::Ready,
    {
        TransferQueue {
            file_queue: Vec::new(),
            total_bytes_transferred: 0,
            total_bytes_expected: 0,
            status: ConnectionStatus::Ready,
        }
    }

    /// Adds a file to the queue and to the expected total.
    pub fn add_file(&mut self, file: TransferFile)
        requires
            old(self).total_bytes_expected + file.size <= u64::MAX,
        ensures
            final(self).file_queue@ == old(self).file_queue@.push(file),
            final(self).total_bytes_expected == old(self).total_bytes_expected + file.size,
            final(self).total_bytes_transferred == old(self).total_bytes_transferred,
            final(self).status == old(self).status,
    {
        self.total_bytes_expected = self.total_bytes_expected + file.size;
        self.file_queue.push(file);
    }

    /// Index of the first queued file named `name`.
    pub(crate) fn position(&self, name: &str) -> (r: Option<usize>)
        ensures
            match find_file(self.file_queue@, name@, 0) {
                Some(k) => r matches Some(i) && i as int == k,
                None => r is None,
            },
            r matches Some(i) ==> i < self.file_queue@.len(),
    {
        proof {
            lemma_find_file_in_range(self.file_queue@, name@, 0);
        }
        let mut i: usize = 0;
        while i < self.file_queue.len()
            invariant
                i <= self.file_queue@.len(),
                find_file(self.file_queue@, name@, 0) == find_file(
                    self.file_queue@,
                    name@,
                    i as int,
                ),
            decreases self.file_queue@.len() - i,
        {
            if str_eq(self.file_queue[i].name.as_str(), name) {
                return Some(i);
            }
            i = i + 1;
        }
        None
    }

    /// Sum of transferred bytes over the whole queue.
    fn sum_transferred(&self) -> (r: u64)
        requires
            transferred_sum(self.file_queue@, self.file_queue@.len() as int) <= u64::MAX,
        ensures
            r == transferred_sum(self.file_queue@, self.file_queue@.len() as int),
    {
        let mut total: u64 = 0;
        let mut i: usize = 0;
        while i < self.file_queue.len()
            invariant
                i <= self.file_queue@.len(),
                total == transferred_sum(self.file_queue@, i as int),
                transferred_sum(self.file_queue@, self.file_queue@.len() as int) <= u64::MAX,
            decreases self.file_queue@.len() - i,
        {
            proof {
                lemma_transferred_sum_monotone(self.file_queue@, i + 1, self.file_queue@.len() as int);
            }
            total = total + self.file_queue[i].bytes_transferred;
            i = i + 1;
        }
        total
    }

    /// Whether every queued file is completed or failed.
    pub fn all_done(&self) -> (r: bool)
        ensures
            r == all_finished(self.file_queue@),
    {
        let mut i: usize = 0;
        while i < self.file_queue.len()
            invariant
                i <= self.file_queue@.len(),
                forall|j: int| 0 <= j < i ==> is_finished(#[trigger] self.file_queue@[j]),
            decreases self.file_queue@.len() - i,
        {
            let done = match &self.file_queue[i].status {
                TransferStatus::Completed => true,
                TransferStatus::Failed(_) => true,
                _ => false,
            };
            if !done {
                return false;
            }
            i = i + 1;
        }
        true
    }

    /// Whether recording `bytes` for the first file named `file_name` keeps
    /// the transferred total within 64 bits; callers test this before
    /// [`TransferQueue::update_progress`].
    pub fn progress_fits(&self, file_name: &str, bytes: u64) -> (r: bool)
        ensures
            r == (transferred_sum(
                progressed(self.file_queue@, file_name@, bytes),
                self.file_queue@.len() as int,
            ) <= u64::MAX),
    {
        let q = &self.file_queue;
        let ghost p = progressed(q@, file_name@, bytes);
        proof {
            lemma_find_file_in_range(q@, file_name@, 0);
        }
        let target = self.position(file_name);
        let mut total: u128 = 0;
        let mut i: usize = 0;
        while i < q.len()
            invariant
                i <= q@.len(),
                p == progressed(q@, file_name@, bytes),
                match find_file(q@, file_name@, 0) {
                    Some(k) => target matches Some(t) && t as int == k,
                    None => target is None,
                },
                find_file(q@, file_name@, 0) matches Some(k) ==> 0 <= k < q@.len(),
                p.len() == q@.len(),
                total == transferred_sum(p, i as int),
                total <= i * 0xFFFF_FFFF_FFFF_FFFFu128,
            decreases q@.len() - i,
        {
            let b: u64 = match target {
                Some(k) => if k == i {
                    bytes
                } else {
                    q[i].bytes_transferred
                },
                None => q[i].bytes_transferred,
            };
            assert(b == p[i as int].bytes_transferred);
            proof {
                assert(total + b <= (i + 1) * 0xFFFF_FFFF_FFFF_FFFFu128) by (nonlinear_arith)
                    requires
                        total <= i * 0xFFFF_FFFF_FFFF_FFFFu128,
                        b <= 0xFFFF_FFFF_FFFF_FFFFu64,
                ;
                assert((i + 1) * 0xFFFF_FFFF_FFFF_FFFFu128 <= 0xFFFF_FFFF_FFFF_FFFF_FFFF_FFFF_FFFF_FFFFu128)
                    by (nonlinear_arith)
                    requires
                        i < 0xFFFF_FFFF_FFFF_FFFFu128,
                ;
            }
            total = total + b as u128;
            i = i + 1;
        }
        total <= 0xFFFF_FFFF_FFFF_FFFFu128
    }

    /// Records progress of the first file named `file_name`: its byte count
    /// becomes `bytes` and it is in progress; the session is transferring
    /// and the transferred total is recomputed.
    pub fn update_progress(&mut self, file_name: &str, bytes: u64)
        requires
            transferred_sum(
                progressed(old(self).file_queue@, file_name@, bytes),
                old(self).file_queue@.len() as int,
            ) <= u64::MAX,
        ensures
            final(self).file_queue@ == progressed(old(self).file_queue@, file_name@, bytes),
            final(self).total_bytes_transferred == transferred_sum(
                final(self).file_queue@,
                final(self).file_queue@.len() as int,
            ),
            final(self).total_bytes_expected == old(self).total_bytes_expected,
            final(self).status == ConnectionStatus::Transferring,
    {
        match self.position(file_name) {
            Some(i) => {
                let ghost q = self.file_queue@;
                let mut f = self.file_queue.remove(i);
                f.bytes_transferred = bytes;
                f.status = TransferStatus::InProgress;
                proof {
                    lemma_remove_insert(q, i as int, f);
                    assert(f == TransferFile {
                        bytes_transferred: bytes,
                        status: TransferStatus::InProgress,
                        ..q[i as int]
                    });
                }
                self.file_queue.insert(i, f);
            },
            None => {},
        }
        assert(self.file_queue@ =~= progressed(old(self).file_queue@, file_name@, bytes));
        self.status = ConnectionStatus::Transferring;
        self.total_bytes_transferred = self.sum_transferred();
    }

    /// Marks the first file named `file_name` completed with all its bytes
    /// transferred, recomputes the transferred total, and marks the session
    /// complete when every file is finished.
    pub fn complete_file(&mut self, file_name: &str)
        requires
            transferred_sum(
                completed(old(self).file_queue@, file_name@),
                old(self).file_queue@.len() as int,
            ) <= u64::MAX,
        ensures
            final(self).file_queue@ == completed(old(self).file_queue@, file_name@),
            final(self).total_bytes_transferred == transferred_sum(
                final(self).file_queue@,
                final(self).file_queue@.len() as int,
            ),
            final(self).total_bytes_expected == old(self).total_bytes_expected,
            final(self).status == if all_finished(final(self).file_queue@)
                && final(self).file_queue@.len() > 0 {
                ConnectionStatus::Complete
            } else {
                old(self).status
            },
    {
        match self.position(file_name) {
            Some(i) => {
                let ghost q = self.file_queue@;
                let mut f = self.file_queue.remove(i);
                f.status = TransferStatus::Completed;
                f.bytes_transferred = f.size;
                proof {
                    lemma_remove_insert(q, i as int, f);
                    assert(f == TransferFile {
                        bytes_transferred: q[i as int].size,
                        status: TransferStatus::Completed,
                        ..q[i as int]
                    });
                }
                self.file_queue.insert(i, f);
            },
            None => {},
        }
        assert(self.file_queue@ =~= completed(old(self).file_queue@, file_name@));
        self.total_bytes_transferred = self.sum_transferred();
        if self.all_done() && self.file_queue.len() > 0 {
            self.status = ConnectionStatus::Complete;
        }
    }

    /// Marks the first file named `file_name` failed with `error`.
    pub fn fail_file(&mut self, file_name: &str, error: &str)
        ensures
            fail_step(old(self).file_queue@, final(self).file_queue@, file_name@, error@),
            final(self).total_bytes_transferred == old(self).total_bytes_transferred,
            final(self).total_bytes_expected == old(self).total_bytes_expected,
            final(self).status == old(self).status,
    {
        match self.position(file_name) {
            Some(i) => {
                let ghost q = self.file_queue@;
                let mut f = self.file_queue.remove(i);
                f.status = TransferStatus::Failed(String::from_str(error));
                proof {
                    lemma_remove_insert(q, i as int, f);
                }
                self.file_queue.insert(i, f);
            },
            None => {},
        }
    }

    /// The status after the peer disconnects: complete when every file of a
    /// non-empty queue is finished, ready for a new connection otherwise.
    pub fn peer_disconnected(&mut self)
        ensures
            final(self).status == if all_finished(old(self).file_queue@)
                && old(self).file_queue@.len() > 0 {
                ConnectionStatus::Complete
            } else {
                ConnectionStatus::Ready
            },
            final(self).file_queue@ == old(self).file_queue@,
            final(self).total_bytes_transferred == old(self).total_bytes_transferred,
            final(self).total_bytes_expected == old(self).total_bytes_expected,
    {
        if self.all_done() && self.file_queue.len() > 0 {
            self.status = ConnectionStatus::Complete;
        } else {
            self.status = ConnectionStatus::Ready;
        }
    }
}

/// `f` is `g` marked failed with the message `error`.
pub open spec fn failed_copy(f: TransferFile, g: TransferFile, error: Seq<char>) -> bool {
    &&& f.name == g.name
    &&& f.size == g.size
    &&& f.sha256 == g.sha256
    &&& f.mime_type == g.mime_type
    &&& f.bytes_transferred == g.bytes_transferred
    &&& f.status matches TransferStatus::Failed(e) && e@ == error
}

/// `after` is `before` with the first file named `name` failed with
/// `error`; a queue without such a file is unchanged.
pub open spec fn fail_step(
    before: Seq<TransferFile>,
    after: Seq<TransferFile>,
    name: Seq<char>,
    error: Seq<char>,
) -> bool {
    match find_file(before, name, 0) {
        Some(i) => {
            &&& after.len() == before.len()
            &&& forall|j: int| 0 <= j < before.len() && j != i ==> #[trigger] after[j] == before[j]
            &&& failed_copy(after[i], before[i], error)
        },
        None => after == before,
    }
}

/// The queue after progress `bytes` is recorded for the first file named `name`.
pub open spec fn progressed(q: Seq<TransferFile>, name: Seq<char>, bytes: u64) -> Seq<TransferFile> {
    match find_file(q, name, 0) {
        Some(i) => q.update(
            i,
            TransferFile { bytes_transferred: bytes, status: TransferStatus::InProgress, ..q[i] },
        ),
        None => q,
    }
}

/// The queue after the first file named `name` is completed.
pub open spec fn completed(q: Seq<TransferFile>, name: Seq<char>) -> Seq<TransferFile> {
    match find_file(q, name, 0) {
        Some(i) => q.update(
            i,
            TransferFile { bytes_transferred: q[i].size, status: TransferStatus::Completed, ..q[i] },
        ),
        None => q,
    }
}

proof fn lemma_remove_insert<T>(q: Seq<T>, i: int, x: T)
    requires
        0 <= i < q.len(),
    ensures
        q.remove(i).insert(i, x) == q.update(i, x),
{
    assert(q.remove(i).insert(i, x) =~= q.update(i, x));
}

proof fn lemma_transferred_sum_monotone(q: Seq<TransferFile>, i: int, n: int)
    requires
        0 <= i <= n <= q.len(),
    ensures
        transferred_sum(q, i) <= transferred_sum(q, n),
    decreases n - i,
{
    if i < n {
        lemma_transferred_sum_monotone(q, i, n - 1);
    }
}

/// Once a file completes, its transferred count equals its size.
pub proof fn lemma_completed_file_is_whole(q: Seq<TransferFile>, name: Seq<char>)
    ensures
        match find_file(q, name, 0) {
            Some(i) => completed(q, name)[i].bytes_transferred == completed(q, name)[i].size
                && completed(q, name)[i].status == TransferStatus::Completed,
            None => completed(q, name) == q,
        },
{
    lemma_find_file_in_range(q, name, 0);
}

pub(crate) proof fn lemma_find_file_in_range(q: Seq<TransferFile>, name: Seq<char>, start: int)
    ensures
        find_file(q, name, start) matches Some(i) ==> start <= i < q.len() && q[i].name@ == name,
    decreases q.len() - start,
{
    if 0 <= start < q.len() && q[start].name@ != name {
        lemma_find_file_in_range(q, name, start + 1);
    }
}

// ─── File browser ───────────────────────────────────────────────────────────

/// A file entry in the file browser.
#[derive(Debug)]
pub struct FileEntry {
    pub name: String,
    pub is_dir: bool,
    pub size: u64,
    pub path: PathBuf,
}

/// Sum of the sizes of the entries below `n` that are selected.
pub open spec fn selected_size_upto(entries: Seq<FileEntry>, selected: Set<usize>, n: int) -> nat
    decreases n,
{
    if n <= 0 || n > entries.len() {
        0
    } else {
        selected_size_upto(entries, selected, n - 1) + if selected.contains((n - 1) as usize) {
            entries[n - 1].size as nat
        } else {
            0
        }
    }
}

/// Total size of the selected entries (selected indices beyond the entries
/// count nothing).
pub open spec fn selected_size_spec(entries: Seq<FileEntry>, selected: Set<usize>) -> nat {
    selected_size_upto(entries, selected, entries.len() as int)
}

/// File browser state for pushing files from the laptop to the phone.
pub struct FileBrowserState {
    pub current_path: PathBuf,
    pub entries: Vec<FileEntry>,
    pub cursor: usize,
    pub selected: HashSet<usize>,
    pub scroll_offset: usize,
}

impl FileBrowserState {
    /// A browser at `start_path` showing `entries` (the directory listing,
    /// read and ordered by the caller), cursor on the first entry and
    /// nothing selected.
    pub fn new(start_path: PathBuf, entries: Vec<FileEntry>) -> (r: FileBrowserState)
        ensures
            r.current_path == start_path,
            r.entries@ == entries@,
            r.cursor == 0,
            r.selected@ == Set::<usize>::empty(),
            r.scroll_offset == 0,
    {
        FileBrowserState {
            current_path: start_path,
            entries,
            cursor: 0,
            selected: HashSet::new(),
            scroll_offset: 0,
        }
    }

    /// Shows a new listing (after entering or leaving a directory): the
    /// cursor returns to the top and the selection is cleared.
    pub fn set_listing(&mut self, path: PathBuf, entries: Vec<FileEntry>)
        ensures
            final(self).current_path == path,
            final(self).entries@ == entries@,
            final(self).cursor == 0,
            final(self).selected@ == Set::<usize>::empty(),
            final(self).scroll_offset == 0,
    {
        self.current_path = path;
        self.entries = entries;
        self.cursor = 0;
        self.selected = HashSet::new();
        self.scroll_offset = 0;
    }

    /// Total size of the selected items.
    pub fn selected_size(&self) -> (r: u64)
        requires
            selected_size_spec(self.entries@, self.selected@) <= u64::MAX,
        ensures
            r == selected_size_spec(self.entries@, self.selected@),
    {
        let n = self.entries.len();
        let mut total: u64 = 0;
        let mut i: usize = 0;
        while i < n
            invariant
                n == self.entries@.len(),
                i <= n,
                total == selected_size_upto(self.entries@, self.selected@, i as int),
                selected_size_spec(self.entries@, self.selected@) <= u64::MAX,
            decreases n - i,
        {
            proof {
                lemma_selected_size_monotone(self.entries@, self.selected@, i + 1, n as int);
            }
            if self.selected.contains(&i) {
                total = total + self.entries[i].size;
            }
            i = i + 1;
        }
        total
    }

    /// Whether the total size of the selected items fits in 64 bits; callers
    /// test this before [`FileBrowserState::selected_size`].
    pub fn selected_size_fits(&self) -> (r: bool)
        ensures
            r == (selected_size_spec(self.entries@, self.selected@) <= u64::MAX),
    {
        let n = self.entries.len();
        let mut total: u128 = 0;
        let mut i: usize = 0;
        while i < n
            invariant
                n == self.entries@.len(),
                i <= n,
                total == selected_size_upto(self.entries@, self.selected@, i as int),
                total <= i * 0xFFFF_FFFF_FFFF_FFFFu128,
            decreases n - i,
        {
            let b: u64 = if self.selected.contains(&i) {
                self.entries[i].size
            } else {
                0
            };
            proof {
                assert(total + b <= (i + 1) * 0xFFFF_FFFF_FFFF_FFFFu128) by (nonlinear_arith)
                    requires
                        total <= i * 0xFFFF_FFFF_FFFF_FFFFu128,
                        b <= 0xFFFF_FFFF_FFFF_FFFFu64,
                ;
                assert((i + 1) * 0xFFFF_FFFF_FFFF_FFFFu128 <= 0xFFFF_FFFF_FFFF_FFFF_FFFF_FFFF_FFFF_FFFFu128)
                    by (nonlinear_arith)
                    requires
                        i < 0xFFFF_FFFF_FFFF_FFFFu128,
                ;
            }
            total = total + b as u128;
            i = i + 1;
        }
        total <= 0xFFFF_FFFF_FFFF_FFFFu128
    }

    /// Number of selected items.
    pub fn selected_count(&self) -> (r: usize)
        ensures
            r == self.selected@.len(),
    {
        self.selected.len()
    }

    /// Moves the cursor up one entry (staying on the first).
    pub fn cursor_up(&mut self)
        ensures
            final(self).cursor == if old(self).cursor > 0 {
                (old(self).cursor - 1) as usize
            } else {
                0
            },
            final(self).entries@ == old(self).entries@,
            final(self).selected@ == old(self).selected@,
    {
        if self.cursor > 0 {
            self.cursor = self.cursor - 1;
        }
    }

    /// Moves the cursor down one entry (staying on the last).
    pub fn cursor_down(&mut self)
        ensures
            final(self).cursor as int == if old(self).entries@.len() == 0 {
                old(self).cursor as int
            } else if old(self).cursor + 1 < old(self).entries@.len() {
                old(self).cursor + 1
            } else {
                old(self).entries@.len() - 1
            },
            final(self).entries@ == old(self).entries@,
            final(self).selected@ == old(self).selected@,
    {
        let n = self.entries.len();
        if n > 0 {
            if self.cursor < n - 1 {
                self.cursor = self.cursor + 1;
            } else {
                self.cursor = n - 1;
            }
        }
    }

    /// Moves the cursor to the first entry.
    pub fn cursor_home(&mut self)
        ensures
            final(self).cursor == 0,
            final(self).entries@ == old(self).entries@,
            final(self).selected@ == old(self).selected@,
    {
        self.cursor = 0;
    }

    /// Moves the cursor to the last entry (the first when there is none).
    pub fn cursor_end(&mut self)
        ensures
            final(self).cursor as int == if old(self).entries@.len() > 0 {
                old(self).entries@.len() - 1
            } else {
                0
            },
            final(self).entries@ == old(self).entries@,
            final(self).selected@ == old(self).selected@,
    {
        let n = self.entries.len();
        self.cursor = if n > 0 {
            n - 1
        } else {
            0
        };
    }

    /// Toggles the selection of the entry under the cursor.
    pub fn toggle_select(&mut self)
        ensures
            final(self).selected@ == if old(self).cursor < old(self).entries@.len() {
                if old(self).selected@.contains(old(self).cursor) {
                    old(self).selected@.remove(old(self).cursor)
                } else {
                    old(self).selected@.insert(old(self).cursor)
                }
            } else {
                old(self).selected@
            },
            final(self).entries == old(self).entries,
            final(self).cursor == old(self).cursor,
            final(self).current_path == old(self).current_path,
            final(self).scroll_offset == old(self).scroll_offset,
    {
        let cursor = self.cursor;
        if cursor < self.entries.len() {
            if self.selected.contains(&cursor) {
                self.selected.remove(&cursor);
            } else {
                self.selected.insert(cursor);
            }
        }
    }

    /// Selects every entry, or clears the selection when it already holds
    /// as many items as there are entries.
    pub fn select_all(&mut self)
        ensures
            final(self).selected@ == if old(self).selected@.len() == old(self).entries@.len() {
                Set::<usize>::empty()
            } else {
                Set::new(|i: usize| i < old(self).entries@.len())
            },
            final(self).entries@ == old(self).entries@,
            final(self).cursor == old(self).cursor,
    {
        let n = self.entries.len();
        if self.selected.len() == n {
            self.selected = HashSet::new();
        } else {
            let mut all: HashSet<usize> = HashSet::new();
            let mut i: usize = 0;
            while i < n
                invariant
                    i <= n,
                    all@ == Set::new(|k: usize| k < i),
                decreases n - i,
            {
                all.insert(i);
                assert(all@ =~= Set::new(|k: usize| k < i + 1));
                i = i + 1;
            }
            self.selected = all;
        }
    }

    /// Clears the selection.
    pub fn clear_selection(&mut self)
        ensures
            final(self).selected@ == Set::<usize>::empty(),
            final(self).entries@ == old(self).entries@,
            final(self).cursor == old(self).cursor,
    {
        self.selected = HashSet::new();
    }
}


// ─── Directory listing order ────────────────────────────────────────────────

/// Listing order: directories before files, then by lower-cased name.
pub open spec fn listing_lt(a: FileEntry, b: FileEntry) -> bool {
    ||| (a.is_dir && !b.is_dir)
    ||| (a.is_dir == b.is_dir && seq_lt(unicode_lowercase(a.name@), unicode_lowercase(b.name@)))
}

/// Entries in listing order.
pub open spec fn listing_ordered(s: Seq<FileEntry>) -> bool {
    forall|i: int, j: int| 0 <= i < j < s.len() ==> !listing_lt(#[trigger] s[j], #[trigger] s[i])
}

proof fn lemma_listing_lt_trans(a: FileEntry, b: FileEntry, c: FileEntry)
    requires
        listing_lt(a, b),
        listing_lt(b, c),
    ensures
        listing_lt(a, c),
{
    if a.is_dir == b.is_dir && b.is_dir == c.is_dir {
        lemma_seq_lt_trans(
            unicode_lowercase(a.name@),
            unicode_lowercase(b.name@),
            unicode_lowercase(c.name@),
        );
    }
}

proof fn lemma_listing_lt_irreflexive(a: FileEntry)
    ensures
        !listing_lt(a, a),
{
    lemma_seq_lt_irreflexive(unicode_lowercase(a.name@));
}

/// `a ≤ b` and `b ≤ c` give `a ≤ c` in listing order.
proof fn lemma_listing_le_trans(a: FileEntry, b: FileEntry, c: FileEntry)
    requires
        !listing_lt(b, a),
        !listing_lt(c, b),
    ensures
        !listing_lt(c, a),
{
    let la = unicode_lowercase(a.name@);
    let lb = unicode_lowercase(b.name@);
    let lc = unicode_lowercase(c.name@);
    if a.is_dir == b.is_dir && b.is_dir == c.is_dir {
        lemma_seq_le_trans(la, lb, lc);
    }
}

/// Whether `a` comes before `b` in listing order.
fn listing_less(a: &FileEntry, b: &FileEntry) -> (r: bool)
    ensures
        r == listing_lt(*a, *b),
{
    if a.is_dir != b.is_dir {
        return a.is_dir;
    }
    let la = to_lowercase(a.name.as_str());
    let lb = to_lowercase(b.name.as_str());
    str_less(la.as_str(), lb.as_str())
}

/// Orders a directory listing for the browser: directories first, then
/// files, each alphabetically ignoring case; entries that compare equal keep
/// their order (`sort_by`).
pub fn order_listing(entries: Vec<FileEntry>) -> (r: Vec<FileEntry>)
    ensures
        listing_ordered(r@),
        r@.to_multiset() == entries@.to_multiset(),
{
    let ghost input = entries@;
    let mut rest = entries;
    let mut out: Vec<FileEntry> = Vec::new();
    let mut done: usize = 0;
    let total = rest.len();
    assert(input.len() == total);
    assert(input.take(0) =~= Seq::<FileEntry>::empty());
    assert(input.skip(0) =~= input);
    assert(out@ =~= Seq::<FileEntry>::empty());
    while rest.len() > 0
        invariant
            input.len() <= usize::MAX,
            done + rest@.len() == input.len(),
            rest@ == input.skip(done as int),
            out@.to_multiset() == input.take(done as int).to_multiset(),
            listing_ordered(out@),
        decreases rest@.len(),
    {
        let e = rest.remove(0);
        assert(e == input[done as int]);
        let mut k: usize = out.len();
        while k > 0 && listing_less(&e, &out[k - 1])
            invariant
                k <= out@.len(),
                listing_ordered(out@),
                forall|j: int| k <= j < out@.len() ==> listing_lt(e, #[trigger] out@[j]),
            decreases k,
        {
            k = k - 1;
        }
        let ghost before = out@;
        proof {
            if k > 0 {
                assert forall|i: int| 0 <= i < k implies !listing_lt(e, #[trigger] before[i]) by {
                    if i < k - 1 {
                        lemma_listing_le_trans(before[i], before[k - 1], e);
                    }
                }
            }
        }
        out.insert(k, e);
        proof {
            let s = out@;
            assert(s == before.insert(k as int, e));
            assert forall|i: int, j: int| 0 <= i < j < s.len() implies !listing_lt(
                #[trigger] s[j],
                #[trigger] s[i],
            ) by {
                if j < k {
                    assert(s[i] == before[i] && s[j] == before[j]);
                } else if j == k {
                    assert(s[i] == before[i]);
                } else if i == k {
                    assert(s[j] == before[j - 1]);
                    if listing_lt(before[j - 1], e) {
                        lemma_listing_lt_trans(e, before[j - 1], e);
                        lemma_listing_lt_irreflexive(e);
                    }
                } else if i < k {
                    assert(s[i] == before[i] && s[j] == before[j - 1]);
                    if listing_lt(before[j - 1], before[i]) {
                        if listing_lt(before[j - 1], e) {
                            lemma_listing_lt_trans(e, before[j - 1], e);
                            lemma_listing_lt_irreflexive(e);
                        }
                        lemma_listing_lt_trans(e, before[j - 1], before[i]);
                    }
                } else {
                    assert(s[i] == before[i - 1] && s[j] == before[j - 1]);
                }
            }
            assert(input.take(done + 1) =~= input.take(done as int).push(input[done as int]));
        }
        done = done + 1;
        assert(rest@ =~= input.skip(done as int));
    }
    assert(input.take(done as int) =~= input);
    out
}

proof fn lemma_selected_size_monotone(entries: Seq<FileEntry>, sel: Set<usize>, i: int, n: int)
    requires
        0 <= i <= n <= entries.len(),
    ensures
        selected_size_upto(entries, sel, i) <= selected_size_upto(entries, sel, n),
    decreases n - i,
{
    if i < n {
        lemma_selected_size_monotone(entries, sel, i, n - 1);
    }
}

} // verus!
