//! What the transfer dashboard does with the events of the receive server
//! and of the send client: the queue, the connection status and the log.
//!
//! The dashboard's transfer speed, progress ratios and pane animation are
//! floating-point and live outside the library, as does drawing.
use vstd::prelude::*;
use crate::protocol::{format_bytes, format_bytes_spec, TransferFile};
use crate::receiver::ReceiverNotice;
use crate::server::PushRequest;
use crate::integrity::{digest_hex, sha256_hex};
use crate::text::{decimal, is_digit, push_decimal};
use crate::tui_state::{
    all_finished, completed, fail_step, find_file, next_focus, next_focus_spec, push_log,
    transferred_sum, AppEvent, ConnectionStatus, FileBrowserState, FocusPane, LogEntry, LogLevel,
    TransferQueue, LOG_CAPACITY, LOG_TRIM,
};

verus! {

/// `t` reads `HH:MM:SS`: two digits, a colon, two digits, a colon, two digits.
pub open spec fn is_hms(t: Seq<char>) -> bool {
    &&& t.len() == 8
    &&& t[2] == ':' && t[5] == ':'
    &&& forall|i: int| 0 <= i < 8 && i != 2 && i != 5 ==> #[trigger] is_digit(t[i])
}

/// The local time of day as `HH:MM:SS`
/// (`chrono::Local::now().format("%H:%M:%S")`); the contract claims only
/// the shape, which the format guarantees: each field is zero-padded to two
/// digits.
#[verifier::external_body]
fn clock_hms() -> (r: String)
    ensures
        is_hms(r@),
{
    chrono::Local::now().format("%H:%M:%S").to_string()
}

/// The log after appending `entry`: at most [`LOG_CAPACITY`] entries, the
/// oldest [`LOG_TRIM`] dropped on overflow.
pub open spec fn appended(entries: Seq<LogEntry>, entry: LogEntry) -> Seq<LogEntry> {
    let grown = entries.push(entry);
    if grown.len() > LOG_CAPACITY {
        grown.skip(LOG_TRIM as int)
    } else {
        grown
    }
}

/// `after` is `before` with one entry logged with this message and level,
/// stamped with the time of day.
pub open spec fn logged(before: Seq<LogEntry>, message: Seq<char>, level: LogLevel, after: Seq<LogEntry>) -> bool {
    &&& after.len() > 0
    &&& after == appended(before, after.last())
    &&& after.last().message@ == message
    &&& after.last().level == level
    &&& is_hms(after.last().timestamp@)
}

/// A dashboard event of the send client.
#[derive(Debug, Clone, PartialEq, Eq)]
pub enum ClientNotice {
    /// Connecting to the peer at this address.
    Connecting { addr: String },
    /// Connected to the peer.
    Connected { peer_name: String },
    /// The connection was lost.
    Disconnected,
    /// A file transfer started; the entry to add to the queue.
    FileStarted(TransferFile),
    /// A file was delivered.
    FileCompleted { file_name: String },
    /// A file could not be delivered.
    FileFailed { file_name: String, error: String },
    /// The batch is over.
    BatchComplete { successful: usize, failed: usize },
    /// A line for the log panel.
    Log(String),
    /// An error line for the log panel.
    Error(String),
}

/// The dashboard's queue, status and log.
pub struct Dashboard {
    /// The transfers and the connection status.
    pub queue: TransferQueue,
    /// The log panel's entries.
    pub log_entries: Vec<LogEntry>,
    /// The log panel's scroll position (the newest entry).
    pub log_scroll: usize,
    /// Whether transfers are end-to-end encrypted (marks verified files).
    pub encrypt_enabled: bool,
}

/// Whether the queue can take the event without its byte counters
/// overflowing.
pub open spec fn fits_queue(q: TransferQueue, file: Option<TransferFile>, completed_name: Option<Seq<char>>) -> bool {
    &&& file matches Some(f) ==> q.total_bytes_expected + f.size <= u64::MAX
    &&& completed_name matches Some(n) ==> transferred_sum(
        completed(q.file_queue@, n),
        q.file_queue@.len() as int,
    ) <= u64::MAX
}

/// Whether a server notice can be applied.
pub open spec fn server_notice_fits(q: TransferQueue, n: ReceiverNotice) -> bool {
    match n {
        ReceiverNotice::FileStarted(f) => fits_queue(q, Some(f), None),
        ReceiverNotice::FileCompleted { file_name, .. } => fits_queue(q, None, Some(file_name@)),
        _ => true,
    }
}

/// Whether a client notice can be applied.
pub open spec fn client_notice_fits(q: TransferQueue, n: ClientNotice) -> bool {
    match n {
        ClientNotice::FileStarted(f) => fits_queue(q, Some(f), None),
        ClientNotice::FileCompleted { file_name } => fits_queue(q, None, Some(file_name@)),
        _ => true,
    }
}

impl Dashboard {
    /// An empty dashboard, ready for a connection.
    pub fn new(encrypt_enabled: bool) -> (r: Dashboard)
        ensures
            r.queue.file_queue@.len() == 0,
            r.queue.status == ConnectionStatus::Ready,
            r.queue.total_bytes_expected == 0,
            r.queue.total_bytes_transferred == 0,
            r.log_entries@.len() == 0,
            r.encrypt_enabled == encrypt_enabled,
    {
        Dashboard {
            queue: TransferQueue::new(),
            log_entries: Vec::new(),
            log_scroll: 0,
            encrypt_enabled,
        }
    }

    /// Adds a line to the log, stamped with the time of day; the log keeps
    /// its newest entries and scrolls to the last one.
    pub fn log(&mut self, message: String, level: LogLevel)
        ensures
            logged(old(self).log_entries@, message@, level, final(self).log_entries@),
            final(self).log_scroll == final(self).log_entries@.len() - 1,
            final(self).queue == old(self).queue,
            final(self).encrypt_enabled == old(self).encrypt_enabled,
    {
        let timestamp = clock_hms();
        let entry = LogEntry { timestamp, message, level };
        let ghost e = entry;
        self.log_scroll = push_log(&mut self.log_entries, entry);
        assert(self.log_entries@.last() == e);
    }

    /// Whether a server notice can be applied without overflowing the
    /// queue's byte counters.
    pub fn server_notice_fits(&self, n: &ReceiverNotice) -> (r: bool)
        ensures
            r == server_notice_fits(self.queue, *n),
    {
        match n {
            ReceiverNotice::FileStarted(f) => self.expected_fits(f.size),
            ReceiverNotice::FileCompleted { file_name, .. } => self.completion_fits(file_name.as_str()),
            _ => true,
        }
    }

    /// Whether a client notice can be applied without overflowing the
    /// queue's byte counters.
    pub fn client_notice_fits(&self, n: &ClientNotice) -> (r: bool)
        ensures
            r == client_notice_fits(self.queue, *n),
    {
        match n {
            ClientNotice::FileStarted(f) => self.expected_fits(f.size),
            ClientNotice::FileCompleted { file_name } => self.completion_fits(file_name.as_str()),
            _ => true,
        }
    }

    fn expected_fits(&self, size: u64) -> (r: bool)
        ensures
            r == (self.queue.total_bytes_expected + size <= u64::MAX),
    {
        size <= u64::MAX - self.queue.total_bytes_expected
    }

    fn completion_fits(&self, name: &str) -> (r: bool)
        ensures
            r == (transferred_sum(
                completed(self.queue.file_queue@, name@),
                self.queue.file_queue@.len() as int,
            ) <= u64::MAX),
    {
        let q = &self.queue.file_queue;
        let ghost c = completed(q@, name@);
        proof {
            crate::tui_state::lemma_find_file_in_range(q@, name@, 0);
        }
        let target = self.queue.position(name);
        let mut total: u128 = 0;
        let mut i: usize = 0;
        while i < q.len()
            invariant
                i <= q@.len(),
                c == completed(q@, name@),
                match find_file(q@, name@, 0) {
                    Some(k) => target matches Some(t) && t as int == k,
                    None => target is None,
                },
                find_file(q@, name@, 0) matches Some(k) ==> 0 <= k < q@.len(),
                c.len() == q@.len(),
                total == transferred_sum(c, i as int),
                total <= i * 0xFFFF_FFFF_FFFF_FFFFu128,
            decreases q@.len() - i,
        {
            let b: u64 = match target {
                Some(k) => if k == i {
                    q[i].size
                } else {
                    q[i].bytes_transferred
                },
                None => q[i].bytes_transferred,
            };
            assert(b == c[i as int].bytes_transferred);
            proof {
                assert(total + b <= (i + 1) * 0xFFFF_FFFF_FFFF_FFFFu128) by (nonlinear_arith)
                    requires
                        total <= i * 0xFFFF_FFFF_FFFF_FFFFu128,
                        b <= 0xFFFF_FFFF_FFFF_FFFFu64,
                ;
                assert((i + 1) * 0xFFFF_FFFF_FFFF_FFFFu128 <= 0xFFFF_FFFF_FFFF_FFFF_FFFF_FFFF_FFFF_FFFFu128)
                    by (nonlinear_arith)
                    requires
                        i < 0xFFFF_FFFF_FFFF_FFFFu128,
                ;
            }
            total = total + b as u128;
            i = i + 1;
        }
        total <= 0xFFFF_FFFF_FFFF_FFFFu128
    }

    /// Applies an event of the receive server. Returns whether the file
    /// browser is to be opened (a phone connected).
    pub fn on_server_notice(&mut self, n: ReceiverNotice) -> (open_browser: bool)
        requires
            server_notice_fits(old(self).queue, n),
        ensures
            final(self).encrypt_enabled == old(self).encrypt_enabled,
            open_browser == n is PeerConnected,
            match n {
                ReceiverNotice::PeerConnected { name, addr } => {
                    &&& final(self).queue.status == ConnectionStatus::Connected { peer_name: name }
                    &&& final(self).queue.file_queue@ == old(self).queue.file_queue@
                    &&& logged(
                        old(self).log_entries@,
                        "📱 "@ + name@ + " connected ("@ + addr@ + ")"@,
                        LogLevel::Success,
                        final(self).log_entries@,
                    )
                },
                ReceiverNotice::PeerDisconnected { name } => {
                    &&& final(self).queue.status == if all_finished(old(self).queue.file_queue@)
                        && old(self).queue.file_queue@.len() > 0 {
                        ConnectionStatus::Complete
                    } else {
                        ConnectionStatus::Ready
                    }
                    &&& final(self).queue.file_queue@ == old(self).queue.file_queue@
                    &&& logged(
                        old(self).log_entries@,
                        name@ + " disconnected"@,
                        LogLevel::Info,
                        final(self).log_entries@,
                    )
                },
                ReceiverNotice::FileStarted(f) => {
                    &&& final(self).queue.file_queue@ == old(self).queue.file_queue@.push(f)
                    &&& final(self).queue.total_bytes_expected == old(self).queue.total_bytes_expected
                        + f.size
                    &&& final(self).queue.status == old(self).queue.status
                    &&& final(self).log_entries@ == old(self).log_entries@
                },
                ReceiverNotice::FileCompleted { file_name, verified } => {
                    &&& final(self).queue.file_queue@ == completed(
                        old(self).queue.file_queue@,
                        file_name@,
                    )
                    &&& final(self).queue.total_bytes_transferred == transferred_sum(
                        final(self).queue.file_queue@,
                        final(self).queue.file_queue@.len() as int,
                    )
                    &&& final(self).queue.total_bytes_expected == old(self).queue.total_bytes_expected
                    &&& final(self).queue.status == if all_finished(final(self).queue.file_queue@)
                        && final(self).queue.file_queue@.len() > 0 {
                        ConnectionStatus::Complete
                    } else {
                        old(self).queue.status
                    }
                    &&& verified ==> logged(
                        old(self).log_entries@,
                        (if old(self).encrypt_enabled {
                            "[ENC] ✓"@
                        } else {
                            "✓"@
                        }) + " "@ + file_name@ + " — verified"@,
                        LogLevel::Success,
                        final(self).log_entries@,
                    )
                    &&& !verified ==> final(self).log_entries@ == old(self).log_entries@
                },
                ReceiverNotice::FileFailed { file_name, error } => {
                    &&& fail_step(
                        old(self).queue.file_queue@,
                        final(self).queue.file_queue@,
                        file_name@,
                        error@,
                    )
                    &&& final(self).queue.total_bytes_transferred
                        == old(self).queue.total_bytes_transferred
                    &&& final(self).queue.total_bytes_expected == old(self).queue.total_bytes_expected
                    &&& final(self).queue.status == old(self).queue.status
                    &&& logged(
                        old(self).log_entries@,
                        "✗ "@ + file_name@ + " — "@ + error@,
                        LogLevel::Error,
                        final(self).log_entries@,
                    )
                },
                ReceiverNotice::Log(m) => {
                    &&& final(self).queue == old(self).queue
                    &&& logged(old(self).log_entries@, m@, LogLevel::Info, final(self).log_entries@)
                },
                ReceiverNotice::Error(m) => {
                    &&& final(self).queue == old(self).queue
                    &&& logged(old(self).log_entries@, m@, LogLevel::Error, final(self).log_entries@)
                },
            },
    {
        match n {
            ReceiverNotice::PeerConnected { name, addr } => {
                let mut m = String::from_str("📱 ");
                m.append(name.as_str());
                m.append(" connected (");
                m.append(addr.as_str());
                m.append(")");
                self.queue.status = ConnectionStatus::Connected { peer_name: name };
                self.log(m, LogLevel::Success);
                true
            },
            ReceiverNotice::PeerDisconnected { name } => {
                self.queue.peer_disconnected();
                let mut m = name;
                m.append(" disconnected");
                self.log(m, LogLevel::Info);
                false
            },
            ReceiverNotice::FileStarted(f) => {
                self.queue.add_file(f);
                false
            },
            ReceiverNotice::FileCompleted { file_name, verified } => {
                self.queue.complete_file(file_name.as_str());
                if verified {
                    let mut m = if self.encrypt_enabled {
                        String::from_str("[ENC] ✓")
                    } else {
                        String::from_str("✓")
                    };
                    m.append(" ");
                    m.append(file_name.as_str());
                    m.append(" — verified");
                    self.log(m, LogLevel::Success);
                }
                false
            },
            ReceiverNotice::FileFailed { file_name, error } => {
                self.queue.fail_file(file_name.as_str(), error.as_str());
                let mut m = String::from_str("✗ ");
                m.append(file_name.as_str());
                m.append(" — ");
                m.append(error.as_str());
                self.log(m, LogLevel::Error);
                false
            },
            ReceiverNotice::Log(m) => {
                self.log(m, LogLevel::Info);
                false
            },
            ReceiverNotice::Error(m) => {
                self.log(m, LogLevel::Error);
                false
            },
        }
    }

    /// Applies an event of the send client.
    pub fn on_client_notice(&mut self, n: ClientNotice)
        requires
            client_notice_fits(old(self).queue, n),
        ensures
            final(self).encrypt_enabled == old(self).encrypt_enabled,
            match n {
                ClientNotice::Connecting { addr } => {
                    &&& final(self).queue == old(self).queue
                    &&& logged(
                        old(self).log_entries@,
                        "Connecting to "@ + addr@ + "..."@,
                        LogLevel::Info,
                        final(self).log_entries@,
                    )
                },
                ClientNotice::Connected { peer_name } => {
                    &&& final(self).queue.status == ConnectionStatus::Connected { peer_name }
                    &&& final(self).queue.file_queue@ == old(self).queue.file_queue@
                    &&& logged(
                        old(self).log_entries@,
                        "Connected to "@ + peer_name@,
                        LogLevel::Success,
                        final(self).log_entries@,
                    )
                },
                ClientNotice::Disconnected => {
                    &&& final(self).queue.status == ConnectionStatus::Disconnected
                    &&& final(self).queue.file_queue@ == old(self).queue.file_queue@
                    &&& logged(
                        old(self).log_entries@,
                        "Disconnected"@,
                        LogLevel::Warning,
                        final(self).log_entries@,
                    )
                },
                ClientNotice::FileStarted(f) => {
                    &&& final(self).queue.file_queue@ == old(self).queue.file_queue@.push(f)
                    &&& final(self).queue.total_bytes_expected == old(self).queue.total_bytes_expected
                        + f.size
                    &&& final(self).log_entries@ == old(self).log_entries@
                },
                ClientNotice::FileCompleted { file_name } => {
                    &&& final(self).queue.file_queue@ == completed(
                        old(self).queue.file_queue@,
                        file_name@,
                    )
                    &&& final(self).queue.total_bytes_transferred == transferred_sum(
                        final(self).queue.file_queue@,
                        final(self).queue.file_queue@.len() as int,
                    )
                    &&& final(self).queue.total_bytes_expected == old(self).queue.total_bytes_expected
                    &&& final(self).queue.status == if all_finished(final(self).queue.file_queue@)
                        && final(self).queue.file_queue@.len() > 0 {
                        ConnectionStatus::Complete
                    } else {
                        old(self).queue.status
                    }
                    &&& logged(
                        old(self).log_entries@,
                        "✓ "@ + file_name@ + " sent successfully"@,
                        LogLevel::Success,
                        final(self).log_entries@,
                    )
                },
                ClientNotice::FileFailed { file_name, error } => {
                    &&& fail_step(
                        old(self).queue.file_queue@,
                        final(self).queue.file_queue@,
                        file_name@,
                        error@,
                    )
                    &&& final(self).queue.total_bytes_transferred
                        == old(self).queue.total_bytes_transferred
                    &&& final(self).queue.total_bytes_expected == old(self).queue.total_bytes_expected
                    &&& final(self).queue.status == old(self).queue.status
                    &&& logged(
                        old(self).log_entries@,
                        "✗ "@ + file_name@ + " — "@ + error@,
                        LogLevel::Error,
                        final(self).log_entries@,
                    )
                },
                ClientNotice::BatchComplete { successful, failed } => {
                    &&& final(self).queue.status == ConnectionStatus::Complete
                    &&& final(self).queue.file_queue@ == old(self).queue.file_queue@
                    &&& logged(
                        old(self).log_entries@,
                        "Batch complete: "@ + decimal(successful as nat) + " succeeded, "@ + decimal(
                            failed as nat,
                        ) + " failed"@,
                        LogLevel::Success,
                        final(self).log_entries@,
                    )
                },
                ClientNotice::Log(m) => {
                    &&& final(self).queue == old(self).queue
                    &&& logged(old(self).log_entries@, m@, LogLevel::Info, final(self).log_entries@)
                },
                ClientNotice::Error(m) => {
                    &&& final(self).queue == old(self).queue
                    &&& logged(old(self).log_entries@, m@, LogLevel::Error, final(self).log_entries@)
                },
            },
    {
        match n {
            ClientNotice::Connecting { addr } => {
                let mut m = String::from_str("Connecting to ");
                m.append(addr.as_str());
                m.append("...");
                self.log(m, LogLevel::Info);
            },
            ClientNotice::Connected { peer_name } => {
                let mut m = String::from_str("Connected to ");
                m.append(peer_name.as_str());
                self.queue.status = ConnectionStatus::Connected { peer_name };
                self.log(m, LogLevel::Success);
            },
            ClientNotice::Disconnected => {
                self.queue.status = ConnectionStatus::Disconnected;
                self.log(String::from_str("Disconnected"), LogLevel::Warning);
            },
            ClientNotice::FileStarted(f) => {
                self.queue.add_file(f);
            },
            ClientNotice::FileCompleted { file_name } => {
                self.queue.complete_file(file_name.as_str());
                let mut m = String::from_str("✓ ");
                m.append(file_name.as_str());
                m.append(" sent successfully");
                self.log(m, LogLevel::Success);
            },
            ClientNotice::FileFailed { file_name, error } => {
                self.queue.fail_file(file_name.as_str(), error.as_str());
                let mut m = String::from_str("✗ ");
                m.append(file_name.as_str());
                m.append(" — ");
                m.append(error.as_str());
                self.log(m, LogLevel::Error);
            },
            ClientNotice::BatchComplete { successful, failed } => {
                self.queue.status = ConnectionStatus::Complete;
                let mut m = String::from_str("Batch complete: ");
                push_decimal(&mut m, successful as u64);
                m.append(" succeeded, ");
                push_decimal(&mut m, failed as u64);
                m.append(" failed");
                self.log(m, LogLevel::Success);
            },
            ClientNotice::Log(m) => {
                self.log(m, LogLevel::Info);
            },
            ClientNotice::Error(m) => {
                self.log(m, LogLevel::Error);
            },
        }
    }
}


// ─── Keys on the dashboard ──────────────────────────────────────────────────

/// Which pane has focus and where the two lists are scrolled.
#[derive(Debug, Clone, Copy, PartialEq, Eq, Structural)]
pub struct Panes {
    pub focus: FocusPane,
    pub queue_scroll: usize,
    pub log_scroll: usize,
}

/// What a key leaves for the caller to do.
#[derive(Debug, Clone, Copy, PartialEq, Eq, Structural)]
pub enum KeyOutcome {
    /// Nothing more.
    Done,
    /// Leave the dashboard.
    Quit,
    /// Enter the directory under the browser's cursor (read its listing and
    /// call [`FileBrowserState::set_listing`]).
    OpenEntry,
    /// Go to the parent directory of the browser (read its listing and call
    /// [`FileBrowserState::set_listing`]).
    GoUp,
    /// Push the selected entries to the phone.
    SendSelected,
}

/// `n - 1`, or 0 for an empty list (`saturating_sub(1)`).
pub open spec fn last_index(n: nat) -> nat {
    if n == 0 {
        0
    } else {
        (n - 1) as nat
    }
}

/// `x - d`, stopping at zero.
pub open spec fn minus(x: nat, d: nat) -> nat {
    if x >= d {
        (x - d) as nat
    } else {
        0
    }
}

/// `x + d`, but at most `last_index(n)`.
pub open spec fn plus_within(x: nat, d: nat, n: nat) -> nat {
    if x + d <= last_index(n) {
        x + d
    } else {
        last_index(n)
    }
}

fn sat_sub(x: usize, d: usize) -> (r: usize)
    ensures
        r == minus(x as nat, d as nat),
{
    if x >= d {
        x - d
    } else {
        0
    }
}

fn add_within(x: usize, d: usize, n: usize) -> (r: usize)
    ensures
        r == plus_within(x as nat, d as nat, n as nat),
{
    let last = if n == 0 {
        0
    } else {
        n - 1
    };
    if x <= last && d <= last - x {
        x + d
    } else {
        last
    }
}

impl Panes {
    /// The queue has focus and both lists are at the top.
    pub fn new() -> (r: Panes)
        ensures
            r.focus == FocusPane::TransferQueue,
            r.queue_scroll == 0,
            r.log_scroll == 0,
    {
        Panes { focus: FocusPane::TransferQueue, queue_scroll: 0, log_scroll: 0 }
    }

    /// Applies a key event. `browser` is the file browser when one is open;
    /// `log_len` and `queue_len` are the lengths of the log and the queue.
    /// Scrolling goes to the pane that has focus; browser keys act only when
    /// the browser has focus.
    pub fn on_key(
        &mut self,
        ev: AppEvent,
        browser: &mut Option<FileBrowserState>,
        log_len: usize,
        queue_len: usize,
    ) -> (r: KeyOutcome)
        ensures
            (*final(browser) is Some) == (*old(browser) is Some),
            ev == AppEvent::Quit ==> r == KeyOutcome::Quit && *final(self) == *old(self),
            ev == AppEvent::TabFocus ==> final(self).focus == next_focus_spec(
                old(self).focus,
                *old(browser) is Some,
            ) && r == KeyOutcome::Done,
            ev != AppEvent::TabFocus ==> final(self).focus == old(self).focus,
            ev == AppEvent::ScrollUp && old(self).focus == FocusPane::SystemLog ==> final(self).log_scroll
                == minus(old(self).log_scroll as nat, 1),
            ev == AppEvent::ScrollUp && old(self).focus == FocusPane::TransferQueue ==> final(self).queue_scroll == minus(old(self).queue_scroll as nat, 1),
            ev == AppEvent::ScrollDown && old(self).focus == FocusPane::SystemLog ==> final(self).log_scroll == plus_within(old(self).log_scroll as nat, 1, log_len as nat),
            ev == AppEvent::ScrollDown && old(self).focus == FocusPane::TransferQueue ==> final(self).queue_scroll == plus_within(old(self).queue_scroll as nat, 1, queue_len as nat),
            ev == AppEvent::ScrollHome && old(self).focus == FocusPane::SystemLog ==> final(self).log_scroll
                == 0,
            ev == AppEvent::ScrollHome && old(self).focus == FocusPane::TransferQueue ==> final(self).queue_scroll == 0,
            ev == AppEvent::ScrollEnd && old(self).focus == FocusPane::SystemLog ==> final(self).log_scroll
                == last_index(log_len as nat),
            ev == AppEvent::ScrollEnd && old(self).focus == FocusPane::TransferQueue ==> final(self).queue_scroll == last_index(queue_len as nat),
            ev == AppEvent::LogScrollUp ==> final(self).log_scroll == minus(
                old(self).log_scroll as nat,
                10,
            ),
            ev == AppEvent::LogScrollDown ==> final(self).log_scroll == plus_within(
                old(self).log_scroll as nat,
                10,
                log_len as nat,
            ),
            old(self).focus == FocusPane::FileBrowser && *old(browser) is Some ==> {
                let fb = (*old(browser))->0;
                let nb = (*final(browser))->0;
                &&& (ev == AppEvent::ScrollUp ==> nb.cursor == minus(fb.cursor as nat, 1))
                &&& (ev == AppEvent::ScrollDown && fb.entries@.len() > 0 ==> nb.cursor == plus_within(
                    fb.cursor as nat,
                    1,
                    fb.entries@.len(),
                ))
                &&& (ev == AppEvent::ScrollHome ==> nb.cursor == 0)
                &&& (ev == AppEvent::ScrollEnd ==> nb.cursor == last_index(fb.entries@.len()))
                &&& (ev == AppEvent::ToggleSelect ==> nb.selected@ == if fb.cursor
                    < fb.entries@.len() {
                    if fb.selected@.contains(fb.cursor) {
                        fb.selected@.remove(fb.cursor)
                    } else {
                        fb.selected@.insert(fb.cursor)
                    }
                } else {
                    fb.selected@
                })
                &&& (ev == AppEvent::SelectAll ==> nb.selected@ == if fb.selected@.len()
                    == fb.entries@.len() {
                    Set::<usize>::empty()
                } else {
                    Set::new(|i: usize| i < fb.entries@.len())
                })
                &&& (ev == AppEvent::ClearSelection ==> nb.selected@ == Set::<usize>::empty())
                &&& (ev == AppEvent::Enter ==> r == (if fb.cursor < fb.entries@.len()
                    && fb.entries@[fb.cursor as int].is_dir {
                    KeyOutcome::OpenEntry
                } else {
                    KeyOutcome::Done
                }))
                &&& (ev == AppEvent::GoBack ==> r == KeyOutcome::GoUp)
                &&& (ev == AppEvent::SendSelected ==> r == KeyOutcome::SendSelected)
            },
            old(self).focus != FocusPane::FileBrowser ==> *final(browser) == *old(browser),
            ev != AppEvent::Quit && !(old(self).focus == FocusPane::FileBrowser && *old(browser) is Some
                && (ev == AppEvent::Enter || ev == AppEvent::GoBack || ev == AppEvent::SendSelected))
                ==> r == KeyOutcome::Done,
    {
        let focus = self.focus;
        match ev {
            AppEvent::Quit => {
                return KeyOutcome::Quit;
            },
            AppEvent::TabFocus => {
                self.focus = next_focus(focus, browser.is_some());
                return KeyOutcome::Done;
            },
            _ => {},
        }
        if focus == FocusPane::FileBrowser {
            match browser {
                Some(fb) => {
                    return match ev {
                        AppEvent::ScrollUp => {
                            fb.cursor_up();
                            KeyOutcome::Done
                        },
                        AppEvent::ScrollDown => {
                            fb.cursor_down();
                            KeyOutcome::Done
                        },
                        AppEvent::ScrollHome => {
                            fb.cursor_home();
                            KeyOutcome::Done
                        },
                        AppEvent::ScrollEnd => {
                            fb.cursor_end();
                            KeyOutcome::Done
                        },
                        AppEvent::Enter => {
                            if fb.cursor < fb.entries.len() && fb.entries[fb.cursor].is_dir {
                                KeyOutcome::OpenEntry
                            } else {
                                KeyOutcome::Done
                            }
                        },
                        AppEvent::GoBack => KeyOutcome::GoUp,
                        AppEvent::ToggleSelect => {
                            fb.toggle_select();
                            KeyOutcome::Done
                        },
                        AppEvent::SelectAll => {
                            fb.select_all();
                            KeyOutcome::Done
                        },
                        AppEvent::ClearSelection => {
                            fb.clear_selection();
                            KeyOutcome::Done
                        },
                        AppEvent::SendSelected => KeyOutcome::SendSelected,
                        AppEvent::LogScrollUp => {
                            self.log_scroll = sat_sub(self.log_scroll, 10);
                            KeyOutcome::Done
                        },
                        AppEvent::LogScrollDown => {
                            self.log_scroll = add_within(self.log_scroll, 10, log_len);
                            KeyOutcome::Done
                        },
                        _ => KeyOutcome::Done,
                    };
                },
                None => {},
            }
        }
        match ev {
            AppEvent::ScrollUp => {
                if focus == FocusPane::SystemLog {
                    self.log_scroll = sat_sub(self.log_scroll, 1);
                } else if focus == FocusPane::TransferQueue {
                    self.queue_scroll = sat_sub(self.queue_scroll, 1);
                }
            },
            AppEvent::ScrollDown => {
                if focus == FocusPane::SystemLog {
                    self.log_scroll = add_within(self.log_scroll, 1, log_len);
                } else if focus == FocusPane::TransferQueue {
                    self.queue_scroll = add_within(self.queue_scroll, 1, queue_len);
                }
            },
            AppEvent::ScrollHome => {
                if focus == FocusPane::SystemLog {
                    self.log_scroll = 0;
                } else if focus == FocusPane::TransferQueue {
                    self.queue_scroll = 0;
                }
            },
            AppEvent::ScrollEnd => {
                if focus == FocusPane::SystemLog {
                    self.log_scroll = if log_len > 0 {
                        log_len - 1
                    } else {
                        0
                    };
                } else if focus == FocusPane::TransferQueue {
                    self.queue_scroll = if queue_len > 0 {
                        queue_len - 1
                    } else {
                        0
                    };
                }
            },
            AppEvent::LogScrollUp => {
                self.log_scroll = sat_sub(self.log_scroll, 10);
            },
            AppEvent::LogScrollDown => {
                self.log_scroll = add_within(self.log_scroll, 10, log_len);
            },
            _ => {},
        }
        KeyOutcome::Done
    }
}

// ─── Pushing files to the phone ─────────────────────────────────────────────

/// The members of `selected` below `n`, in ascending order.
pub open spec fn selected_below(selected: Set<usize>, n: int) -> Seq<usize>
    decreases n,
{
    if n <= 0 {
        Seq::empty()
    } else {
        selected_below(selected, n - 1) + if selected.contains((n - 1) as usize) {
            seq![(n - 1) as usize]
        } else {
            Seq::<usize>::empty()
        }
    }
}

/// The indices of the selected entries that exist, in ascending order.
pub fn selected_indices(fb: &FileBrowserState) -> (r: Vec<usize>)
    ensures
        r@ == selected_below(fb.selected@, fb.entries@.len() as int),
        forall|k: int| 0 <= k < r@.len() ==> fb.selected@.contains(#[trigger] r@[k]) && r@[k]
            < fb.entries@.len(),
        forall|i: usize| fb.selected@.contains(i) && i < fb.entries@.len() ==> r@.contains(i),
        forall|a: int, b: int| 0 <= a < b < r@.len() ==> r@[a] < r@[b],
{
    let mut out: Vec<usize> = Vec::new();
    let mut i: usize = 0;
    while i < fb.entries.len()
        invariant
            i <= fb.entries@.len(),
            out@ == selected_below(fb.selected@, i as int),
            forall|k: int| 0 <= k < out@.len() ==> fb.selected@.contains(#[trigger] out@[k])
                && out@[k] < i,
            forall|j: usize| fb.selected@.contains(j) && j < i ==> out@.contains(j),
            forall|a: int, b: int| 0 <= a < b < out@.len() ==> out@[a] < out@[b],
        decreases fb.entries@.len() - i,
    {
        let ghost old_out = out@;
        let sel = fb.selected.contains(&i);
        if sel {
            out.push(i);
            assert(out@[out@.len() - 1] == i);
        }
        assert(out@ =~= selected_below(fb.selected@, i + 1));
        assert forall|j: usize| fb.selected@.contains(j) && j < i + 1 implies out@.contains(j) by {
            if j < i {
                assert(old_out.contains(j));
                let k = choose|k: int| 0 <= k < old_out.len() && old_out[k] == j;
                assert(out@[k] == j);
            } else {
                assert(out@[out@.len() - 1] == j);
            }
        }
        i = i + 1;
    }
    out
}

/// The request that pushes a file's bytes to the phone, with their digest.
pub fn push_request(name: &str, data: Vec<u8>) -> (r: PushRequest)
    ensures
        r.name@ == name@,
        r.data@ == data@,
        r.sha256@ == digest_hex(data@),
{
    let sha256 = sha256_hex(data.as_slice());
    PushRequest { name: String::from_str(name), data, sha256 }
}

/// The log line of a file pushed to the phone.
pub fn push_log_line(name: &str, size: u64) -> (r: String)
    ensures
        r@ == "[PUSH] Sending "@ + name@ + " ("@ + format_bytes_spec(size as nat) + ")"@,
{
    let mut m = String::from_str("[PUSH] Sending ");
    m.append(name);
    m.append(" (");
    let f = format_bytes(size);
    m.append(f.as_str());
    m.append(")");
    m
}

} // verus!
