use std::path::PathBuf;

use filedrop::configurator::{wrap_down, wrap_up, ConfigState};
use filedrop::dashboard::{
    push_log_line, push_request, selected_indices, ClientNotice, Dashboard, KeyOutcome, Panes,
};
use filedrop::protocol::{TransferFile, TransferStatus};
use filedrop::receiver::ReceiverNotice;
use filedrop::tui_state::{
    map_key_event, next_focus, order_listing, push_log, record_speed_sample, AppEvent, AppMode,
    ConnectionStatus, FileBrowserState, FileEntry, FocusPane, KeyInput, LogEntry, LogLevel,
    TransferQueue,
};
use sha2::{Digest, Sha256};

fn file(name: &str, size: u64) -> TransferFile {
    TransferFile::new(name.to_string(), size, "h".to_string())
}

fn fe(name: &str, is_dir: bool, size: u64) -> FileEntry {
    FileEntry { name: name.to_string(), is_dir, size, path: PathBuf::from(name) }
}

fn is_hms(t: &str) -> bool {
    let b = t.as_bytes();
    b.len() == 8
        && b[2] == b':'
        && b[5] == b':'
        && b.iter().enumerate().all(|(i, c)| i == 2 || i == 5 || c.is_ascii_digit())
}

#[test]
fn statuses_and_modes_display() {
    assert_eq!(AppMode::Receive.display_string(), "RECEIVE MODE");
    assert_eq!(AppMode::Send.display_string(), "SEND MODE");
    assert_eq!(ConnectionStatus::Ready.display_string(), "📡 Ready");
    assert_eq!(
        ConnectionStatus::Connected { peer_name: "p".to_string() }.display_string(),
        "🔗 Connected to p"
    );
    assert_eq!(ConnectionStatus::Error("e".to_string()).display_string(), "❌ e");
}

#[test]
fn keys_map_to_events() {
    assert_eq!(map_key_event(KeyInput::Char('q'), false), Some(AppEvent::Quit));
    assert_eq!(map_key_event(KeyInput::Char('c'), true), Some(AppEvent::Quit));
    assert_eq!(map_key_event(KeyInput::Char('c'), false), None);
    assert_eq!(map_key_event(KeyInput::Tab, false), Some(AppEvent::TabFocus));
    assert_eq!(map_key_event(KeyInput::PageDown, false), Some(AppEvent::LogScrollDown));
    assert_eq!(next_focus(FocusPane::SystemLog, false), FocusPane::TransferQueue);
    assert_eq!(next_focus(FocusPane::SystemLog, true), FocusPane::FileBrowser);
}

#[test]
fn log_is_bounded() {
    let mut entries: Vec<LogEntry> = Vec::new();
    for i in 0..501 {
        let e = LogEntry { timestamp: "t".to_string(), message: i.to_string(), level: LogLevel::Info };
        push_log(&mut entries, e);
    }
    assert_eq!(entries.len(), 401);
    assert_eq!(entries[0].message, "100");
    let mut h = vec![0u64; 60];
    record_speed_sample(&mut h, 5);
    assert_eq!(h.len(), 60);
    assert_eq!(h[59], 5);
}

#[test]
fn queue_tracks_files() {
    let mut q = TransferQueue::new();
    q.add_file(file("a", 10));
    q.add_file(file("b", 20));
    q.update_progress("a", 4);
    assert_eq!(q.total_bytes_transferred, 4);
    assert_eq!(q.status, ConnectionStatus::Transferring);
    q.complete_file("a");
    assert_eq!(q.file_queue[0].bytes_transferred, 10);
    assert!(!q.all_done());
    q.fail_file("b", "boom");
    assert_eq!(q.file_queue[1].status, TransferStatus::Failed("boom".to_string()));
    assert!(q.all_done());
    q.peer_disconnected();
    assert_eq!(q.status, ConnectionStatus::Complete);
}

#[test]
fn dashboard_applies_server_events() {
    let mut d = Dashboard::new(true);
    assert!(d.on_server_notice(ReceiverNotice::PeerConnected {
        name: "1.2.3.4:5".to_string(),
        addr: "1.2.3.4".to_string()
    }));
    assert_eq!(
        d.queue.status,
        ConnectionStatus::Connected { peer_name: "1.2.3.4:5".to_string() }
    );
    assert_eq!(d.log_entries[0].message, "📱 1.2.3.4:5 connected (1.2.3.4)");
    assert_eq!(d.log_entries[0].level, LogLevel::Success);
    assert!(is_hms(&d.log_entries[0].timestamp));
    let n = ReceiverNotice::FileStarted(file("x", 3));
    assert!(d.server_notice_fits(&n));
    d.on_server_notice(n);
    let c = ReceiverNotice::FileCompleted { file_name: "x".to_string(), verified: true };
    assert!(d.server_notice_fits(&c));
    d.on_server_notice(c);
    assert_eq!(d.log_entries.last().unwrap().message, "[ENC] ✓ x — verified");
    assert_eq!(d.queue.status, ConnectionStatus::Complete);
    d.on_server_notice(ReceiverNotice::PeerDisconnected { name: "p".to_string() });
    assert_eq!(d.log_entries.last().unwrap().message, "p disconnected");
    assert_eq!(d.log_scroll, d.log_entries.len() - 1);
    let mut full = Dashboard::new(false);
    full.on_server_notice(ReceiverNotice::FileStarted(file("big", u64::MAX)));
    assert!(!full.server_notice_fits(&ReceiverNotice::FileStarted(file("more", 1))));
}

#[test]
fn dashboard_applies_client_events() {
    let mut d = Dashboard::new(false);
    d.on_client_notice(ClientNotice::Connecting { addr: "h:1".to_string() });
    d.on_client_notice(ClientNotice::Connected { peer_name: "h:1".to_string() });
    d.on_client_notice(ClientNotice::FileStarted(file("f", 1)));
    d.on_client_notice(ClientNotice::FileCompleted { file_name: "f".to_string() });
    d.on_client_notice(ClientNotice::FileFailed { file_name: "g".to_string(), error: "e".to_string() });
    d.on_client_notice(ClientNotice::BatchComplete { successful: 1, failed: 1 });
    let msgs: Vec<&str> = d.log_entries.iter().map(|e| e.message.as_str()).collect();
    assert_eq!(
        msgs,
        vec![
            "Connecting to h:1...",
            "Connected to h:1",
            "✓ f sent successfully",
            "✗ g — e",
            "Batch complete: 1 succeeded, 1 failed",
        ]
    );
    assert_eq!(d.queue.status, ConnectionStatus::Complete);
    d.on_client_notice(ClientNotice::Disconnected);
    assert_eq!(d.queue.status, ConnectionStatus::Disconnected);
    assert_eq!(d.log_entries.last().unwrap().level, LogLevel::Warning);
}

#[test]
fn listing_order_and_browser_keys() {
    let listing = order_listing(vec![
        fe("b.txt", false, 1),
        fe("Zeta", true, 0),
        fe("a.txt", false, 2),
        fe("alpha", true, 0),
    ]);
    let names: Vec<&str> = listing.iter().map(|e| e.name.as_str()).collect();
    assert_eq!(names, vec!["alpha", "Zeta", "a.txt", "b.txt"]);
    let mut browser = Some(FileBrowserState::new(PathBuf::from("."), listing));
    let mut p = Panes::new();
    assert_eq!(p.on_key(AppEvent::TabFocus, &mut browser, 0, 0), KeyOutcome::Done);
    assert_eq!(p.on_key(AppEvent::TabFocus, &mut browser, 0, 0), KeyOutcome::Done);
    assert_eq!(p.focus, FocusPane::FileBrowser);
    assert_eq!(p.on_key(AppEvent::Enter, &mut browser, 0, 0), KeyOutcome::OpenEntry);
    p.on_key(AppEvent::ScrollEnd, &mut browser, 0, 0);
    assert_eq!(browser.as_ref().unwrap().cursor, 3);
    assert_eq!(p.on_key(AppEvent::Enter, &mut browser, 0, 0), KeyOutcome::Done);
    p.on_key(AppEvent::ToggleSelect, &mut browser, 0, 0);
    p.on_key(AppEvent::ScrollUp, &mut browser, 0, 0);
    p.on_key(AppEvent::ToggleSelect, &mut browser, 0, 0);
    let fb = browser.as_ref().unwrap();
    assert_eq!(fb.selected_count(), 2);
    assert_eq!(fb.selected_size(), 3);
    assert_eq!(selected_indices(fb), vec![2, 3]);
    assert_eq!(p.on_key(AppEvent::SendSelected, &mut browser, 0, 0), KeyOutcome::SendSelected);
    assert_eq!(p.on_key(AppEvent::GoBack, &mut browser, 0, 0), KeyOutcome::GoUp);
    p.on_key(AppEvent::SelectAll, &mut browser, 0, 0);
    assert_eq!(browser.as_ref().unwrap().selected_count(), 4);
    p.on_key(AppEvent::SelectAll, &mut browser, 0, 0);
    assert_eq!(browser.as_ref().unwrap().selected_count(), 0);
    assert_eq!(p.on_key(AppEvent::Quit, &mut browser, 0, 0), KeyOutcome::Quit);
}

#[test]
fn scrolling_follows_focus() {
    let mut none: Option<FileBrowserState> = None;
    let mut p = Panes::new();
    p.on_key(AppEvent::ScrollDown, &mut none, 10, 3);
    p.on_key(AppEvent::ScrollDown, &mut none, 10, 3);
    p.on_key(AppEvent::ScrollDown, &mut none, 10, 3);
    assert_eq!(p.queue_scroll, 2);
    p.on_key(AppEvent::TabFocus, &mut none, 10, 3);
    assert_eq!(p.focus, FocusPane::SystemLog);
    p.on_key(AppEvent::LogScrollDown, &mut none, 25, 3);
    assert_eq!(p.log_scroll, 10);
    p.on_key(AppEvent::ScrollEnd, &mut none, 25, 3);
    assert_eq!(p.log_scroll, 24);
    p.on_key(AppEvent::LogScrollUp, &mut none, 25, 3);
    assert_eq!(p.log_scroll, 14);
    p.on_key(AppEvent::ScrollHome, &mut none, 25, 3);
    assert_eq!(p.log_scroll, 0);
    p.on_key(AppEvent::ScrollUp, &mut none, 25, 3);
    assert_eq!(p.log_scroll, 0);
    p.on_key(AppEvent::TabFocus, &mut none, 25, 3);
    assert_eq!(p.focus, FocusPane::TransferQueue);
}

#[test]
fn push_requests_carry_the_digest() {
    let r = push_request("f.bin", vec![1, 2, 3]);
    assert_eq!(r.sha256, hex::encode(Sha256::digest([1u8, 2, 3])));
    assert_eq!(r.data, vec![1, 2, 3]);
    assert_eq!(push_log_line("f.bin", 3), "[PUSH] Sending f.bin (3 B)");
}

#[test]
fn share_configurator_settings() {
    let mut c = ConfigState::new();
    assert_eq!(c.current_duration(), 900);
    assert_eq!(c.current_duration_str(), "15 minutes");
    c.press_right();
    assert_eq!(c.current_duration(), 1800);
    c.press_left();
    c.press_left();
    c.press_left();
    assert_eq!(c.current_duration(), 300);
    c.press_left();
    assert_eq!(c.current_duration(), 7200);
    c.cursor_down();
    c.press_right();
    assert!(c.pin_enabled);
    c.cursor_down();
    for d in ['1', '2', '3', '4', '5'] {
        c.type_digit(d);
    }
    assert_eq!(c.pin_code, "1234");
    c.erase_digit();
    assert_eq!(c.chosen_pin(), None);
    c.type_digit('9');
    assert_eq!(c.chosen_pin(), Some("1239".to_string()));
    c.cursor_down();
    c.press_left();
    assert!(!c.once);
    c.cursor_down();
    assert_eq!(c.config_cursor, 4);
    c.cursor_down();
    assert_eq!(c.config_cursor, 0);
    c.cursor_up();
    assert_eq!(c.config_cursor, 4);
    assert!(c.build_share(vec![]).is_none());
    let share = c.build_share(vec![PathBuf::from("a")]).unwrap();
    assert_eq!(share.expires, 7200);
    assert_eq!(share.pin, Some("1239".to_string()));
    assert!(!share.once);
    assert_eq!(wrap_up(0, 3), 2);
    assert_eq!(wrap_down(2, 3), 0);
}

#[test]
fn overflow_checks_before_progress_and_selection_totals() {
    let mut q = TransferQueue::new();
    q.add_file(file("a", u64::MAX - 30));
    q.add_file(file("b", 20));
    assert!(q.progress_fits("a", u64::MAX - 30));
    q.update_progress("a", u64::MAX - 30);
    assert!(q.progress_fits("b", 30));
    assert!(!q.progress_fits("b", 31));
    assert!(q.progress_fits("missing", u64::MAX));

    let mut fb = FileBrowserState::new(
        PathBuf::from("."),
        vec![fe("x", false, u64::MAX), fe("y", false, 1), fe("z", false, 5)],
    );
    fb.selected.insert(0);
    fb.selected.insert(2);
    assert!(!fb.selected_size_fits());
    fb.selected.remove(&0);
    assert!(fb.selected_size_fits());
    assert_eq!(fb.selected_size(), 5);
}

#[test]
fn failed_and_completed_files_update_the_queue() {
    let mut d = Dashboard::new(false);
    d.on_server_notice(ReceiverNotice::FileStarted(file("a", 10)));
    d.on_server_notice(ReceiverNotice::FileStarted(file("b", 20)));
    d.on_server_notice(ReceiverNotice::FileFailed { file_name: "a".to_string(), error: "disk full".to_string() });
    assert_eq!(d.queue.file_queue[0].status, TransferStatus::Failed("disk full".to_string()));
    assert_eq!(d.queue.file_queue[1].status, TransferStatus::Queued);
    assert_eq!(d.queue.total_bytes_transferred, 0);
    assert_eq!(d.queue.total_bytes_expected, 30);
    d.on_server_notice(ReceiverNotice::FileCompleted { file_name: "b".to_string(), verified: true });
    assert_eq!(d.queue.file_queue[1].status, TransferStatus::Completed);
    assert_eq!(d.queue.total_bytes_transferred, 20);
    assert_eq!(d.queue.status, ConnectionStatus::Complete);

    let mut c = Dashboard::new(false);
    c.on_client_notice(ClientNotice::FileStarted(file("x", 5)));
    c.on_client_notice(ClientNotice::FileStarted(file("y", 7)));
    c.on_client_notice(ClientNotice::FileCompleted { file_name: "x".to_string() });
    assert_eq!(c.queue.total_bytes_transferred, 5);
    assert_eq!(c.queue.status, ConnectionStatus::Ready);
    c.on_client_notice(ClientNotice::FileFailed { file_name: "y".to_string(), error: "gone".to_string() });
    assert_eq!(c.queue.file_queue[1].status, TransferStatus::Failed("gone".to_string()));
    assert_eq!(c.queue.total_bytes_transferred, 5);
}
