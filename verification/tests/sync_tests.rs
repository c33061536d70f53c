use filedrop::sync::{
    dedup_keep_last, files_to_sync, is_temp_or_hidden, translate_event, FsEventKind, SyncEvent,
    SyncFileEntry, SyncMessage, SyncStatus, SyncTuiEvent,
};
use filedrop::sync_session::{
    file_frames, initial_sync_log, manifest_entry, on_watch_event, slash_path, sort_manifest,
    source_connecting_log, stored_event, sync_url, ListenerAction, SourceAction,
    SyncListenerSession,
};
use sha2::{Digest, Sha256};

fn entry(path: &str, sha: &str) -> SyncFileEntry {
    SyncFileEntry { path: path.to_string(), size: 1, sha256: sha.to_string() }
}

#[test]
fn status_texts() {
    assert_eq!(SyncStatus::Watching.display_string(), "WATCHING");
    assert_eq!(SyncStatus::Error("x".to_string()).display_string(), "ERROR: x");
}

#[test]
fn temp_and_hidden_files_are_ignored() {
    assert!(is_temp_or_hidden(Some(".git")));
    assert!(is_temp_or_hidden(Some("notes.txt~")));
    assert!(is_temp_or_hidden(Some("a.swp")));
    assert!(is_temp_or_hidden(None));
    assert!(!is_temp_or_hidden(Some("notes.txt")));
}

#[test]
fn notifications_become_sync_events() {
    assert_eq!(
        translate_event(FsEventKind::CreateAny, Some("d".to_string()), Some("d"), true),
        Some(SyncEvent::DirCreated { relative_path: "d".to_string() })
    );
    assert_eq!(
        translate_event(FsEventKind::ModifyData, Some("f".to_string()), Some("f"), false),
        Some(SyncEvent::FileModified { relative_path: "f".to_string() })
    );
    assert_eq!(translate_event(FsEventKind::ModifyData, Some("d".to_string()), Some("d"), true), None);
    assert_eq!(
        translate_event(FsEventKind::RenameFrom, Some("f".to_string()), Some("f"), false),
        Some(SyncEvent::FileDeleted { relative_path: "f".to_string() })
    );
    assert_eq!(translate_event(FsEventKind::CreateFile, Some(".x".to_string()), Some(".x"), false), None);
    assert_eq!(translate_event(FsEventKind::CreateFile, None, Some("f"), false), None);
    assert_eq!(translate_event(FsEventKind::RemoveFolder, Some("d".to_string()), Some("d"), true), None);
}

#[test]
fn bursts_keep_the_last_event_per_path() {
    let evs = vec![
        SyncEvent::FileCreated { relative_path: "a".to_string() },
        SyncEvent::FileModified { relative_path: "b".to_string() },
        SyncEvent::FileModified { relative_path: "a".to_string() },
        SyncEvent::FileDeleted { relative_path: "b".to_string() },
    ];
    assert_eq!(
        dedup_keep_last(&evs),
        vec![
            SyncEvent::FileModified { relative_path: "a".to_string() },
            SyncEvent::FileDeleted { relative_path: "b".to_string() },
        ]
    );
}

#[test]
fn manifest_diff() {
    let ours = vec![entry("a", "1"), entry("b", "2"), entry("c", "3")];
    let peer = vec![entry("a", "1"), entry("b", "9"), entry("b", "2")];
    assert_eq!(files_to_sync(&ours, &peer), vec!["c".to_string()]);
    assert_eq!(files_to_sync(&ours, &vec![]), vec!["a", "b", "c"]);
}

#[test]
fn manifest_entries_and_order() {
    let e = manifest_entry("dir\\f.txt", b"abc");
    assert_eq!(e.path, "dir/f.txt");
    assert_eq!(e.size, 3);
    assert_eq!(e.sha256, hex::encode(Sha256::digest(b"abc")));
    let sorted = sort_manifest(vec![
        entry("b", "1"),
        entry("a/z", "2"),
        entry("B", "3"),
        entry("a", "4"),
        entry("b", "5"),
    ]);
    let paths: Vec<(&str, &str)> =
        sorted.iter().map(|e| (e.path.as_str(), e.sha256.as_str())).collect();
    assert_eq!(paths, vec![("B", "3"), ("a", "4"), ("a/z", "2"), ("b", "1"), ("b", "5")]);
    assert_eq!(slash_path("x\\y\\z"), "x/y/z");
}

#[test]
fn file_frames_carry_the_file() {
    let data = vec![7u8; 262144 + 5];
    let f = file_frames("p/q", &data);
    let h = hex::encode(Sha256::digest(&data));
    assert_eq!(
        f.start,
        SyncMessage::SyncFileStart { path: "p/q".to_string(), size: data.len() as u64, sha256: h.clone() }
    );
    assert_eq!(f.chunks.len(), 2);
    assert_eq!(f.chunks[1].len(), 5);
    assert_eq!(f.chunks.concat(), data);
    assert_eq!(
        f.done,
        SyncMessage::SyncFileDone { path: "p/q".to_string(), checksum: format!("sha256:{}", h) }
    );
    assert_eq!(
        f.sent,
        SyncTuiEvent::FileSync { path: "p/q".to_string(), size: data.len() as u64, direction: "→ sent".to_string() }
    );
}

#[test]
fn source_reacts_to_changes() {
    let (evs, act) = on_watch_event(&SyncEvent::FileModified { relative_path: "a\\b".to_string() });
    assert_eq!(
        evs,
        vec![
            SyncTuiEvent::StatusChanged(SyncStatus::Syncing),
            SyncTuiEvent::Log("[SYNC] Modified: a/b".to_string()),
        ]
    );
    assert!(matches!(act, SourceAction::SendFile { path } if path == "a/b"));
    let (evs, act) = on_watch_event(&SyncEvent::FileDeleted { relative_path: "x".to_string() });
    assert_eq!(evs, vec![SyncTuiEvent::Log("[SYNC] Deleted: x".to_string())]);
    assert!(matches!(act, SourceAction::Send(SyncMessage::SyncDelete { path }) if path == "x"));
    let (evs, act) = on_watch_event(&SyncEvent::DirCreated { relative_path: "d".to_string() });
    assert!(evs.is_empty());
    assert!(matches!(act, SourceAction::Send(SyncMessage::SyncMkdir { path }) if path == "d"));
    assert_eq!(source_connecting_log("10.0.0.2"), "[SYNC] Connecting to 10.0.0.2:7880...");
    assert_eq!(sync_url("10.0.0.2"), "ws://10.0.0.2:7880/sync");
    assert_eq!(initial_sync_log(4), "[SYNC] Initial sync: 4 files to transfer");
}

#[test]
fn listener_receives_and_checks_files() {
    let mut s = SyncListenerSession::new();
    let step = s.on_message(SyncMessage::SyncFileStart {
        path: "f".to_string(),
        size: 6,
        sha256: "x".to_string(),
    });
    assert_eq!(step.events, vec![SyncTuiEvent::Log("[SYNC] Receiving: f (6 B)".to_string())]);
    s.on_binary(b"abc");
    s.on_binary(b"def");
    let good = format!("sha256:{}", hex::encode(Sha256::digest(b"abcdef")));
    let step = s.on_message(SyncMessage::SyncFileDone { path: "f".to_string(), checksum: good });
    assert_eq!(step.ack, Some(SyncMessage::SyncAck { success: true }));
    match step.action {
        ListenerAction::Store { path, data, size, message_path } => {
            assert_eq!(path, "f");
            assert_eq!(data, b"abcdef".to_vec());
            assert_eq!(size, 6);
            assert_eq!(message_path, "f");
        }
        _ => panic!("expected a store"),
    }
    // A corrupted file is refused.
    s.on_message(SyncMessage::SyncFileStart { path: "g".to_string(), size: 1, sha256: "y".to_string() });
    s.on_binary(b"z");
    let step = s.on_message(SyncMessage::SyncFileDone { path: "g".to_string(), checksum: "sha256:00".to_string() });
    assert_eq!(step.ack, Some(SyncMessage::SyncAck { success: false }));
    assert_eq!(step.events, vec![SyncTuiEvent::Error("[SYNC] Checksum mismatch for g".to_string())]);
    // Without a file in progress, nothing happens.
    let step = s.on_message(SyncMessage::SyncFileDone { path: "h".to_string(), checksum: "x".to_string() });
    assert_eq!(step.ack, None);
    let step = s.on_message(SyncMessage::SyncDelete { path: "old".to_string() });
    assert_eq!(step.events, vec![SyncTuiEvent::Log("[SYNC] Deleting: old".to_string())]);
    assert!(matches!(step.action, ListenerAction::Delete { path } if path == "old"));
    let step = s.on_message(SyncMessage::SyncManifest { files: vec![] });
    assert!(matches!(step.action, ListenerAction::ReplyManifest));
    assert_eq!(
        stored_event("f", "f", 6, Ok(())),
        SyncTuiEvent::FileSync { path: "f".to_string(), size: 6, direction: "← received".to_string() }
    );
    assert_eq!(
        stored_event("f", "f", 6, Err("denied".to_string())),
        SyncTuiEvent::Error("[SYNC] Write error for f: denied".to_string())
    );
}
