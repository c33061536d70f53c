use filedrop::integrity::{
    checksum_matches, file_done_checksum, sha256_hex, verify_received,
    ChunkVerifier, ChunkerError,
};
use filedrop::protocol::{ControlMessage, TransferFile, TransferStatus};
use filedrop::receiver::{ControlAction, PhoneFrame, ReceiveSession, ReceiverNotice};
use filedrop::sender::{
    batch_done, batch_start, connecting_log, file_done_message, file_start_message, hashed_log,
    on_ack_event, preparing_log, ws_url, AckDecision, AckWait, BatchTally,
};
use filedrop::server::{
    acknowledge, file_ack, reply_to, split_into_chunks, write_failure_ack, SessionGate,
};
use sha2::{Digest, Sha256};

fn hex_of(data: &[u8]) -> String {
    hex::encode(Sha256::digest(data))
}

#[test]
fn digests_match_the_sha2_crate() {
    let data = b"The quick brown fox";
    assert_eq!(sha256_hex(data), hex_of(data));
    assert_eq!(
        sha256_hex(b""),
        "e3b0c44298fc1c149afbf4c8996fb92427ae41e4649b934ca495991b7852b855"
    );
}

#[test]
fn checksums_with_or_without_prefix() {
    let h = hex_of(b"abc");
    assert!(checksum_matches(&h, &h));
    assert!(checksum_matches(&h, &format!("sha256:{}", h)));
    assert!(!checksum_matches(&h, "sha256:00"));
    assert_eq!(file_done_checksum("ab"), "sha256:ab");
    assert!(verify_received(b"abc", &file_done_checksum(&h)));
    assert!(!verify_received(b"abd", &file_done_checksum(&h)));
}

#[test]
fn chunk_verifier_accumulates() {
    let mut v = ChunkVerifier::new(6, "wrong".to_string());
    assert_eq!(v.record_chunk(b"abc"), 3);
    assert_eq!(v.record_chunk(b"def"), 6);
    assert_eq!(v.bytes_written(), 6);
    assert_eq!(v.expected_size(), 6);
    v.set_expected_hash(format!("sha256:{}", hex_of(b"abcdef")));
    assert!(v.finalize());
}

#[test]
fn chunk_verifier_digest_of_streamed_file() {
    let mut v = ChunkVerifier::new(0, String::new());
    v.record_chunk(b"The quick ");
    v.record_chunk(b"brown fox");
    assert_eq!(v.digest(), hex_of(b"The quick brown fox"));
    assert_eq!(
        ChunkVerifier::new(0, String::new()).digest(),
        "e3b0c44298fc1c149afbf4c8996fb92427ae41e4649b934ca495991b7852b855"
    );
}

#[test]
fn chunker_error_messages() {
    assert_eq!(
        ChunkerError::FileTooLarge { size: 10, max: 5 }.message(),
        "File too large: 10 bytes (max: 5)"
    );
    assert_eq!(ChunkerError::ChecksumFailed.message(), "Checksum verification failed");
    assert_eq!(ChunkerError::WriteError("e".to_string()).message(), "Write error: e");
}

#[test]
fn frames_reassemble() {
    let data: Vec<u8> = (0..10u8).collect();
    let frames = split_into_chunks(&data, 4);
    assert_eq!(frames, vec![vec![0, 1, 2, 3], vec![4, 5, 6, 7], vec![8, 9]]);
    assert_eq!(frames.concat(), data);
    assert!(split_into_chunks(&[], 4).is_empty());
}

#[test]
fn session_gate_locks_to_one_device() {
    let mut g = SessionGate::new(false);
    assert!(g.admits("1.2.3.4:5"));
    g.lock("1.2.3.4:5".to_string());
    assert!(g.admits("1.2.3.4:5"));
    assert!(!g.admits("9.9.9.9:1"));
    g.release();
    assert!(g.admits("9.9.9.9:1"));
    let mut m = SessionGate::new(true);
    m.lock("a".to_string());
    assert!(m.admits("b"));
}

#[test]
fn replies_and_acks() {
    assert_eq!(
        reply_to(&ControlMessage::Ping { timestamp: 42 }),
        Some(ControlMessage::Pong { timestamp: 42 })
    );
    assert_eq!(reply_to(&ControlMessage::Cancel { reason: "x".to_string() }), None);
    assert_eq!(file_ack(true), ControlMessage::FileAck { success: true, error: None });
    assert_eq!(
        file_ack(false),
        ControlMessage::FileAck { success: false, error: Some("Checksum mismatch".to_string()) }
    );
    assert_eq!(
        write_failure_ack("denied"),
        ControlMessage::FileAck {
            success: false,
            error: Some("Cannot write file: denied".to_string())
        }
    );
    let mut v = ChunkVerifier::new(3, hex_of(b"xyz"));
    v.record_chunk(b"xyz");
    assert_eq!(acknowledge(v).0, true);
}

#[test]
fn receive_session_handles_a_whole_file() {
    let mut s = ReceiveSession::new();
    let data = b"hello world";
    let start = ControlMessage::FileStart {
        name: "a.txt".to_string(),
        size: data.len() as u64,
        sha256: hex_of(data),
        mime_type: None,
    };
    match s.on_control(start) {
        ControlAction::StartFile { name, size, notices, .. } => {
            assert_eq!(name, "a.txt");
            assert_eq!(size, 11);
            assert_eq!(notices[0], ReceiverNotice::Log("Incoming: 'a.txt' (11 B)".to_string()));
            let mut tf = TransferFile::new("a.txt".to_string(), 11, hex_of(data));
            tf.status = TransferStatus::InProgress;
            assert_eq!(notices[1], ReceiverNotice::FileStarted(tf));
        }
        other => panic!("unexpected {:?}", other),
    }
    assert!(!s.has_active());
    s.file_opened("a.txt".to_string(), 11, hex_of(data));
    assert!(s.has_active());
    assert_eq!(s.chunk_written(&data[..5]), 5);
    assert_eq!(s.chunk_written(&data[5..]), 11);
    match s.on_control(ControlMessage::FileDone { checksum: format!("sha256:{}", hex_of(data)) }) {
        ControlAction::FinishFile { checksum } => {
            let o = s.finish_file(checksum, Ok(())).unwrap();
            assert!(o.saved);
            assert_eq!(o.bytes, 11);
            assert_eq!(o.reply, Some(ControlMessage::FileAck { success: true, error: None }));
            assert_eq!(
                o.notices,
                vec![ReceiverNotice::FileCompleted { file_name: "a.txt".to_string(), verified: true }]
            );
        }
        other => panic!("unexpected {:?}", other),
    }
    assert!(!s.has_active());
    assert!(s.finish_file("x".to_string(), Ok(())).is_none());
}

#[test]
fn receive_session_rejects_a_corrupted_file() {
    let mut s = ReceiveSession::new();
    s.file_opened("b.bin".to_string(), 3, "ignored".to_string());
    s.chunk_written(b"abd");
    let o = s.finish_file(format!("sha256:{}", hex_of(b"abc")), Ok(())).unwrap();
    assert!(!o.saved);
    assert_eq!(
        o.reply,
        Some(ControlMessage::FileAck { success: false, error: Some("Checksum mismatch".to_string()) })
    );
    assert_eq!(
        o.notices,
        vec![
            ReceiverNotice::FileFailed {
                file_name: "b.bin".to_string(),
                error: "Checksum mismatch".to_string()
            },
            ReceiverNotice::Error("✗ 'b.bin' checksum FAILED".to_string()),
        ]
    );
    s.file_opened("c".to_string(), 0, "h".to_string());
    let f = s.finish_file("h".to_string(), Err("disk full".to_string())).unwrap();
    assert_eq!(f.reply, None);
    assert_eq!(
        f.notices,
        vec![ReceiverNotice::FileFailed { file_name: "c".to_string(), error: "disk full".to_string() }]
    );
}

#[test]
fn receive_session_other_messages() {
    let mut s = ReceiveSession::new();
    s.file_opened("d".to_string(), 1, "h".to_string());
    assert_eq!(
        s.on_control(ControlMessage::Cancel { reason: "user".to_string() }),
        ControlAction::CancelFile { notice: ReceiverNotice::Log("Transfer cancelled: user".to_string()) }
    );
    assert!(!s.has_active());
    assert_eq!(
        s.on_control(ControlMessage::Ping { timestamp: 7 }),
        ControlAction::Reply(ControlMessage::Pong { timestamp: 7 })
    );
    assert_eq!(
        s.on_control(ControlMessage::BatchStart { file_count: 3, total_size: 2048 }),
        ControlAction::Report(ReceiverNotice::Log("Batch: 3 files, 2 KB total".to_string()))
    );
    assert_eq!(s.on_control(ControlMessage::Pong { timestamp: 1 }), ControlAction::Ignore);
    assert_eq!(
        ReceiveSession::stray_chunk(),
        ReceiverNotice::Error("Received binary data without active transfer".to_string())
    );
    assert_eq!(
        ReceiveSession::bad_control("eof"),
        ReceiverNotice::Error("Bad control frame: eof".to_string())
    );
    let (n, ack) = s.file_open_failed("denied");
    assert_eq!(n, ReceiverNotice::Error("Failed to create output file: denied".to_string()));
    assert_eq!(ack, write_failure_ack("denied"));
    let c = ReceiveSession::connected("1.2.3.4:9", "1.2.3.4", true);
    assert_eq!(c.len(), 3);
    assert_eq!(
        c[0],
        ReceiverNotice::Log("[LOCK] Session locked to 1.2.3.4. Further connections rejected.".to_string())
    );
    assert_eq!(ReceiveSession::connected("p", "i", false).len(), 2);
}

#[test]
fn sender_messages() {
    assert_eq!(ws_url("1.2.3.4:7878"), "ws://1.2.3.4:7878/ws");
    assert_eq!(connecting_log("h:1"), "Connecting to ws://h:1...");
    assert_eq!(preparing_log(2), "Preparing 2 file(s) for transfer...");
    assert_eq!(batch_start(1, 10), None);
    assert_eq!(
        batch_start(2, 10),
        Some(ControlMessage::BatchStart { file_count: 2, total_size: 10 })
    );
    let mut t = BatchTally::new();
    t.record(true);
    t.record(false);
    t.record(true);
    assert_eq!(
        batch_done(3, &t),
        Some(ControlMessage::BatchDone { successful: 2, failed: 1 })
    );
    assert_eq!(batch_done(1, &t), None);
    assert_eq!(
        file_start_message("a", 5, "h"),
        ControlMessage::FileStart {
            name: "a".to_string(),
            size: 5,
            sha256: "h".to_string(),
            mime_type: None
        }
    );
    assert_eq!(
        file_done_message("h"),
        ControlMessage::FileDone { checksum: "sha256:h".to_string() }
    );
    assert_eq!(hashed_log("a", 5, &"0123456789abcdef"), "'a' (5 B) sha256:0123456789ab...");
}

#[test]
fn acknowledgement_decisions() {
    let ack = |m| on_ack_event("f.txt", AckWait::Text(Some(m)));
    assert_eq!(ack(ControlMessage::FileAck { success: true, error: None }), AckDecision::Accepted);
    assert_eq!(
        ack(ControlMessage::FileAck { success: false, error: None }),
        AckDecision::Failed("Receiver rejected 'f.txt': Unknown error".to_string())
    );
    assert_eq!(
        ack(ControlMessage::FileAck { success: false, error: Some("bad".to_string()) }),
        AckDecision::Failed("Receiver rejected 'f.txt': bad".to_string())
    );
    assert_eq!(ack(ControlMessage::Pong { timestamp: 1 }), AckDecision::KeepWaiting);
    assert_eq!(on_ack_event("f", AckWait::Text(None)), AckDecision::KeepWaiting);
    assert_eq!(
        on_ack_event("f", AckWait::Closed),
        AckDecision::Failed("Connection closed before ACK".to_string())
    );
    assert_eq!(
        on_ack_event("f", AckWait::SocketError("reset".to_string())),
        AckDecision::Failed("WebSocket error waiting for ACK: reset".to_string())
    );
    assert_eq!(
        on_ack_event("f", AckWait::Ended),
        AckDecision::Failed("Connection ended without ACK".to_string())
    );
    assert_eq!(
        on_ack_event("f", AckWait::TimedOut),
        AckDecision::Failed("Timed out waiting for ACK for 'f'".to_string())
    );
}

#[test]
fn phone_side_frames_are_logged() {
    let ack = PhoneFrame::PushAck { success: true, transfer_id: "0123abcd-ffff-4444".to_string() };
    assert!(matches!(
        ReceiveSession::phone_frame_notice(&ack),
        ReceiverNotice::Log(m) if m == "[PUSH] Transfer 0123abcd acknowledged by phone"
    ));
    let nack = PhoneFrame::PushAck { success: false, transfer_id: "12345678".to_string() };
    assert!(matches!(
        ReceiveSession::phone_frame_notice(&nack),
        ReceiverNotice::Error(m) if m == "[PUSH] Transfer 12345678 failed on phone side"
    ));
    let kx = PhoneFrame::KeyExchange { public_key: "BASE64".to_string() };
    assert!(matches!(
        ReceiveSession::phone_frame_notice(&kx),
        ReceiverNotice::Log(m) if m == "[ENC] Received phone's ECDH public key"
    ));
}
