use filedrop::discovery::{
    first_peer_address, mdns_host_name, peers_from_resolution, txt_properties, DiscoveredPeer,
    DiscoveryError,
};
use filedrop::pairing::{
    new_pairing_token, on_pairing_message, pairing_answer, pairing_banner, pairing_payload,
    token_accepted, PairingError, PairingIdentity, PairingMessage, PairingStep,
};

fn me() -> PairingIdentity {
    PairingIdentity {
        device_name: "Laptop".to_string(),
        cert_pem: "PEM".to_string(),
        fingerprint: "AB:CD".to_string(),
    }
}

#[test]
fn pairing_token_is_a_hyphenated_uuid() {
    let t = new_pairing_token();
    assert_eq!(t.len(), 36);
    for (i, c) in t.chars().enumerate() {
        if [8, 13, 18, 23].contains(&i) {
            assert_eq!(c, '-');
        } else {
            assert!(c.is_ascii_hexdigit() && !c.is_ascii_uppercase());
        }
    }
    assert_ne!(new_pairing_token(), t);
}

#[test]
fn only_the_shown_token_opens_the_socket() {
    assert!(token_accepted("abc", "abc"));
    assert!(!token_accepted("abd", "abc"));
}

#[test]
fn hello_is_answered_with_our_certificate() {
    let hello = PairingMessage::PeerHello {
        device_name: "Pixel".to_string(),
        cert_pem: "PHONE".to_string(),
        fingerprint: "12".to_string(),
    };
    assert_eq!(
        on_pairing_message(&hello),
        PairingStep::SavePeer { device_name: "Pixel".to_string(), cert_pem: "PHONE".to_string() }
    );
    assert_eq!(on_pairing_message(&PairingMessage::PairingComplete), PairingStep::Wait);
    assert_eq!(
        pairing_answer(&me(), Ok(())),
        vec![
            PairingMessage::PeerAck {
                device_name: "Laptop".to_string(),
                cert_pem: "PEM".to_string(),
                fingerprint: "AB:CD".to_string(),
            },
            PairingMessage::PairingComplete,
        ]
    );
    assert_eq!(
        pairing_answer(&me(), Err("disk full".to_string())),
        vec![PairingMessage::PairingError {
            reason: "Failed to save certificate: disk full".to_string()
        }]
    );
}

#[test]
fn payload_and_banner() {
    let p = pairing_payload("192.168.1.4".to_string(), 7879, &me(), "tok".to_string());
    assert_eq!(p.ip, "192.168.1.4");
    assert_eq!(p.port, 7879);
    assert_eq!(p.fingerprint, "AB:CD");
    assert_eq!(p.token, "tok");
    assert_eq!(p.device_name, "Laptop");
    let lines = pairing_banner(
        "AA:BB:CC:DD:EE:FF:00:11:22",
        "192.168.1.4",
        7879,
        "0123456789abcdef",
    );
    assert_eq!(
        lines,
        vec![
            "  🔒 Fingerprint: AA:BB:CC:DD:EE:FF:00…".to_string(),
            "  🌐 Address:     192.168.1.4:7879".to_string(),
            "  🔑 Token:       01234567…".to_string(),
        ]
    );
    assert_eq!(pairing_banner("AB", "h", 1, "12345678")[0], "  🔒 Fingerprint: AB…");
}

#[test]
fn pairing_error_messages() {
    assert_eq!(PairingError::Timeout { seconds: 120 }.message(), "Pairing timed out after 120s");
    assert_eq!(PairingError::Rejected.message(), "Pairing rejected by peer");
    assert_eq!(PairingError::InvalidToken.message(), "Invalid pairing token");
    assert_eq!(
        PairingError::ExchangeFailed { reason: "x".to_string() }.message(),
        "Certificate exchange failed: x"
    );
}

#[test]
fn host_name_is_lowercase_with_hyphens() {
    assert_eq!(mdns_host_name("My Laptop"), "my-laptop.local.");
    assert_eq!(mdns_host_name("ÉCOLE PC"), "école-pc.local.");
    let props = txt_properties("AB:CD");
    assert_eq!(props[0], ("fingerprint".to_string(), "AB:CD".to_string()));
    assert_eq!(props[1], ("version".to_string(), "0.1.0".to_string()));
}

#[test]
fn resolved_service_gives_one_peer_per_address() {
    let peers = peers_from_resolution(
        "phone._filedrop._tcp.local.",
        &vec!["192.168.1.9".to_string(), "fe80::1".to_string()],
        7878,
        &Some("FP".to_string()),
    );
    assert_eq!(peers.len(), 2);
    assert_eq!(peers[1].addr, "fe80::1");
    assert_eq!(peers[0].fingerprint, Some("FP".to_string()));
    assert_eq!(first_peer_address(&peers), Some("192.168.1.9:7878".to_string()));
    let none: Vec<DiscoveredPeer> = vec![];
    assert_eq!(first_peer_address(&none), None);
}

#[test]
fn discovery_error_messages() {
    assert_eq!(
        DiscoveryError::DaemonFailed("x".to_string()).message(),
        "mDNS daemon failed to start: x"
    );
    assert_eq!(
        DiscoveryError::RegistrationFailed("y".to_string()).message(),
        "Service registration failed: y"
    );
    assert_eq!(DiscoveryError::NoPeersFound.message(), "No peers found within timeout");
}
