use filedrop::hotspot::{
    cleanup_instructions, detect_phone_hotspot, hotspot_instructions,
    hotspot_instructions_laptop, hotspot_instructions_phone, is_phone_hotspot_ip,
    ConnectionMode, DEFAULT_SSID,
};

#[test]
fn test_connection_mode_as_str() {
    assert_eq!(ConnectionMode::Router.as_str(), "router");
    assert_eq!(ConnectionMode::Hotspot.as_str(), "hotspot");
}

#[test]
fn test_connection_mode_from_str_valid() {
    assert_eq!(ConnectionMode::from_str("router"), Some(ConnectionMode::Router));
    assert_eq!(ConnectionMode::from_str("Router"), Some(ConnectionMode::Router));
    assert_eq!(ConnectionMode::from_str("ROUTER"), Some(ConnectionMode::Router));
    assert_eq!(ConnectionMode::from_str("lan"), Some(ConnectionMode::Router));
    assert_eq!(ConnectionMode::from_str("LAN"), Some(ConnectionMode::Router));
    assert_eq!(ConnectionMode::from_str("hotspot"), Some(ConnectionMode::Hotspot));
    assert_eq!(ConnectionMode::from_str("Hotspot"), Some(ConnectionMode::Hotspot));
    assert_eq!(ConnectionMode::from_str("HOTSPOT"), Some(ConnectionMode::Hotspot));
    assert_eq!(ConnectionMode::from_str("offline"), Some(ConnectionMode::Hotspot));
}

#[test]
fn test_connection_mode_from_str_invalid() {
    assert_eq!(ConnectionMode::from_str("bluetooth"), None);
    assert_eq!(ConnectionMode::from_str(""), None);
    assert_eq!(ConnectionMode::from_str("wifi"), None);
}

#[test]
fn test_connection_mode_display() {
    assert_eq!(ConnectionMode::Router.display_string(), "router");
    assert_eq!(ConnectionMode::Hotspot.display_string(), "hotspot");
}

#[test]
fn test_phone_hotspot_detection_ranges() {
    assert!(is_phone_hotspot_ip("192.168.43.5"));
    assert!(is_phone_hotspot_ip("172.20.10.3"));
    assert!(is_phone_hotspot_ip("192.168.137.1"));
    assert!(is_phone_hotspot_ip("192.168.49.2"));
    assert!(!is_phone_hotspot_ip("192.168.1.100"));
    assert!(!is_phone_hotspot_ip("10.0.0.5"));
}

#[test]
fn test_hotspot_instructions_phone() {
    let instructions = hotspot_instructions_phone();
    assert!(!instructions.is_empty());
    let joined = instructions.join("\n");
    assert!(joined.contains("Android"));
    assert!(joined.contains("iPhone"));
    assert!(joined.contains("filedrop receive"));
}

#[test]
fn test_hotspot_instructions_laptop_windows() {
    let instructions = hotspot_instructions_laptop("windows");
    assert!(!instructions.is_empty());
    let joined = instructions.join("\n");
    assert!(joined.contains("Windows"));
    assert!(joined.contains("Mobile Hotspot"));
}

#[test]
fn test_hotspot_instructions_laptop_macos() {
    let instructions = hotspot_instructions_laptop("macos");
    assert!(!instructions.is_empty());
    let joined = instructions.join("\n");
    assert!(joined.contains("macOS"));
    assert!(joined.contains("Internet Sharing"));
}

#[test]
fn test_hotspot_instructions_laptop_linux() {
    let instructions = hotspot_instructions_laptop("linux");
    assert!(!instructions.is_empty());
    let joined = instructions.join("\n");
    assert!(joined.contains("nmcli"));
    assert!(joined.contains(DEFAULT_SSID));
}

#[test]
fn test_cleanup_instructions_linux() {
    let cmd = cleanup_instructions("linux");
    assert!(cmd.is_some());
    let cmd = cmd.unwrap();
    assert!(cmd.contains("nmcli"));
    assert!(cmd.contains("delete"));
    assert!(cmd.contains(DEFAULT_SSID));
}

#[test]
fn test_cleanup_instructions_windows() {
    let cmd = cleanup_instructions("windows");
    assert!(cmd.is_some());
    assert!(cmd.unwrap().contains("netsh"));
}

#[test]
fn test_cleanup_instructions_macos() {
    assert!(cleanup_instructions("macos").is_none());
}

#[test]
fn from_str_parses_what_as_str_prints() {
    for m in [ConnectionMode::Router, ConnectionMode::Hotspot] {
        assert_eq!(ConnectionMode::from_str(m.as_str()), Some(m));
    }
}

#[test]
fn hotspot_detected_on_first_matching_address() {
    let ips = vec![
        "192.168.1.7".to_string(),
        "172.20.10.2".to_string(),
        "192.168.43.9".to_string(),
    ];
    let d = detect_phone_hotspot(&ips);
    assert!(d.detected);
    assert_eq!(d.ip, Some("172.20.10.2".to_string()));
    assert_eq!(d.network_type, Some("iPhone/iOS Hotspot".to_string()));

    let none = detect_phone_hotspot(&vec!["10.0.0.5".to_string()]);
    assert!(!none.detected);
    assert_eq!(none.ip, None);
    assert_eq!(none.network_type, None);
}

#[test]
fn unknown_os_gets_generic_instructions() {
    let generic = hotspot_instructions_laptop("plan9");
    assert!(!generic.is_empty());
    assert!(cleanup_instructions("plan9").is_none());
    let all = hotspot_instructions("linux");
    let phone = hotspot_instructions_phone();
    let laptop = hotspot_instructions_laptop("linux");
    assert_eq!(all.len(), phone.len() + 1 + laptop.len());
    assert_eq!(all[phone.len()], "");
    assert_eq!(all[phone.len() + 1..].to_vec(), laptop);
}
