use filedrop::network::{
    add_adapter_line, add_socket_candidate, fallback_probe_targets, is_virtual_ip,
    order_local_ips, parse_u8_text, second_field_of,
};

fn strings(v: &[&str]) -> Vec<String> {
    v.iter().map(|s| s.to_string()).collect()
}

#[test]
fn virtual_adapters_are_recognised() {
    assert!(is_virtual_ip("192.168.56.1"));
    assert!(is_virtual_ip("172.16.0.1"));
    assert!(is_virtual_ip("172.31.255.7"));
    assert!(is_virtual_ip("172.+20.1.1"));
    assert!(!is_virtual_ip("172.15.0.1"));
    assert!(!is_virtual_ip("172.32.0.1"));
    assert!(!is_virtual_ip("172.300.0.1"));
    assert!(!is_virtual_ip("172..1.1"));
    assert!(!is_virtual_ip("192.168.1.20"));
    assert!(!is_virtual_ip("10.0.0.5"));
}

#[test]
fn u8_parsing_follows_from_str() {
    for s in ["0", "255", "+7", "007", "256", "", "+", "-1", "1a", " 1"] {
        assert_eq!(parse_u8_text(s), s.parse::<u8>().ok(), "input {:?}", s);
    }
    assert_eq!(second_field_of("172.20.10.3"), Some("20"));
    assert_eq!(second_field_of("172"), None);
    assert_eq!(second_field_of("172.20"), Some("20"));
}

#[test]
fn physical_addresses_come_first() {
    let ips = strings(&["172.20.1.2", "192.168.1.5", "192.168.56.1", "10.0.0.3"]);
    assert_eq!(
        order_local_ips(ips, false, false),
        strings(&["192.168.1.5", "10.0.0.3", "172.20.1.2", "192.168.56.1"])
    );
}

#[test]
fn hotspot_address_is_moved_to_the_front() {
    let ips = strings(&["192.168.1.5", "192.168.137.1", "192.168.137.9"]);
    assert_eq!(
        order_local_ips(ips.clone(), true, false),
        strings(&["192.168.137.1", "192.168.1.5", "192.168.137.9"])
    );
    assert_eq!(order_local_ips(ips.clone(), false, true), ips);
    assert_eq!(
        order_local_ips(strings(&["192.168.1.5"]), true, true),
        strings(&["192.168.137.1", "192.168.1.5"])
    );
    assert_eq!(
        order_local_ips(strings(&["192.168.1.5"]), true, false),
        strings(&["192.168.1.5"])
    );
}

#[test]
fn loopback_when_nothing_found() {
    assert_eq!(order_local_ips(vec![], false, false), strings(&["127.0.0.1"]));
    assert_eq!(order_local_ips(vec![], true, true), strings(&["192.168.137.1"]));
}

#[test]
fn candidates_are_filtered_and_deduplicated() {
    let mut ips = Vec::new();
    assert!(add_socket_candidate(&mut ips, "192.168.1.5"));
    assert!(!add_socket_candidate(&mut ips, "192.168.1.5"));
    assert!(!add_socket_candidate(&mut ips, "127.0.0.1"));
    assert!(add_adapter_line(&mut ips, "  10.0.0.2 \r"));
    assert!(!add_adapter_line(&mut ips, "169.254.3.4"));
    assert!(!add_adapter_line(&mut ips, "   "));
    assert!(!add_adapter_line(&mut ips, "10.0.0.2"));
    assert_eq!(ips, strings(&["192.168.1.5", "10.0.0.2"]));
}

#[test]
fn probe_targets_in_order() {
    assert_eq!(
        fallback_probe_targets(),
        strings(&[
            "192.168.1.1:80",
            "192.168.137.1:80",
            "192.168.56.1:80",
            "10.1.1:80",
            "10.137.1:80",
            "10.56.1:80",
            "172.1.1:80",
            "172.137.1:80",
            "172.56.1:80",
        ])
    );
}
