use std::path::PathBuf;

use filedrop::certs::{
    calculate_fingerprint, certificate_bundle, device_cert_request, generate_certificates, peer_info, peer_metadata_now,
    CertError,
};
use filedrop::cli::{
    mode_from_flag, remembered_mode, share_expiry_text, share_mode_without_prompt,
    share_uses_configurator,
};
use filedrop::hotspot::ConnectionMode;
use filedrop::hotspot_setup::{
    args_of, created_network, hotspot_plan, program_of, spawn_error_message, step_failure_message,
    SetupStep,
};
use filedrop::installer::{contains_str, unix_path_line, windows_path_update};

#[test]
fn hotspot_plans_per_system() {
    assert_eq!(hotspot_plan("linux"), Ok(vec![SetupStep::NmcliHotspot]));
    assert_eq!(
        hotspot_plan("windows"),
        Ok(vec![SetupStep::NetshConfigure, SetupStep::NetshStart])
    );
    let err = hotspot_plan("macos").unwrap_err();
    assert!(err.starts_with("[HOTSPOT] Auto-create is only supported on Linux and Windows"));
    assert!(err.contains("(current OS: macos)"));
}

#[test]
fn hotspot_commands() {
    assert_eq!(program_of(SetupStep::NmcliHotspot), "nmcli");
    assert_eq!(program_of(SetupStep::NetshStart), "netsh");
    assert_eq!(
        args_of(SetupStep::NmcliHotspot),
        vec![
            "device", "wifi", "hotspot", "ssid", "FileDrop", "ifname", "wlan0", "password",
            "filedrop123"
        ]
    );
    assert_eq!(
        args_of(SetupStep::NetshConfigure),
        vec!["wlan", "set", "hostednetwork", "mode=allow", "ssid=FileDrop", "key=filedrop123"]
    );
    assert_eq!(args_of(SetupStep::NetshStart), vec!["wlan", "start", "hostednetwork"]);
    assert_eq!(
        created_network(),
        ("FileDrop".to_string(), "filedrop123".to_string())
    );
}

#[test]
fn hotspot_failures() {
    assert_eq!(
        spawn_error_message(SetupStep::NmcliHotspot),
        "[HOTSPOT] Failed to execute nmcli — is NetworkManager installed?"
    );
    assert_eq!(
        step_failure_message(SetupStep::NmcliHotspot, Some(10), " out \n", "\terr"),
        "[HOTSPOT] nmcli hotspot creation failed (exit code: 10).\nstdout: out\nstderr: err"
    );
    assert_eq!(
        step_failure_message(SetupStep::NmcliHotspot, None, "", ""),
        "[HOTSPOT] nmcli hotspot creation failed (exit code: -1).\nstdout: \nstderr: "
    );
    assert!(step_failure_message(SetupStep::NetshStart, Some(1), "a", "b")
        .starts_with("[HOTSPOT] Failed to start hosted network.\n"));
}

#[test]
fn command_line_modes() {
    assert_eq!(mode_from_flag("hotspot"), ConnectionMode::Hotspot);
    assert_eq!(mode_from_flag("OFFLINE"), ConnectionMode::Hotspot);
    assert_eq!(mode_from_flag("lan"), ConnectionMode::Router);
    assert_eq!(mode_from_flag("bogus"), ConnectionMode::Router);
    assert_eq!(remembered_mode(&Some("hotspot".to_string())), Some(ConnectionMode::Hotspot));
    assert_eq!(remembered_mode(&Some("bogus".to_string())), None);
    assert_eq!(remembered_mode(&None), None);
}

#[test]
fn share_command_line() {
    assert!(share_uses_configurator(&None, false, &None));
    assert!(!share_uses_configurator(&Some("10m".to_string()), false, &None));
    assert!(!share_uses_configurator(&None, true, &None));
    assert!(!share_uses_configurator(&None, false, &Some("1234".to_string())));
    assert_eq!(share_expiry_text(&None), "15m");
    assert_eq!(share_expiry_text(&Some("1h".to_string())), "1h");
    let hotspot = Some("hotspot".to_string());
    assert_eq!(share_mode_without_prompt(&None, &hotspot), ConnectionMode::Hotspot);
    assert_eq!(share_mode_without_prompt(&Some("router".to_string()), &hotspot), ConnectionMode::Router);
    assert_eq!(share_mode_without_prompt(&Some("x".to_string()), &hotspot), ConnectionMode::Router);
    assert_eq!(share_mode_without_prompt(&None, &None), ConnectionMode::Router);
}

#[test]
fn path_updates() {
    let dir = r"C:\Users\me\AppData\Local\FileDrop\bin";
    assert_eq!(windows_path_update("", dir), Some(dir.to_string()));
    assert_eq!(windows_path_update(r"C:\a;", dir), Some(format!(r"C:\a;{}", dir)));
    assert_eq!(windows_path_update(r"C:\a", dir), Some(format!(r"C:\a;{}", dir)));
    let once = windows_path_update(r"C:\a", dir).unwrap();
    assert_eq!(windows_path_update(&once, dir), None);
    assert!(contains_str("abcabd", "abd"));
    assert!(!contains_str("abcab", "abd"));
    assert!(contains_str("abc", ""));
    assert_eq!(
        unix_path_line("/home/me/.local/bin"),
        "     export PATH=\"$PATH:/home/me/.local/bin\"\r\n"
    );
}

#[test]
fn generated_certificate_bundle() {
    let cert = PathBuf::from("/tmp/c.crt");
    let key = PathBuf::from("/tmp/c.key");
    let bundle = generate_certificates(cert.clone(), key.clone()).expect("rcgen signs");
    assert_eq!(bundle.cert_path, cert);
    assert_eq!(bundle.key_path, key);
    assert!(bundle.cert_pem.starts_with("-----BEGIN CERTIFICATE-----"));
    assert!(bundle.key_pem.contains("PRIVATE KEY"));
    assert_eq!(bundle.fingerprint, calculate_fingerprint(&bundle.cert_pem));
    assert_eq!(bundle.fingerprint.len(), 32 * 3 - 1);

    let again = certificate_bundle(bundle.cert_pem.clone(), bundle.key_pem.clone(), cert, key);
    assert_eq!(again.fingerprint, bundle.fingerprint);

    // The certificate carries an RSA key (rsaEncryption OID) of 2048 bits.
    let body: String = bundle.cert_pem.lines().filter(|l| !l.starts_with("-----")).collect();
    let der = base64::Engine::decode(&base64::engine::general_purpose::STANDARD, body).unwrap();
    let rsa_oid = [0x06u8, 0x09, 0x2a, 0x86, 0x48, 0x86, 0xf7, 0x0d, 0x01, 0x01, 0x01];
    assert!(der.windows(rsa_oid.len()).any(|w| w == rsa_oid));
    assert!(der.len() > 600);
    let dns = b"filedrop.local";
    assert!(der.windows(dns.len()).any(|w| w == dns));
}

#[test]
fn peer_info_from_files() {
    let pem = "-----BEGIN CERTIFICATE-----\nAAEC\n-----END CERTIFICATE-----\n";
    let p = peer_info(Some("pixel"), pem, Some("name=pixel\npaired_at=2024-05-06 07:08:09\n"), PathBuf::from("pixel.pem"));
    assert_eq!(p.name, "pixel");
    assert_eq!(p.paired_at, "2024-05-06 07:08:09");
    assert_eq!(p.fingerprint, calculate_fingerprint(pem));
    let q = peer_info(None, pem, None, PathBuf::from("x.pem"));
    assert_eq!(q.name, "unknown");
    assert_eq!(q.paired_at, "Unknown");

    let meta = peer_metadata_now("pixel");
    assert!(meta.starts_with("name=pixel\npaired_at="));
    let stamp = meta.trim_end().rsplit('=').next().unwrap().to_string();
    assert_eq!(stamp.len(), "YYYY-MM-DD HH:MM:SS".len());
    assert_eq!(
        CertError::PeerNotFound { name: "x".to_string() }.message(),
        "Peer not found: x"
    );
}

#[test]
fn device_certificate_request() {
    let r = device_cert_request();
    assert_eq!(r.dns_name, "filedrop.local");
    assert_eq!(r.common_name, "FileDrop Device");
    assert_eq!(r.organization, "FileDrop");
    assert_eq!(r.not_before, (2024, 1, 1));
    assert_eq!(r.not_after, (2034, 1, 1));
}
