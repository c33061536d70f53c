use filedrop::certs::{
    calculate_fingerprint, paired_at_from_meta, peer_cert_file_name, peer_meta_file_name,
    peer_metadata, split_lines,
};
use filedrop::config::{
    certs_dir, certs_in, config_dir, config_file_in, config_file_path, peers_in, default_bg_color, default_chunk_size,
    default_device_name, default_port, default_primary_color, peers_dir, Config, ConfigError,
    ThemeConfig, FALLBACK_DEVICE_NAME,
};
use filedrop::config::device_name_from;
use filedrop::pages::html_pin_form_with_error;
use filedrop::text::{eq_ignore_ascii_case, str_less, trim};
use filedrop::zipper::{
    archive_frames, build_share_zip, build_zip, folder_name_or_default, zip_filename,
    zip_filename_at, ShareItem, CHUNK_TARGET,
};
use sha2::{Digest, Sha256};

#[test]
fn fingerprint_of_a_pem_certificate() {
    let pem = "-----BEGIN CERTIFICATE-----\r\nAAEC\r\n-----END CERTIFICATE-----\r\n";
    let digest = hex::encode_upper(Sha256::digest([0u8, 1, 2]));
    let expected: Vec<String> = digest
        .as_bytes()
        .chunks(2)
        .map(|p| String::from_utf8(p.to_vec()).unwrap())
        .collect();
    assert_eq!(calculate_fingerprint(pem), expected.join(":"));
    assert_eq!(calculate_fingerprint("-----BEGIN X-----\n!!!\n-----END X-----"), "UNKNOWN");
}

#[test]
fn lines_like_str_lines() {
    for s in ["", "a", "a\n", "a\r\nb", "a\n\nb\n", "\n", "x\ry\r\n"] {
        let expected: Vec<String> = s.lines().map(|l| l.to_string()).collect();
        assert_eq!(split_lines(s), expected, "input {:?}", s);
    }
}

#[test]
fn peer_records() {
    assert_eq!(peer_cert_file_name("pixel"), "pixel.pem");
    assert_eq!(peer_meta_file_name("pixel"), "pixel.meta");
    let meta = peer_metadata("pixel", "2024-01-02T03:04:05Z");
    assert_eq!(meta, "name=pixel\npaired_at=2024-01-02T03:04:05Z\n");
    assert_eq!(paired_at_from_meta(&meta), "2024-01-02T03:04:05Z");
    assert_eq!(paired_at_from_meta("name=x\n"), "Unknown");
}

#[test]
fn config_defaults() {
    let c = Config::with_device_name("box".to_string());
    assert_eq!(c.port, 7878);
    assert_eq!(c.chunk_size, 262144);
    assert!(c.mdns_enabled);
    assert_eq!(c.receive_dir, None);
    assert_eq!(c.theme, ThemeConfig::default());
    assert_eq!(c.pairing_port(), 7879);
    assert_eq!(default_port(), 7878);
    assert_eq!(default_chunk_size(), 262144);
    assert!(default_primary_color().starts_with('#'));
    assert!(default_bg_color().starts_with('#'));
    assert_eq!(device_name_from(None), FALLBACK_DEVICE_NAME);
    assert_eq!(device_name_from(Some("h".to_string())), "h");
    assert!(!default_device_name().is_empty());
    assert_eq!(Config::default().port, 7878);
    assert_eq!(ConfigError::NoConfigDir.message(), "Failed to determine config directory");
}

#[test]
fn config_paths_live_in_the_config_dir() {
    if let Ok(dir) = config_dir() {
        assert_eq!(config_file_path().unwrap(), dir.join("config.toml"));
        assert_eq!(peers_dir().unwrap(), dir.join("peers"));
        assert_eq!(certs_dir().unwrap(), dir.join("certs"));
    }
}

#[test]
fn zip_names_and_frames() {
    assert_eq!(zip_filename_at("photos", "20240102_030405"), "photos_filedrop_20240102_030405.zip");
    let n = zip_filename("photos");
    assert!(n.starts_with("photos_filedrop_") && n.ends_with(".zip"));
    assert_eq!(n.len(), "photos_filedrop_".len() + 15 + 4);
    assert_eq!(folder_name_or_default(None), "folder");
    assert_eq!(folder_name_or_default(Some("x")), "x");
    let data = vec![1u8; CHUNK_TARGET + 1];
    let frames = archive_frames(&data);
    assert_eq!(frames.len(), 2);
    assert_eq!(frames.concat(), data);
}

#[test]
fn zip_archive_holds_the_files() {
    let files = vec![
        ("a.txt".to_string(), b"hello".to_vec()),
        ("sub\\b.txt".to_string(), vec![0u8; 1000]),
    ];
    let (archive, skipped) = build_zip(&files);
    assert!(skipped.is_empty());
    let bytes = archive.unwrap();
    let mut z = zip::ZipArchive::new(std::io::Cursor::new(bytes)).unwrap();
    assert_eq!(z.len(), 2);
    let mut out = String::new();
    std::io::Read::read_to_string(&mut z.by_name("a.txt").unwrap(), &mut out).unwrap();
    assert_eq!(out, "hello");
    assert_eq!(z.by_name("sub/b.txt").unwrap().size(), 1000);
    let dup = vec![("a".to_string(), vec![1]), ("a".to_string(), vec![2])];
    let (_, skipped) = build_zip(&dup);
    assert_eq!(skipped, vec!["a".to_string()]);
}

#[test]
fn text_helpers() {
    assert_eq!(trim("  \u{a0}x y\t\n"), "x y");
    assert!(eq_ignore_ascii_case("HoTsPoT", "hotspot"));
    assert!(str_less("B", "a"));
    assert!(str_less("a", "ab"));
    assert!(!str_less("ab", "ab"));
    assert!(html_pin_form_with_error("t", "<bad>").contains("&lt;bad&gt;"));
}

#[test]
fn config_entries_of_a_directory() {
    let dir = std::path::PathBuf::from("/home/u/.config/filedrop");
    assert_eq!(config_file_in(&dir), dir.join("config.toml"));
    assert_eq!(peers_in(&dir), dir.join("peers"));
    assert_eq!(certs_in(&dir), dir.join("certs"));
    assert_ne!(config_file_in(&dir), dir);
}

#[test]
fn zip_skips_only_names_it_cannot_take() {
    let files = vec![
        ("x".repeat(70000), b"too long".to_vec()),
        ("ok.txt".to_string(), b"kept".to_vec()),
    ];
    let (archive, skipped) = build_zip(&files);
    assert_eq!(skipped, vec!["x".repeat(70000)]);
    let z = zip::ZipArchive::new(std::io::Cursor::new(archive.unwrap())).unwrap();
    assert_eq!(z.len(), 1);
    let (archive, skipped) = build_zip(&Vec::new());
    assert!(skipped.is_empty());
    assert_eq!(zip::ZipArchive::new(std::io::Cursor::new(archive.unwrap())).unwrap().len(), 0);
}

#[test]
fn share_archives_are_strict() {
    let items = vec![
        ShareItem::Directory("docs".to_string()),
        ShareItem::File("docs\\a.txt".to_string(), b"alpha".to_vec()),
        ShareItem::File("b.txt".to_string(), vec![]),
    ];
    let bytes = build_share_zip(&items).unwrap();
    let mut z = zip::ZipArchive::new(std::io::Cursor::new(bytes)).unwrap();
    assert_eq!(z.len(), 3);
    assert!(z.by_name("docs/").unwrap().is_dir());
    let mut out = String::new();
    std::io::Read::read_to_string(&mut z.by_name("docs/a.txt").unwrap(), &mut out).unwrap();
    assert_eq!(out, "alpha");
    let dup = vec![
        ShareItem::File("a".to_string(), vec![1]),
        ShareItem::File("a".to_string(), vec![2]),
    ];
    assert_eq!(build_share_zip(&dup), Err("a".to_string()));
    let dir_twice = vec![ShareItem::Directory("d".to_string()), ShareItem::Directory("d".to_string())];
    assert_eq!(build_share_zip(&dir_twice), Err("d/".to_string()));
}

#[test]
fn zip_keeps_every_file_it_does_not_skip() {
    let files = vec![
        ("a".to_string(), vec![1u8]),
        ("a".to_string(), vec![2u8]),
        ("b".to_string(), vec![3u8]),
    ];
    let (archive, skipped) = build_zip(&files);
    assert_eq!(skipped, vec!["a".to_string()]);
    let mut z = zip::ZipArchive::new(std::io::Cursor::new(archive.unwrap())).unwrap();
    assert_eq!(z.len(), 2);
    let mut buf = Vec::new();
    std::io::Read::read_to_end(&mut z.by_name("a").unwrap(), &mut buf).unwrap();
    assert_eq!(buf, vec![1u8]);
}
