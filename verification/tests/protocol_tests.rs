use filedrop::protocol::{format_bytes, TransferFile, TransferStatus};

#[test]
fn protocol_test_format_bytes() {
    assert_eq!(format_bytes(0), "0 B");
    assert_eq!(format_bytes(500), "500 B");
    assert_eq!(format_bytes(1024), "1 KB");
    assert_eq!(format_bytes(2 * 1024 * 1024), "2.0 MB");
    assert_eq!(format_bytes(3 * 1024 * 1024 * 1024), "3.0 GB");
}

#[test]
fn format_bytes_rounds_like_the_float_formatter() {
    // {:.0} rounds half to even, {:.1} to the nearest tenth.
    assert_eq!(format_bytes(1023), "1023 B");
    assert_eq!(format_bytes(1536), "2 KB");
    assert_eq!(format_bytes(2560), "2 KB");
    assert_eq!(format_bytes(1048575), "1024 KB");
    assert_eq!(format_bytes(1572864), "1.5 MB");
    assert_eq!(format_bytes(1073741823), "1024.0 MB");
    assert_eq!(format_bytes(u64::MAX), format!("{:.1} GB", u64::MAX as f64 / 1073741824.0));
    for n in [1000u64, 12345, 999_999, 5_000_000, 123_456_789, 9_876_543_210, 1 << 40] {
        let expected = if n >= 1 << 30 {
            format!("{:.1} GB", n as f64 / (1u64 << 30) as f64)
        } else if n >= 1 << 20 {
            format!("{:.1} MB", n as f64 / (1u64 << 20) as f64)
        } else if n >= 1024 {
            format!("{:.0} KB", n as f64 / 1024.0)
        } else {
            format!("{} B", n)
        };
        assert_eq!(format_bytes(n), expected);
    }
}

#[test]
fn new_transfer_file_is_pending_and_empty() {
    let f = TransferFile::new("test.txt".to_string(), 1000, "hash".to_string());
    assert_eq!(f.name, "test.txt");
    assert_eq!(f.size, 1000);
    assert_eq!(f.bytes_transferred, 0);
    assert_eq!(f.status, TransferStatus::Queued);
    assert_eq!(f.size_display(), "1000 B");
    assert_eq!(f.transferred_display(), "0 B");
}
