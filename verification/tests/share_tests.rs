use std::path::PathBuf;
use std::time::Duration;

use filedrop::pages::html_escape;
use filedrop::protocol::format_bytes;
use filedrop::share::{
    duration_fits, folder_zip_name, format_duration, generate_token, is_pin_verified,
    parse_duration, pin_matches, share_selection, share_url, shared_zip_name, DurationError,
    ShareSelection,
};

#[test]
fn test_parse_duration_seconds() {
    let d = Duration::from_secs(parse_duration("30s").unwrap());
    assert_eq!(d, Duration::from_secs(30));
}

#[test]
fn test_parse_duration_minutes() {
    let d = Duration::from_secs(parse_duration("10m").unwrap());
    assert_eq!(d, Duration::from_secs(600));
}

#[test]
fn test_parse_duration_hours() {
    let d = Duration::from_secs(parse_duration("2h").unwrap());
    assert_eq!(d, Duration::from_secs(7200));
}

#[test]
fn test_parse_duration_bare_number() {
    let d = Duration::from_secs(parse_duration("45").unwrap());
    assert_eq!(d, Duration::from_secs(45));
}

#[test]
fn test_parse_duration_invalid() {
    assert!(parse_duration("abc").is_err());
    assert!(parse_duration("").is_err());
    assert!(parse_duration("10x").is_err());
}

#[test]
fn test_generate_token_length() {
    let t = generate_token(8);
    assert_eq!(t.len(), 8);
    assert!(t.chars().all(|c| c.is_ascii_alphanumeric()));
}

#[test]
fn test_generate_token_uniqueness() {
    let a = generate_token(8);
    let b = generate_token(8);
    // Statistically should never collide with 62^8 space
    assert_ne!(a, b);
}

#[test]
fn server_test_format_bytes() {
    assert_eq!(format_bytes(0), "0 B");
    assert_eq!(format_bytes(512), "512 B");
    assert_eq!(format_bytes(1024), "1 KB");
    assert_eq!(format_bytes(5 * 1024 * 1024), "5.0 MB");
    assert_eq!(format_bytes(2 * 1024 * 1024 * 1024), "2.0 GB");
}

#[test]
fn test_format_duration() {
    assert_eq!(format_duration(Duration::from_secs(30).as_secs()), "30s");
    assert_eq!(format_duration(Duration::from_secs(600).as_secs()), "10m 0s");
    assert_eq!(format_duration(Duration::from_secs(3661).as_secs()), "1h 1m");
}

#[test]
fn test_html_escape() {
    assert_eq!(html_escape("<b>hello</b>"), "&lt;b&gt;hello&lt;/b&gt;");
    assert_eq!(html_escape("a&b"), "a&amp;b");
}

#[test]
fn test_is_pin_verified_no_cookie() {
    assert!(!is_pin_verified(None));
}

#[test]
fn parse_duration_errors_name_their_cause() {
    assert_eq!(parse_duration("   "), Err(DurationError::Empty));
    assert_eq!(
        parse_duration(" abc "),
        Err(DurationError::InvalidNumber("abc".to_string()))
    );
    assert_eq!(
        parse_duration("10x"),
        Err(DurationError::UnknownSuffix { suffix: "x".to_string(), input: "10x".to_string() })
    );
    assert_eq!(
        parse_duration("99999999999999999999s"),
        Err(DurationError::InvalidNumber("99999999999999999999s".to_string()))
    );
}

#[test]
fn parse_duration_trims_and_allows_space_before_unit() {
    assert_eq!(parse_duration("  15 m "), Ok(900));
    assert_eq!(parse_duration("0h"), Ok(0));
    assert_eq!(parse_duration("007s"), Ok(7));
}

#[test]
fn duration_range_check_guards_overflow() {
    assert!(duration_fits("2h"));
    assert!(duration_fits("abc"));
    assert!(duration_fits("18446744073709551615"));
    assert!(!duration_fits("18446744073709551615m"));
    assert!(!duration_fits("5124095576030432h"));
}

#[test]
fn format_duration_edges() {
    assert_eq!(format_duration(0), "0s");
    assert_eq!(format_duration(59), "59s");
    assert_eq!(format_duration(60), "1m 0s");
    assert_eq!(format_duration(3599), "59m 59s");
    assert_eq!(format_duration(3600), "1h 0m");
    assert_eq!(format_duration(90061), "25h 1m");
}

#[test]
fn pin_cookie_is_found_among_others() {
    assert!(is_pin_verified(Some("a=1; filedrop_pin_auth=verified; b=2")));
    assert!(is_pin_verified(Some("filedrop_pin_auth=verified")));
    assert!(!is_pin_verified(Some("filedrop_pin_auth=nope")));
    assert!(!is_pin_verified(Some("")));
}

#[test]
fn pin_is_compared_after_trimming() {
    assert!(pin_matches(" 1234 ", "1234"));
    assert!(!pin_matches("1235", "1234"));
}

#[test]
fn share_names_and_url() {
    assert_eq!(shared_zip_name("My Laptop"), "My_Laptop_filedrop_shared.zip");
    assert_eq!(folder_zip_name("photos"), "photos.zip");
    assert_eq!(
        share_url(&vec!["192.168.1.5".to_string(), "10.0.0.2".to_string()], "abc"),
        "http://192.168.1.5:7879/get/abc"
    );
    assert_eq!(share_url(&vec![], "t"), "http://127.0.0.1:7879/get/t");
}

#[test]
fn duration_errors_have_messages() {
    assert_eq!(DurationError::Empty.message(), "Empty duration string");
    assert_eq!(
        DurationError::InvalidNumber("abc".to_string()).message(),
        "Invalid number in duration: 'abc'"
    );
    assert_eq!(
        DurationError::UnknownSuffix { suffix: "x".to_string(), input: "10x".to_string() }.message(),
        "Unknown duration suffix 'x' in '10x'"
    );
}

#[test]
fn empty_selection_is_refused() {
    assert_eq!(share_selection(vec![]).unwrap_err(), "No files or folders selected to share");
    match share_selection(vec![PathBuf::from("a")]).unwrap() {
        ShareSelection::Single(p) => assert_eq!(p, PathBuf::from("a")),
        _ => panic!("one path is shared as it is"),
    }
    match share_selection(vec![PathBuf::from("a"), PathBuf::from("b")]).unwrap() {
        ShareSelection::Bundle(v) => assert_eq!(v, vec![PathBuf::from("a"), PathBuf::from("b")]),
        _ => panic!("several paths are bundled"),
    }
}
