use filedrop::qr::{pairing_frame, qr_lines};

#[test]
fn qr_rows_are_rendered_and_framed() {
    let rows = qr_lines("http://192.168.1.2:7878").unwrap();
    assert!(rows.len() > 10);
    let w = rows[0].chars().count();
    assert!(rows.iter().all(|r| r.chars().count() == w));
    // A quiet zone: the first row is blank.
    assert!(rows[0].chars().all(|c| c == ' '));

    let framed = pairing_frame(&rows);
    assert_eq!(framed.len(), rows.len() + 4);
    let bytes = rows.iter().map(|r| r.len()).max().unwrap();
    let top = format!("  ┌─{}─┐", "─".repeat(bytes + 2));
    assert_eq!(framed[0], top);
    assert_eq!(framed[1], format!("  │ {:^w$} │", "FileDrop Pairing", w = bytes + 2));
    assert_eq!(framed[2], format!("  ├─{}─┤", "─".repeat(bytes + 2)));
    assert_eq!(framed[3], format!("  │  {}  │", rows[0]));
    assert_eq!(framed[framed.len() - 1], format!("  └─{}─┘", "─".repeat(bytes + 2)));
}

#[test]
fn qr_frame_of_short_rows_keeps_the_title() {
    let framed = pairing_frame(&vec!["ab".to_string()]);
    assert_eq!(framed[1], "  │ FileDrop Pairing │");
    assert_eq!(framed[0], format!("  ┌─{}─┐", "─".repeat(4)));
    assert_eq!(framed[3], "  │  ab  │");
}

#[test]
fn data_too_long_for_a_qr_code_is_refused() {
    assert!(qr_lines(&"x".repeat(8000)).is_err());
}
