use filedrop::pages::{html_download_page, html_error, html_pin_form, html_pin_form_with_error};
use filedrop::share_http::{download_reply, landing_reply, verify_pin_reply, ShareReply, ShareState};

fn state(pin: Option<&str>, once: bool) -> ShareState {
    ShareState {
        token: "Abc12345".to_string(),
        file_name: "report.pdf".to_string(),
        file_size: 2048,
        sha256: "ff".repeat(32),
        once,
        pin: pin.map(|p| p.to_string()),
        device_name: "My Laptop".to_string(),
    }
}

#[test]
fn wrong_token_is_not_found() {
    let s = state(None, false);
    assert_eq!(
        landing_reply(&s, "nope", None),
        ShareReply::Page { status: 404, html: html_error("Link not found or expired.") }
    );
    assert_eq!(
        download_reply(&s, "nope", None),
        ShareReply::Text { status: 404, body: "Not found".to_string() }
    );
    assert_eq!(
        verify_pin_reply(&s, "nope", "1234"),
        ShareReply::Page { status: 404, html: html_error("Link not found or expired.") }
    );
}

#[test]
fn landing_shows_download_page_without_pin() {
    let s = state(None, false);
    assert_eq!(
        landing_reply(&s, "Abc12345", None),
        ShareReply::Page {
            status: 200,
            html: html_download_page("report.pdf", 2048, &"ff".repeat(32), "Abc12345", "My Laptop"),
        }
    );
    assert_eq!(
        download_reply(&s, "Abc12345", None),
        ShareReply::File {
            content_disposition: "attachment; filename=\"report.pdf\"".to_string(),
            content_length: 2048,
            close_after: false,
        }
    );
}

#[test]
fn pin_gates_the_download_until_the_cookie_is_set() {
    let s = state(Some("4821"), true);
    assert_eq!(
        landing_reply(&s, "Abc12345", None),
        ShareReply::Page { status: 200, html: html_pin_form("Abc12345") }
    );
    assert_eq!(
        download_reply(&s, "Abc12345", Some("other=1")),
        ShareReply::Text { status: 403, body: "PIN required".to_string() }
    );
    assert_eq!(
        verify_pin_reply(&s, "Abc12345", "1111"),
        ShareReply::Page {
            status: 200,
            html: html_pin_form_with_error("Abc12345", "Incorrect PIN. Try again."),
        }
    );
    let ok = verify_pin_reply(&s, "Abc12345", " 4821 ");
    let cookie = match ok {
        ShareReply::Redirect { location, set_cookie: Some(c) } => {
            assert_eq!(location, "/get/Abc12345");
            c
        }
        other => panic!("unexpected reply {:?}", other),
    };
    assert_eq!(
        cookie,
        "filedrop_pin_auth=verified; Path=/; HttpOnly; SameSite=Strict; Max-Age=86400"
    );
    // The browser sends back the name=value part.
    let sent = cookie.split(';').next().unwrap();
    match download_reply(&s, "Abc12345", Some(sent)) {
        ShareReply::File { close_after, .. } => assert!(close_after),
        other => panic!("unexpected reply {:?}", other),
    }
}

#[test]
fn no_pin_redirects_straight_back() {
    let s = state(None, false);
    assert_eq!(
        verify_pin_reply(&s, "Abc12345", "anything"),
        ShareReply::Redirect { location: "/get/Abc12345".to_string(), set_cookie: None }
    );
}
