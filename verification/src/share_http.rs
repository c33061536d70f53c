//! How the ephemeral share server answers its three routes: the landing
//! page `/get/{token}`, the download `/get/{token}/download`, and the PIN
//! form `/get/{token}/verify-pin`.
//!
//! The HTTP server, the file stream and the expiry timer live outside the
//! library; they carry out the reply decided here.
use vstd::prelude::*;
use crate::pages::{
    download_page, error_page, html_download_page, html_error, html_pin_form,
    html_pin_form_with_error, pin_form_page,
};
use crate::protocol::format_bytes_spec;
use crate::share::{
    auth_cookie, auth_set_cookie, has_auth_cookie, is_pin_verified, pin_matches, semicolon_index,
    PIN_COOKIE_NAME, PIN_COOKIE_VALUE,
};
use crate::text::{str_eq, trim_spec};

verus! {

/// What the share server knows about the shared file.
#[derive(Debug, Clone)]
pub struct ShareState {
    /// The random token embedded in the URL path.
    pub token: String,
    /// Display name shown to the downloader.
    pub file_name: String,
    /// File size in bytes.
    pub file_size: u64,
    /// SHA-256 hex digest of the file.
    pub sha256: String,
    /// Whether the link expires after the first download.
    pub once: bool,
    /// The PIN required before download, if any.
    pub pin: Option<String>,
    /// Display name of the laptop creating the share.
    pub device_name: String,
}

/// A reply of the share server.
#[derive(Debug, Clone, PartialEq, Eq)]
pub enum ShareReply {
    /// An HTML page with its status code.
    Page { status: u16, html: String },
    /// A plain-text reply with its status code.
    Text { status: u16, body: String },
    /// A `303 See Other` to `location`, setting a cookie when one is given.
    Redirect { location: String, set_cookie: Option<String> },
    /// The file itself as an `application/octet-stream` attachment; when
    /// `close_after` is set, the share ends once it has been sent.
    File { content_disposition: String, content_length: u64, close_after: bool },
}

/// `r` is the page `html` with status `status`.
pub open spec fn is_page(r: ShareReply, status: u16, html: Seq<char>) -> bool {
    match r {
        ShareReply::Page { status: s, html: h } => s == status && h@ == html,
        _ => false,
    }
}

/// `r` is the plain text `body` with status `status`.
pub open spec fn is_text(r: ShareReply, status: u16, body: Seq<char>) -> bool {
    match r {
        ShareReply::Text { status: s, body: b } => s == status && b@ == body,
        _ => false,
    }
}

/// `r` redirects to `location`, setting `cookie` when there is one.
pub open spec fn is_redirect(r: ShareReply, location: Seq<char>, cookie: Option<Seq<char>>) -> bool {
    match r {
        ShareReply::Redirect { location: l, set_cookie: c } => l@ == location && match c {
            Some(x) => cookie == Some(x@),
            None => cookie is None,
        },
        _ => false,
    }
}

/// The text shown when the token does not name this share.
pub open spec fn not_found_text() -> Seq<char> {
    "Link not found or expired."@
}

/// The message above the PIN form after a wrong PIN.
pub open spec fn wrong_pin_text() -> Seq<char> {
    "Incorrect PIN. Try again."@
}

/// Whether a request with this `Cookie` header still has to enter the PIN.
pub open spec fn pin_required(state: ShareState, cookie_header: Option<Seq<char>>) -> bool {
    state.pin is Some && !match cookie_header {
        Some(c) => has_auth_cookie(c),
        None => false,
    }
}

/// The landing page reply.
pub open spec fn landing_spec(state: ShareState, token: Seq<char>, cookie_header: Option<Seq<char>>) -> (
    u16,
    Seq<char>,
) {
    if token != state.token@ {
        (404, error_page(not_found_text()))
    } else if pin_required(state, cookie_header) {
        (200, pin_form_page(token, None))
    } else {
        (
            200,
            download_page(
                state.file_name@,
                format_bytes_spec(state.file_size as nat),
                state.sha256@,
                token,
                state.device_name@,
            ),
        )
    }
}

/// The view of an optional header.
pub open spec fn header_view(h: Option<&str>) -> Option<Seq<char>> {
    match h {
        Some(c) => Some(c@),
        None => None,
    }
}

/// `GET /get/{token}`: the download page, the PIN form while a PIN is
/// required and not yet entered, or a not-found page for a wrong token.
pub fn landing_reply(state: &ShareState, token: &str, cookie_header: Option<&str>) -> (r: ShareReply)
    ensures
        is_page(
            r,
            landing_spec(*state, token@, header_view(cookie_header)).0,
            landing_spec(*state, token@, header_view(cookie_header)).1,
        ),
{
    if !str_eq(token, state.token.as_str()) {
        return ShareReply::Page { status: 404, html: html_error("Link not found or expired.") };
    }
    if state.pin.is_some() && !is_pin_verified(cookie_header) {
        return ShareReply::Page { status: 200, html: html_pin_form(token) };
    }
    ShareReply::Page {
        status: 200,
        html: html_download_page(
            state.file_name.as_str(),
            state.file_size,
            state.sha256.as_str(),
            token,
            state.device_name.as_str(),
        ),
    }
}

/// The `Content-Disposition` of the download.
pub open spec fn disposition(file_name: Seq<char>) -> Seq<char> {
    "attachment; filename=\""@ + file_name + "\""@
}

/// `GET /get/{token}/download`: not found for a wrong token, forbidden
/// while a PIN is required, else the file as an attachment, ending the
/// share afterwards for a one-time link.
pub fn download_reply(state: &ShareState, token: &str, cookie_header: Option<&str>) -> (r: ShareReply)
    ensures
        token@ != state.token@ ==> is_text(r, 404, "Not found"@),
        token@ == state.token@ && pin_required(*state, header_view(cookie_header)) ==> is_text(
            r,
            403,
            "PIN required"@,
        ),
        token@ == state.token@ && !pin_required(*state, header_view(cookie_header)) ==> r == (
        ShareReply::File {
            content_disposition: r->content_disposition,
            content_length: state.file_size,
            close_after: state.once,
        }) && r->content_disposition@ == disposition(state.file_name@),
{
    if !str_eq(token, state.token.as_str()) {
        return ShareReply::Text { status: 404, body: String::from_str("Not found") };
    }
    if state.pin.is_some() && !is_pin_verified(cookie_header) {
        return ShareReply::Text { status: 403, body: String::from_str("PIN required") };
    }
    let mut d = String::from_str("attachment; filename=\"");
    d.append(state.file_name.as_str());
    d.append("\"");
    ShareReply::File {
        content_disposition: d,
        content_length: state.file_size,
        close_after: state.once,
    }
}

/// `POST /get/{token}/verify-pin`: not found for a wrong token; back to the
/// landing page when no PIN is set; back to the landing page with the
/// auth cookie when the trimmed PIN matches; else the PIN form again with
/// an error.
pub fn verify_pin_reply(state: &ShareState, token: &str, submitted: &str) -> (r: ShareReply)
    ensures
        token@ != state.token@ ==> is_page(r, 404, error_page(not_found_text())),
        token@ == state.token@ ==> match state.pin {
            None => is_redirect(r, "/get/"@ + token@, None),
            Some(p) => if trim_spec(submitted@) == p@ {
                is_redirect(r, "/get/"@ + token@, Some(auth_set_cookie()))
            } else {
                is_page(r, 200, pin_form_page(token@, Some(wrong_pin_text())))
            },
        },
{
    if !str_eq(token, state.token.as_str()) {
        return ShareReply::Page { status: 404, html: html_error("Link not found or expired.") };
    }
    let mut location = String::from_str("/get/");
    location.append(token);
    match &state.pin {
        None => ShareReply::Redirect { location, set_cookie: None },
        Some(p) => {
            if pin_matches(submitted, p.as_str()) {
                let mut c = String::from_str(PIN_COOKIE_NAME);
                c.append("=");
                c.append(PIN_COOKIE_VALUE);
                c.append("; Path=/; HttpOnly; SameSite=Strict; Max-Age=86400");
                ShareReply::Redirect { location, set_cookie: Some(c) }
            } else {
                ShareReply::Page {
                    status: 200,
                    html: html_pin_form_with_error(token, "Incorrect PIN. Try again."),
                }
            }
        },
    }
}

/// Entering the right PIN unlocks the download: the cookie pair that the
/// PIN form sets (the part of `Set-Cookie` before its attributes), sent
/// back by the browser alone or among other cookies, is recognised, so the
/// landing page then shows the download page.
pub proof fn lemma_pin_cookie_unlocks(state: ShareState, token: Seq<char>)
    requires
        token == state.token@,
    ensures
        auth_set_cookie().take(semicolon_index(auth_set_cookie()) as int) == auth_cookie(),
        !pin_required(state, Some(auth_cookie())),
        !pin_required(state, Some(auth_cookie() + "; a=b"@)),
        landing_spec(state, token, Some(auth_cookie())).1 == download_page(
            state.file_name@,
            format_bytes_spec(state.file_size as nat),
            state.sha256@,
            token,
            state.device_name@,
        ),
{
    crate::share::lemma_set_cookie_is_recognised();
}

/// Without the PIN the file cannot be had: while a PIN is set and no auth
/// cookie was presented, the landing page is the PIN form.
pub proof fn lemma_pin_guards_landing(state: ShareState, token: Seq<char>)
    requires
        token == state.token@,
        state.pin is Some,
    ensures
        landing_spec(state, token, None) == (200u16, pin_form_page(token, None)),
{
}

} // verus!
