//! HTML pages served by the ephemeral share server, and HTML escaping.
//!
//! Each page is fixed text with a few values inserted; user-supplied text is
//! escaped before insertion.
use vstd::prelude::*;
use crate::protocol::{format_bytes, format_bytes_spec};
use crate::text::push_char;

verus! {

// Fixed text of the pages, between the inserted values.

pub const DOWNLOAD_PAGE_0: &'static str = r##"<!DOCTYPE html>
<html lang="en">
<head>
<meta charset="utf-8">
<meta name="viewport" content="width=device-width, initial-scale=1">
<title>FileDrop — "##;

pub const DOWNLOAD_PAGE_1: &'static str = r##"</title>
<style>
  * { margin: 0; padding: 0; box-sizing: border-box; }
  body {
    background: #0a0a0a;
    color: #00FF41;
    font-family: 'Courier New', Courier, monospace;
    display: flex;
    justify-content: center;
    align-items: center;
    min-height: 100vh;
    padding: 1rem;
  }
  .card {
    border: 1px solid #00FF41;
    padding: 2rem;
    max-width: 500px;
    width: 100%;
    text-align: center;
    box-shadow: 0 0 15px rgba(0,255,65,0.2);
  }
  h1 {
    font-size: 1.1rem;
    margin-bottom: 1.5rem;
    letter-spacing: 1px;
    text-transform: uppercase;
  }
  .meta {
    text-align: left;
    margin-bottom: 1.5rem;
    font-size: 0.85rem;
    line-height: 1.8;
  }
  .meta span {
    color: #33ff66;
  }
  .download-btn {
    display: inline-block;
    padding: 0.85rem 1.5rem;
    border: 2px solid #00FF41;
    background: #000;
    color: #00FF41;
    font-family: inherit;
    font-size: 0.95rem;
    font-weight: bold;
    letter-spacing: 1px;
    text-decoration: none;
    text-transform: uppercase;
    cursor: pointer;
    transition: box-shadow 0.2s, background 0.2s;
  }
  .download-btn:hover {
    box-shadow: 0 0 15px #00FF41, 0 0 30px rgba(0,255,65,0.3);
    background: #001a00;
  }
  .hash {
    margin-top: 1.5rem;
    font-size: 0.7rem;
    word-break: break-all;
    color: #555;
  }
  .footer {
    margin-top: 2rem;
    font-size: 0.7rem;
    color: #333;
  }
</style>
</head>
<body>
<div class="card">
  <h1>[FILEDROP] v0.2.0 :: RECEIVE_MODE</h1>
  <div class="meta" style="margin-top: 1.5rem;">
    <div>File: <span>"##;

pub const DOWNLOAD_PAGE_2: &'static str = r##"</span></div>
    <div>Size: <span>"##;

pub const DOWNLOAD_PAGE_3: &'static str = r##"</span></div>
  </div>
  <a class="download-btn" href="/get/"##;

pub const DOWNLOAD_PAGE_4: &'static str = r##"/download" style="margin-top: 1rem; width: 100%; text-align: center;">▶ RECEIVE FILES FROM "##;

pub const DOWNLOAD_PAGE_5: &'static str = r##"</a>
  <div class="hash">SHA-256: "##;

pub const DOWNLOAD_PAGE_6: &'static str = r##"</div>
  <div class="footer">Ephemeral link — expires automatically</div>
</div>
</body>
</html>"##;

pub const PIN_FORM_0: &'static str = r##"<!DOCTYPE html>
<html lang="en">
<head>
<meta charset="utf-8">
<meta name="viewport" content="width=device-width, initial-scale=1">
<title>FileDrop — PIN Required</title>
<style>
  * { margin: 0; padding: 0; box-sizing: border-box; }
  body {
    background: #0a0a0a;
    color: #00FF41;
    font-family: 'Courier New', Courier, monospace;
    display: flex;
    justify-content: center;
    align-items: center;
    min-height: 100vh;
    padding: 1rem;
  }
  .card {
    border: 1px solid #00FF41;
    padding: 2rem;
    max-width: 400px;
    width: 100%;
    text-align: center;
  }
  h1 {
    font-size: 1.2rem;
    margin-bottom: 1.5rem;
    letter-spacing: 2px;
  }
  input[type="text"] {
    background: #000;
    border: 2px solid #00FF41;
    color: #00FF41;
    font-family: inherit;
    font-size: 1.5rem;
    text-align: center;
    padding: 0.5rem;
    width: 6rem;
    letter-spacing: 0.5rem;
    outline: none;
    margin-bottom: 1rem;
  }
  input[type="text"]:focus {
    box-shadow: 0 0 10px rgba(0,255,65,0.4);
  }
  button {
    display: inline-block;
    padding: 0.6rem 1.5rem;
    border: 2px solid #00FF41;
    background: #000;
    color: #00FF41;
    font-family: inherit;
    font-size: 0.9rem;
    font-weight: bold;
    text-transform: uppercase;
    cursor: pointer;
    transition: box-shadow 0.2s, background 0.2s;
  }
  button:hover {
    box-shadow: 0 0 15px #00FF41, 0 0 30px rgba(0,255,65,0.3);
    background: #001a00;
  }
</style>
</head>
<body>
<div class="card">
  <h1>🔒 PIN Required</h1>
  "##;

pub const PIN_FORM_1: &'static str = r##"
  <form method="POST" action="/get/"##;

pub const PIN_FORM_2: &'static str = r##"/verify-pin">
    <div style="margin-bottom:1rem;">
      <input type="text" name="pin" maxlength="4" pattern="[0-9]{4}" inputmode="numeric"
             placeholder="····" autocomplete="off" autofocus>
    </div>
    <button type="submit">Verify</button>
  </form>
</div>
</body>
</html>"##;

pub const ERROR_PAGE_0: &'static str = r##"<!DOCTYPE html>
<html lang="en">
<head>
<meta charset="utf-8">
<meta name="viewport" content="width=device-width, initial-scale=1">
<title>FileDrop — Error</title>
<style>
  body {
    background: #0a0a0a;
    color: #FF0000;
    font-family: 'Courier New', Courier, monospace;
    display: flex;
    justify-content: center;
    align-items: center;
    min-height: 100vh;
  }
  .card {
    border: 1px solid #FF0000;
    padding: 2rem;
    max-width: 400px;
    text-align: center;
  }
</style>
</head>
<body>
<div class="card">
  <h1>✗ Error</h1>
  <p style="margin-top:1rem;">"##;

pub const ERROR_PAGE_1: &'static str = r##"</p>
</div>
</body>
</html>"##;

pub const PIN_ERROR_0: &'static str = r##"<div style="color:#FF0000;margin-bottom:1rem;font-size:0.85rem;">"##;

pub const PIN_ERROR_1: &'static str = r##"</div>"##;

// ─── Escaping ───────────────────────────────────────────────────────────────

/// The replacement of one character in HTML text.
pub open spec fn escape_char(c: char) -> Seq<char> {
    if c == '&' {
        "&amp;"@
    } else if c == '<' {
        "&lt;"@
    } else if c == '>' {
        "&gt;"@
    } else if c == '"' {
        "&quot;"@
    } else if c == '\'' {
        "&#39;"@
    } else {
        seq![c]
    }
}

/// `s` with `&`, `<`, `>`, `"` and `'` replaced by their HTML entities.
pub open spec fn html_escape_spec(s: Seq<char>) -> Seq<char>
    decreases s.len(),
{
    if s.len() == 0 {
        Seq::empty()
    } else {
        html_escape_spec(s.drop_last()) + escape_char(s.last())
    }
}

/// Appends the HTML-escaped form of `s` to `out`.
pub fn push_escaped(out: &mut String, s: &str)
    ensures
        final(out)@ == old(out)@ + html_escape_spec(s@),
{
    let n = s.unicode_len();
    let mut i: usize = 0;
    let ghost start = out@;
    while i < n
        invariant
            n == s@.len(),
            i <= n,
            out@ == start + html_escape_spec(s@.take(i as int)),
        decreases n - i,
    {
        let c = s.get_char(i);
        if c == '&' {
            out.append("&amp;");
        } else if c == '<' {
            out.append("&lt;");
        } else if c == '>' {
            out.append("&gt;");
        } else if c == '"' {
            out.append("&quot;");
        } else if c == '\'' {
            out.append("&#39;");
        } else {
            push_char(out, c);
        }
        assert(s@.take(i + 1).drop_last() =~= s@.take(i as int));
        assert(out@ =~= start + html_escape_spec(s@.take(i + 1)));
        i = i + 1;
    }
    assert(s@.take(n as int) =~= s@);
}

/// Minimal HTML escaping for user-supplied strings.
pub fn html_escape(s: &str) -> (r: String)
    ensures
        r@ == html_escape_spec(s@),
{
    let mut out = String::new();
    push_escaped(&mut out, s);
    assert(out@ =~= html_escape_spec(s@));
    out
}

// ─── Pages ──────────────────────────────────────────────────────────────────

/// The download landing page.
pub open spec fn download_page(
    file_name: Seq<char>,
    size_display: Seq<char>,
    sha256: Seq<char>,
    token: Seq<char>,
    device_name: Seq<char>,
) -> Seq<char> {
    DOWNLOAD_PAGE_0@ + html_escape_spec(file_name) + DOWNLOAD_PAGE_1@ + html_escape_spec(file_name)
        + DOWNLOAD_PAGE_2@ + size_display + DOWNLOAD_PAGE_3@ + token + DOWNLOAD_PAGE_4@
        + html_escape_spec(device_name) + DOWNLOAD_PAGE_5@ + sha256 + DOWNLOAD_PAGE_6@
}

/// Renders the download landing page: file name and size, a download link
/// for `token`, the sender's device name and the file's SHA-256.
pub fn html_download_page(
    file_name: &str,
    file_size: u64,
    sha256: &str,
    token: &str,
    device_name: &str,
) -> (r: String)
    ensures
        r@ == download_page(
            file_name@,
            format_bytes_spec(file_size as nat),
            sha256@,
            token@,
            device_name@,
        ),
{
    let size_display = format_bytes(file_size);
    let mut out = String::from_str(DOWNLOAD_PAGE_0);
    push_escaped(&mut out, file_name);
    out.append(DOWNLOAD_PAGE_1);
    push_escaped(&mut out, file_name);
    out.append(DOWNLOAD_PAGE_2);
    out.append(size_display.as_str());
    out.append(DOWNLOAD_PAGE_3);
    out.append(token);
    out.append(DOWNLOAD_PAGE_4);
    push_escaped(&mut out, device_name);
    out.append(DOWNLOAD_PAGE_5);
    out.append(sha256);
    out.append(DOWNLOAD_PAGE_6);
    assert(out@ =~= download_page(
        file_name@,
        format_bytes_spec(file_size as nat),
        sha256@,
        token@,
        device_name@,
    ));
    out
}

/// The PIN entry page, with an optional error message above the form.
pub open spec fn pin_form_page(token: Seq<char>, error: Option<Seq<char>>) -> Seq<char> {
    let error_html = match error {
        Some(msg) => PIN_ERROR_0@ + html_escape_spec(msg) + PIN_ERROR_1@,
        None => Seq::empty(),
    };
    PIN_FORM_0@ + error_html + PIN_FORM_1@ + token + PIN_FORM_2@
}

/// Renders the PIN entry form page.
pub fn html_pin_form(token: &str) -> (r: String)
    ensures
        r@ == pin_form_page(token@, None),
{
    html_pin_form_inner(token, None)
}

/// Renders the PIN entry form page with an error message.
pub fn html_pin_form_with_error(token: &str, error: &str) -> (r: String)
    ensures
        r@ == pin_form_page(token@, Some(error@)),
{
    html_pin_form_inner(token, Some(error))
}

/// Renders the PIN entry form page, with the escaped error message when one
/// is given.
pub fn html_pin_form_inner(token: &str, error: Option<&str>) -> (r: String)
    ensures
        r@ == pin_form_page(
            token@,
            match error {
                Some(e) => Some(e@),
                None => None,
            },
        ),
{
    let mut out = String::from_str(PIN_FORM_0);
    match error {
        Some(msg) => {
            out.append(PIN_ERROR_0);
            push_escaped(&mut out, msg);
            out.append(PIN_ERROR_1);
        },
        None => {},
    }
    out.append(PIN_FORM_1);
    out.append(token);
    out.append(PIN_FORM_2);
    assert(out@ =~= pin_form_page(
        token@,
        match error {
            Some(e) => Some(e@),
            None => None,
        },
    ));
    out
}

/// The error page showing `message`.
pub open spec fn error_page(message: Seq<char>) -> Seq<char> {
    ERROR_PAGE_0@ + html_escape_spec(message) + ERROR_PAGE_1@
}

/// Renders a simple error page with the escaped message.
pub fn html_error(message: &str) -> (r: String)
    ensures
        r@ == error_page(message@),
{
    let mut out = String::from_str(ERROR_PAGE_0);
    push_escaped(&mut out, message);
    out.append(ERROR_PAGE_1);
    assert(out@ =~= error_page(message@));
    out
}

} // verus!
