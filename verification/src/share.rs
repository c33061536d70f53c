//! Decisions of the ephemeral share server: expiry parsing and display,
//! the PIN cookie and PIN check, the random link token, and the names and
//! URL under which a share is offered.
use rand::Rng;
use vstd::prelude::*;
use std::path::PathBuf;
use crate::text::{
    decimal, digit_prefix_len, digits_value, is_digit, push_char, push_decimal, seq_starts_with,
    str_eq, trim, trim_spec, digit_value,
};

verus! {

/// Default share server port (separate from the main transfer port).
pub const SHARE_PORT: u16 = 7879;

/// Cookie name used for PIN-authenticated sessions.
pub const PIN_COOKIE_NAME: &'static str = "filedrop_pin_auth";

/// Cookie value set after successful PIN verification.
pub const PIN_COOKIE_VALUE: &'static str = "verified";

// ─── Duration Parsing ───────────────────────────────────────────────────────

/// Why a duration string was refused.
#[derive(Debug, Clone, PartialEq, Eq)]
pub enum DurationError {
    /// The string is empty or only white space.
    Empty,
    /// No number, or a number too large for 64 bits, in the given (trimmed) input.
    InvalidNumber(String),
    /// The text after the number is not `s`, `m`, `h` or nothing.
    UnknownSuffix { suffix: String, input: String },
}

impl DurationError {
    /// The message shown to the user.
    pub fn message(&self) -> (r: String)
        ensures
            r@ == match *self {
                DurationError::Empty => "Empty duration string"@,
                DurationError::InvalidNumber(s) => "Invalid number in duration: '"@ + s@ + "'"@,
                DurationError::UnknownSuffix { suffix, input } => "Unknown duration suffix '"@
                    + suffix@ + "' in '"@ + input@ + "'"@,
            },
    {
        match self {
            DurationError::Empty => String::from_str("Empty duration string"),
            DurationError::InvalidNumber(s) => {
                let mut m = String::from_str("Invalid number in duration: '");
                m.append(s.as_str());
                m.append("'");
                m
            },
            DurationError::UnknownSuffix { suffix, input } => {
                let mut m = String::from_str("Unknown duration suffix '");
                m.append(suffix.as_str());
                m.append("' in '");
                m.append(input.as_str());
                m.append("'");
                m
            },
        }
    }
}

/// The outcome of parsing a duration, in seconds, before any range check.
pub enum DurationParse {
    /// A number of seconds.
    Seconds(nat),
    /// Empty input.
    Empty,
    /// Missing or too large number.
    InvalidNumber,
    /// Unrecognised unit suffix.
    UnknownSuffix,
}

/// The unit multiplier that a (trimmed) suffix denotes.
pub open spec fn suffix_factor(suffix: Seq<char>) -> Option<nat> {
    if suffix == "s"@ || suffix == ""@ {
        Some(1)
    } else if suffix == "m"@ {
        Some(60)
    } else if suffix == "h"@ {
        Some(3600)
    } else {
        None
    }
}

/// The meaning of a duration string: white space trimmed, a decimal number
/// (the longest run of leading ASCII digits), then an optional unit `s`, `m`
/// or `h`, white space around the unit allowed.
pub open spec fn duration_parse(s: Seq<char>) -> DurationParse {
    let t = trim_spec(s);
    let k = digit_prefix_len(t);
    let value = digits_value(t.take(k as int));
    if t.len() == 0 {
        DurationParse::Empty
    } else if k == 0 || value > u64::MAX {
        DurationParse::InvalidNumber
    } else {
        match suffix_factor(trim_spec(t.skip(k as int))) {
            Some(f) => DurationParse::Seconds(value * f),
            None => DurationParse::UnknownSuffix,
        }
    }
}

/// The number of seconds of a parsed duration fits in 64 bits (a larger
/// product is an arithmetic overflow, which the parser does not accept).
pub open spec fn duration_in_range(s: Seq<char>) -> bool {
    match duration_parse(s) {
        DurationParse::Seconds(n) => n <= u64::MAX,
        _ => true,
    }
}

proof fn lemma_digit_prefix_len(s: Seq<char>, i: int)
    requires
        0 <= i <= s.len(),
        forall|j: int| 0 <= j < i ==> is_digit(s[j]),
        i == s.len() || !is_digit(s[i]),
    ensures
        digit_prefix_len(s) == i,
    decreases i,
{
    if i > 0 {
        let t = s.drop_first();
        assert forall|j: int| 0 <= j < i - 1 implies is_digit(t[j]) by {
            assert(t[j] == s[j + 1]);
        }
        if i - 1 < t.len() {
            assert(t[i - 1] == s[i]);
        }
        lemma_digit_prefix_len(t, i - 1);
    }
}

proof fn lemma_digits_value_grows(s: Seq<char>, i: int)
    requires
        0 <= i <= s.len(),
    ensures
        digits_value(s) >= digits_value(s.take(i)),
    decreases s.len(),
{
    if i < s.len() {
        assert(s.drop_last().take(i) =~= s.take(i));
        lemma_digits_value_grows(s.drop_last(), i);
    } else {
        assert(s.take(i) =~= s);
    }
}

/// The value of the decimal digits `t[0..k]`, or `None` when it exceeds 64 bits.
fn parse_digits(t: &str, k: usize) -> (r: Option<u64>)
    requires
        k <= t@.len(),
        forall|j: int| 0 <= j < k ==> is_digit(t@[j]),
    ensures
        match r {
            Some(v) => v == digits_value(t@.take(k as int)),
            None => digits_value(t@.take(k as int)) > u64::MAX,
        },
{
    let mut acc: u64 = 0;
    let mut i: usize = 0;
    while i < k
        invariant
            k <= t@.len(),
            forall|j: int| 0 <= j < k ==> is_digit(t@[j]),
            i <= k,
            acc == digits_value(t@.take(i as int)),
        decreases k - i,
    {
        let c = t.get_char(i);
        let d: u32 = (c as u32) - ('0' as u32);
        assert(t@.take(i + 1).drop_last() =~= t@.take(i as int));
        assert(t@.take(i + 1).last() == c);
        if acc > (u64::MAX - (d as u64)) / 10 {
            proof {
                assert(digits_value(t@.take(i + 1)) == acc * 10 + digit_value(c));
                assert(acc * 10 + d > u64::MAX) by (nonlinear_arith)
                    requires
                        acc > (u64::MAX - (d as u64)) / 10,
                        d <= 9,
                ;
                assert(t@.take(k as int).take(i + 1) =~= t@.take(i + 1));
                lemma_digits_value_grows(t@.take(k as int), i + 1);
            }
            return None;
        }
        acc = acc * 10 + (d as u64);
        i = i + 1;
    }
    Some(acc)
}

/// Whether the seconds of a duration string fit in 64 bits; callers test
/// this before [`parse_duration`].
pub fn duration_fits(s: &str) -> (r: bool)
    ensures
        r == duration_in_range(s@),
{
    match parse_seconds(s) {
        Ok((v, f)) => {
            proof {
                assert((v <= u64::MAX / f) == (v * f <= u64::MAX)) by (nonlinear_arith)
                    requires
                        f > 0,
                ;
            }
            v <= u64::MAX / f
        },
        Err(_) => true,
    }
}

/// The number and unit factor of a duration string.
fn parse_seconds(s: &str) -> (r: Result<(u64, u64), DurationError>)
    ensures
        match r {
            Ok((v, f)) => {
                &&& f > 0
                &&& duration_parse(s@) matches DurationParse::Seconds(n) && n == v * f
            },
            Err(DurationError::Empty) => duration_parse(s@) is Empty,
            Err(DurationError::InvalidNumber(t)) => {
                &&& duration_parse(s@) is InvalidNumber
                &&& t@ == trim_spec(s@)
            },
            Err(DurationError::UnknownSuffix { suffix, input }) => {
                &&& duration_parse(s@) is UnknownSuffix
                &&& input@ == trim_spec(s@)
                &&& suffix@ == trim_spec(
                    trim_spec(s@).skip(digit_prefix_len(trim_spec(s@)) as int),
                )
            },
        },
{
    let t = trim(s);
    let n = t.unicode_len();
    if n == 0 {
        return Err(DurationError::Empty);
    }
    let mut k: usize = 0;
    while k < n && is_digit_char(t.get_char(k))
        invariant
            n == t@.len(),
            k <= n,
            forall|j: int| 0 <= j < k ==> is_digit(t@[j]),
        decreases n - k,
    {
        k = k + 1;
    }
    proof {
        lemma_digit_prefix_len(t@, k as int);
    }
    if k == 0 {
        return Err(DurationError::InvalidNumber(String::from_str(t)));
    }
    let value = match parse_digits(t, k) {
        Some(v) => v,
        None => {
            return Err(DurationError::InvalidNumber(String::from_str(t)));
        },
    };
    let rest = t.substring_char(k, n);
    assert(rest@ == t@.skip(k as int));
    let suffix = trim(rest);
    proof {
        reveal_strlit("s");
        reveal_strlit("m");
        reveal_strlit("h");
        reveal_strlit("");
    }
    if str_eq(suffix, "s") || str_eq(suffix, "") {
        Ok((value, 1))
    } else if str_eq(suffix, "m") {
        Ok((value, 60))
    } else if str_eq(suffix, "h") {
        Ok((value, 3600))
    } else {
        Err(
            DurationError::UnknownSuffix {
                suffix: String::from_str(suffix),
                input: String::from_str(t),
            },
        )
    }
}

fn is_digit_char(c: char) -> (r: bool)
    ensures
        r == is_digit(c),
{
    '0' <= c && c <= '9'
}

/// Parses a human-friendly duration such as `"30s"`, `"15m"`, `"2h"` or a
/// bare number of seconds, returning the number of seconds.
pub fn parse_duration(s: &str) -> (r: Result<u64, DurationError>)
    requires
        duration_in_range(s@),
    ensures
        match r {
            Ok(secs) => duration_parse(s@) matches DurationParse::Seconds(n) && n == secs,
            Err(DurationError::Empty) => duration_parse(s@) is Empty,
            Err(DurationError::InvalidNumber(t)) => {
                &&& duration_parse(s@) is InvalidNumber
                &&& t@ == trim_spec(s@)
            },
            Err(DurationError::UnknownSuffix { suffix, input }) => {
                &&& duration_parse(s@) is UnknownSuffix
                &&& input@ == trim_spec(s@)
                &&& suffix@ == trim_spec(
                    trim_spec(s@).skip(digit_prefix_len(trim_spec(s@)) as int),
                )
            },
        },
{
    match parse_seconds(s) {
        Ok((v, f)) => {
            assert(v * f <= u64::MAX);
            Ok(v * f)
        },
        Err(e) => Err(e),
    }
}

// ─── Duration Display ───────────────────────────────────────────────────────

/// How [`format_duration`] shows a number of seconds: `"1h 1m"` from an
/// hour on, `"10m 0s"` from a minute on, else `"30s"`.
pub open spec fn duration_text(total: nat) -> Seq<char> {
    if total >= 3600 {
        decimal(total / 3600) + "h "@ + decimal((total % 3600) / 60) + "m"@
    } else if total >= 60 {
        decimal(total / 60) + "m "@ + decimal(total % 60) + "s"@
    } else {
        decimal(total) + "s"@
    }
}

/// Formats a duration given in whole seconds for humans.
pub fn format_duration(total: u64) -> (r: String)
    ensures
        r@ == duration_text(total as nat),
{
    let mut out = String::new();
    if total >= 3600 {
        push_decimal(&mut out, total / 3600);
        out.append("h ");
        push_decimal(&mut out, (total % 3600) / 60);
        out.append("m");
    } else if total >= 60 {
        push_decimal(&mut out, total / 60);
        out.append("m ");
        push_decimal(&mut out, total % 60);
        out.append("s");
    } else {
        push_decimal(&mut out, total);
        out.append("s");
    }
    out
}

// ─── PIN cookie ─────────────────────────────────────────────────────────────

/// The cookie pair that marks a PIN-verified browser.
pub open spec fn auth_cookie() -> Seq<char> {
    PIN_COOKIE_NAME@ + "="@ + PIN_COOKIE_VALUE@
}

/// Index of the first `';'` in `s`, or its length.
pub open spec fn semicolon_index(s: Seq<char>) -> nat
    decreases s.len(),
{
    if s.len() == 0 || s[0] == ';' {
        0
    } else {
        1 + semicolon_index(s.drop_first())
    }
}

/// Some `';'`-separated segment of a cookie header, once trimmed, is the
/// PIN cookie pair.
pub open spec fn has_auth_cookie(s: Seq<char>) -> bool
    decreases s.len(),
{
    let i = semicolon_index(s);
    ||| trim_spec(s.take(i as int)) == auth_cookie()
    ||| (i < s.len() && has_auth_cookie(s.skip(i + 1 as int)))
}

proof fn lemma_semicolon_index(s: Seq<char>, i: int)
    requires
        0 <= i <= s.len(),
        forall|j: int| 0 <= j < i ==> s[j] != ';',
        i == s.len() || s[i] == ';',
    ensures
        semicolon_index(s) == i,
    decreases i,
{
    if i > 0 {
        let t = s.drop_first();
        assert forall|j: int| 0 <= j < i - 1 implies t[j] != ';' by {
            assert(t[j] == s[j + 1]);
        }
        if i - 1 < t.len() {
            assert(t[i - 1] == s[i]);
        }
        lemma_semicolon_index(t, i - 1);
    }
}

/// Whether the request's `Cookie` header (when present and readable as
/// text) carries the PIN-auth cookie.
pub fn is_pin_verified(cookie_header: Option<&str>) -> (r: bool)
    ensures
        r == match cookie_header {
            Some(c) => has_auth_cookie(c@),
            None => false,
        },
{
    let cookies = match cookie_header {
        Some(c) => c,
        None => {
            return false;
        },
    };
    let expected = auth_cookie_string();
    let mut rest: &str = cookies;
    loop
        invariant
            has_auth_cookie(cookies@) == has_auth_cookie(rest@),
            cookie_header == Some(cookies),
            expected@ == auth_cookie(),
        decreases rest@.len(),
    {
        let n = rest.unicode_len();
        let mut i: usize = 0;
        while i < n && rest.get_char(i) != ';'
            invariant
                n == rest@.len(),
                i <= n,
                forall|j: int| 0 <= j < i ==> rest@[j] != ';',
            decreases n - i,
        {
            i = i + 1;
        }
        proof {
            lemma_semicolon_index(rest@, i as int);
        }
        let segment = rest.substring_char(0, i);
        let matched = str_eq(trim(segment), expected.as_str());
        proof {
            assert(segment@ == rest@.take(i as int));
            assert(matched == (trim_spec(rest@.take(semicolon_index(rest@) as int))
                == auth_cookie()));
            assert(has_auth_cookie(rest@) == (matched || (i < n && has_auth_cookie(
                rest@.skip(i + 1 as int),
            ))));
        }
        if matched {
            return true;
        }
        if i == n {
            return false;
        }
        rest = rest.substring_char(i + 1, n);
    }
}

/// The `Set-Cookie` value sent once the PIN was entered correctly; the
/// cookie lasts a day.
pub open spec fn auth_set_cookie() -> Seq<char> {
    auth_cookie() + "; Path=/; HttpOnly; SameSite=Strict; Max-Age=86400"@
}

/// A browser that received [`auth_set_cookie`] sends back the pair it
/// names, which the PIN check recognises.
pub proof fn lemma_set_cookie_is_recognised()
    ensures
        auth_set_cookie().take(semicolon_index(auth_set_cookie()) as int) == auth_cookie(),
        has_auth_cookie(auth_cookie()),
        has_auth_cookie(auth_cookie() + "; a=b"@),
{
    reveal_strlit("; Path=/; HttpOnly; SameSite=Strict; Max-Age=86400");
    reveal_strlit("filedrop_pin_auth");
    reveal_strlit("=");
    reveal_strlit("verified");
    reveal_strlit("; a=b");
    let a = auth_cookie();
    assert(a.len() == 26);
    assert forall|j: int| 0 <= j < 26 implies a[j] != ';' by {}
    lemma_semicolon_index(a, 26);
    assert(a.take(26) =~= a);
    lemma_no_edge_space(a);
    let b = a + "; a=b"@;
    assert forall|j: int| 0 <= j < 26 implies b[j] != ';' by {
        assert(b[j] == a[j]);
    }
    lemma_semicolon_index(b, 26);
    assert(b.take(26) =~= a);
    let c = auth_set_cookie();
    assert forall|j: int| 0 <= j < 26 implies c[j] != ';' by {
        assert(c[j] == a[j]);
    }
    assert(c[26] == ';');
    lemma_semicolon_index(c, 26);
    assert(c.take(26) =~= a);
}

/// The PIN cookie pair has no white space at its ends, so trimming keeps it.
proof fn lemma_no_edge_space(a: Seq<char>)
    requires
        a == auth_cookie(),
    ensures
        trim_spec(a) == a,
{
    reveal_strlit("filedrop_pin_auth");
    reveal_strlit("=");
    reveal_strlit("verified");
    assert(a[0] == 'f');
    assert(!crate::text::is_space(a[0]));
    assert(crate::text::leading_spaces(a) == 0);
    assert(a.skip(0) =~= a);
    assert(a.last() == 'd');
    assert(crate::text::trailing_spaces(a) == 0);
    assert(a.take(a.len() as int) =~= a);
}

fn auth_cookie_string() -> (r: String)
    ensures
        r@ == auth_cookie(),
{
    let mut s = String::from_str(PIN_COOKIE_NAME);
    s.append("=");
    s.append(PIN_COOKIE_VALUE);
    s
}

/// Whether a submitted PIN, once trimmed, equals the configured PIN.
pub fn pin_matches(submitted: &str, expected: &str) -> (r: bool)
    ensures
        r == (trim_spec(submitted@) == expected@),
{
    str_eq(trim(submitted), expected)
}

// ─── Token Generation ───────────────────────────────────────────────────────

/// A character of the token alphabet `A-Z`, `a-z`, `0-9`.
pub open spec fn is_token_char(c: char) -> bool {
    ||| 'A' <= c && c <= 'Z'
    ||| 'a' <= c && c <= 'z'
    ||| '0' <= c && c <= '9'
}

/// A uniformly random index below `bound`, from the thread-local
/// generator of `rand` (`Rng::gen_range(0..bound)`); the contract claims only
/// that the index is below `bound`.
#[verifier::external_body]
fn random_below(bound: usize) -> (r: usize)
    requires
        bound > 0,
    ensures
        r < bound,
{
    rand::thread_rng().gen_range(0..bound)
}

/// The `idx`-th character of `ABCDEFGHIJKLMNOPQRSTUVWXYZabcdefghijklmnopqrstuvwxyz0123456789`.
fn token_char(idx: usize) -> (c: char)
    requires
        idx < 62,
    ensures
        is_token_char(c),
{
    let code: u32 = if idx < 26 {
        65 + idx as u32
    } else if idx < 52 {
        97 + (idx as u32 - 26)
    } else {
        48 + (idx as u32 - 52)
    };
    let b: u8 = code as u8;
    b as char
}

/// Generates a random alphanumeric token of `len` characters.
pub fn generate_token(len: usize) -> (r: String)
    ensures
        r@.len() == len,
        forall|i: int| 0 <= i < len ==> is_token_char(#[trigger] r@[i]),
{
    let mut s = String::new();
    let mut i: usize = 0;
    while i < len
        invariant
            i <= len,
            s@.len() == i,
            forall|j: int| 0 <= j < i ==> is_token_char(#[trigger] s@[j]),
        decreases len - i,
    {
        let idx = random_below(62);
        push_char(&mut s, token_char(idx));
        i = i + 1;
    }
    s
}

// ─── Share names and URL ────────────────────────────────────────────────────

/// `s` with every space replaced by an underscore.
pub open spec fn spaces_to_underscores(s: Seq<char>) -> Seq<char> {
    s.map_values(|c: char| if c == ' ' { '_' } else { c })
}

/// Name of the archive that bundles several shared paths.
pub fn shared_zip_name(device_name: &str) -> (r: String)
    ensures
        r@ == spaces_to_underscores(device_name@) + "_filedrop_shared.zip"@,
{
    let mut out = String::new();
    let n = device_name.unicode_len();
    let mut i: usize = 0;
    while i < n
        invariant
            n == device_name@.len(),
            i <= n,
            out@ == spaces_to_underscores(device_name@.take(i as int)),
        decreases n - i,
    {
        let c = device_name.get_char(i);
        push_char(&mut out, if c == ' ' { '_' } else { c });
        assert(spaces_to_underscores(device_name@.take(i + 1)) =~= spaces_to_underscores(
            device_name@.take(i as int),
        ).push(if c == ' ' { '_' } else { c }));
        i = i + 1;
    }
    assert(device_name@.take(n as int) =~= device_name@);
    out.append("_filedrop_shared.zip");
    out
}

/// Name of the archive made from a shared folder.
pub fn folder_zip_name(dir_name: &str) -> (r: String)
    ensures
        r@ == dir_name@ + ".zip"@,
{
    let mut out = String::from_str(dir_name);
    out.append(".zip");
    out
}

/// The address a share is reachable at: the first detected LAN address
/// (loopback when none was found), the share port and the token.
pub open spec fn share_url_spec(local_ips: Seq<Seq<char>>, token: Seq<char>) -> Seq<char> {
    let ip = if local_ips.len() > 0 {
        local_ips[0]
    } else {
        "127.0.0.1"@
    };
    "http://"@ + ip + ":"@ + decimal(SHARE_PORT as nat) + "/get/"@ + token
}

/// Builds the public URL of a share.
pub fn share_url(local_ips: &Vec<String>, token: &str) -> (r: String)
    ensures
        r@ == share_url_spec(crate::text::views(local_ips@), token@),
{
    let mut out = String::from_str("http://");
    if local_ips.len() > 0 {
        out.append(local_ips[0].as_str());
    } else {
        out.append("127.0.0.1");
    }
    out.append(":");
    push_decimal(&mut out, SHARE_PORT as u64);
    out.append("/get/");
    out.append(token);
    out
}


// ─── What is shared ─────────────────────────────────────────────────────────

/// How the selection is served: one path as it is (a folder is archived on
/// its own), or several paths bundled into one archive.
#[derive(Debug)]
pub enum ShareSelection {
    Single(PathBuf),
    Bundle(Vec<PathBuf>),
}

/// The message when nothing is selected.
pub open spec fn nothing_selected_text() -> Seq<char> {
    "No files or folders selected to share"@
}

/// How a selection is shared; an empty selection is refused.
pub fn share_selection(mut paths: Vec<PathBuf>) -> (r: Result<ShareSelection, String>)
    ensures
        match r {
            Err(m) => paths@.len() == 0 && m@ == nothing_selected_text(),
            Ok(ShareSelection::Single(p)) => paths@.len() == 1 && p == paths@[0],
            Ok(ShareSelection::Bundle(v)) => paths@.len() > 1 && v@ == paths@,
        },
{
    if paths.len() == 0 {
        Err(String::from_str("No files or folders selected to share"))
    } else if paths.len() == 1 {
        let p = paths.remove(0);
        Ok(ShareSelection::Single(p))
    } else {
        Ok(ShareSelection::Bundle(paths))
    }
}

} // verus!
