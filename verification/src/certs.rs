//! Certificate fingerprints and the bookkeeping of paired peers.
//!
//! Generating certificates and reading or writing them on disk happen
//! outside the library; this module derives fingerprints from PEM text and
//! reads and writes the small metadata records kept for each peer.
use base64::Engine;
use rcgen::{date_time_ymd, CertificateParams, DnType, Ia5String, KeyPair, SanType, PKCS_RSA_SHA256};
use vstd::prelude::*;
use std::path::PathBuf;
use crate::integrity::{hex_encode, hex_lower, sha256, sha256_digest};
use crate::text::{push_char, seq_starts_with, starts_with};

verus! {

/// Certificate-related errors.
#[derive(Debug, Clone, PartialEq, Eq)]
pub enum CertError {
    /// No certificate at the given path.
    NotFound { path: String },
    /// The certificate could not be used.
    Invalid { reason: String },
    /// No paired peer has this name.
    PeerNotFound { name: String },
    /// Certificate generation failed.
    GenerationFailed(String),
}

/// Loaded certificate and key data.
#[derive(Debug)]
pub struct CertificateBundle {
    /// PEM-encoded certificate.
    pub cert_pem: String,
    /// PEM-encoded private key.
    pub key_pem: String,
    /// Path to the certificate file.
    pub cert_path: PathBuf,
    /// Path to the key file.
    pub key_path: PathBuf,
    /// SHA-256 fingerprint of the certificate.
    pub fingerprint: String,
}

/// Information about a paired peer.
#[derive(Debug)]
pub struct PeerInfo {
    /// Peer display name.
    pub name: String,
    /// SHA-256 fingerprint of the peer's certificate.
    pub fingerprint: String,
    /// When the peer was paired.
    pub paired_at: String,
    /// Path to the peer's certificate file.
    pub cert_path: PathBuf,
}

// ─── Lines ──────────────────────────────────────────────────────────────────

/// Index of the first `'\n'` in `s`, or its length.
pub open spec fn newline_index(s: Seq<char>) -> nat
    decreases s.len(),
{
    if s.len() == 0 || s[0] == '\n' {
        0
    } else {
        1 + newline_index(s.drop_first())
    }
}

/// A line without the `'\r'` of a `"\r\n"` ending.
pub open spec fn strip_cr(line: Seq<char>) -> Seq<char> {
    if line.len() > 0 && line.last() == '\r' {
        line.drop_last()
    } else {
        line
    }
}

/// The lines of `s` as `str::lines` yields them: split at `"\n"` or
/// `"\r\n"`, with no empty line after a final line ending.
pub open spec fn lines_spec(s: Seq<char>) -> Seq<Seq<char>>
    decreases s.len(),
{
    let i = newline_index(s);
    if i >= s.len() {
        if s.len() == 0 {
            Seq::empty()
        } else {
            seq![s]
        }
    } else {
        seq![strip_cr(s.take(i as int))] + lines_spec(s.skip(i + 1 as int))
    }
}

proof fn lemma_newline_index(s: Seq<char>, i: int)
    requires
        0 <= i <= s.len(),
        forall|j: int| 0 <= j < i ==> s[j] != '\n',
        i == s.len() || s[i] == '\n',
    ensures
        newline_index(s) == i,
    decreases i,
{
    if i > 0 {
        let t = s.drop_first();
        assert forall|j: int| 0 <= j < i - 1 implies t[j] != '\n' by {
            assert(t[j] == s[j + 1]);
        }
        if i - 1 < t.len() {
            assert(t[i - 1] == s[i]);
        }
        lemma_newline_index(t, i - 1);
    }
}

/// Splits text into lines (`str::lines`).
pub fn split_lines(s: &str) -> (r: Vec<String>)
    ensures
        crate::text::views(r@) == lines_spec(s@),
{
    let mut out: Vec<String> = Vec::new();
    let mut rest: &str = s;
    loop
        invariant
            crate::text::views(out@) + lines_spec(rest@) == lines_spec(s@),
        decreases rest@.len(),
    {
        let n = rest.unicode_len();
        let mut i: usize = 0;
        while i < n && rest.get_char(i) != '\n'
            invariant
                n == rest@.len(),
                i <= n,
                forall|j: int| 0 <= j < i ==> rest@[j] != '\n',
            decreases n - i,
        {
            i = i + 1;
        }
        proof {
            lemma_newline_index(rest@, i as int);
        }
        if i == n {
            if n > 0 {
                out.push(String::from_str(rest));
            }
            assert(crate::text::views(out@) =~= lines_spec(s@));
            return out;
        }
        let line = if i > 0 && rest.get_char(i - 1) == '\r' {
            rest.substring_char(0, i - 1)
        } else {
            rest.substring_char(0, i)
        };
        assert(line@ == strip_cr(rest@.take(i as int)));
        out.push(String::from_str(line));
        let ghost before = rest@;
        rest = rest.substring_char(i + 1, n);
        assert(crate::text::views(out@) + lines_spec(rest@) =~= lines_spec(s@)) by {
            assert(lines_spec(before) == seq![strip_cr(before.take(i as int))] + lines_spec(
                rest@,
            ));
        }
    }
}

// ─── Fingerprints ───────────────────────────────────────────────────────────

/// A PEM armour line (`-----BEGIN ...-----` and the like).
pub open spec fn is_armour(line: Seq<char>) -> bool {
    seq_starts_with(line, "-----"@)
}

/// The base64 body of PEM text: its non-armour lines joined together.
pub open spec fn pem_body(lines: Seq<Seq<char>>) -> Seq<char>
    decreases lines.len(),
{
    if lines.len() == 0 {
        Seq::empty()
    } else {
        (if is_armour(lines[0]) {
            Seq::empty()
        } else {
            lines[0]
        }) + pem_body(lines.drop_first())
    }
}

/// The lines of PEM text that are not armour (do not start with `-----`),
/// in order.
pub open spec fn base64_lines(lines: Seq<Seq<char>>) -> Seq<Seq<char>> {
    lines.filter(|l: Seq<char>| !seq_starts_with(l, "-----"@))
}

/// What one line contributes to the body.
spec fn body_piece(line: Seq<char>) -> Seq<char> {
    if is_armour(line) {
        Seq::empty()
    } else {
        line
    }
}

proof fn lemma_pem_body_push(lines: Seq<Seq<char>>)
    requires
        lines.len() > 0,
    ensures
        pem_body(lines) == pem_body(lines.drop_last()) + body_piece(lines.last()),
    decreases lines.len(),
{
    if lines.len() == 1 {
        assert(lines.drop_first().len() == 0);
        assert(lines.drop_last().len() == 0);
        assert(pem_body(lines.drop_first()) =~= Seq::<char>::empty());
        assert(pem_body(lines.drop_last()) =~= Seq::<char>::empty());
        assert(pem_body(lines) == body_piece(lines[0]) + pem_body(lines.drop_first()));
        assert(pem_body(lines) =~= body_piece(lines[0]) + Seq::<char>::empty());
        assert(pem_body(lines.drop_last()) + body_piece(lines.last()) =~= Seq::<char>::empty()
            + body_piece(lines.last()));
    } else {
        let df = lines.drop_first();
        lemma_pem_body_push(df);
        assert(df.drop_last() =~= lines.drop_last().drop_first());
        assert(df.last() == lines.last());
        assert(lines.drop_last()[0] == lines[0]);
        assert(pem_body(lines) == body_piece(lines[0]) + pem_body(df));
        assert(pem_body(lines.drop_last()) == body_piece(lines[0]) + pem_body(df.drop_last()));
        assert(pem_body(lines) =~= pem_body(lines.drop_last()) + body_piece(lines.last()));
    }
}

/// The PEM body is every non-armour line, in order, joined together.
pub proof fn lemma_pem_body_joins_base64_lines(lines: Seq<Seq<char>>)
    ensures
        pem_body(lines) == base64_lines(lines).flatten(),
    decreases lines.len(),
{
    reveal(Seq::filter);
    if lines.len() == 0 {
        assert(base64_lines(lines) =~= Seq::<Seq<char>>::empty());
    } else {
        let dl = lines.drop_last();
        lemma_pem_body_joins_base64_lines(dl);
        lemma_pem_body_push(lines);
        let f = base64_lines(dl);
        if is_armour(lines.last()) {
            assert(base64_lines(lines) == f);
            assert(pem_body(lines) =~= pem_body(dl));
        } else {
            assert(base64_lines(lines) == f.push(lines.last()));
            f.lemma_flatten_push(lines.last());
        }
    }
}

/// Standard (padded) base64 decoding of text, if it is valid.
pub uninterp spec fn base64_standard_decode(text: Seq<char>) -> Option<Seq<u8>>;

/// `base64::engine::general_purpose::STANDARD.decode`.
#[verifier::external_body]
fn base64_decode_standard(text: &str) -> (r: Option<Vec<u8>>)
    ensures
        match r {
            Some(b) => base64_standard_decode(text@) == Some(b@),
            None => base64_standard_decode(text@) is None,
        },
{
    base64::engine::general_purpose::STANDARD.decode(text).ok()
}

/// ASCII upper-casing of one character.
pub open spec fn ascii_upper_char(c: char) -> char {
    if 'a' <= c && c <= 'z' {
        ((c as u32) - 32) as char
    } else {
        c
    }
}

/// Text split into pairs of characters, upper-cased and joined by `':'`.
pub open spec fn colon_pairs(h: Seq<char>) -> Seq<char>
    decreases h.len(),
{
    if h.len() <= 2 {
        h.map_values(|c: char| ascii_upper_char(c))
    } else {
        h.take(2).map_values(|c: char| ascii_upper_char(c)) + seq![':'] + colon_pairs(h.skip(2))
    }
}

/// The fingerprint text of a certificate's DER bytes: the SHA-256 digest in
/// upper-case hex, bytes separated by colons.
pub open spec fn fingerprint_text(der: Seq<u8>) -> Seq<char> {
    colon_pairs(hex_lower(sha256(der)))
}

/// The fingerprint a PEM certificate yields, `"UNKNOWN"` when its body is
/// not valid base64.
pub open spec fn pem_fingerprint(pem: Seq<char>) -> Seq<char> {
    match base64_standard_decode(pem_body(lines_spec(pem))) {
        Some(der) => fingerprint_text(der),
        None => "UNKNOWN"@,
    }
}

fn upper_char(c: char) -> (r: char)
    ensures
        r == ascii_upper_char(c),
{
    if 'a' <= c && c <= 'z' {
        let v: u32 = (c as u32) - 32;
        let b: u8 = v as u8;
        b as char
    } else {
        c
    }
}

/// Pairs of characters, upper-cased and joined by colons.
fn colon_pairs_of(h: &str) -> (r: String)
    ensures
        r@ == colon_pairs(h@),
{
    let mut out = String::new();
    let mut rest: &str = h;
    loop
        invariant
            out@ + colon_pairs(rest@) == colon_pairs(h@),
        decreases rest@.len(),
    {
        let n = rest.unicode_len();
        if n <= 2 {
            let ghost before = out@;
            let mut i: usize = 0;
            while i < n
                invariant
                    n == rest@.len(),
                    i <= n,
                    out@ == before + rest@.take(i as int).map_values(|c: char| ascii_upper_char(c)),
                decreases n - i,
            {
                push_char(&mut out, upper_char(rest.get_char(i)));
                assert(rest@.take(i + 1).map_values(|c: char| ascii_upper_char(c)) =~= rest@.take(
                    i as int,
                ).map_values(|c: char| ascii_upper_char(c)).push(ascii_upper_char(rest@[i as int])));
                i = i + 1;
            }
            assert(rest@.take(n as int) =~= rest@);
            return out;
        }
        push_char(&mut out, upper_char(rest.get_char(0)));
        push_char(&mut out, upper_char(rest.get_char(1)));
        push_char(&mut out, ':');
        let ghost before = rest@;
        rest = rest.substring_char(2, n);
        assert(before.take(2).map_values(|c: char| ascii_upper_char(c)) =~= seq![
            ascii_upper_char(before[0]),
            ascii_upper_char(before[1]),
        ]);
    }
}

/// The non-armour lines of PEM text joined together.
fn pem_body_of(lines: &Vec<String>) -> (r: String)
    ensures
        r@ == pem_body(crate::text::views(lines@)),
        r@ == base64_lines(crate::text::views(lines@)).flatten(),
{
    proof {
        lemma_pem_body_joins_base64_lines(crate::text::views(lines@));
    }
    let mut out = String::new();
    let mut i: usize = lines.len();
    let ghost vs = crate::text::views(lines@);
    let mut suffix = String::new();
    while i > 0
        invariant
            i <= lines@.len(),
            vs == crate::text::views(lines@),
            suffix@ == pem_body(vs.skip(i as int)),
        decreases i,
    {
        let line = lines[i - 1].as_str();
        let ghost tail = vs.skip(i as int);
        assert(vs.skip(i - 1).drop_first() =~= tail);
        assert(vs.skip(i - 1)[0] == line@);
        let mut next = if starts_with(line, "-----") {
            String::new()
        } else {
            String::from_str(line)
        };
        next.append(suffix.as_str());
        suffix = next;
        i = i - 1;
    }
    assert(vs.skip(0) =~= vs);
    out.append(suffix.as_str());
    out
}

/// SHA-256 fingerprint of a PEM certificate: upper-case hex bytes separated
/// by colons, or `"UNKNOWN"` when the PEM body is not valid base64.
pub fn calculate_fingerprint(cert_pem: &str) -> (r: String)
    ensures
        r@ == pem_fingerprint(cert_pem@),
        r@ == match base64_standard_decode(base64_lines(lines_spec(cert_pem@)).flatten()) {
            Some(der) => fingerprint_text(der),
            None => "UNKNOWN"@,
        },
{
    proof {
        lemma_pem_body_joins_base64_lines(lines_spec(cert_pem@));
    }
    let lines = split_lines(cert_pem);
    let body = pem_body_of(&lines);
    match base64_decode_standard(body.as_str()) {
        Some(der) => {
            let digest = sha256_digest(der.as_slice());
            let hex = hex_encode(digest.as_slice());
            colon_pairs_of(hex.as_str())
        },
        None => String::from_str("UNKNOWN"),
    }
}

// ─── Peer metadata ──────────────────────────────────────────────────────────

/// The metadata record kept beside a peer's certificate.
pub open spec fn peer_metadata_text(name: Seq<char>, paired_at: Seq<char>) -> Seq<char> {
    "name="@ + name + "\npaired_at="@ + paired_at + "\n"@
}

/// Renders the metadata record of a peer paired at `paired_at`.
pub fn peer_metadata(name: &str, paired_at: &str) -> (r: String)
    ensures
        r@ == peer_metadata_text(name@, paired_at@),
{
    let mut s = String::from_str("name=");
    s.append(name);
    s.append("\npaired_at=");
    s.append(paired_at);
    s.append("\n");
    s
}

/// File name of a peer's certificate.
pub fn peer_cert_file_name(name: &str) -> (r: String)
    ensures
        r@ == name@ + ".pem"@,
{
    let mut s = String::from_str(name);
    s.append(".pem");
    s
}

/// File name of a peer's metadata record.
pub fn peer_meta_file_name(name: &str) -> (r: String)
    ensures
        r@ == name@ + ".meta"@,
{
    let mut s = String::from_str(name);
    s.append(".meta");
    s
}

/// `s` with every leading repetition of the non-empty `p` removed
/// (`str::trim_start_matches`).
pub open spec fn strip_all_prefix(s: Seq<char>, p: Seq<char>) -> Seq<char>
    decreases s.len(),
{
    if p.len() > 0 && seq_starts_with(s, p) {
        strip_all_prefix(s.skip(p.len() as int), p)
    } else {
        s
    }
}

/// Index of the first line starting with `p`.
pub open spec fn first_line_with(lines: Seq<Seq<char>>, p: Seq<char>, start: int) -> Option<int>
    decreases lines.len() - start,
{
    if start < 0 || start >= lines.len() {
        None
    } else if seq_starts_with(lines[start], p) {
        Some(start)
    } else {
        first_line_with(lines, p, start + 1)
    }
}

/// The pairing time a metadata record gives: the first `paired_at=` line
/// without that prefix, or `"Unknown"`.
pub open spec fn paired_at_of(meta: Seq<char>) -> Seq<char> {
    let lines = lines_spec(meta);
    match first_line_with(lines, "paired_at="@, 0) {
        Some(i) => strip_all_prefix(lines[i], "paired_at="@),
        None => "Unknown"@,
    }
}

fn strip_all_paired_at(line: &str) -> (r: &str)
    ensures
        r@ == strip_all_prefix(line@, "paired_at="@),
{
    let mut rest: &str = line;
    proof {
        reveal_strlit("paired_at=");
    }
    loop
        invariant
            strip_all_prefix(rest@, "paired_at="@) == strip_all_prefix(line@, "paired_at="@),
            "paired_at="@.len() == 10,
        decreases rest@.len(),
    {
        if starts_with(rest, "paired_at=") {
            let n = rest.unicode_len();
            rest = rest.substring_char(10, n);
        } else {
            return rest;
        }
    }
}

/// Reads the pairing time from a peer's metadata record.
pub fn paired_at_from_meta(meta: &str) -> (r: String)
    ensures
        r@ == paired_at_of(meta@),
{
    let lines = split_lines(meta);
    let ghost vs = crate::text::views(lines@);
    let mut i: usize = 0;
    while i < lines.len()
        invariant
            i <= lines@.len(),
            vs == crate::text::views(lines@),
            vs == lines_spec(meta@),
            first_line_with(vs, "paired_at="@, 0) == first_line_with(vs, "paired_at="@, i as int),
        decreases lines@.len() - i,
    {
        let line = lines[i].as_str();
        assert(vs[i as int] == line@);
        if starts_with(line, "paired_at=") {
            return String::from_str(strip_all_paired_at(line));
        }
        i = i + 1;
    }
    String::from_str("Unknown")
}


// ─── Own certificate ────────────────────────────────────────────────────────

/// The DNS name the device's certificate is issued for.
pub const CERT_DNS_NAME: &'static str = "filedrop.local";

/// The certificate's common name.
pub const CERT_COMMON_NAME: &'static str = "FileDrop Device";

/// The certificate's organization.
pub const CERT_ORGANIZATION: &'static str = "FileDrop";

/// An error of the `rcgen` crate.
#[verifier::external_type_specification]
#[verifier::external_body]
pub struct ExRcgenError(rcgen::Error);

/// A calendar date that exists in every month of every year in range.
pub open spec fn plain_date(d: (i32, u8, u8)) -> bool {
    1 <= d.0 <= 9999 && 1 <= d.1 <= 12 && 1 <= d.2 <= 28
}

/// What the device's certificate is issued for: the DNS name (also its
/// subject alternative name), the subject's common and organization names,
/// and the first and last day of validity as (year, month, day).
#[derive(Debug)]
pub struct CertRequest {
    pub dns_name: String,
    pub common_name: String,
    pub organization: String,
    pub not_before: (i32, u8, u8),
    pub not_after: (i32, u8, u8),
}

/// The request for the device's own certificate: [`CERT_DNS_NAME`],
/// [`CERT_COMMON_NAME`] and [`CERT_ORGANIZATION`], valid from 2024-01-01 to
/// 2034-01-01.
pub fn device_cert_request() -> (r: CertRequest)
    ensures
        r.dns_name@ == CERT_DNS_NAME@,
        r.common_name@ == CERT_COMMON_NAME@,
        r.organization@ == CERT_ORGANIZATION@,
        r.not_before == (2024i32, 1u8, 1u8),
        r.not_after == (2034i32, 1u8, 1u8),
{
    CertRequest {
        dns_name: String::from_str(CERT_DNS_NAME),
        common_name: String::from_str(CERT_COMMON_NAME),
        organization: String::from_str(CERT_ORGANIZATION),
        not_before: (2024, 1, 1),
        not_after: (2034, 1, 1),
    }
}

/// Every character of `s` is ASCII.
pub open spec fn ascii_text(s: Seq<char>) -> bool {
    forall|i: int| 0 <= i < s.len() ==> (#[trigger] s[i] as u32) < 128
}

/// `pem` is a PEM certificate that `rcgen` self-signed for these
/// parameters: `dns` as its subject alternative name, `cn` and `org` as the
/// subject's common and organization names, valid from midnight UTC of
/// `nb` to midnight UTC of `na`.
pub uninterp spec fn issued_for(
    pem: Seq<char>,
    dns: Seq<char>,
    cn: Seq<char>,
    org: Seq<char>,
    nb: (i32, u8, u8),
    na: (i32, u8, u8),
) -> bool;

/// A self-signed certificate for `req` and its new key, as PEM text:
/// `rcgen::CertificateParams::new` for the DNS name, the common and
/// organization names pushed onto the distinguished name, validity from
/// `not_before` to `not_after`, the DNS name pushed again as an
/// `Ia5String` alternative name, then a fresh RSA-2048 key
/// (`KeyPair::generate_for(&PKCS_RSA_SHA256)`, SHA-256 with RSA) signs the
/// parameters (`self_signed`). The crate refuses a DNS name that is not
/// ASCII; key generation and signing may fail too. The certificate is
/// issued for exactly what the request holds; the key is random, so the
/// texts themselves are not stated. The dates must exist, or
/// `rcgen::date_time_ymd` panics.
#[verifier::external_body]
fn self_signed_for(req: &CertRequest) -> (r: Result<(String, String), rcgen::Error>)
    requires
        plain_date(req.not_before),
        plain_date(req.not_after),
    ensures
        !ascii_text(req.dns_name@) ==> r is Err,
        r matches Ok(t) ==> issued_for(
            t.0@,
            req.dns_name@,
            req.common_name@,
            req.organization@,
            req.not_before,
            req.not_after,
        ),
{
    let (dns, b, a) = (req.dns_name.as_str(), req.not_before, req.not_after);
    let mut p = CertificateParams::new(vec![dns.to_string()])?;
    p.distinguished_name.push(DnType::CommonName, req.common_name.as_str());
    p.distinguished_name.push(DnType::OrganizationName, req.organization.as_str());
    p.not_before = date_time_ymd(b.0, b.1, b.2);
    p.not_after = date_time_ymd(a.0, a.1, a.2);
    p.subject_alt_names.push(SanType::DnsName(Ia5String::try_from(dns)?));
    let key = KeyPair::generate_for(&PKCS_RSA_SHA256)?;
    let cert = p.self_signed(&key)?;
    Ok((cert.pem(), key.serialize_pem()))
}

/// The message of an `rcgen` error (its `Display` text).
#[verifier::external_body]
fn rcgen_error_text(e: &rcgen::Error) -> (r: String) {
    e.to_string()
}

/// The bundle of a certificate and key read from `cert_path` and
/// `key_path`, with the certificate's fingerprint.
pub fn certificate_bundle(cert_pem: String, key_pem: String, cert_path: PathBuf, key_path: PathBuf) -> (r: CertificateBundle)
    ensures
        r.cert_pem == cert_pem,
        r.key_pem == key_pem,
        r.cert_path == cert_path,
        r.key_path == key_path,
        r.fingerprint@ == pem_fingerprint(cert_pem@),
{
    let fingerprint = calculate_fingerprint(cert_pem.as_str());
    CertificateBundle { cert_pem, key_pem, cert_path, key_path, fingerprint }
}

/// Generates the device's self-signed RSA-2048 certificate for
/// [`CERT_DNS_NAME`], valid from 2024-01-01 to 2034-01-01, with a new key. The caller stores
/// the two PEM texts at `cert_path` and `key_path`.
pub fn generate_certificates(cert_path: PathBuf, key_path: PathBuf) -> (r: Result<CertificateBundle, CertError>)
    ensures
        match r {
            Ok(b) => {
                &&& b.cert_path == cert_path
                &&& b.key_path == key_path
                &&& b.fingerprint@ == pem_fingerprint(b.cert_pem@)
                &&& issued_for(
                    b.cert_pem@,
                    CERT_DNS_NAME@,
                    CERT_COMMON_NAME@,
                    CERT_ORGANIZATION@,
                    (2024i32, 1u8, 1u8),
                    (2034i32, 1u8, 1u8),
                )
            },
            Err(e) => e is GenerationFailed,
        },
{
    let req = device_cert_request();
    match self_signed_for(&req) {
        Ok((cert_pem, key_pem)) => Ok(certificate_bundle(cert_pem, key_pem, cert_path, key_path)),
        Err(e) => Err(CertError::GenerationFailed(rcgen_error_text(&e))),
    }
}

// ─── Paired peers ───────────────────────────────────────────────────────────

/// The local date and time as `YYYY-MM-DD HH:MM:SS`
/// (`chrono::Local::now().format("%Y-%m-%d %H:%M:%S")`). It depends on the
/// clock, so nothing is claimed about it.
#[verifier::external_body]
fn local_date_time() -> (r: String) {
    chrono::Local::now().format("%Y-%m-%d %H:%M:%S").to_string()
}

/// The metadata record of a peer paired now.
pub fn peer_metadata_now(name: &str) -> (r: String)
    ensures
        exists|t: Seq<char>| r@ == peer_metadata_text(name@, t),
{
    let t = local_date_time();
    peer_metadata(name, t.as_str())
}

/// What is known of a paired peer, from its certificate file's stem (if it
/// is text), the certificate, and its metadata record (if there is one).
pub fn peer_info(stem: Option<&str>, cert_pem: &str, meta: Option<&str>, cert_path: PathBuf) -> (r: PeerInfo)
    ensures
        r.name@ == match stem {
            Some(s) => s@,
            None => "unknown"@,
        },
        r.fingerprint@ == pem_fingerprint(cert_pem@),
        r.paired_at@ == match meta {
            Some(m) => paired_at_of(m@),
            None => "Unknown"@,
        },
        r.cert_path == cert_path,
{
    let name = match stem {
        Some(s) => String::from_str(s),
        None => String::from_str("unknown"),
    };
    let paired_at = match meta {
        Some(m) => paired_at_from_meta(m),
        None => String::from_str("Unknown"),
    };
    PeerInfo { name, fingerprint: calculate_fingerprint(cert_pem), paired_at, cert_path }
}

impl CertError {
    /// The message shown to the user.
    pub fn message(&self) -> (r: String)
        ensures
            r@ == match *self {
                CertError::NotFound { path } => "Certificate not found at "@ + path@,
                CertError::Invalid { reason } => "Invalid certificate: "@ + reason@,
                CertError::PeerNotFound { name } => "Peer not found: "@ + name@,
                CertError::GenerationFailed(e) => "Certificate generation failed: "@ + e@,
            },
    {
        let (prefix, rest) = match self {
            CertError::NotFound { path } => ("Certificate not found at ", path),
            CertError::Invalid { reason } => ("Invalid certificate: ", reason),
            CertError::PeerNotFound { name } => ("Peer not found: ", name),
            CertError::GenerationFailed(e) => ("Certificate generation failed: ", e),
        };
        let mut s = String::from_str(prefix);
        s.append(rest.as_str());
        s
    }
}

} // verus!
