//! Device pairing by QR code.
//!
//! The laptop shows a QR code holding a one-time token, its address and its
//! certificate fingerprint; the phone connects to the pairing endpoint with
//! the token and sends its certificate; the laptop keeps it and answers
//! with its own certificate. This module decides who may connect and what
//! is answered; the WebSocket, the QR rendering and the certificate store
//! live outside the library.
use vstd::prelude::*;
use crate::text::{decimal, push_decimal, str_eq};

verus! {

/// Pairing-related errors.
#[derive(Debug, Clone, PartialEq, Eq)]
pub enum PairingError {
    /// No phone connected in time.
    Timeout { seconds: u64 },
    /// The peer refused the pairing.
    Rejected,
    /// The phone presented a wrong token.
    InvalidToken,
    /// The certificates could not be exchanged.
    ExchangeFailed { reason: String },
}

impl PairingError {
    /// The message shown to the user.
    pub fn message(&self) -> (r: String)
        ensures
            r@ == match *self {
                PairingError::Timeout { seconds } => "Pairing timed out after "@ + decimal(
                    seconds as nat,
                ) + "s"@,
                PairingError::Rejected => "Pairing rejected by peer"@,
                PairingError::InvalidToken => "Invalid pairing token"@,
                PairingError::ExchangeFailed { reason } => "Certificate exchange failed: "@
                    + reason@,
            },
    {
        match self {
            PairingError::Timeout { seconds } => {
                let mut s = String::from_str("Pairing timed out after ");
                push_decimal(&mut s, *seconds);
                s.append("s");
                s
            },
            PairingError::Rejected => String::from_str("Pairing rejected by peer"),
            PairingError::InvalidToken => String::from_str("Invalid pairing token"),
            PairingError::ExchangeFailed { reason } => {
                let mut s = String::from_str("Certificate exchange failed: ");
                s.append(reason.as_str());
                s
            },
        }
    }
}

/// Data encoded in the pairing QR code.
#[derive(Debug, Clone, PartialEq, Eq)]
pub struct PairingPayload {
    /// IP address of the laptop.
    pub ip: String,
    /// Port of the pairing handshake.
    pub port: u16,
    /// SHA-256 fingerprint of the laptop's certificate.
    pub fingerprint: String,
    /// One-time pairing token.
    pub token: String,
    /// Device name.
    pub device_name: String,
}

/// A message of the pairing handshake.
#[derive(Debug, Clone, PartialEq, Eq)]
pub enum PairingMessage {
    /// The phone sends its certificate and name.
    PeerHello { device_name: String, cert_pem: String, fingerprint: String },
    /// The laptop answers with its certificate.
    PeerAck { device_name: String, cert_pem: String, fingerprint: String },
    /// Pairing succeeded.
    PairingComplete,
    /// Pairing failed.
    PairingError { reason: String },
}

/// What the laptop tells a phone about itself during pairing.
#[derive(Debug, Clone, PartialEq, Eq)]
pub struct PairingIdentity {
    /// The laptop's device name.
    pub device_name: String,
    /// The laptop's certificate in PEM form.
    pub cert_pem: String,
    /// The laptop's certificate fingerprint.
    pub fingerprint: String,
}

// ─── Token ──────────────────────────────────────────────────────────────────

/// `c` is a lower-case hexadecimal digit.
pub open spec fn is_lower_hex(c: char) -> bool {
    ('0' <= c && c <= '9') || ('a' <= c && c <= 'f')
}

/// The hyphenated form of a UUID: 36 characters, hyphens at positions 8,
/// 13, 18 and 23, lower-case hexadecimal digits elsewhere.
pub open spec fn is_hyphenated_uuid(s: Seq<char>) -> bool {
    &&& s.len() == 36
    &&& forall|i: int|
        0 <= i < 36 ==> if i == 8 || i == 13 || i == 18 || i == 23 {
            s[i] == '-'
        } else {
            is_lower_hex(#[trigger] s[i])
        }
}

/// A fresh random version-4 UUID in its hyphenated text form
/// (`uuid::Uuid::new_v4().to_string()`); the contract claims only the
/// shape of the text, which the crate's `Display` writes.
#[verifier::external_body]
fn random_uuid_text() -> (r: String)
    ensures
        is_hyphenated_uuid(r@),
{
    uuid::Uuid::new_v4().to_string()
}

/// A new one-time pairing token.
pub fn new_pairing_token() -> (r: String)
    ensures
        is_hyphenated_uuid(r@),
{
    random_uuid_text()
}

// ─── The QR code and the banner ─────────────────────────────────────────────

/// The payload put into the QR code: the laptop's address and pairing port,
/// its fingerprint, the token and its device name.
pub fn pairing_payload(
    ip: String,
    pairing_port: u16,
    identity: &PairingIdentity,
    token: String,
) -> (r: PairingPayload)
    ensures
        r.ip == ip,
        r.port == pairing_port,
        r.fingerprint@ == identity.fingerprint@,
        r.token == token,
        r.device_name@ == identity.device_name@,
{
    PairingPayload {
        ip,
        port: pairing_port,
        fingerprint: identity.fingerprint.clone(),
        token,
        device_name: identity.device_name.clone(),
    }
}

/// The first `n` characters of `s`, or all of it when it is shorter.
pub open spec fn prefix_of(s: Seq<char>, n: nat) -> Seq<char> {
    if s.len() <= n {
        s
    } else {
        s.take(n as int)
    }
}

/// The lines printed under the QR code: the start of the fingerprint, the
/// address and the start of the token.
pub open spec fn banner_lines(fingerprint: Seq<char>, ip: Seq<char>, port: u16, token: Seq<char>) -> Seq<
    Seq<char>,
> {
    seq![
        "  🔒 Fingerprint: "@ + prefix_of(fingerprint, 20) + "…"@,
        "  🌐 Address:     "@ + ip + ":"@ + decimal(port as nat),
        "  🔑 Token:       "@ + token.take(8) + "…"@,
    ]
}

fn take_chars(s: &str, n: usize) -> (r: String)
    ensures
        r@ == prefix_of(s@, n as nat),
{
    let len = s.unicode_len();
    if len <= n {
        String::from_str(s)
    } else {
        let t = s.substring_char(0, n);
        String::from_str(t)
    }
}

/// The summary lines shown with the pairing QR code. The token is at least
/// eight characters long, as every pairing token is.
pub fn pairing_banner(fingerprint: &str, ip: &str, port: u16, token: &str) -> (r: Vec<String>)
    requires
        token@.len() >= 8,
    ensures
        r@.len() == 3,
        forall|i: int| 0 <= i < 3 ==> #[trigger] r@[i]@ == banner_lines(fingerprint@, ip@, port, token@)[i],
{
    let mut a = String::from_str("  🔒 Fingerprint: ");
    a.append(take_chars(fingerprint, 20).as_str());
    a.append("…");
    let mut b = String::from_str("  🌐 Address:     ");
    b.append(ip);
    b.append(":");
    push_decimal(&mut b, port as u64);
    let mut c = String::from_str("  🔑 Token:       ");
    c.append(take_chars(token, 8).as_str());
    c.append("…");
    let mut out: Vec<String> = Vec::new();
    out.push(a);
    out.push(b);
    out.push(c);
    out
}

// ─── The handshake ──────────────────────────────────────────────────────────

/// Whether a phone may open the pairing socket: only with the token shown
/// in the QR code; otherwise it is refused with `403 Forbidden`.
pub fn token_accepted(presented: &str, expected: &str) -> (r: bool)
    ensures
        r == (presented@ == expected@),
{
    str_eq(presented, expected)
}

/// What the laptop does with a message received during pairing.
#[derive(Debug, Clone, PartialEq, Eq)]
pub enum PairingStep {
    /// Keep the phone's certificate under its device name, then answer.
    SavePeer { device_name: String, cert_pem: String },
    /// Ignore the message and wait for the next one.
    Wait,
}

/// The laptop only acts on the phone's hello; any other message is
/// ignored.
pub fn on_pairing_message(msg: &PairingMessage) -> (r: PairingStep)
    ensures
        match *msg {
            PairingMessage::PeerHello { device_name, cert_pem, .. } => r == (PairingStep::SavePeer {
                device_name,
                cert_pem,
            }),
            _ => r == PairingStep::Wait,
        },
{
    match msg {
        PairingMessage::PeerHello { device_name, cert_pem, .. } => PairingStep::SavePeer {
            device_name: device_name.clone(),
            cert_pem: cert_pem.clone(),
        },
        _ => PairingStep::Wait,
    }
}

/// The reason sent when the phone's certificate could not be saved.
pub open spec fn save_failure_reason(e: Seq<char>) -> Seq<char> {
    "Failed to save certificate: "@ + e
}

/// Answers the phone once its certificate was saved (`Ok`) or could not be
/// saved (`Err` with the reason): the laptop's certificate and completion,
/// or a pairing error; after either the handshake ends.
pub fn pairing_answer(me: &PairingIdentity, saved: Result<(), String>) -> (r: Vec<PairingMessage>)
    ensures
        match saved {
            Ok(_) => r@ == seq![
                PairingMessage::PeerAck {
                    device_name: me.device_name,
                    cert_pem: me.cert_pem,
                    fingerprint: me.fingerprint,
                },
                PairingMessage::PairingComplete,
            ],
            Err(e) => r@.len() == 1 && (r@[0] matches PairingMessage::PairingError { reason }
                && reason@ == save_failure_reason(e@)),
        },
{
    let mut out: Vec<PairingMessage> = Vec::new();
    match saved {
        Ok(_) => {
            out.push(
                PairingMessage::PeerAck {
                    device_name: me.device_name.clone(),
                    cert_pem: me.cert_pem.clone(),
                    fingerprint: me.fingerprint.clone(),
                },
            );
            out.push(PairingMessage::PairingComplete);
        },
        Err(e) => {
            let mut reason = String::from_str("Failed to save certificate: ");
            reason.append(e.as_str());
            out.push(PairingMessage::PairingError { reason });
        },
    }
    out
}

} // verus!
