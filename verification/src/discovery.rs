//! mDNS service discovery: what the laptop advertises as
//! `_filedrop._tcp.local.` and how resolved services become peers.
//!
//! The mDNS daemon itself (sockets, a thread) lives outside the library.
use vstd::prelude::*;
use crate::text::{ascii_lower, decimal, push_char, push_decimal, to_lowercase, unicode_lowercase};

verus! {

/// The mDNS service type of FileDrop.
pub const SERVICE_TYPE: &'static str = "_filedrop._tcp.local.";

/// The protocol version advertised in the TXT record.
pub const ADVERTISED_VERSION: &'static str = "0.1.0";

/// Discovery-related errors.
#[derive(Debug, Clone, PartialEq, Eq)]
pub enum DiscoveryError {
    /// The mDNS daemon could not be started.
    DaemonFailed(String),
    /// The service could not be registered.
    RegistrationFailed(String),
    /// Nobody answered in time.
    NoPeersFound,
}

impl DiscoveryError {
    /// The message shown to the user.
    pub fn message(&self) -> (r: String)
        ensures
            r@ == match *self {
                DiscoveryError::DaemonFailed(e) => "mDNS daemon failed to start: "@ + e@,
                DiscoveryError::RegistrationFailed(e) => "Service registration failed: "@ + e@,
                DiscoveryError::NoPeersFound => "No peers found within timeout"@,
            },
    {
        match self {
            DiscoveryError::DaemonFailed(e) => {
                let mut s = String::from_str("mDNS daemon failed to start: ");
                s.append(e.as_str());
                s
            },
            DiscoveryError::RegistrationFailed(e) => {
                let mut s = String::from_str("Service registration failed: ");
                s.append(e.as_str());
                s
            },
            DiscoveryError::NoPeersFound => String::from_str("No peers found within timeout"),
        }
    }
}

/// A FileDrop peer found on the network.
#[derive(Debug, Clone, PartialEq, Eq)]
pub struct DiscoveredPeer {
    /// The peer's display name (the full service name).
    pub name: String,
    /// The peer's address, as text.
    pub addr: String,
    /// The peer's port.
    pub port: u16,
    /// The certificate fingerprint from the TXT record.
    pub fingerprint: Option<String>,
}

// ─── Advertising ────────────────────────────────────────────────────────────

/// `s` with every space replaced by a hyphen.
pub open spec fn spaces_to_hyphens(s: Seq<char>) -> Seq<char> {
    s.map_values(|c: char| if c == ' ' { '-' } else { c })
}

/// The host name advertised for a device: its name in lower case, spaces
/// turned into hyphens, in the `.local.` domain.
pub open spec fn host_name_spec(device_name: Seq<char>) -> Seq<char> {
    spaces_to_hyphens(unicode_lowercase(device_name)) + ".local."@
}

/// The mDNS host name of a device.
pub fn mdns_host_name(device_name: &str) -> (r: String)
    ensures
        r@ == host_name_spec(device_name@),
        (forall|i: int| 0 <= i < device_name@.len() ==> (device_name@[i] as u32) < 128) ==> r@
            == spaces_to_hyphens(ascii_lower(device_name@)) + ".local."@,
{
    let lower = to_lowercase(device_name);
    let n = lower.unicode_len();
    let mut out = String::new();
    let mut i: usize = 0;
    while i < n
        invariant
            n == lower@.len(),
            i <= n,
            out@ == spaces_to_hyphens(lower@.take(i as int)),
        decreases n - i,
    {
        let c = lower.as_str().get_char(i);
        push_char(&mut out, if c == ' ' { '-' } else { c });
        assert(spaces_to_hyphens(lower@.take(i + 1)) =~= spaces_to_hyphens(lower@.take(i as int)).push(
            if c == ' ' { '-' } else { c },
        ));
        i = i + 1;
    }
    assert(lower@.take(n as int) =~= lower@);
    out.append(".local.");
    out
}

/// The TXT record of the advertised service: the certificate fingerprint
/// and the protocol version, as key–value pairs.
pub fn txt_properties(fingerprint: &str) -> (r: Vec<(String, String)>)
    ensures
        r@.len() == 2,
        r@[0].0@ == "fingerprint"@ && r@[0].1@ == fingerprint@,
        r@[1].0@ == "version"@ && r@[1].1@ == ADVERTISED_VERSION@,
{
    let mut out: Vec<(String, String)> = Vec::new();
    out.push((String::from_str("fingerprint"), String::from_str(fingerprint)));
    out.push((String::from_str("version"), String::from_str(ADVERTISED_VERSION)));
    out
}

// ─── Browsing ───────────────────────────────────────────────────────────────

/// A resolved service becomes one peer per address it announced, in order,
/// each with the service's name, port and fingerprint.
pub fn peers_from_resolution(
    name: &str,
    addrs: &Vec<String>,
    port: u16,
    fingerprint: &Option<String>,
) -> (r: Vec<DiscoveredPeer>)
    ensures
        r@.len() == addrs@.len(),
        forall|i: int|
            0 <= i < addrs@.len() ==> {
                &&& (#[trigger] r@[i]).name@ == name@
                &&& r@[i].addr@ == addrs@[i]@
                &&& r@[i].port == port
                &&& r@[i].fingerprint == *fingerprint
            },
{
    let mut out: Vec<DiscoveredPeer> = Vec::new();
    let mut i: usize = 0;
    while i < addrs.len()
        invariant
            i <= addrs@.len(),
            out@.len() == i,
            forall|j: int|
                0 <= j < i ==> {
                    &&& (#[trigger] out@[j]).name@ == name@
                    &&& out@[j].addr@ == addrs@[j]@
                    &&& out@[j].port == port
                    &&& out@[j].fingerprint == *fingerprint
                },
        decreases addrs@.len() - i,
    {
        let fp = match fingerprint {
            Some(f) => Some(f.clone()),
            None => None,
        };
        out.push(
            DiscoveredPeer {
                name: String::from_str(name),
                addr: addrs[i].clone(),
                port,
                fingerprint: fp,
            },
        );
        i = i + 1;
    }
    out
}

/// The address to connect to: the first peer found, as `addr:port`.
pub fn first_peer_address(peers: &Vec<DiscoveredPeer>) -> (r: Option<String>)
    ensures
        peers@.len() == 0 ==> r is None,
        peers@.len() > 0 ==> (r matches Some(s) && s@ == peers@[0].addr@ + ":"@ + decimal(
            peers@[0].port as nat,
        )),
{
    if peers.len() == 0 {
        return None;
    }
    let mut s = peers[0].addr.clone();
    s.append(":");
    push_decimal(&mut s, peers[0].port as u64);
    Some(s)
}

} // verus!
