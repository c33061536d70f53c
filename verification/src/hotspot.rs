//! Connection modes, phone-hotspot detection and hotspot set-up texts.
//!
//! The operating-system probing (local IP discovery, `nmcli`/`netsh`
//! invocations) happens outside the library; this module decides what the
//! probed values mean and which instructions to show.
use vstd::prelude::*;
use crate::text::{
    ascii_lower, ascii_lower_char, concat2, seq_starts_with, starts_with, str_eq, to_lowercase,
    unicode_lowercase, views,
};

verus! {

/// Default SSID used when auto-creating a hotspot.
pub const DEFAULT_SSID: &'static str = "FileDrop";

/// Default password used when auto-creating a hotspot.
pub const DEFAULT_PASSWORD: &'static str = "filedrop123";

/// Default wireless interface name used on Linux.
pub const DEFAULT_WIFI_IFACE: &'static str = "wlan0";

// ─── Connection Mode ─────────────────────────────────────────────────────────

/// How the laptop and the phone share a network.
#[derive(Debug, Clone, Copy, PartialEq, Eq, Structural)]
pub enum ConnectionMode {
    /// Both devices are on the same existing network (router/LAN).
    Router,
    /// The laptop creates a Wi-Fi hotspot for the phone to connect to.
    Hotspot,
}

/// The lower-case name of a mode.
pub open spec fn mode_name(m: ConnectionMode) -> Seq<char> {
    match m {
        ConnectionMode::Router => "router"@,
        ConnectionMode::Hotspot => "hotspot"@,
    }
}

/// The mode a lower-case word names: `router`/`lan` or
/// `hotspot`/`offline`.
pub open spec fn mode_of_word(l: Seq<char>) -> Option<ConnectionMode> {
    if l == "router"@ || l == "lan"@ {
        Some(ConnectionMode::Router)
    } else if l == "hotspot"@ || l == "offline"@ {
        Some(ConnectionMode::Hotspot)
    } else {
        None
    }
}

/// The mode that a user-supplied word selects, ignoring case: the word's
/// Unicode lower-case form names it.
pub open spec fn parse_mode(s: Seq<char>) -> Option<ConnectionMode> {
    mode_of_word(unicode_lowercase(s))
}

/// Every character of `s` is ASCII.
pub open spec fn all_ascii(s: Seq<char>) -> bool {
    forall|i: int| 0 <= i < s.len() ==> (#[trigger] s[i] as u32) < 128
}

impl ConnectionMode {
    /// Returns the lower-case name of the mode.
    pub fn as_str(&self) -> (r: &'static str)
        ensures
            r@ == mode_name(*self),
    {
        match self {
            ConnectionMode::Router => "router",
            ConnectionMode::Hotspot => "hotspot",
        }
    }

    /// The text the mode is displayed as (its lower-case name).
    pub fn display_string(&self) -> (r: String)
        ensures
            r@ == mode_name(*self),
    {
        String::from_str(self.as_str())
    }

    /// Parses a connection mode from a word, ignoring case:
    /// `router`/`lan` or `hotspot`/`offline`. For an ASCII word the case is
    /// folded letter by letter.
    pub fn from_str(s: &str) -> (r: Option<ConnectionMode>)
        ensures
            r == parse_mode(s@),
            all_ascii(s@) ==> r == mode_of_word(ascii_lower(s@)),
    {
        let lower = to_lowercase(s);
        let l = lower.as_str();
        if str_eq(l, "router") || str_eq(l, "lan") {
            Some(ConnectionMode::Router)
        } else if str_eq(l, "hotspot") || str_eq(l, "offline") {
            Some(ConnectionMode::Hotspot)
        } else {
            None
        }
    }
}

/// ASCII lower-case letters mapped to upper case; every other character kept.
pub open spec fn ascii_upper_char(c: char) -> char {
    if 'a' <= c && c <= 'z' {
        ((c as u32) - 32) as char
    } else {
        c
    }
}

/// ASCII upper-casing of a whole sequence.
pub open spec fn ascii_upper(s: Seq<char>) -> Seq<char> {
    s.map_values(|c: char| ascii_upper_char(c))
}

/// Parsing a mode ignores the case of ASCII letters: an ASCII word and its
/// upper-case form are both ASCII and select the same mode.
pub proof fn lemma_mode_case_insensitive(s: Seq<char>)
    requires
        all_ascii(s),
    ensures
        all_ascii(ascii_upper(s)),
        mode_of_word(ascii_lower(ascii_upper(s))) == mode_of_word(ascii_lower(s)),
{
    assert forall|i: int| 0 <= i < s.len() implies ascii_lower_char(ascii_upper_char(s[i]))
        == ascii_lower_char(s[i]) by {
        let c = s[i];
        if 'a' <= c && c <= 'z' {
            assert((((c as u32) - 32) as char as u32) == (c as u32) - 32);
        }
    }
    assert(ascii_lower(ascii_upper(s)) =~= ascii_lower(s));
}

// ─── Phone Hotspot Detection ─────────────────────────────────────────────────

/// The network kind that a local IPv4 address reveals, if it lies in one of
/// the known phone-hotspot ranges.
pub open spec fn hotspot_network(ip: Seq<char>) -> Option<Seq<char>> {
    if seq_starts_with(ip, "192.168.43."@) {
        Some("Android Hotspot"@)
    } else if seq_starts_with(ip, "172.20.10."@) {
        Some("iPhone/iOS Hotspot"@)
    } else if seq_starts_with(ip, "192.168.137."@) {
        Some("Windows Mobile Hotspot"@)
    } else if seq_starts_with(ip, "192.168.49."@) {
        Some("Android Wi-Fi Direct"@)
    } else {
        None
    }
}

/// Index of the first address at or after `start` that lies in a hotspot range.
pub open spec fn first_hotspot_from(ips: Seq<Seq<char>>, start: int) -> Option<int>
    decreases ips.len() - start,
{
    if start < 0 || start >= ips.len() {
        None
    } else if hotspot_network(ips[start]) is Some {
        Some(start)
    } else {
        first_hotspot_from(ips, start + 1)
    }
}

/// Result of phone hotspot detection.
#[derive(Debug, Clone)]
pub struct HotspotDetection {
    /// Whether a phone hotspot network was detected.
    pub detected: bool,
    /// The IP address on the hotspot network (if detected).
    pub ip: Option<String>,
    /// Description of the detected network type.
    pub network_type: Option<String>,
}

/// The kind of hotspot network an address belongs to.
fn network_of(ip: &str) -> (r: Option<String>)
    ensures
        r is Some == hotspot_network(ip@) is Some,
        r matches Some(t) ==> t@ == hotspot_network(ip@)->0,
{
    if starts_with(ip, "192.168.43.") {
        Some(String::from_str("Android Hotspot"))
    } else if starts_with(ip, "172.20.10.") {
        Some(String::from_str("iPhone/iOS Hotspot"))
    } else if starts_with(ip, "192.168.137.") {
        Some(String::from_str("Windows Mobile Hotspot"))
    } else if starts_with(ip, "192.168.49.") {
        Some(String::from_str("Android Wi-Fi Direct"))
    } else {
        None
    }
}

/// Decides whether the computer is on a phone hotspot, given its local IPv4
/// addresses in the order they were found: the first address in a known
/// phone-hotspot range wins.
pub fn detect_phone_hotspot(ips: &Vec<String>) -> (r: HotspotDetection)
    ensures
        match first_hotspot_from(views(ips@), 0) {
            Some(i) => {
                &&& r.detected
                &&& r.ip matches Some(a) && a@ == ips@[i]@
                &&& r.network_type matches Some(t) && t@ == hotspot_network(ips@[i]@)->0
            },
            None => !r.detected && r.ip is None && r.network_type is None,
        },
{
    let ghost vs = views(ips@);
    let mut i: usize = 0;
    while i < ips.len()
        invariant
            i <= ips@.len(),
            vs == views(ips@),
            first_hotspot_from(vs, 0) == first_hotspot_from(vs, i as int),
        decreases ips@.len() - i,
    {
        let kind = network_of(ips[i].as_str());
        assert(vs[i as int] == ips@[i as int]@);
        match kind {
            Some(t) => {
                return HotspotDetection {
                    detected: true,
                    ip: Some(ips[i].clone()),
                    network_type: Some(t),
                };
            },
            None => {},
        }
        i = i + 1;
    }
    HotspotDetection { detected: false, ip: None, network_type: None }
}

/// Returns true if the given IP is in a known phone hotspot range.
pub fn is_phone_hotspot_ip(ip: &str) -> (r: bool)
    ensures
        r == hotspot_network(ip@) is Some,
{
    network_of(ip).is_some()
}

// ─── Hotspot Instructions ────────────────────────────────────────────────────

/// Lines of the phone-as-hotspot guide.
pub open spec fn phone_instructions() -> Seq<Seq<char>> {
    seq![
        "══ PHONE-AS-HOTSPOT (Recommended — Works Anywhere) ══"@,
        ""@,
        "1. Turn on Hotspot on your Phone:"@,
        "   • Android: Swipe down from the top to open Quick Settings and tap 'Hotspot'."@,
        "   • iPhone: Open Settings → Personal Hotspot → toggle 'Allow Others to Join' ON."@,
        "   • Alternative (Universal): Open Settings, search for 'hotspot' in the search bar."@,
        "   • Note down the hotspot Wi-Fi Name (SSID) and Password shown on the screen."@,
        ""@,
        "2. Connect your Laptop:"@,
        "   • Click the Wi-Fi icon in your laptop taskbar/menu bar."@,
        "   • Select your phone's Wi-Fi network and enter the password to connect."@,
        ""@,
        "3. Start FileDrop:"@,
        "   • Run 'filedrop receive' on the laptop."@,
        "   • FileDrop will auto-prioritize the connection and display a QR code."@,
        "   • Scan the QR code with your phone to open the file sharing page."@,
    ]
}

/// Returns phone-first instructions for offline file transfer.
///
/// The phone is the hotspot (works on every phone, even without cellular
/// data); the laptop joins it like any Wi-Fi network.
pub fn hotspot_instructions_phone() -> (r: Vec<String>)
    ensures
        views(r@) == phone_instructions(),
{
    let mut v: Vec<String> = Vec::new();
    v.push(String::from_str("══ PHONE-AS-HOTSPOT (Recommended — Works Anywhere) ══"));
    v.push(String::from_str(""));
    v.push(String::from_str("1. Turn on Hotspot on your Phone:"));
    v.push(String::from_str("   • Android: Swipe down from the top to open Quick Settings and tap 'Hotspot'."));
    v.push(String::from_str("   • iPhone: Open Settings → Personal Hotspot → toggle 'Allow Others to Join' ON."));
    v.push(String::from_str("   • Alternative (Universal): Open Settings, search for 'hotspot' in the search bar."));
    v.push(String::from_str("   • Note down the hotspot Wi-Fi Name (SSID) and Password shown on the screen."));
    v.push(String::from_str(""));
    v.push(String::from_str("2. Connect your Laptop:"));
    v.push(String::from_str("   • Click the Wi-Fi icon in your laptop taskbar/menu bar."));
    v.push(String::from_str("   • Select your phone's Wi-Fi network and enter the password to connect."));
    v.push(String::from_str(""));
    v.push(String::from_str("3. Start FileDrop:"));
    v.push(String::from_str("   • Run 'filedrop receive' on the laptop."));
    v.push(String::from_str("   • FileDrop will auto-prioritize the connection and display a QR code."));
    v.push(String::from_str("   • Scan the QR code with your phone to open the file sharing page."));
    assert(views(v@) =~= phone_instructions());
    v
}

/// Lines of the laptop-as-hotspot guide for Windows.
pub open spec fn windows_instructions() -> Seq<Seq<char>> {
    seq![
        "══ LAPTOP-AS-HOTSPOT (Advanced — Windows) ══"@,
        ""@,
        "Option 1 — Settings GUI:"@,
        "  1. Open Settings (Win + I)"@,
        "  2. Go to Network & Internet → Mobile Hotspot"@,
        "  3. Set the network name and password"@,
        "  4. Toggle \"Mobile Hotspot\" to On"@,
        "  5. Connect your phone to the hotspot network"@,
        ""@,
        "⚠ Note: Windows may require an active internet"@,
        "  connection to enable Mobile Hotspot."@,
        "  If so, use the Phone-as-Hotspot method instead."@,
    ]
}

/// Lines of the laptop-as-hotspot guide for macOS.
pub open spec fn macos_instructions() -> Seq<Seq<char>> {
    seq![
        "══ LAPTOP-AS-HOTSPOT (Advanced — macOS) ══"@,
        ""@,
        "  1. Open System Settings → General → Sharing"@,
        "  2. Click \"Internet Sharing\""@,
        "  3. Share from: any connection (or none)"@,
        "  4. To devices using: Wi-Fi"@,
        "  5. Click \"Wi-Fi Options\" → set name & password"@,
        "  6. Toggle Internet Sharing ON"@,
        "  7. Connect your phone to that network"@,
    ]
}

/// Lines of the laptop-as-hotspot guide for Linux.
pub open spec fn linux_instructions() -> Seq<Seq<char>> {
    seq![
        "══ LAPTOP-AS-HOTSPOT (Advanced — Linux) ══"@,
        ""@,
        "  nmcli device wifi hotspot ssid "@ + DEFAULT_SSID@ + " ifname "@ + DEFAULT_WIFI_IFACE@
            + " password "@ + DEFAULT_PASSWORD@,
        ""@,
        "  Or let FileDrop create it automatically (press [A])."@,
        ""@,
        "  Connect your phone to \""@ + DEFAULT_SSID@ + "\" with password \""@ + DEFAULT_PASSWORD@
            + "\"."@,
    ]
}

/// Lines of the laptop-as-hotspot guide for any other platform.
pub open spec fn other_instructions(os: Seq<char>) -> Seq<Seq<char>> {
    seq![
        "══ LAPTOP-AS-HOTSPOT ("@ + os + ") ══"@,
        ""@,
        "  Automatic setup not available on this platform."@,
        "  Please create a hotspot manually or use Phone-as-Hotspot."@,
    ]
}

/// The laptop-as-hotspot guide for an operating system name
/// (as in `std::env::consts::OS`).
pub open spec fn laptop_instructions(os: Seq<char>) -> Seq<Seq<char>> {
    if os == "windows"@ {
        windows_instructions()
    } else if os == "macos"@ {
        macos_instructions()
    } else if os == "linux"@ {
        linux_instructions()
    } else {
        other_instructions(os)
    }
}

fn windows_lines() -> (r: Vec<String>)
    ensures
        views(r@) == windows_instructions(),
{
    let mut v: Vec<String> = Vec::new();
    v.push(String::from_str("══ LAPTOP-AS-HOTSPOT (Advanced — Windows) ══"));
    v.push(String::from_str(""));
    v.push(String::from_str("Option 1 — Settings GUI:"));
    v.push(String::from_str("  1. Open Settings (Win + I)"));
    v.push(String::from_str("  2. Go to Network & Internet → Mobile Hotspot"));
    v.push(String::from_str("  3. Set the network name and password"));
    v.push(String::from_str("  4. Toggle \"Mobile Hotspot\" to On"));
    v.push(String::from_str("  5. Connect your phone to the hotspot network"));
    v.push(String::from_str(""));
    v.push(String::from_str("⚠ Note: Windows may require an active internet"));
    v.push(String::from_str("  connection to enable Mobile Hotspot."));
    v.push(String::from_str("  If so, use the Phone-as-Hotspot method instead."));
    assert(views(v@) =~= windows_instructions());
    v
}

fn macos_lines() -> (r: Vec<String>)
    ensures
        views(r@) == macos_instructions(),
{
    let mut v: Vec<String> = Vec::new();
    v.push(String::from_str("══ LAPTOP-AS-HOTSPOT (Advanced — macOS) ══"));
    v.push(String::from_str(""));
    v.push(String::from_str("  1. Open System Settings → General → Sharing"));
    v.push(String::from_str("  2. Click \"Internet Sharing\""));
    v.push(String::from_str("  3. Share from: any connection (or none)"));
    v.push(String::from_str("  4. To devices using: Wi-Fi"));
    v.push(String::from_str("  5. Click \"Wi-Fi Options\" → set name & password"));
    v.push(String::from_str("  6. Toggle Internet Sharing ON"));
    v.push(String::from_str("  7. Connect your phone to that network"));
    assert(views(v@) =~= macos_instructions());
    v
}

fn linux_lines() -> (r: Vec<String>)
    ensures
        views(r@) == linux_instructions(),
{
    let mut v: Vec<String> = Vec::new();
    v.push(String::from_str("══ LAPTOP-AS-HOTSPOT (Advanced — Linux) ══"));
    v.push(String::from_str(""));
    let mut cmd = String::from_str("  nmcli device wifi hotspot ssid ");
    cmd.append(DEFAULT_SSID);
    cmd.append(" ifname ");
    cmd.append(DEFAULT_WIFI_IFACE);
    cmd.append(" password ");
    cmd.append(DEFAULT_PASSWORD);
    v.push(cmd);
    v.push(String::from_str(""));
    v.push(String::from_str("  Or let FileDrop create it automatically (press [A])."));
    v.push(String::from_str(""));
    let mut join = String::from_str("  Connect your phone to \"");
    join.append(DEFAULT_SSID);
    join.append("\" with password \"");
    join.append(DEFAULT_PASSWORD);
    join.append("\".");
    v.push(join);
    assert(views(v@) =~= linux_instructions());
    v
}

fn other_lines(os: &str) -> (r: Vec<String>)
    ensures
        views(r@) == other_instructions(os@),
{
    let mut v: Vec<String> = Vec::new();
    let mut title = String::from_str("══ LAPTOP-AS-HOTSPOT (");
    title.append(os);
    title.append(") ══");
    v.push(title);
    v.push(String::from_str(""));
    v.push(String::from_str("  Automatic setup not available on this platform."));
    v.push(String::from_str("  Please create a hotspot manually or use Phone-as-Hotspot."));
    assert(views(v@) =~= other_instructions(os@));
    v
}

/// Returns platform-specific instructions for creating a hotspot from the
/// laptop (the secondary, advanced option).
pub fn hotspot_instructions_laptop(os: &str) -> (r: Vec<String>)
    ensures
        views(r@) == laptop_instructions(os@),
{
    if str_eq(os, "windows") {
        windows_lines()
    } else if str_eq(os, "macos") {
        macos_lines()
    } else if str_eq(os, "linux") {
        linux_lines()
    } else {
        other_lines(os)
    }
}

/// Returns the phone guide, a blank line, then the laptop guide for `os`.
pub fn hotspot_instructions(os: &str) -> (r: Vec<String>)
    ensures
        views(r@) == phone_instructions() + seq![""@] + laptop_instructions(os@),
{
    let mut all = hotspot_instructions_phone();
    all.push(String::from_str(""));
    let mut laptop = hotspot_instructions_laptop(os);
    all.append(&mut laptop);
    assert(views(all@) =~= phone_instructions() + seq![""@] + laptop_instructions(os@));
    all
}

// ─── Cleanup Instructions ────────────────────────────────────────────────────

/// The command that tears down a hotspot created on `os`, if there is one.
pub open spec fn cleanup_command(os: Seq<char>) -> Option<Seq<char>> {
    if os == "linux"@ {
        Some("nmcli connection delete "@ + DEFAULT_SSID@)
    } else if os == "windows"@ {
        Some("netsh wlan stop hostednetwork"@)
    } else {
        None
    }
}

/// Returns an OS-specific command to tear down a previously created hotspot.
pub fn cleanup_instructions(os: &str) -> (r: Option<String>)
    ensures
        r is Some == cleanup_command(os@) is Some,
        r matches Some(c) ==> c@ == cleanup_command(os@)->0,
{
    if str_eq(os, "linux") {
        Some(concat2("nmcli connection delete ", DEFAULT_SSID))
    } else if str_eq(os, "windows") {
        Some(String::from_str("netsh wlan stop hostednetwork"))
    } else {
        None
    }
}

} // verus!
