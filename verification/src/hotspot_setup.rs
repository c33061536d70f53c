//! Creating a Wi-Fi hotspot on the laptop: which commands are run on each
//! operating system and what is reported when one fails.
//!
//! Running the commands lives outside the library.
use vstd::prelude::*;
use crate::hotspot::{DEFAULT_PASSWORD, DEFAULT_SSID, DEFAULT_WIFI_IFACE};
use crate::text::{decimal, push_decimal, str_eq, trim, trim_spec, views};

verus! {

/// One command of the hotspot setup.
#[derive(Debug, Clone, Copy, PartialEq, Eq, Structural)]
pub enum SetupStep {
    /// `nmcli device wifi hotspot …` (Linux, NetworkManager).
    NmcliHotspot,
    /// `netsh wlan set hostednetwork …` (Windows).
    NetshConfigure,
    /// `netsh wlan start hostednetwork` (Windows).
    NetshStart,
}

/// The steps run on `os`, in order, or the reason auto-creation is not
/// offered there.
pub open spec fn setup_plan(os: Seq<char>) -> Result<Seq<SetupStep>, Seq<char>> {
    if os == "windows"@ {
        Ok(seq![SetupStep::NetshConfigure, SetupStep::NetshStart])
    } else if os == "linux"@ {
        Ok(seq![SetupStep::NmcliHotspot])
    } else {
        Err(
            "[HOTSPOT] Auto-create is only supported on Linux and Windows (current OS: "@ + os
                + "). Please create a hotspot manually or use your phone as a hotspot."@,
        )
    }
}

/// The steps that create a hotspot on `os`.
pub fn hotspot_plan(os: &str) -> (r: Result<Vec<SetupStep>, String>)
    ensures
        match setup_plan(os@) {
            Ok(steps) => r matches Ok(v) && v@ == steps,
            Err(m) => r matches Err(e) && e@ == m,
        },
{
    proof {
        reveal_strlit("windows");
        reveal_strlit("linux");
    }
    let mut v: Vec<SetupStep> = Vec::new();
    if str_eq(os, "windows") {
        v.push(SetupStep::NetshConfigure);
        v.push(SetupStep::NetshStart);
        Ok(v)
    } else if str_eq(os, "linux") {
        v.push(SetupStep::NmcliHotspot);
        Ok(v)
    } else {
        let mut m = String::from_str(
            "[HOTSPOT] Auto-create is only supported on Linux and Windows (current OS: ",
        );
        m.append(os);
        m.append("). Please create a hotspot manually or use your phone as a hotspot.");
        Err(m)
    }
}

/// The program a step runs.
pub open spec fn step_program(step: SetupStep) -> Seq<char> {
    match step {
        SetupStep::NmcliHotspot => "nmcli"@,
        _ => "netsh"@,
    }
}

/// The arguments a step passes.
pub open spec fn step_args(step: SetupStep) -> Seq<Seq<char>> {
    match step {
        SetupStep::NmcliHotspot => seq![
            "device"@,
            "wifi"@,
            "hotspot"@,
            "ssid"@,
            DEFAULT_SSID@,
            "ifname"@,
            DEFAULT_WIFI_IFACE@,
            "password"@,
            DEFAULT_PASSWORD@,
        ],
        SetupStep::NetshConfigure => seq![
            "wlan"@,
            "set"@,
            "hostednetwork"@,
            "mode=allow"@,
            "ssid="@ + DEFAULT_SSID@,
            "key="@ + DEFAULT_PASSWORD@,
        ],
        SetupStep::NetshStart => seq!["wlan"@, "start"@, "hostednetwork"@],
    }
}

/// The program a step runs.
pub fn program_of(step: SetupStep) -> (r: &'static str)
    ensures
        r@ == step_program(step),
{
    match step {
        SetupStep::NmcliHotspot => "nmcli",
        _ => "netsh",
    }
}

fn push_str(v: &mut Vec<String>, s: &str)
    ensures
        views(final(v)@) == views(old(v)@).push(s@),
{
    v.push(String::from_str(s));
    assert(views(v@) =~= views(old(v)@).push(s@));
}

/// The arguments of a step's command.
pub fn args_of(step: SetupStep) -> (r: Vec<String>)
    ensures
        views(r@) == step_args(step),
{
    let mut r: Vec<String> = Vec::new();
    assert(views(r@) =~= Seq::<Seq<char>>::empty());
    match step {
        SetupStep::NmcliHotspot => {
            push_str(&mut r, "device");
            push_str(&mut r, "wifi");
            push_str(&mut r, "hotspot");
            push_str(&mut r, "ssid");
            push_str(&mut r, DEFAULT_SSID);
            push_str(&mut r, "ifname");
            push_str(&mut r, DEFAULT_WIFI_IFACE);
            push_str(&mut r, "password");
            push_str(&mut r, DEFAULT_PASSWORD);
        },
        SetupStep::NetshConfigure => {
            let mut ssid = String::from_str("ssid=");
            ssid.append(DEFAULT_SSID);
            let mut key = String::from_str("key=");
            key.append(DEFAULT_PASSWORD);
            push_str(&mut r, "wlan");
            push_str(&mut r, "set");
            push_str(&mut r, "hostednetwork");
            push_str(&mut r, "mode=allow");
            push_str(&mut r, ssid.as_str());
            push_str(&mut r, key.as_str());
        },
        SetupStep::NetshStart => {
            push_str(&mut r, "wlan");
            push_str(&mut r, "start");
            push_str(&mut r, "hostednetwork");
        },
    }
    r
}

/// The error when a step's program cannot be started.
pub open spec fn spawn_error(step: SetupStep) -> Seq<char> {
    match step {
        SetupStep::NmcliHotspot => "[HOTSPOT] Failed to execute nmcli — is NetworkManager installed?"@,
        SetupStep::NetshConfigure => "[HOTSPOT] Failed to execute netsh — run as Administrator"@,
        SetupStep::NetshStart => "[HOTSPOT] Failed to start hosted network"@,
    }
}

/// The error when a step's program cannot be started.
pub fn spawn_error_message(step: SetupStep) -> (r: &'static str)
    ensures
        r@ == spawn_error(step),
{
    match step {
        SetupStep::NmcliHotspot => "[HOTSPOT] Failed to execute nmcli — is NetworkManager installed?",
        SetupStep::NetshConfigure => "[HOTSPOT] Failed to execute netsh — run as Administrator",
        SetupStep::NetshStart => "[HOTSPOT] Failed to start hosted network",
    }
}

/// Decimal notation of a signed number.
pub open spec fn signed_decimal(n: int) -> Seq<char> {
    if n < 0 {
        "-"@ + decimal((-n) as nat)
    } else {
        decimal(n as nat)
    }
}

/// The error when a step's program exits unsuccessfully with `code` (`-1`
/// when it has none) and these outputs, which are shown trimmed.
pub open spec fn step_failure(step: SetupStep, code: int, stdout: Seq<char>, stderr: Seq<char>) -> Seq<char> {
    let tail = "stdout: "@ + trim_spec(stdout) + "\nstderr: "@ + trim_spec(stderr);
    match step {
        SetupStep::NmcliHotspot => "[HOTSPOT] nmcli hotspot creation failed (exit code: "@
            + signed_decimal(code) + ").\n"@ + tail,
        SetupStep::NetshConfigure =>
            "[HOTSPOT] netsh configuration failed. Your Wi-Fi adapter may not support hosted networks.\nTry using your phone as a hotspot instead.\n"@
            + tail,
        SetupStep::NetshStart =>
            "[HOTSPOT] Failed to start hosted network.\nThis often happens without an internet connection on Windows.\nUse your PHONE as a hotspot instead (more reliable).\n"@
            + tail,
    }
}

/// The error for a step whose program failed.
pub fn step_failure_message(step: SetupStep, code: Option<i32>, stdout: &str, stderr: &str) -> (r: String)
    ensures
        r@ == step_failure(
            step,
            match code {
                Some(c) => c as int,
                None => -1,
            },
            stdout@,
            stderr@,
        ),
{
    let mut m = match step {
        SetupStep::NmcliHotspot => {
            let mut m = String::from_str("[HOTSPOT] nmcli hotspot creation failed (exit code: ");
            let c: i32 = match code {
                Some(c) => c,
                None => -1,
            };
            if c < 0 {
                m.append("-");
                let magnitude: u64 = (-(c as i64)) as u64;
                push_decimal(&mut m, magnitude);
            } else {
                push_decimal(&mut m, c as u64);
            }
            m.append(").\n");
            m
        },
        SetupStep::NetshConfigure => String::from_str(
            "[HOTSPOT] netsh configuration failed. Your Wi-Fi adapter may not support hosted networks.\nTry using your phone as a hotspot instead.\n",
        ),
        SetupStep::NetshStart => String::from_str(
            "[HOTSPOT] Failed to start hosted network.\nThis often happens without an internet connection on Windows.\nUse your PHONE as a hotspot instead (more reliable).\n",
        ),
    };
    m.append("stdout: ");
    m.append(trim(stdout));
    m.append("\nstderr: ");
    m.append(trim(stderr));
    m
}

/// The network that was created: its name and password.
pub fn created_network() -> (r: (String, String))
    ensures
        r.0@ == DEFAULT_SSID@,
        r.1@ == DEFAULT_PASSWORD@,
{
    (String::from_str(DEFAULT_SSID), String::from_str(DEFAULT_PASSWORD))
}

} // verus!
