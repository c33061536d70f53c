//! The small interactive screens before the dashboard — choosing the
//! connection mode, the hotspot guide, the receive banner — and the lines
//! the dashboard's log starts with.
//!
//! Drawing and reading keys live outside the library.
use vstd::prelude::*;
use crate::hotspot::ConnectionMode;
use crate::text::{decimal, push_decimal, str_eq, views};
use crate::tui_state::{AppMode, KeyInput, LogLevel};

verus! {

// ─── Connection mode ────────────────────────────────────────────────────────

/// What a key does on the connection-mode screen.
#[derive(Debug, Clone, Copy, PartialEq, Eq, Structural)]
pub enum ModeChoice {
    /// Stay on the screen.
    Stay,
    /// Use this mode.
    Chosen(ConnectionMode),
    /// Quit the program.
    Quit,
}

/// The mode highlighted by `selected`: the first row is router mode.
pub open spec fn mode_at(selected: nat) -> ConnectionMode {
    if selected == 0 {
        ConnectionMode::Router
    } else {
        ConnectionMode::Hotspot
    }
}

/// The connection-mode screen: two rows, router and hotspot.
#[derive(Debug, Clone, Copy, PartialEq, Eq, Structural)]
pub struct ModeSelection {
    /// The highlighted row (0 router, 1 hotspot).
    pub selected: usize,
    /// The mode chosen last time, offered by `s`.
    pub last_mode: Option<ConnectionMode>,
}

impl ModeSelection {
    /// The screen with router mode highlighted.
    pub fn new(last_mode: Option<ConnectionMode>) -> (r: ModeSelection)
        ensures
            r.selected == 0,
            r.last_mode == last_mode,
    {
        ModeSelection { selected: 0, last_mode }
    }

    /// Up or `1` highlights router mode, down or `2` hotspot mode; Enter
    /// chooses the highlighted mode, `s` the mode used last time (router
    /// when there is none), `q` quits.
    pub fn handle_key(&mut self, key: KeyInput) -> (r: ModeChoice)
        ensures
            final(self).last_mode == old(self).last_mode,
            match key {
                KeyInput::Up | KeyInput::Char('1') => r == ModeChoice::Stay && final(self).selected
                    == 0,
                KeyInput::Down | KeyInput::Char('2') => r == ModeChoice::Stay && final(self).selected
                    == 1,
                KeyInput::Enter => r == ModeChoice::Chosen(mode_at(old(self).selected as nat))
                    && final(self).selected == old(self).selected,
                KeyInput::Char('s') | KeyInput::Char('S') => r == ModeChoice::Chosen(
                    match old(self).last_mode {
                        Some(m) => m,
                        None => ConnectionMode::Router,
                    },
                ) && final(self).selected == old(self).selected,
                KeyInput::Char('q') | KeyInput::Char('Q') => r == ModeChoice::Quit,
                _ => r == ModeChoice::Stay && final(self).selected == old(self).selected,
            },
    {
        match key {
            KeyInput::Up | KeyInput::Char('1') => {
                self.selected = 0;
                ModeChoice::Stay
            },
            KeyInput::Down | KeyInput::Char('2') => {
                self.selected = 1;
                ModeChoice::Stay
            },
            KeyInput::Enter => {
                if self.selected == 0 {
                    ModeChoice::Chosen(ConnectionMode::Router)
                } else {
                    ModeChoice::Chosen(ConnectionMode::Hotspot)
                }
            },
            KeyInput::Char('s') | KeyInput::Char('S') => match self.last_mode {
                Some(m) => ModeChoice::Chosen(m),
                None => ModeChoice::Chosen(ConnectionMode::Router),
            },
            KeyInput::Char('q') | KeyInput::Char('Q') => ModeChoice::Quit,
            _ => ModeChoice::Stay,
        }
    }
}

// ─── Hotspot guide ──────────────────────────────────────────────────────────

/// What a key does on the hotspot guide.
#[derive(Debug, Clone, Copy, PartialEq, Eq, Structural)]
pub enum GuideChoice {
    /// Stay on the guide.
    Stay,
    /// Continue: the hotspot is up.
    Continue,
    /// Go back to the previous screen.
    Back,
    /// Create the hotspot automatically (Linux only), then continue.
    AutoCreate,
    /// Quit the program.
    Quit,
}

/// Whether the hotspot guide opens: with `--auto` it is skipped and the
/// program goes straight on (as if the user had continued).
pub fn guide_opening(auto: bool) -> (r: Option<GuideChoice>)
    ensures
        r == if auto {
            Some(GuideChoice::Continue)
        } else {
            None::<GuideChoice>
        },
{
    if auto {
        Some(GuideChoice::Continue)
    } else {
        None
    }
}

/// Enter or `y` continues, `b` goes back, `a` creates the hotspot on Linux
/// (elsewhere it does nothing), `q` quits.
pub fn guide_key(key: KeyInput, os: &str) -> (r: GuideChoice)
    ensures
        r == match key {
            KeyInput::Enter | KeyInput::Char('y') | KeyInput::Char('Y') => GuideChoice::Continue,
            KeyInput::Char('b') | KeyInput::Char('B') => GuideChoice::Back,
            KeyInput::Char('a') | KeyInput::Char('A') => if os@ == "linux"@ {
                GuideChoice::AutoCreate
            } else {
                GuideChoice::Stay
            },
            KeyInput::Char('q') | KeyInput::Char('Q') => GuideChoice::Quit,
            _ => GuideChoice::Stay,
        },
{
    match key {
        KeyInput::Enter | KeyInput::Char('y') | KeyInput::Char('Y') => GuideChoice::Continue,
        KeyInput::Char('b') | KeyInput::Char('B') => GuideChoice::Back,
        KeyInput::Char('a') | KeyInput::Char('A') => {
            proof {
                reveal_strlit("linux");
            }
            if str_eq(os, "linux") {
                GuideChoice::AutoCreate
            } else {
                GuideChoice::Stay
            }
        },
        KeyInput::Char('q') | KeyInput::Char('Q') => GuideChoice::Quit,
        _ => GuideChoice::Stay,
    }
}

// ─── Receive banner ─────────────────────────────────────────────────────────

/// The address the phone opens: the first LAN address and the port.
pub open spec fn phone_url_spec(local_ips: Seq<Seq<char>>, port: u16) -> Option<Seq<char>> {
    if local_ips.len() == 0 {
        None
    } else {
        Some("http://"@ + local_ips[0] + ":"@ + decimal(port as nat))
    }
}

/// The URL the phone opens to send files, when a LAN address is known.
pub fn phone_url(local_ips: &Vec<String>, port: u16) -> (r: Option<String>)
    ensures
        match phone_url_spec(views(local_ips@), port) {
            Some(u) => r matches Some(s) && s@ == u,
            None => r is None,
        },
{
    if local_ips.len() == 0 {
        return None;
    }
    let mut s = String::from_str("http://");
    s.append(local_ips[0].as_str());
    s.append(":");
    push_decimal(&mut s, port as u64);
    Some(s)
}

/// What follows the last `:` of `s` (all of `s` without one), as
/// `s.rsplit(':').next()` gives it.
pub open spec fn after_last_colon(s: Seq<char>) -> Seq<char>
    decreases s.len(),
{
    if s.len() == 0 {
        s
    } else if s.last() == ':' {
        Seq::empty()
    } else {
        after_last_colon(s.drop_last()).push(s.last())
    }
}

fn last_segment(s: &str) -> (r: String)
    ensures
        r@ == after_last_colon(s@),
{
    let n = s.unicode_len();
    let mut k: usize = n;
    assert(s@.take(n as int) =~= s@);
    assert(s@.skip(n as int) =~= Seq::<char>::empty());
    assert(after_last_colon(s@) =~= after_last_colon(s@) + Seq::<char>::empty());
    while k > 0 && s.get_char(k - 1) != ':'
        invariant
            k <= n == s@.len(),
            after_last_colon(s@) == after_last_colon(s@.take(k as int)) + s@.skip(k as int),
        decreases k,
    {
        let ghost t = s@.take(k as int);
        assert(t.drop_last() =~= s@.take(k - 1));
        assert(t.last() == s@[k - 1]);
        assert(s@.skip(k - 1) =~= seq![s@[k - 1]] + s@.skip(k as int));
        assert(after_last_colon(t) == after_last_colon(s@.take(k - 1)).push(s@[k - 1]));
        assert(after_last_colon(s@.take(k - 1)).push(s@[k - 1]) + s@.skip(k as int)
            =~= after_last_colon(s@.take(k - 1)) + s@.skip(k - 1));
        k = k - 1;
    }
    proof {
        if k > 0 {
            let t = s@.take(k as int);
            assert(t.last() == ':');
            assert(after_last_colon(t) == Seq::<char>::empty());
        } else {
            assert(s@.take(0) =~= Seq::<char>::empty());
        }
        assert(Seq::<char>::empty() + s@.skip(k as int) =~= s@.skip(k as int));
    }
    String::from_str(s.substring_char(k, n))
}

/// Where the alternative addresses start in the start-up log: after the
/// version line, the hotspot and encryption notes, and the phone URL.
pub open spec fn alt_base(hotspot_mode: bool, encrypt: bool) -> int {
    1 + (if hotspot_mode {
        1int
    } else {
        0
    }) + (if encrypt {
        1int
    } else {
        0
    }) + 1
}

/// The lines the dashboard's log starts with, each with its level: the
/// version and mode, hotspot and encryption notes, then in receive mode the
/// phone URL and the other addresses (or a warning that no address was
/// found), and what happens next.
pub fn startup_log(
    mode: AppMode,
    hotspot_mode: bool,
    encrypt: bool,
    phone_url: &Option<String>,
    local_ips: &Vec<String>,
) -> (r: Vec<(String, LogLevel)>)
    ensures
        r@.len() >= 2,
        r@[0].0@ == "FileDrop v0.5.0 — "@ + match mode {
            AppMode::Receive => "RECEIVE MODE"@,
            AppMode::Send => "SEND MODE"@,
        },
        r@[0].1 == LogLevel::Info,
        mode == AppMode::Send ==> r@.last().0@ == "Preparing to send files..."@,
        mode == AppMode::Receive ==> r@.last().0@ == "Waiting for incoming connections..."@,
        r@.last().1 == LogLevel::Info,
        mode == AppMode::Receive && phone_url is Some ==> r@.len() == 1 + (if hotspot_mode {
            1nat
        } else {
            0
        }) + (if encrypt {
            1nat
        } else {
            0
        }) + 1 + (if local_ips@.len() > 1 {
            (local_ips@.len() - 1) as nat
        } else {
            0
        }) + 2,
        forall|j: int|
            alt_base(hotspot_mode, encrypt) <= j < alt_base(hotspot_mode, encrypt) + local_ips@.len()
                - 1 && mode == AppMode::Receive && phone_url is Some ==> {
                &&& (#[trigger] r@[j]).0@ == "   Alt IP: http://"@ + local_ips@[j - alt_base(
                    hotspot_mode,
                    encrypt,
                ) + 1]@ + ":"@ + after_last_colon(phone_url->0@)
                &&& r@[j].1 == LogLevel::Info
            },
{
    let mut out: Vec<(String, LogLevel)> = Vec::new();
    let mut first = String::from_str("FileDrop v0.5.0 — ");
    let m = mode.display_string();
    first.append(m.as_str());
    out.push((first, LogLevel::Info));
    if hotspot_mode {
        out.push((String::from_str("[HOTSPOT MODE] Active — yellow badge shown"), LogLevel::Warning));
    }
    if encrypt {
        out.push((String::from_str("[ENC] End-to-end encryption enabled"), LogLevel::Info));
    }
    match mode {
        AppMode::Receive => {
            match phone_url {
                Some(url) => {
                    let mut l = String::from_str("📱 Open on your phone: ");
                    l.append(url.as_str());
                    out.push((l, LogLevel::Success));
                    let port = last_segment(url.as_str());
                    let base = out.len();
                    let ghost b = base as int;
                    assert(b == alt_base(hotspot_mode, encrypt));
                    let mut i: usize = 1;
                    while i < local_ips.len()
                        invariant
                            1 <= i <= local_ips@.len() || (i == 1 && local_ips@.len() <= 1),
                            base == b,
                            b >= 2,
                            out@.len() == base + i - 1,
                            out@[0].0@ == "FileDrop v0.5.0 — "@ + match mode {
                                AppMode::Receive => "RECEIVE MODE"@,
                                AppMode::Send => "SEND MODE"@,
                            },
                            out@[0].1 == LogLevel::Info,
                            port@ == after_last_colon(url@),
                            forall|j: int|
                                b <= j < b + i - 1 ==> {
                                    &&& (#[trigger] out@[j]).0@ == "   Alt IP: http://"@
                                        + local_ips@[j - b + 1]@ + ":"@ + port@
                                    &&& out@[j].1 == LogLevel::Info
                                },
                        decreases local_ips@.len() - i,
                    {
                        let mut l = String::from_str("   Alt IP: http://");
                        l.append(local_ips[i].as_str());
                        l.append(":");
                        l.append(port.as_str());
                        out.push((l, LogLevel::Info));
                        i = i + 1;
                    }
                    out.push(
                        (
                            String::from_str("Both devices must be on the same Wi-Fi network"),
                            LogLevel::Info,
                        ),
                    );
                },
                None => {
                    out.push(
                        (
                            String::from_str("⚠ Could not detect LAN IP. Check network."),
                            LogLevel::Warning,
                        ),
                    );
                    out.push(
                        (
                            String::from_str(
                                "[WARN] No active network detected. Is your Wi-Fi connected? Or try: filedrop receive --mode hotspot",
                            ),
                            LogLevel::Warning,
                        ),
                    );
                },
            }
            out.push((String::from_str("Waiting for incoming connections..."), LogLevel::Info));
        },
        AppMode::Send => {
            out.push((String::from_str("Preparing to send files..."), LogLevel::Info));
        },
    }
    out
}

} // verus!
