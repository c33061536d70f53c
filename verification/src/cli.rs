//! Decisions the command line makes before a mode starts: the connection
//! mode from a flag or from last time, and whether `share` opens the
//! interactive configurator.
use vstd::prelude::*;
use crate::hotspot::{parse_mode, ConnectionMode};

verus! {

/// The mode a `--mode` flag selects; anything unrecognised means router
/// mode.
pub fn mode_from_flag(flag: &str) -> (r: ConnectionMode)
    ensures
        r == match parse_mode(flag@) {
            Some(m) => m,
            None => ConnectionMode::Router,
        },
{
    match ConnectionMode::from_str(flag) {
        Some(m) => m,
        None => ConnectionMode::Router,
    }
}

/// The mode remembered from last time, if it is still recognised.
pub fn remembered_mode(last: &Option<String>) -> (r: Option<ConnectionMode>)
    ensures
        r == match *last {
            Some(s) => parse_mode(s@),
            None => None,
        },
{
    match last {
        Some(s) => ConnectionMode::from_str(s.as_str()),
        None => None,
    }
}

/// `share` opens the configurator unless an expiry, `--once` or a PIN was
/// given on the command line.
pub fn share_uses_configurator(expires: &Option<String>, once: bool, pin: &Option<String>) -> (r: bool)
    ensures
        r == (expires is None && !once && pin is None),
{
    expires.is_none() && !once && pin.is_none()
}

/// The link lifetime given on the command line, fifteen minutes by default.
pub fn share_expiry_text(expires: &Option<String>) -> (r: &str)
    ensures
        r@ == match *expires {
            Some(e) => e@,
            None => "15m"@,
        },
{
    match expires {
        Some(e) => e.as_str(),
        None => "15m",
    }
}

/// The mode `share` uses without the configurator: the flag's mode, else
/// the remembered one, else router mode.
pub fn share_mode_without_prompt(flag: &Option<String>, last: &Option<String>) -> (r: ConnectionMode)
    ensures
        r == match *flag {
            Some(f) => match parse_mode(f@) {
                Some(m) => m,
                None => ConnectionMode::Router,
            },
            None => match *last {
                Some(s) => match parse_mode(s@) {
                    Some(m) => m,
                    None => ConnectionMode::Router,
                },
                None => ConnectionMode::Router,
            },
        },
{
    match flag {
        Some(f) => mode_from_flag(f.as_str()),
        None => match remembered_mode(last) {
            Some(m) => m,
            None => ConnectionMode::Router,
        },
    }
}

} // verus!
