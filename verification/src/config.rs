//! Application configuration and its defaults.
//!
//! Reading and writing `config.toml` in the user's configuration directory
//! happen outside the library.
use vstd::prelude::*;
use std::path::PathBuf;

verus! {

/// TUI color theme.
#[derive(Debug, Clone, PartialEq, Eq)]
pub struct ThemeConfig {
    /// Primary accent color (cyan).
    pub primary: String,
    /// Background color.
    pub background: String,
    /// Surface container color.
    pub surface: String,
    /// Error color.
    pub error: String,
}

/// Application configuration stored in `config.toml`.
#[derive(Debug, Clone, PartialEq, Eq)]
pub struct Config {
    /// Device name shown to peers during pairing.
    pub device_name: String,
    /// Port to listen on for WebSocket connections.
    pub port: u16,
    /// Chunk size in bytes for file transfer.
    pub chunk_size: usize,
    /// Whether to enable mDNS discovery.
    pub mdns_enabled: bool,
    /// Directory for received files (none = current directory).
    pub receive_dir: Option<String>,
    /// TUI color theme.
    pub theme: ThemeConfig,
    /// The connection mode chosen last time (`"router"` or `"hotspot"`).
    pub last_connection_mode: Option<String>,
}

/// The name used when the host name cannot be read.
pub const FALLBACK_DEVICE_NAME: &'static str = "FileDrop-Laptop";

/// The machine's host name as UTF-8 text (`hostname::get`), or `None` when
/// it cannot be read or is not valid UTF-8. Nothing is claimed about the
/// name itself: it depends on the machine.
#[verifier::external_body]
fn host_name() -> (r: Option<String>) {
    hostname::get().ok().and_then(|h| h.into_string().ok())
}

/// The device name for a host name reading: the host name when there is
/// one, else [`FALLBACK_DEVICE_NAME`].
pub fn device_name_from(host: Option<String>) -> (r: String)
    ensures
        r@ == match host {
            Some(h) => h@,
            None => FALLBACK_DEVICE_NAME@,
        },
{
    match host {
        Some(h) => h,
        None => String::from_str(FALLBACK_DEVICE_NAME),
    }
}

/// The default device name: this machine's host name, or the fallback name.
pub fn default_device_name() -> (r: String) {
    device_name_from(host_name())
}

/// Default listening port.
pub fn default_port() -> (r: u16)
    ensures
        r == 7878,
{
    7878
}

/// Default chunk size (256 KiB).
pub fn default_chunk_size() -> (r: usize)
    ensures
        r == 262144,
{
    262144
}

/// Default for switches that are on unless configured otherwise.
pub fn default_true() -> (r: bool)
    ensures
        r,
{
    true
}

/// Default primary color.
pub fn default_primary_color() -> (r: String)
    ensures
        r@ == "#00D4FF"@,
{
    String::from_str("#00D4FF")
}

/// Default background color.
pub fn default_bg_color() -> (r: String)
    ensures
        r@ == "#111319"@,
{
    String::from_str("#111319")
}

/// Default surface color.
pub fn default_surface_color() -> (r: String)
    ensures
        r@ == "#191B22"@,
{
    String::from_str("#191B22")
}

/// Default error color.
pub fn default_error_color() -> (r: String)
    ensures
        r@ == "#FFB4AB"@,
{
    String::from_str("#FFB4AB")
}

/// The default theme colors.
pub open spec fn default_theme(t: ThemeConfig) -> bool {
    &&& t.primary@ == "#00D4FF"@
    &&& t.background@ == "#111319"@
    &&& t.surface@ == "#191B22"@
    &&& t.error@ == "#FFB4AB"@
}

impl Default for ThemeConfig {
    fn default() -> (r: ThemeConfig)
        ensures
            default_theme(r),
    {
        ThemeConfig {
            primary: default_primary_color(),
            background: default_bg_color(),
            surface: default_surface_color(),
            error: default_error_color(),
        }
    }
}

impl Config {
    /// The default configuration for a given device name.
    pub fn with_device_name(device_name: String) -> (r: Config)
        ensures
            r.device_name == device_name,
            r.port == 7878,
            r.chunk_size == 262144,
            r.mdns_enabled,
            r.receive_dir is None,
            default_theme(r.theme),
            r.last_connection_mode is None,
    {
        Config {
            device_name,
            port: default_port(),
            chunk_size: default_chunk_size(),
            mdns_enabled: true,
            receive_dir: None,
            theme: ThemeConfig::default(),
            last_connection_mode: None,
        }
    }

    /// The port of the pairing handshake: the main port plus one.
    pub fn pairing_port(&self) -> (r: u16)
        requires
            self.port < u16::MAX,
        ensures
            r == self.port + 1,
    {
        self.port + 1
    }
}

impl Default for Config {
    /// The default configuration, named after this machine.
    fn default() -> (r: Config)
        ensures
            r.port == 7878,
            r.chunk_size == 262144,
            r.mdns_enabled,
            r.receive_dir is None,
            default_theme(r.theme),
            r.last_connection_mode is None,
    {
        Config::with_device_name(default_device_name())
    }
}

// ─── Where the configuration lives ──────────────────────────────────────────

/// Why no configuration path could be given.
#[derive(Debug, Clone, Copy, PartialEq, Eq, Structural)]
pub enum ConfigError {
    /// The platform's configuration directory is unknown (no home directory).
    NoConfigDir,
}

impl ConfigError {
    /// The message shown to the user.
    pub fn message(&self) -> (r: &'static str)
        ensures
            r@ == "Failed to determine config directory"@,
    {
        "Failed to determine config directory"
    }
}

/// The platform's configuration directory for FileDrop
/// (`directories::ProjectDirs::from("", "", "filedrop")`, then its
/// `config_dir`), or `None` when the user's home directory is unknown.
/// Nothing is claimed about the path: it depends on the environment.
#[verifier::external_body]
fn project_config_dir() -> (r: Option<PathBuf>) {
    match directories::ProjectDirs::from("", "", "filedrop") {
        Some(dirs) => Some(dirs.config_dir().to_path_buf()),
        None => None,
    }
}

/// What `Path::join` returns for a base path and a relative path.
pub uninterp spec fn joined(base: PathBuf, name: Seq<char>) -> PathBuf;

/// A single path component with no separator and no drive prefix.
pub open spec fn plain_component(name: Seq<char>) -> bool {
    &&& name.len() > 0
    &&& forall|i: int| 0 <= i < name.len() ==> #[trigger] name[i] != '/' && name[i] != '\\' && name[i] != ':'
}

/// `base` joined with the relative path `name` (`Path::join`); the result
/// depends on the two paths alone. A single component is appended after
/// `base` (with a separator when `base` needs one), so two different
/// components give two different paths under the same base.
#[verifier::external_body]
fn join_path(base: &PathBuf, name: &str) -> (r: PathBuf)
    ensures
        r == joined(*base, name@),
        plain_component(name@) ==> forall|other: Seq<char>|
            plain_component(other) && other != name@ ==> #[trigger] joined(*base, other) != r,
{
    base.join(name)
}

/// `p` is the entry `name` of some directory.
pub open spec fn entry_of_some_dir(p: PathBuf, name: Seq<char>) -> bool {
    exists|d: PathBuf| p == #[trigger] joined(d, name)
}

/// The configuration directory, `~/.config/filedrop` on Linux.
pub fn config_dir() -> (r: Result<PathBuf, ConfigError>)
    ensures
        r matches Err(e) ==> e == ConfigError::NoConfigDir,
{
    match project_config_dir() {
        Some(d) => Ok(d),
        None => Err(ConfigError::NoConfigDir),
    }
}

/// The path of `config.toml` in the directory `dir`.
pub fn config_file_in(dir: &PathBuf) -> (r: PathBuf)
    ensures
        r == joined(*dir, "config.toml"@),
        r != joined(*dir, "peers"@),
        r != joined(*dir, "certs"@),
{
    proof {
        reveal_strlit("config.toml");
        reveal_strlit("peers");
        reveal_strlit("certs");
    }
    assert(plain_component("config.toml"@));
    assert(plain_component("peers"@));
    assert(plain_component("certs"@));
    assert("peers"@[0] != "certs"@[0]);
    join_path(dir, "config.toml")
}

/// The directory of paired devices' certificates under `dir`.
pub fn peers_in(dir: &PathBuf) -> (r: PathBuf)
    ensures
        r == joined(*dir, "peers"@),
        r != joined(*dir, "config.toml"@),
        r != joined(*dir, "certs"@),
{
    proof {
        reveal_strlit("config.toml");
        reveal_strlit("peers");
        reveal_strlit("certs");
    }
    assert(plain_component("config.toml"@));
    assert(plain_component("peers"@));
    assert(plain_component("certs"@));
    assert("peers"@[0] != "certs"@[0]);
    join_path(dir, "peers")
}

/// The directory of this device's own certificate and key under `dir`.
pub fn certs_in(dir: &PathBuf) -> (r: PathBuf)
    ensures
        r == joined(*dir, "certs"@),
        r != joined(*dir, "config.toml"@),
        r != joined(*dir, "peers"@),
{
    proof {
        reveal_strlit("config.toml");
        reveal_strlit("peers");
        reveal_strlit("certs");
    }
    assert(plain_component("config.toml"@));
    assert(plain_component("peers"@));
    assert(plain_component("certs"@));
    assert("peers"@[0] != "certs"@[0]);
    join_path(dir, "certs")
}

/// The path of `config.toml` in the configuration directory.
pub fn config_file_path() -> (r: Result<PathBuf, ConfigError>)
    ensures
        r matches Err(e) ==> e == ConfigError::NoConfigDir,
        r matches Ok(p) ==> entry_of_some_dir(p, "config.toml"@),
{
    match config_dir() {
        Ok(d) => Ok(config_file_in(&d)),
        Err(e) => Err(e),
    }
}

/// The directory of paired devices' certificates.
pub fn peers_dir() -> (r: Result<PathBuf, ConfigError>)
    ensures
        r matches Err(e) ==> e == ConfigError::NoConfigDir,
        r matches Ok(p) ==> entry_of_some_dir(p, "peers"@),
{
    match config_dir() {
        Ok(d) => Ok(peers_in(&d)),
        Err(e) => Err(e),
    }
}

/// The directory of this device's own certificate and key.
pub fn certs_dir() -> (r: Result<PathBuf, ConfigError>)
    ensures
        r matches Err(e) ==> e == ConfigError::NoConfigDir,
        r matches Ok(p) ==> entry_of_some_dir(p, "certs"@),
{
    match config_dir() {
        Ok(d) => Ok(certs_in(&d)),
        Err(e) => Err(e),
    }
}

} // verus!
