//! Settings of the interactive share configurator: link expiry, optional
//! four-digit PIN, one-time download, and the cursor moves of its panes.
//!
//! Drawing the screen and reading the keyboard happen outside the library.
use vstd::prelude::*;
use std::path::PathBuf;
use crate::dashboard::{selected_below, selected_indices};
use crate::text::{decimal, push_char, str_eq};
use crate::tui_state::FileBrowserState;

verus! {

/// Resolved configuration returned by the interactive configurator.
#[derive(Debug)]
pub struct ShareConfig {
    /// Paths of all selected files and folders.
    pub selected_paths: Vec<PathBuf>,
    /// Link lifetime in seconds.
    pub expires: u64,
    /// Whether the link expires after the first download.
    pub once: bool,
    /// Optional 4-digit PIN required before download.
    pub pin: Option<String>,
}

/// The expiry choices, in order: label and seconds.
pub open spec fn expiry_choices() -> Seq<(Seq<char>, u64)> {
    seq![
        ("5 minutes"@, 300u64),
        ("10 minutes"@, 600u64),
        ("15 minutes"@, 900u64),
        ("30 minutes"@, 1800u64),
        ("1 hour"@, 3600u64),
        ("2 hours"@, 7200u64),
    ]
}

/// A lifetime label and its seconds agree: `"N minutes"` lasts `N * 60`
/// seconds, `"1 hour"` lasts 3600 and `"N hours"` lasts `N * 3600`.
pub open spec fn label_agrees(label: Seq<char>, secs: nat) -> bool {
    ||| exists|n: nat| label == #[trigger] decimal(n) + " minutes"@ && secs == n * 60
    ||| label == "1 hour"@ && secs == 3600
    ||| exists|n: nat| label == #[trigger] decimal(n) + " hours"@ && secs == n * 3600
}

/// Every expiry choice lasts as long as its label says.
pub proof fn lemma_expiry_labels_agree()
    ensures
        forall|i: int|
            0 <= i < expiry_choices().len() ==> label_agrees(
                #[trigger] expiry_choices()[i].0,
                expiry_choices()[i].1 as nat,
            ),
{
    reveal_strlit("5 minutes");
    reveal_strlit("10 minutes");
    reveal_strlit("15 minutes");
    reveal_strlit("30 minutes");
    reveal_strlit("1 hour");
    reveal_strlit("2 hours");
    reveal_strlit(" minutes");
    reveal_strlit(" hours");
    assert(decimal(5) =~= seq!['5']);
    assert(decimal(1) =~= seq!['1']);
    assert(decimal(3) =~= seq!['3']);
    assert(decimal(2) =~= seq!['2']);
    assert(decimal(0) =~= seq!['0']);
    assert(decimal(10) =~= seq!['1', '0']);
    assert(decimal(15) =~= seq!['1', '5']);
    assert(decimal(30) =~= seq!['3', '0']);
    assert("5 minutes"@ =~= decimal(5) + " minutes"@);
    assert("10 minutes"@ =~= decimal(10) + " minutes"@);
    assert("15 minutes"@ =~= decimal(15) + " minutes"@);
    assert("30 minutes"@ =~= decimal(30) + " minutes"@);
    assert("2 hours"@ =~= decimal(2) + " hours"@);
    assert forall|i: int|
        0 <= i < expiry_choices().len() implies label_agrees(
            #[trigger] expiry_choices()[i].0,
            expiry_choices()[i].1 as nat,
        ) by {
        if i == 0 {
            assert(label_agrees(expiry_choices()[0].0, 300));
        } else if i == 1 {
            assert(label_agrees(expiry_choices()[1].0, 600));
        } else if i == 2 {
            assert(label_agrees(expiry_choices()[2].0, 900));
        } else if i == 3 {
            assert(label_agrees(expiry_choices()[3].0, 1800));
        } else if i == 5 {
            assert(label_agrees(expiry_choices()[5].0, 7200));
        }
    }
}

/// Position of the Generate button in the settings pane (0 expiry, 1 PIN
/// on/off, 2 PIN digits, 3 download limit, 4 generate).
pub const GENERATE_ROW: usize = 4;

/// The settings pane of the configurator.
pub struct ConfigState {
    pub expiry_options: Vec<(&'static str, u64)>,
    pub expiry_index: usize,
    pub pin_enabled: bool,
    pub pin_code: String,
    pub once: bool,
    pub config_cursor: usize,
}

/// `c` is an ASCII digit.
pub open spec fn is_pin_digit(c: char) -> bool {
    '0' <= c && c <= '9'
}

impl ConfigState {
    /// The labels and seconds of the expiry options.
    pub open spec fn options(&self) -> Seq<(Seq<char>, u64)> {
        self.expiry_options@.map_values(|o: (&'static str, u64)| (o.0@, o.1))
    }

    /// The expiry index points at an option, the cursor at a row, and the
    /// PIN has at most four digits.
    pub open spec fn well_formed(&self) -> bool {
        &&& self.options() == expiry_choices()
        &&& self.expiry_index < self.expiry_options@.len()
        &&& self.config_cursor <= GENERATE_ROW
        &&& self.pin_code@.len() <= 4
        &&& forall|i: int| 0 <= i < self.pin_code@.len() ==> is_pin_digit(#[trigger] self.pin_code@[i])
    }

    /// The defaults: 15 minutes, no PIN, one-time download, cursor on the
    /// expiry row.
    pub fn new() -> (r: ConfigState)
        ensures
            r.well_formed(),
            r.expiry_index == 2,
            !r.pin_enabled,
            r.pin_code@ == Seq::<char>::empty(),
            r.once,
            r.config_cursor == 0,
    {
        let mut options: Vec<(&'static str, u64)> = Vec::new();
        options.push(("5 minutes", 300));
        options.push(("10 minutes", 600));
        options.push(("15 minutes", 900));
        options.push(("30 minutes", 1800));
        options.push(("1 hour", 3600));
        options.push(("2 hours", 7200));
        let r = ConfigState {
            expiry_options: options,
            expiry_index: 2,
            pin_enabled: false,
            pin_code: String::new(),
            once: true,
            config_cursor: 0,
        };
        assert(r.options() =~= expiry_choices());
        r
    }

    /// The chosen link lifetime in seconds.
    pub fn current_duration(&self) -> (r: u64)
        requires
            self.well_formed(),
        ensures
            r == expiry_choices()[self.expiry_index as int].1,
            label_agrees(self.options()[self.expiry_index as int].0, r as nat),
    {
        proof {
            lemma_expiry_labels_agree();
        }
        assert(self.options()[self.expiry_index as int].1 == self.expiry_options@[self.expiry_index as int].1);
        self.expiry_options[self.expiry_index].1
    }

    /// The label of the chosen link lifetime.
    pub fn current_duration_str(&self) -> (r: &'static str)
        requires
            self.well_formed(),
        ensures
            r@ == expiry_choices()[self.expiry_index as int].0,
    {
        assert(self.options()[self.expiry_index as int].0 == self.expiry_options@[self.expiry_index as int].0@);
        self.expiry_options[self.expiry_index].0
    }

    /// Moves the settings cursor up, wrapping from the first row to Generate.
    pub fn cursor_up(&mut self)
        requires
            old(self).well_formed(),
        ensures
            final(self).well_formed(),
            final(self).config_cursor == if old(self).config_cursor > 0 {
                (old(self).config_cursor - 1) as usize
            } else {
                GENERATE_ROW
            },
            final(self).expiry_index == old(self).expiry_index,
            final(self).pin_enabled == old(self).pin_enabled,
            final(self).pin_code@ == old(self).pin_code@,
            final(self).once == old(self).once,
    {
        if self.config_cursor > 0 {
            self.config_cursor = self.config_cursor - 1;
        } else {
            self.config_cursor = GENERATE_ROW;
        }
    }

    /// Moves the settings cursor down, wrapping from Generate to the first row.
    pub fn cursor_down(&mut self)
        requires
            old(self).well_formed(),
        ensures
            final(self).well_formed(),
            final(self).config_cursor == if old(self).config_cursor < GENERATE_ROW {
                (old(self).config_cursor + 1) as usize
            } else {
                0
            },
            final(self).expiry_index == old(self).expiry_index,
            final(self).pin_enabled == old(self).pin_enabled,
            final(self).pin_code@ == old(self).pin_code@,
            final(self).once == old(self).once,
    {
        if self.config_cursor < GENERATE_ROW {
            self.config_cursor = self.config_cursor + 1;
        } else {
            self.config_cursor = 0;
        }
    }

    /// Left arrow: on the expiry row picks the previous option (wrapping to
    /// the last); on the PIN and limit rows toggles them.
    pub fn press_left(&mut self)
        requires
            old(self).well_formed(),
        ensures
            final(self).well_formed(),
            final(self).expiry_index == if old(self).config_cursor == 0 {
                if old(self).expiry_index > 0 {
                    (old(self).expiry_index - 1) as usize
                } else {
                    (old(self).expiry_options@.len() - 1) as usize
                }
            } else {
                old(self).expiry_index
            },
            final(self).pin_enabled == (old(self).pin_enabled != (old(self).config_cursor == 1)),
            final(self).once == (old(self).once != (old(self).config_cursor == 3)),
            final(self).pin_code@ == old(self).pin_code@,
            final(self).config_cursor == old(self).config_cursor,
    {
        if self.config_cursor == 0 {
            if self.expiry_index > 0 {
                self.expiry_index = self.expiry_index - 1;
            } else {
                self.expiry_index = self.expiry_options.len() - 1;
            }
        } else if self.config_cursor == 1 {
            self.pin_enabled = !self.pin_enabled;
        } else if self.config_cursor == 3 {
            self.once = !self.once;
        }
    }

    /// Right arrow: on the expiry row picks the next option (wrapping to
    /// the first); on the PIN and limit rows toggles them.
    pub fn press_right(&mut self)
        requires
            old(self).well_formed(),
        ensures
            final(self).well_formed(),
            final(self).expiry_index == if old(self).config_cursor == 0 {
                if old(self).expiry_index + 1 < old(self).expiry_options@.len() {
                    (old(self).expiry_index + 1) as usize
                } else {
                    0
                }
            } else {
                old(self).expiry_index
            },
            final(self).pin_enabled == (old(self).pin_enabled != (old(self).config_cursor == 1)),
            final(self).once == (old(self).once != (old(self).config_cursor == 3)),
            final(self).pin_code@ == old(self).pin_code@,
            final(self).config_cursor == old(self).config_cursor,
    {
        if self.config_cursor == 0 {
            if self.expiry_index < self.expiry_options.len() - 1 {
                self.expiry_index = self.expiry_index + 1;
            } else {
                self.expiry_index = 0;
            }
        } else if self.config_cursor == 1 {
            self.pin_enabled = !self.pin_enabled;
        } else if self.config_cursor == 3 {
            self.once = !self.once;
        }
    }

    /// A digit key: appended to the PIN while the PIN row is selected, the
    /// PIN is enabled and has fewer than four digits.
    pub fn type_digit(&mut self, c: char)
        requires
            old(self).well_formed(),
            is_pin_digit(c),
        ensures
            final(self).well_formed(),
            final(self).pin_code@ == if old(self).config_cursor == 2 && old(self).pin_enabled
                && old(self).pin_code@.len() < 4 {
                old(self).pin_code@.push(c)
            } else {
                old(self).pin_code@
            },
            final(self).expiry_index == old(self).expiry_index,
            final(self).pin_enabled == old(self).pin_enabled,
            final(self).once == old(self).once,
            final(self).config_cursor == old(self).config_cursor,
    {
        if self.config_cursor == 2 && self.pin_enabled && self.pin_code.as_str().unicode_len() < 4 {
            push_char(&mut self.pin_code, c);
            assert(forall|i: int|
                0 <= i < self.pin_code@.len() ==> is_pin_digit(#[trigger] self.pin_code@[i]));
        }
    }

    /// Backspace on the PIN row removes the last PIN digit.
    pub fn erase_digit(&mut self)
        requires
            old(self).well_formed(),
        ensures
            final(self).well_formed(),
            final(self).pin_code@ == if old(self).config_cursor == 2 && old(self).pin_code@.len() > 0 {
                old(self).pin_code@.drop_last()
            } else {
                old(self).pin_code@
            },
            final(self).expiry_index == old(self).expiry_index,
            final(self).pin_enabled == old(self).pin_enabled,
            final(self).once == old(self).once,
            final(self).config_cursor == old(self).config_cursor,
    {
        if self.config_cursor == 2 {
            let n = self.pin_code.as_str().unicode_len();
            if n > 0 {
                let shorter = String::from_str(self.pin_code.as_str().substring_char(0, n - 1));
                assert(shorter@ =~= old(self).pin_code@.drop_last());
                self.pin_code = shorter;
            }
        }
    }

    /// The PIN the share will require: the typed digits when the PIN is
    /// enabled and complete, otherwise none.
    pub fn chosen_pin(&self) -> (r: Option<String>)
        ensures
            match r {
                Some(p) => self.pin_enabled && self.pin_code@.len() == 4 && p@ == self.pin_code@,
                None => !(self.pin_enabled && self.pin_code@.len() == 4),
            },
    {
        if self.pin_enabled && self.pin_code.as_str().unicode_len() == 4 {
            Some(self.pin_code.clone())
        } else {
            None
        }
    }

    /// The share settings for the selected paths, or nothing while no path
    /// is selected.
    pub fn build_share(&self, selected_paths: Vec<PathBuf>) -> (r: Option<ShareConfig>)
        requires
            self.well_formed(),
        ensures
            match r {
                Some(c) => {
                    &&& selected_paths@.len() > 0
                    &&& c.selected_paths@ == selected_paths@
                    &&& c.expires == expiry_choices()[self.expiry_index as int].1
                    &&& c.once == self.once
                    &&& match c.pin {
                        Some(p) => self.pin_enabled && self.pin_code@.len() == 4 && p@ == self.pin_code@,
                        None => !(self.pin_enabled && self.pin_code@.len() == 4),
                    }
                },
                None => selected_paths@.len() == 0,
            },
    {
        if selected_paths.len() == 0 {
            return None;
        }
        Some(
            ShareConfig {
                selected_paths,
                expires: self.current_duration(),
                once: self.once,
                pin: self.chosen_pin(),
            },
        )
    }
}

/// The list cursor after an upward move, wrapping from the top to the last
/// of `n` entries.
pub fn wrap_up(cursor: usize, n: usize) -> (r: usize)
    ensures
        r == if cursor > 0 {
            (cursor - 1) as usize
        } else if n > 0 {
            (n - 1) as usize
        } else {
            cursor
        },
{
    if cursor > 0 {
        cursor - 1
    } else if n > 0 {
        n - 1
    } else {
        cursor
    }
}

/// The list cursor after a downward move, wrapping from the last of `n`
/// entries to the top.
pub fn wrap_down(cursor: usize, n: usize) -> (r: usize)
    ensures
        r == if n == 0 {
            cursor
        } else if cursor + 1 < n {
            (cursor + 1) as usize
        } else {
            0
        },
{
    if n == 0 {
        cursor
    } else if cursor < n - 1 {
        cursor + 1
    } else {
        0
    }
}

// ─── The configurator screen ────────────────────────────────────────────────

/// The pane that takes the arrow keys.
#[derive(Debug, Clone, Copy, PartialEq, Eq, Structural)]
pub enum ConfigPane {
    Files,
    Settings,
}

/// The keys the configurator reacts to (q/Esc, s, Tab, Up/j, Down/k,
/// Space, Enter, Backspace, Left, Right, and a typed character).
#[derive(Debug, Clone, Copy, PartialEq, Eq, Structural)]
pub enum ConfiguratorKey {
    Quit,
    Share,
    Tab,
    Up,
    Down,
    Space,
    Enter,
    Backspace,
    Left,
    Right,
    Digit(char),
}

/// What the caller does after a key: keep going, leave without a share,
/// leave with these settings, or show the listing of another directory.
#[derive(Debug)]
pub enum ConfiguratorAction {
    Stay,
    Cancel,
    Share(ShareConfig),
    OpenDir(PathBuf),
    GoUp(PathBuf),
}

/// The configurator: the file pane, the settings pane and which of them
/// has the focus.
pub struct ConfiguratorScreen {
    pub browser: FileBrowserState,
    pub settings: ConfigState,
    pub pane: ConfigPane,
}

/// What `Path::parent` returns for a path.
pub uninterp spec fn parent_of(p: PathBuf) -> Option<PathBuf>;

/// The directory above `p` (`Path::parent`, owned), or `None` at a root.
#[verifier::external_body]
fn path_parent(p: &PathBuf) -> (r: Option<PathBuf>)
    ensures
        r == parent_of(*p),
{
    match p.parent() {
        Some(q) => Some(q.to_path_buf()),
        None => None,
    }
}

/// The paths of the selected entries, in the order of the listing.
pub open spec fn selected_paths_spec(b: FileBrowserState) -> Seq<PathBuf> {
    selected_below(b.selected@, b.entries@.len() as int).map_values(
        |i: usize| b.entries@[i as int].path,
    )
}

/// The paths of the selected entries, in the order of the listing.
pub fn selected_paths(b: &FileBrowserState) -> (r: Vec<PathBuf>)
    ensures
        r@ == selected_paths_spec(*b),
{
    let idx = selected_indices(b);
    let mut out: Vec<PathBuf> = Vec::new();
    let mut k: usize = 0;
    while k < idx.len()
        invariant
            k <= idx@.len(),
            idx@ == selected_below(b.selected@, b.entries@.len() as int),
            forall|j: int| 0 <= j < idx@.len() ==> #[trigger] idx@[j] < b.entries@.len(),
            out@ == idx@.take(k as int).map_values(|i: usize| b.entries@[i as int].path),
        decreases idx@.len() - k,
    {
        let i = idx[k];
        let p = b.entries[i].path.clone();
        out.push(p);
        assert(idx@.take(k + 1) =~= idx@.take(k as int).push(i));
        assert(out@ =~= idx@.take(k + 1).map_values(|i: usize| b.entries@[i as int].path));
        k = k + 1;
    }
    assert(idx@.take(idx@.len() as int) =~= idx@);
    out
}

/// The outcome of asking for the link with these settings and paths: the
/// share settings when a path is selected, otherwise nothing happens.
pub open spec fn share_outcome(s: ConfigState, paths: Seq<PathBuf>, r: ConfiguratorAction) -> bool {
    if paths.len() > 0 {
        &&& r matches ConfiguratorAction::Share(c)
        &&& c.selected_paths@ == paths
        &&& c.expires == expiry_choices()[s.expiry_index as int].1
        &&& c.once == s.once
        &&& match c.pin {
            Some(p) => s.pin_enabled && s.pin_code@.len() == 4 && p@ == s.pin_code@,
            None => !(s.pin_enabled && s.pin_code@.len() == 4),
        }
    } else {
        r is Stay
    }
}

/// The settings a user sees: expiry index, PIN on/off, PIN digits,
/// one-time download, and the settings cursor.
pub open spec fn settings_view(s: ConfigState) -> (usize, bool, Seq<char>, bool, usize) {
    (s.expiry_index, s.pin_enabled, s.pin_code@, s.once, s.config_cursor)
}

/// The settings after `key` while the settings pane has the focus.
pub open spec fn settings_after(s: ConfigState, key: ConfiguratorKey) -> (usize, bool, Seq<char>, bool, usize) {
    let (e, p, code, once, c) = settings_view(s);
    let last = (expiry_choices().len() - 1) as usize;
    match key {
        ConfiguratorKey::Up => (e, p, code, once, if c > 0 { (c - 1) as usize } else { GENERATE_ROW }),
        ConfiguratorKey::Down => (e, p, code, once, if c < GENERATE_ROW { (c + 1) as usize } else { 0 }),
        ConfiguratorKey::Left => (
            if c == 0 { if e > 0 { (e - 1) as usize } else { last } } else { e },
            p != (c == 1),
            code,
            once != (c == 3),
            c,
        ),
        ConfiguratorKey::Right => (
            if c == 0 { if e < last { (e + 1) as usize } else { 0 } } else { e },
            p != (c == 1),
            code,
            once != (c == 3),
            c,
        ),
        ConfiguratorKey::Backspace => (
            e,
            p,
            if c == 2 && code.len() > 0 { code.drop_last() } else { code },
            once,
            c,
        ),
        ConfiguratorKey::Digit(d) => (
            e,
            p,
            if is_pin_digit(d) && c == 2 && p && code.len() < 4 { code.push(d) } else { code },
            once,
            c,
        ),
        _ => (e, p, code, once, c),
    }
}

/// The browser with its cursor at `c`.
pub open spec fn browser_at(b: FileBrowserState, c: usize) -> FileBrowserState {
    FileBrowserState {
        current_path: b.current_path,
        entries: b.entries,
        cursor: c,
        selected: b.selected,
        scroll_offset: b.scroll_offset,
    }
}

/// The selection after toggling the entry under the cursor.
pub open spec fn toggled(b: FileBrowserState) -> Set<usize> {
    if b.cursor < b.entries@.len() {
        if b.selected@.contains(b.cursor) {
            b.selected@.remove(b.cursor)
        } else {
            b.selected@.insert(b.cursor)
        }
    } else {
        b.selected@
    }
}

/// `after` is `before` with the entry under the cursor toggled.
pub open spec fn toggle_step(before: FileBrowserState, after: FileBrowserState) -> bool {
    &&& after.selected@ == toggled(before)
    &&& after.entries == before.entries
    &&& after.cursor == before.cursor
    &&& after.current_path == before.current_path
    &&& after.scroll_offset == before.scroll_offset
}

/// The entry under the cursor is the link to the parent directory.
pub open spec fn on_parent_link(b: FileBrowserState) -> bool {
    b.cursor < b.entries@.len() && b.entries@[b.cursor as int].name@ == ".."@
}

/// Every entry named `..` in the listing is a directory.
pub open spec fn parent_links_are_dirs(b: FileBrowserState) -> bool {
    forall|i: int|
        0 <= i < b.entries@.len() && #[trigger] b.entries@[i].name@ == ".."@ ==> b.entries@[i].is_dir
}

/// No selected entry is the link to the parent directory.
pub open spec fn parent_link_unselected(b: FileBrowserState) -> bool {
    forall|i: usize|
        #[trigger] b.selected@.contains(i) && i < b.entries@.len() ==> b.entries@[i as int].name@
            != ".."@
}

impl ConfiguratorScreen {
    /// The configurator over a listing, focus on the file pane, default
    /// settings.
    pub fn new(browser: FileBrowserState) -> (r: ConfiguratorScreen)
        ensures
            r.browser == browser,
            r.settings.well_formed(),
            settings_view(r.settings) == (2usize, false, Seq::<char>::empty(), true, 0usize),
            r.pane == ConfigPane::Files,
    {
        ConfiguratorScreen { browser, settings: ConfigState::new(), pane: ConfigPane::Files }
    }

    fn share(&self) -> (r: ConfiguratorAction)
        requires
            self.settings.well_formed(),
        ensures
            share_outcome(self.settings, selected_paths_spec(self.browser), r),
    {
        match self.settings.build_share(selected_paths(&self.browser)) {
            Some(c) => ConfiguratorAction::Share(c),
            None => ConfiguratorAction::Stay,
        }
    }

    /// Handles one key. `OpenDir` and `GoUp` name the directory whose
    /// listing the caller reads and hands to `FileBrowserState::set_listing`;
    /// the screen itself is unchanged by them.
    pub fn on_key(&mut self, key: ConfiguratorKey) -> (r: ConfiguratorAction)
        requires
            old(self).settings.well_formed(),
        ensures
            final(self).settings.well_formed(),
            parent_links_are_dirs(old(self).browser) && parent_link_unselected(old(self).browser)
                ==> parent_link_unselected(final(self).browser),
            final(self).pane == if key is Tab {
                if old(self).pane == ConfigPane::Files {
                    ConfigPane::Settings
                } else {
                    ConfigPane::Files
                }
            } else {
                old(self).pane
            },
            match key {
                ConfiguratorKey::Quit => r is Cancel && *final(self) == *old(self),
                ConfiguratorKey::Share => share_outcome(
                    old(self).settings,
                    selected_paths_spec(old(self).browser),
                    r,
                ) && *final(self) == *old(self),
                ConfiguratorKey::Tab => r is Stay && final(self).browser == old(self).browser
                    && final(self).settings == old(self).settings,
                ConfiguratorKey::Up | ConfiguratorKey::Down => r is Stay && if old(self).pane
                    == ConfigPane::Files {
                    let b = old(self).browser;
                    let n = b.entries@.len();
                    let c = b.cursor;
                    final(self).settings == old(self).settings && final(self).browser == browser_at(
                        b,
                        if key is Up {
                            if c > 0 {
                                (c - 1) as usize
                            } else if n > 0 {
                                (n - 1) as usize
                            } else {
                                c
                            }
                        } else {
                            if n == 0 {
                                c
                            } else if c + 1 < n {
                                (c + 1) as usize
                            } else {
                                0
                            }
                        },
                    )
                } else {
                    final(self).browser == old(self).browser && settings_view(final(self).settings)
                        == settings_after(old(self).settings, key)
                },
                ConfiguratorKey::Space => r is Stay && final(self).settings == old(self).settings
                    && if old(self).pane == ConfigPane::Files && !on_parent_link(old(self).browser) {
                    toggle_step(old(self).browser, final(self).browser)
                } else {
                    final(self).browser == old(self).browser
                },
                ConfiguratorKey::Enter => if old(self).pane == ConfigPane::Files {
                    let b = old(self).browser;
                    final(self).settings == old(self).settings && if b.cursor < b.entries@.len()
                        && b.entries@[b.cursor as int].is_dir {
                        r == ConfiguratorAction::OpenDir(b.entries@[b.cursor as int].path)
                            && final(self).browser == b
                    } else {
                        r is Stay && toggle_step(b, final(self).browser)
                    }
                } else {
                    *final(self) == *old(self) && if old(self).settings.config_cursor
                        == GENERATE_ROW {
                        share_outcome(old(self).settings, selected_paths_spec(old(self).browser), r)
                    } else {
                        r is Stay
                    }
                },
                ConfiguratorKey::Backspace => if old(self).pane == ConfigPane::Files {
                    *final(self) == *old(self) && r == match parent_of(
                        old(self).browser.current_path,
                    ) {
                        Some(p) => ConfiguratorAction::GoUp(p),
                        None => ConfiguratorAction::Stay,
                    }
                } else {
                    r is Stay && final(self).browser == old(self).browser && settings_view(
                        final(self).settings,
                    ) == settings_after(old(self).settings, key)
                },
                ConfiguratorKey::Left | ConfiguratorKey::Right | ConfiguratorKey::Digit(_) => r is Stay
                    && final(self).browser == old(self).browser && if old(self).pane
                    == ConfigPane::Settings {
                    settings_view(final(self).settings) == settings_after(old(self).settings, key)
                } else {
                    final(self).settings == old(self).settings
                },
            },
    {
        match key {
            ConfiguratorKey::Quit => ConfiguratorAction::Cancel,
            ConfiguratorKey::Share => self.share(),
            ConfiguratorKey::Tab => {
                self.pane = match self.pane {
                    ConfigPane::Files => ConfigPane::Settings,
                    ConfigPane::Settings => ConfigPane::Files,
                };
                ConfiguratorAction::Stay
            },
            ConfiguratorKey::Up => {
                match self.pane {
                    ConfigPane::Files => {
                        let n = self.browser.entries.len();
                        self.browser.cursor = wrap_up(self.browser.cursor, n);
                    },
                    ConfigPane::Settings => self.settings.cursor_up(),
                }
                ConfiguratorAction::Stay
            },
            ConfiguratorKey::Down => {
                match self.pane {
                    ConfigPane::Files => {
                        let n = self.browser.entries.len();
                        self.browser.cursor = wrap_down(self.browser.cursor, n);
                    },
                    ConfigPane::Settings => self.settings.cursor_down(),
                }
                ConfiguratorAction::Stay
            },
            ConfiguratorKey::Space => {
                if self.pane == ConfigPane::Files {
                    let c = self.browser.cursor;
                    let parent_link = c < self.browser.entries.len() && str_eq(
                        self.browser.entries[c].name.as_str(),
                        "..",
                    );
                    if !parent_link {
                        self.browser.toggle_select();
                    }
                }
                ConfiguratorAction::Stay
            },
            ConfiguratorKey::Enter => {
                match self.pane {
                    ConfigPane::Files => {
                        let c = self.browser.cursor;
                        if c < self.browser.entries.len() && self.browser.entries[c].is_dir {
                            ConfiguratorAction::OpenDir(self.browser.entries[c].path.clone())
                        } else {
                            self.browser.toggle_select();
                            ConfiguratorAction::Stay
                        }
                    },
                    ConfigPane::Settings => {
                        if self.settings.config_cursor == GENERATE_ROW {
                            self.share()
                        } else {
                            ConfiguratorAction::Stay
                        }
                    },
                }
            },
            ConfiguratorKey::Backspace => {
                match self.pane {
                    ConfigPane::Files => match path_parent(&self.browser.current_path) {
                        Some(p) => ConfiguratorAction::GoUp(p),
                        None => ConfiguratorAction::Stay,
                    },
                    ConfigPane::Settings => {
                        self.settings.erase_digit();
                        ConfiguratorAction::Stay
                    },
                }
            },
            ConfiguratorKey::Left => {
                if self.pane == ConfigPane::Settings {
                    self.settings.press_left();
                }
                ConfiguratorAction::Stay
            },
            ConfiguratorKey::Right => {
                if self.pane == ConfigPane::Settings {
                    self.settings.press_right();
                }
                ConfiguratorAction::Stay
            },
            ConfiguratorKey::Digit(d) => {
                if self.pane == ConfigPane::Settings && '0' <= d && d <= '9' {
                    self.settings.type_digit(d);
                }
                ConfiguratorAction::Stay
            },
        }
    }
}

} // verus!
