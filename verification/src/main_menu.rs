//! The interactive main menu: its entries, cursor movement, and the action
//! the chosen entry stands for. Drawing it and reading keys live outside
//! the library.
use vstd::prelude::*;
use crate::tui_state::KeyInput;

verus! {

/// A sub-command the main menu can start.
#[derive(Debug, Clone, Copy, PartialEq, Eq, Structural)]
pub enum MenuCommand {
    /// Receive files from the phone (router mode chosen later, one device,
    /// no encryption).
    Receive,
    /// Share files with the phone (everything chosen in the configurator).
    Share,
    /// Pair a new device.
    Pair,
    /// List paired devices.
    Peers,
    /// Show the hotspot guide (no automatic setup).
    Hotspot,
}

/// What the user chose in the main menu.
#[derive(Debug, Clone, Copy, PartialEq, Eq, Structural)]
pub enum MenuAction {
    /// Run a sub-command.
    RunCommand(MenuCommand),
    /// Install FileDrop on the system path.
    Install,
    /// Leave.
    Exit,
}

/// Number of menu entries.
pub const MENU_LEN: usize = 7;

/// The menu entries, top to bottom.
pub open spec fn menu_labels() -> Seq<Seq<char>> {
    seq![
        "Receive Files (From Phone)"@,
        "Share Files (To Phone)"@,
        "Pair New Device"@,
        "List Paired Devices"@,
        "Setup Hotspot (Direct Connection)"@,
        "Install FileDrop (Add to System PATH)"@,
        "Exit"@,
    ]
}

/// The menu entries, top to bottom.
pub fn menu_options() -> (r: Vec<&'static str>)
    ensures
        r@.len() == MENU_LEN,
        forall|i: int| 0 <= i < MENU_LEN ==> #[trigger] r@[i]@ == menu_labels()[i],
{
    let mut v: Vec<&'static str> = Vec::new();
    v.push("Receive Files (From Phone)");
    v.push("Share Files (To Phone)");
    v.push("Pair New Device");
    v.push("List Paired Devices");
    v.push("Setup Hotspot (Direct Connection)");
    v.push("Install FileDrop (Add to System PATH)");
    v.push("Exit");
    v
}

/// The action an entry stands for; the last entry and anything past it
/// leave.
pub open spec fn action_of(index: nat) -> MenuAction {
    if index == 0 {
        MenuAction::RunCommand(MenuCommand::Receive)
    } else if index == 1 {
        MenuAction::RunCommand(MenuCommand::Share)
    } else if index == 2 {
        MenuAction::RunCommand(MenuCommand::Pair)
    } else if index == 3 {
        MenuAction::RunCommand(MenuCommand::Peers)
    } else if index == 4 {
        MenuAction::RunCommand(MenuCommand::Hotspot)
    } else if index == 5 {
        MenuAction::Install
    } else {
        MenuAction::Exit
    }
}

/// The entry at `index` does what its label says: receiving, sharing,
/// pairing, listing peers, the hotspot guide, installing, or leaving.
pub open spec fn does_what_it_says(index: nat, a: MenuAction) -> bool {
    let l = menu_labels()[index as int];
    &&& l == "Receive Files (From Phone)"@ ==> a == MenuAction::RunCommand(MenuCommand::Receive)
    &&& l == "Share Files (To Phone)"@ ==> a == MenuAction::RunCommand(MenuCommand::Share)
    &&& l == "Pair New Device"@ ==> a == MenuAction::RunCommand(MenuCommand::Pair)
    &&& l == "List Paired Devices"@ ==> a == MenuAction::RunCommand(MenuCommand::Peers)
    &&& l == "Setup Hotspot (Direct Connection)"@ ==> a == MenuAction::RunCommand(
        MenuCommand::Hotspot,
    )
    &&& l == "Install FileDrop (Add to System PATH)"@ ==> a == MenuAction::Install
    &&& l == "Exit"@ ==> a == MenuAction::Exit
}

/// Every menu entry's action matches its label.
pub proof fn lemma_menu_actions_match_labels()
    ensures
        forall|i: nat| i < MENU_LEN ==> does_what_it_says(i, #[trigger] action_of(i)),
{
    reveal_strlit("Receive Files (From Phone)");
    reveal_strlit("Share Files (To Phone)");
    reveal_strlit("Pair New Device");
    reveal_strlit("List Paired Devices");
    reveal_strlit("Setup Hotspot (Direct Connection)");
    reveal_strlit("Install FileDrop (Add to System PATH)");
    reveal_strlit("Exit");
    assert forall|i: nat| i < MENU_LEN implies does_what_it_says(i, #[trigger] action_of(i)) by {
        let l = menu_labels()[i as int];
        assert(l.len() > 0);
        if i == 0 {
            assert(l =~= "Receive Files (From Phone)"@);
        } else if i == 1 {
            assert(l =~= "Share Files (To Phone)"@);
        } else if i == 2 {
            assert(l =~= "Pair New Device"@);
        } else if i == 3 {
            assert(l =~= "List Paired Devices"@);
        } else if i == 4 {
            assert(l =~= "Setup Hotspot (Direct Connection)"@);
        } else if i == 5 {
            assert(l =~= "Install FileDrop (Add to System PATH)"@);
        } else {
            assert(l =~= "Exit"@);
        }
    }
}

/// The action of the entry at `index`.
pub fn menu_action(index: usize) -> (r: MenuAction)
    ensures
        r == action_of(index as nat),
        index < MENU_LEN ==> does_what_it_says(index as nat, r),
{
    proof {
        lemma_menu_actions_match_labels();
    }
    if index == 0 {
        MenuAction::RunCommand(MenuCommand::Receive)
    } else if index == 1 {
        MenuAction::RunCommand(MenuCommand::Share)
    } else if index == 2 {
        MenuAction::RunCommand(MenuCommand::Pair)
    } else if index == 3 {
        MenuAction::RunCommand(MenuCommand::Peers)
    } else if index == 4 {
        MenuAction::RunCommand(MenuCommand::Hotspot)
    } else if index == 5 {
        MenuAction::Install
    } else {
        MenuAction::Exit
    }
}

/// The menu's cursor.
#[derive(Debug, Clone, Copy, PartialEq, Eq, Structural)]
pub struct MainMenu {
    /// The highlighted entry.
    pub selected: usize,
}

/// The cursor after a key: up and `k` move up, down and `j` move down,
/// each wrapping around; other keys leave it.
pub open spec fn moved(selected: nat, key: KeyInput) -> nat {
    match key {
        KeyInput::Up => if selected > 0 {
            (selected - 1) as nat
        } else {
            (MENU_LEN - 1) as nat
        },
        KeyInput::Char('k') => if selected > 0 {
            (selected - 1) as nat
        } else {
            (MENU_LEN - 1) as nat
        },
        KeyInput::Down => if selected < MENU_LEN - 1 {
            selected + 1
        } else {
            0
        },
        KeyInput::Char('j') => if selected < MENU_LEN - 1 {
            selected + 1
        } else {
            0
        },
        _ => selected,
    }
}

/// Enter chooses the highlighted entry; Esc, `q` and `Q` choose Exit.
pub open spec fn chosen(selected: nat, key: KeyInput) -> Option<MenuAction> {
    match key {
        KeyInput::Enter => Some(action_of(selected)),
        KeyInput::Esc => Some(MenuAction::Exit),
        KeyInput::Char('q') => Some(MenuAction::Exit),
        KeyInput::Char('Q') => Some(MenuAction::Exit),
        _ => None,
    }
}

impl MainMenu {
    /// The menu with the first entry highlighted.
    pub fn new() -> (r: MainMenu)
        ensures
            r.selected == 0,
    {
        MainMenu { selected: 0 }
    }

    /// Handles one key: moves the cursor, or returns the chosen action.
    pub fn handle_key(&mut self, key: KeyInput) -> (r: Option<MenuAction>)
        requires
            old(self).selected < MENU_LEN,
        ensures
            final(self).selected < MENU_LEN,
            r == chosen(old(self).selected as nat, key),
            key == KeyInput::Enter ==> (r matches Some(a) && does_what_it_says(
                old(self).selected as nat,
                a,
            )),
            r is None ==> final(self).selected == moved(old(self).selected as nat, key),
            r matches Some(MenuAction::Exit) && key != KeyInput::Enter ==> final(self).selected
                == MENU_LEN - 1,
    {
        proof {
            lemma_menu_actions_match_labels();
        }
        match key {
            KeyInput::Up | KeyInput::Char('k') => {
                if self.selected > 0 {
                    self.selected = self.selected - 1;
                } else {
                    self.selected = MENU_LEN - 1;
                }
                None
            },
            KeyInput::Down | KeyInput::Char('j') => {
                if self.selected < MENU_LEN - 1 {
                    self.selected = self.selected + 1;
                } else {
                    self.selected = 0;
                }
                None
            },
            KeyInput::Enter => Some(menu_action(self.selected)),
            KeyInput::Esc | KeyInput::Char('q') | KeyInput::Char('Q') => {
                self.selected = MENU_LEN - 1;
                Some(MenuAction::Exit)
            },
            _ => None,
        }
    }
}

/// How an entry is shown: a `>` marks the highlighted one.
pub open spec fn item_text(label: Seq<char>, highlighted: bool) -> Seq<char> {
    if highlighted {
        "  > "@ + label + " "@
    } else {
        "    "@ + label + " "@
    }
}

/// The text of one menu line.
pub fn menu_item_text(label: &str, highlighted: bool) -> (r: String)
    ensures
        r@ == item_text(label@, highlighted),
{
    let mut s = if highlighted {
        String::from_str("  > ")
    } else {
        String::from_str("    ")
    };
    s.append(label);
    s.append(" ");
    s
}

} // verus!
