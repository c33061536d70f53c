use std::path::PathBuf;

use filedrop::configurator::{
    ConfigPane, ConfiguratorAction, ConfiguratorKey, ConfiguratorScreen, GENERATE_ROW,
};
use filedrop::tui_state::{FileBrowserState, FileEntry};

fn entry(name: &str, is_dir: bool, path: &str) -> FileEntry {
    FileEntry { name: name.to_string(), is_dir, size: 10, path: PathBuf::from(path) }
}

fn screen() -> ConfiguratorScreen {
    let entries = vec![
        entry("..", true, "/home"),
        entry("sub", true, "/home/u/sub"),
        entry("a.txt", false, "/home/u/a.txt"),
        entry("b.txt", false, "/home/u/b.txt"),
    ];
    ConfiguratorScreen::new(FileBrowserState::new(PathBuf::from("/home/u"), entries))
}

#[test]
fn quit_cancels_and_share_needs_a_selection() {
    let mut s = screen();
    assert!(matches!(s.on_key(ConfiguratorKey::Quit), ConfiguratorAction::Cancel));
    assert!(matches!(s.on_key(ConfiguratorKey::Share), ConfiguratorAction::Stay));
    assert_eq!(s.pane, ConfigPane::Files);
}

#[test]
fn file_pane_moves_toggles_and_opens() {
    let mut s = screen();
    // The parent link cannot be selected.
    assert!(matches!(s.on_key(ConfiguratorKey::Space), ConfiguratorAction::Stay));
    assert!(s.browser.selected.is_empty());
    // Up from the top wraps to the last entry.
    s.on_key(ConfiguratorKey::Up);
    assert_eq!(s.browser.cursor, 3);
    // Down from the last entry wraps to the top.
    s.on_key(ConfiguratorKey::Down);
    assert_eq!(s.browser.cursor, 0);
    s.on_key(ConfiguratorKey::Down);
    match s.on_key(ConfiguratorKey::Enter) {
        ConfiguratorAction::OpenDir(p) => assert_eq!(p, PathBuf::from("/home/u/sub")),
        _ => panic!("Enter on a directory opens it"),
    }
    assert_eq!(s.browser.current_path, PathBuf::from("/home/u"));
    s.on_key(ConfiguratorKey::Down);
    s.on_key(ConfiguratorKey::Space);
    s.on_key(ConfiguratorKey::Down);
    s.on_key(ConfiguratorKey::Enter);
    assert!(s.browser.selected.contains(&2) && s.browser.selected.contains(&3));
    s.on_key(ConfiguratorKey::Space);
    assert!(!s.browser.selected.contains(&3));
    s.on_key(ConfiguratorKey::Space);
    match s.on_key(ConfiguratorKey::Share) {
        ConfiguratorAction::Share(c) => {
            assert_eq!(c.selected_paths, vec![PathBuf::from("/home/u/a.txt"), PathBuf::from("/home/u/b.txt")]);
            assert_eq!(c.expires, 900);
            assert!(c.once);
            assert_eq!(c.pin, None);
        }
        _ => panic!("s shares the selection"),
    }
}

#[test]
fn backspace_in_the_file_pane_goes_up() {
    let mut s = screen();
    match s.on_key(ConfiguratorKey::Backspace) {
        ConfiguratorAction::GoUp(p) => assert_eq!(p, PathBuf::from("/home")),
        _ => panic!("Backspace goes to the parent directory"),
    }
    let mut root = ConfiguratorScreen::new(FileBrowserState::new(PathBuf::from("/"), Vec::new()));
    assert!(matches!(root.on_key(ConfiguratorKey::Backspace), ConfiguratorAction::Stay));
}

#[test]
fn settings_pane_sets_pin_expiry_and_generates() {
    let mut s = screen();
    s.on_key(ConfiguratorKey::Down);
    s.on_key(ConfiguratorKey::Down);
    s.on_key(ConfiguratorKey::Space);
    s.on_key(ConfiguratorKey::Tab);
    assert_eq!(s.pane, ConfigPane::Settings);
    // Arrows now move the settings cursor, not the file cursor.
    s.on_key(ConfiguratorKey::Left);
    assert_eq!(s.settings.expiry_index, 1);
    s.on_key(ConfiguratorKey::Right);
    s.on_key(ConfiguratorKey::Right);
    assert_eq!(s.settings.expiry_index, 3);
    s.on_key(ConfiguratorKey::Down);
    s.on_key(ConfiguratorKey::Right);
    assert!(s.settings.pin_enabled);
    s.on_key(ConfiguratorKey::Down);
    for c in ['1', '2', '3', '4', '5'] {
        s.on_key(ConfiguratorKey::Digit(c));
    }
    assert_eq!(s.settings.pin_code, "1234");
    s.on_key(ConfiguratorKey::Backspace);
    s.on_key(ConfiguratorKey::Digit('9'));
    assert_eq!(s.settings.pin_code, "1239");
    assert_eq!(s.browser.cursor, 2);
    // Enter away from the Generate row does nothing.
    assert!(matches!(s.on_key(ConfiguratorKey::Enter), ConfiguratorAction::Stay));
    s.on_key(ConfiguratorKey::Up);
    s.on_key(ConfiguratorKey::Up);
    s.on_key(ConfiguratorKey::Up);
    assert_eq!(s.settings.config_cursor, GENERATE_ROW);
    match s.on_key(ConfiguratorKey::Enter) {
        ConfiguratorAction::Share(c) => {
            assert_eq!(c.selected_paths, vec![PathBuf::from("/home/u/a.txt")]);
            assert_eq!(c.expires, 1800);
            assert_eq!(c.pin, Some("1239".to_string()));
        }
        _ => panic!("Generate shares the selection"),
    }
    s.on_key(ConfiguratorKey::Tab);
    assert_eq!(s.pane, ConfigPane::Files);
}
