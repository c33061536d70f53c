use filedrop::hotspot::ConnectionMode;
use filedrop::main_menu::{menu_action, menu_item_text, menu_options, MainMenu, MenuAction, MenuCommand};
use filedrop::screens::{guide_key, guide_opening, phone_url, startup_log, GuideChoice, ModeChoice, ModeSelection};
use filedrop::tui_state::{AppMode, KeyInput, LogLevel};

#[test]
fn menu_entries_and_actions() {
    let opts = menu_options();
    assert_eq!(opts.len(), 7);
    assert_eq!(opts[0], "Receive Files (From Phone)");
    assert_eq!(opts[6], "Exit");
    assert_eq!(menu_action(0), MenuAction::RunCommand(MenuCommand::Receive));
    assert_eq!(menu_action(4), MenuAction::RunCommand(MenuCommand::Hotspot));
    assert_eq!(menu_action(5), MenuAction::Install);
    assert_eq!(menu_action(6), MenuAction::Exit);
    assert_eq!(menu_item_text("Exit", true), "  > Exit ");
    assert_eq!(menu_item_text("Exit", false), "    Exit ");
}

#[test]
fn menu_cursor_wraps_and_quits() {
    let mut m = MainMenu::new();
    assert_eq!(m.handle_key(KeyInput::Up), None);
    assert_eq!(m.selected, 6);
    assert_eq!(m.handle_key(KeyInput::Char('j')), None);
    assert_eq!(m.selected, 0);
    assert_eq!(m.handle_key(KeyInput::Down), None);
    assert_eq!(m.handle_key(KeyInput::Enter), Some(MenuAction::RunCommand(MenuCommand::Share)));
    assert_eq!(m.handle_key(KeyInput::Char('x')), None);
    assert_eq!(m.handle_key(KeyInput::Char('Q')), Some(MenuAction::Exit));
    assert_eq!(m.selected, 6);
}

#[test]
fn mode_selection_keys() {
    let mut s = ModeSelection::new(Some(ConnectionMode::Hotspot));
    assert_eq!(s.handle_key(KeyInput::Enter), ModeChoice::Chosen(ConnectionMode::Router));
    assert_eq!(s.handle_key(KeyInput::Char('2')), ModeChoice::Stay);
    assert_eq!(s.handle_key(KeyInput::Enter), ModeChoice::Chosen(ConnectionMode::Hotspot));
    assert_eq!(s.handle_key(KeyInput::Char('s')), ModeChoice::Chosen(ConnectionMode::Hotspot));
    let mut t = ModeSelection::new(None);
    assert_eq!(t.handle_key(KeyInput::Char('S')), ModeChoice::Chosen(ConnectionMode::Router));
    assert_eq!(t.handle_key(KeyInput::Char('q')), ModeChoice::Quit);
}

#[test]
fn hotspot_guide_keys() {
    assert_eq!(guide_key(KeyInput::Enter, "macos"), GuideChoice::Continue);
    assert_eq!(guide_key(KeyInput::Char('Y'), "macos"), GuideChoice::Continue);
    assert_eq!(guide_key(KeyInput::Char('b'), "macos"), GuideChoice::Back);
    assert_eq!(guide_key(KeyInput::Char('a'), "linux"), GuideChoice::AutoCreate);
    assert_eq!(guide_key(KeyInput::Char('a'), "windows"), GuideChoice::Stay);
    assert_eq!(guide_key(KeyInput::Char('q'), "linux"), GuideChoice::Quit);
}

#[test]
fn startup_log_lines() {
    let ips = vec!["192.168.1.5".to_string(), "10.0.0.2".to_string()];
    let url = phone_url(&ips, 7878);
    assert_eq!(url, Some("http://192.168.1.5:7878".to_string()));
    let lines = startup_log(AppMode::Receive, true, false, &url, &ips);
    let texts: Vec<&str> = lines.iter().map(|(t, _)| t.as_str()).collect();
    assert_eq!(
        texts,
        vec![
            "FileDrop v0.5.0 — RECEIVE MODE",
            "[HOTSPOT MODE] Active — yellow badge shown",
            "📱 Open on your phone: http://192.168.1.5:7878",
            "   Alt IP: http://10.0.0.2:7878",
            "Both devices must be on the same Wi-Fi network",
            "Waiting for incoming connections...",
        ]
    );
    assert_eq!(lines[1].1, LogLevel::Warning);
    assert_eq!(lines[2].1, LogLevel::Success);
    let none = startup_log(AppMode::Receive, false, true, &None, &vec![]);
    assert_eq!(none.len(), 5);
    assert_eq!(none[1].0, "[ENC] End-to-end encryption enabled");
    let send = startup_log(AppMode::Send, false, false, &None, &vec![]);
    assert_eq!(send.len(), 2);
    assert_eq!(send[1].0, "Preparing to send files...");
    assert_eq!(phone_url(&vec![], 7878), None);
}

#[test]
fn auto_skips_the_hotspot_guide() {
    assert_eq!(guide_opening(true), Some(GuideChoice::Continue));
    assert_eq!(guide_opening(false), None);
}
