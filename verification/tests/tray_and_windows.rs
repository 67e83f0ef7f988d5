use agent_shell::autostart::Autostart;
use agent_shell::shell::Shell;
use agent_shell::tray::TrayAction;
use agent_shell::tray::TrayController;
use agent_shell::tray::TrayEffect;
use agent_shell::tray::TrayPhase;
use agent_shell::tray::autostart_label;
use agent_shell::tray::parse_menu_event;
use agent_shell::windows::WindowName;
use agent_shell::windows::WindowRegistry;

#[test]
fn menu_holds_the_three_ids_in_order() {
    let t = TrayController::build(false, true).unwrap();
    assert!(matches!(t.phase, TrayPhase::Built));
    assert_eq!(t.menu.items.len(), 3);
    assert_eq!(t.menu.items[0].id, "show");
    assert_eq!(t.menu.items[1].id, "toggle-autostart");
    assert_eq!(t.menu.items[2].id, "quit");
    assert_eq!(t.menu.items[0].label, "Show");
    assert_eq!(t.menu.items[2].label, "Quit");
}

#[test]
fn menu_ids_survive_every_click() {
    let mut s = Shell::startup(false, true, 0).unwrap();
    s.on_tray_event("show", Ok(()));
    s.on_tray_event("toggle-autostart", Ok(()));
    s.on_tray_event("someday-maybe", Ok(()));
    assert_eq!(s.tray.menu.items.len(), 3);
    assert_eq!(s.tray.menu.items[0].id, "show");
    assert_eq!(s.tray.menu.items[1].id, "toggle-autostart");
    assert_eq!(s.tray.menu.items[2].id, "quit");
}

#[test]
fn autostart_label_for_each_state() {
    assert_eq!(autostart_label(true), "Disable Autostart");
    assert_eq!(autostart_label(false), "Enable Autostart");
}

#[test]
fn tray_toggle_updates_label_on_success() {
    let mut s = Shell::startup(false, true, 0).unwrap();
    assert_eq!(s.tray.menu.items[1].label, "Enable Autostart");
    let eff = s.on_tray_event("toggle-autostart", Ok(()));
    assert_eq!(eff, TrayEffect::Carry);
    assert!(s.is_autostart_enabled());
    assert_eq!(s.tray.menu.items[1].label, "Disable Autostart");
}

#[test]
fn tray_toggle_failure_is_swallowed_and_label_kept() {
    let mut s = Shell::startup(false, true, 0).unwrap();
    let eff = s.on_tray_event("toggle-autostart", Err(String::from("os error")));
    assert_eq!(eff, TrayEffect::Carry);
    assert!(!s.is_autostart_enabled());
    assert_eq!(s.tray.menu.items[1].label, "Enable Autostart");
}

#[test]
fn tray_show_shows_and_focuses_main() {
    let mut s = Shell::startup(false, true, 0).unwrap();
    assert!(!s.windows.main.visible);
    let eff = s.on_tray_event("show", Ok(()));
    assert_eq!(eff, TrayEffect::Carry);
    assert!(s.windows.main.visible);
    assert_eq!(s.windows.focused, Some(WindowName::Main));
}

#[test]
fn unknown_menu_id_is_a_no_op() {
    let mut s = Shell::startup(false, true, 0).unwrap();
    let eff = s.on_tray_event("restart", Ok(()));
    assert_eq!(eff, TrayEffect::Carry);
    assert!(!s.windows.main.visible);
    assert!(s.windows.splash.visible);
}

#[test]
fn parse_menu_event_each_id() {
    assert_eq!(parse_menu_event("show"), TrayAction::Show);
    assert_eq!(parse_menu_event("quit"), TrayAction::Quit);
    assert_eq!(parse_menu_event("toggle-autostart"), TrayAction::ToggleAutostart);
    assert_eq!(parse_menu_event("minimize"), TrayAction::Unknown);
}

#[test]
fn build_fails_fatally_without_icon() {
    let r = TrayController::build(true, false);
    assert_eq!(r.unwrap_err(), "failed to load tray icon");
}

#[test]
fn show_and_hide_last_call_wins_and_idempotent() {
    let mut reg = WindowRegistry::startup();
    reg.show(WindowName::Main);
    reg.show(WindowName::Main);
    assert!(reg.main.visible);
    reg.hide_window(WindowName::Main);
    reg.hide_window(WindowName::Main);
    assert!(!reg.main.visible);
    reg.hide_window(WindowName::Main);
    reg.show(WindowName::Main);
    assert!(reg.main.visible);
}

#[test]
fn close_request_never_reduces_live_count() {
    let mut reg = WindowRegistry::startup();
    assert!(reg.splash.visible);
    reg.close_requested(WindowName::Splashscreen);
    assert!(reg.splash.live);
    assert!(!reg.splash.visible);
    reg.close_requested(WindowName::Splashscreen);
    assert!(reg.splash.live);
    assert!(reg.main.live);
}

#[test]
fn registry_lookup_by_name() {
    let reg = WindowRegistry::startup();
    assert_eq!(reg.get("main"), Some(WindowName::Main));
    assert_eq!(reg.get("splashscreen"), Some(WindowName::Splashscreen));
    assert_eq!(reg.get("about"), None);
}

#[test]
fn capability_query_follows_last_successful_toggle() {
    let mut a = Autostart::startup(false);
    assert_eq!(a.apply_toggle(true, Ok(())), Ok(()));
    assert!(a.is_enabled());
    assert_eq!(a.apply_toggle(false, Err(String::from("locked"))), Err(String::from("locked")));
    assert!(a.is_enabled());
    assert_eq!(a.apply_toggle(false, Ok(())), Ok(()));
    assert!(!a.is_enabled());
}
