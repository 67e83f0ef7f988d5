use agent_shell::commands::DeviceReply;
use agent_shell::shell::Shell;
use agent_shell::tray::TrayEffect;

#[test]
fn startup_splash_visible_main_hidden() {
    let s = Shell::startup(false, true, 0).unwrap();
    assert!(s.windows.splash.live);
    assert!(s.windows.splash.visible);
    assert!(s.windows.main.live);
    assert!(!s.windows.main.visible);
    assert!(s.log.entries.is_empty());
}

#[test]
fn timer_fires_swaps_splash_for_main() {
    let mut s = Shell::startup(false, true, 0).unwrap();
    let fired = s.on_timer(4);
    assert!(fired);
    assert!(!s.windows.splash.visible);
    assert!(s.windows.main.visible);
    assert!(s.windows.main.live);
    assert!(s.windows.splash.live);
}

#[test]
fn timer_does_not_fire_early() {
    let mut s = Shell::startup(false, true, 0).unwrap();
    assert!(!s.on_timer(0));
    assert!(!s.on_timer(3));
    assert!(s.windows.splash.visible);
    assert!(!s.windows.main.visible);
}

#[test]
fn timer_fires_only_once() {
    let mut s = Shell::startup(false, true, 10).unwrap();
    assert!(!s.on_timer(13));
    assert!(s.on_timer(14));
    assert!(!s.on_timer(15));
    assert!(!s.on_timer(100));
}

#[test]
fn quit_click_exits_with_code_zero() {
    let mut s = Shell::startup(false, true, 0).unwrap();
    let eff = s.on_tray_event("quit", Ok(()));
    assert_eq!(eff, TrayEffect::Exit(0));
}

#[test]
fn connect_device_success_scenario() {
    let mut s = Shell::startup(false, true, 0).unwrap();
    s.connect_device_start("42");
    let reply = DeviceReply::Body { status: String::from("ok"), message: String::from("linked") };
    let r = s.connect_device_finish(reply);
    assert_eq!(s.log.entries.len(), 2);
    assert_eq!(s.log.entries[0], "Connecting to 42");
    assert_eq!(s.log.entries[1], "Device status: ok");
    assert_eq!(r, Ok(String::from("Connected: linked")));
}

#[test]
fn connect_device_unreachable_endpoint_scenario() {
    let mut s = Shell::startup(false, true, 0).unwrap();
    s.connect_device_start("bad");
    let reply = DeviceReply::Failed { error: String::from("connection refused") };
    let r = s.connect_device_finish(reply);
    assert_eq!(s.log.entries.len(), 1);
    assert_eq!(s.log.entries[0], "Connecting to bad");
    assert_eq!(r, Err(String::from("connection refused")));
}

#[test]
fn startup_aborts_when_icon_fails_to_decode() {
    let r = Shell::startup(false, false, 0);
    assert_eq!(r.unwrap_err(), "failed to load tray icon");
}

#[test]
fn close_request_hides_but_keeps_window() {
    let mut s = Shell::startup(false, true, 0).unwrap();
    s.on_timer(4);
    assert!(s.windows.main.visible);
    s.on_close_requested("main");
    assert!(s.windows.main.live);
    assert!(!s.windows.main.visible);
    assert!(s.windows.splash.live);
    // A close request on an unknown name is a silent no-op.
    s.on_close_requested("settings");
    assert!(s.windows.main.live);
    assert!(s.windows.splash.live);
}

#[test]
fn manual_sync_and_disconnect_log_lines() {
    let mut s = Shell::startup(false, true, 0).unwrap();
    s.manual_sync();
    s.disconnect_device();
    assert_eq!(s.log.entries.len(), 2);
    assert_eq!(s.log.entries[0], "Manual sync started");
    assert_eq!(s.log.entries[1], "Device disconnected");
}

#[test]
fn toggle_then_query_reads_requested_state() {
    let mut s = Shell::startup(false, true, 0).unwrap();
    let r = s.toggle_autostart(true, Ok(()));
    assert_eq!(r, Ok(()));
    assert!(s.is_autostart_enabled());
}

#[test]
fn failed_toggle_keeps_pre_toggle_state() {
    let mut s = Shell::startup(false, true, 0).unwrap();
    let r = s.toggle_autostart(true, Err(String::from("registration denied")));
    assert_eq!(r, Err(String::from("registration denied")));
    assert!(!s.is_autostart_enabled());
}
