use agent_shell::commands::CommandName;
use agent_shell::commands::DeviceReply;
use agent_shell::commands::connect_device_finish;
use agent_shell::commands::connect_device_start;
use agent_shell::commands::disconnect_device;
use agent_shell::commands::dispatch;
use agent_shell::commands::endpoint_url;
use agent_shell::commands::manual_sync;
use agent_shell::events::EventLog;

#[test]
fn dispatch_finds_exactly_the_registered_names() {
    assert_eq!(dispatch("get_local_ip"), Ok(CommandName::GetLocalIp));
    assert_eq!(dispatch("connect_device"), Ok(CommandName::ConnectDevice));
    assert_eq!(dispatch("manual_sync"), Ok(CommandName::ManualSync));
    assert_eq!(dispatch("disconnect_device"), Ok(CommandName::DisconnectDevice));
    assert_eq!(dispatch("toggle_autostart"), Ok(CommandName::ToggleAutostart));
    assert_eq!(dispatch("is_autostart_enabled"), Ok(CommandName::IsAutostartEnabled));
}

#[test]
fn dispatch_rejects_unregistered_names() {
    assert_eq!(dispatch("reboot"), Err(String::from("unknown command: reboot")));
    assert_eq!(dispatch(""), Err(String::from("unknown command: ")));
    // Case matters: names are stable, not normalized.
    assert_eq!(dispatch("Manual_Sync"), Err(String::from("unknown command: Manual_Sync")));
}

#[test]
fn endpoint_url_appends_the_target() {
    assert_eq!(endpoint_url("42"), "https://jsonplaceholder.typicode.com/42");
    assert_eq!(endpoint_url(""), "https://jsonplaceholder.typicode.com/");
}

#[test]
fn connect_logs_are_in_emission_order() {
    let mut log = EventLog::new();
    connect_device_start("10.0.0.7", &mut log);
    let r = connect_device_finish(
        DeviceReply::Body { status: String::from("ok"), message: String::from("ready") },
        &mut log,
    );
    assert_eq!(log.entries, vec![
        String::from("Connecting to 10.0.0.7"),
        String::from("Device status: ok"),
    ]);
    assert_eq!(r, Ok(String::from("Connected: ready")));
}

#[test]
fn connect_failure_emits_only_the_first_line() {
    let mut log = EventLog::new();
    connect_device_start("42", &mut log);
    let r = connect_device_finish(
        DeviceReply::Failed { error: String::from("timed out") },
        &mut log,
    );
    assert_eq!(log.entries, vec![String::from("Connecting to 42")]);
    assert_eq!(r, Err(String::from("timed out")));
}

#[test]
fn unusual_status_is_reported_verbatim() {
    let mut log = EventLog::new();
    let r = connect_device_finish(
        DeviceReply::Body { status: String::from("degraded"), message: String::from("retrying") },
        &mut log,
    );
    assert_eq!(log.entries, vec![String::from("Device status: degraded")]);
    assert_eq!(r, Ok(String::from("Connected: retrying")));
}

#[test]
fn fixed_log_lines_of_sync_and_disconnect() {
    let mut log = EventLog::new();
    manual_sync(&mut log);
    disconnect_device(&mut log);
    manual_sync(&mut log);
    assert_eq!(log.entries, vec![
        String::from("Manual sync started"),
        String::from("Device disconnected"),
        String::from("Manual sync started"),
    ]);
}

#[test]
fn events_travel_on_the_log_channel() {
    assert_eq!(EventLog::channel(), "log");
    let mut log = EventLog::new();
    assert_eq!(log.len(), 0);
    manual_sync(&mut log);
    assert_eq!(log.len(), 1);
}
