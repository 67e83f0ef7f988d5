//! The command dispatcher and the observable behaviour of the handlers.
//!
//! The UI invokes the core by command name; the dispatcher holds exactly
//! one handler per name, and an unregistered name is a dispatch-time
//! error, never a panic.  Each handler may emit log events on the
//! notification channel before returning; the final result and the log
//! stream are two separate observable channels.  The device handlers'
//! outside work — the one request to the configured endpoint and the
//! decoding of its JSON body — happens at the edge and is handed back in
//! as a [`DeviceReply`], so the decisions here are checked for every
//! possible outcome.

use vstd::prelude::*;

use crate::events::EventLog;
use crate::text::concat_str;
use crate::text::str_eq;

verus! {

/// The commands the UI can invoke.
#[derive(Clone, Copy, Debug, PartialEq, Eq, Structural)]
pub enum CommandName {
    GetLocalIp,
    ConnectDevice,
    ManualSync,
    DisconnectDevice,
    ToggleAutostart,
    IsAutostartEnabled,
}

/// The handler registered for a name, if any: the dispatcher's one
/// mapping, exactly one handler per name.
pub open spec fn spec_command_of(name: Seq<char>) -> Option<CommandName> {
    if name == "get_local_ip"@ {
        Some(CommandName::GetLocalIp)
    } else if name == "connect_device"@ {
        Some(CommandName::ConnectDevice)
    } else if name == "manual_sync"@ {
        Some(CommandName::ManualSync)
    } else if name == "disconnect_device"@ {
        Some(CommandName::DisconnectDevice)
    } else if name == "toggle_autostart"@ {
        Some(CommandName::ToggleAutostart)
    } else if name == "is_autostart_enabled"@ {
        Some(CommandName::IsAutostartEnabled)
    } else {
        None
    }
}

/// Dispatches an invocation by name: the registered handler, or an error
/// naming the unregistered command.
pub fn dispatch(name: &str) -> (r: Result<CommandName, String>)
    ensures
        match spec_command_of(name@) {
            Some(c) => r == Ok::<CommandName, String>(c),
            None => r matches Err(e) && e@ == "unknown command: "@ + name@,
        },
{
    if str_eq(name, "get_local_ip") {
        Ok(CommandName::GetLocalIp)
    } else if str_eq(name, "connect_device") {
        Ok(CommandName::ConnectDevice)
    } else if str_eq(name, "manual_sync") {
        Ok(CommandName::ManualSync)
    } else if str_eq(name, "disconnect_device") {
        Ok(CommandName::DisconnectDevice)
    } else if str_eq(name, "toggle_autostart") {
        Ok(CommandName::ToggleAutostart)
    } else if str_eq(name, "is_autostart_enabled") {
        Ok(CommandName::IsAutostartEnabled)
    } else {
        Err(concat_str("unknown command: ", name))
    }
}

/// The dispatcher's mapping is one-to-one: a registered name reaches
/// exactly one handler, and no two names share one.
pub proof fn lemma_one_name_per_handler(n1: Seq<char>, n2: Seq<char>)
    requires
        spec_command_of(n1) is Some,
        spec_command_of(n1) == spec_command_of(n2),
    ensures
        n1 == n2,
{
}

/// What the device endpoint's answer decodes to: the JSON body's
/// `status` and `message` fields, or the transport/decode failure as a
/// string.
#[derive(Debug)]
pub enum DeviceReply {
    Body { status: String, message: String },
    Failed { error: String },
}

/// The configured endpoint the one outbound request of `connect_device`
/// goes to, derived from the target ip.
pub fn endpoint_url(ip: &str) -> (r: String)
    ensures
        r@ == "https://jsonplaceholder.typicode.com/"@ + ip@,
{
    concat_str("https://jsonplaceholder.typicode.com/", ip)
}

/// Starts a `connect_device` invocation: exactly one log line announcing
/// the target is emitted before the request goes out.
pub fn connect_device_start(ip: &str, log: &mut EventLog)
    ensures
        final(log)@ == old(log)@.push("Connecting to "@ + ip@),
{
    let line = concat_str("Connecting to ", ip);
    log.emit(line);
}

/// Finishes a `connect_device` invocation from the endpoint's reply.  A
/// decoded body logs the device status and succeeds with the connected
/// message; a transport or decode failure logs nothing further and is
/// the invocation's error, unchanged.  Success is owed exactly on a
/// decoded body.
pub fn connect_device_finish(reply: DeviceReply, log: &mut EventLog) -> (r: Result<String, String>)
    ensures
        match reply {
            DeviceReply::Body { status, message } => {
                &&& final(log)@ == old(log)@.push("Device status: "@ + status@)
                &&& r matches Ok(m) && m@ == "Connected: "@ + message@
            },
            DeviceReply::Failed { error } => {
                &&& final(log)@ == old(log)@
                &&& r matches Err(e) && e@ == error@
            },
        },
{
    match reply {
        DeviceReply::Body { status, message } => {
            let line = concat_str("Device status: ", status.as_str());
            log.emit(line);
            Ok(concat_str("Connected: ", message.as_str()))
        },
        DeviceReply::Failed { error } => Err(error),
    }
}

/// The `manual_sync` handler: emits its one fixed log line; barring
/// transport failure to the UI the invocation succeeds.
pub fn manual_sync(log: &mut EventLog)
    ensures
        final(log)@ == old(log)@.push("Manual sync started"@),
{
    log.emit(String::from_str("Manual sync started"));
}

/// The `disconnect_device` handler: emits its one fixed log line;
/// barring transport failure to the UI the invocation succeeds.
pub fn disconnect_device(log: &mut EventLog)
    ensures
        final(log)@ == old(log)@.push("Device disconnected"@),
{
    log.emit(String::from_str("Device disconnected"));
}

/// A whole `connect_device` invocation emits the announcing line always,
/// the status line exactly when the endpoint answered with a body, and
/// nothing else: the two observable channels composed over both phases.
pub proof fn lemma_connect_device_logs(
    before: Seq<Seq<char>>,
    after_start: Seq<Seq<char>>,
    after_finish: Seq<Seq<char>>,
    ip: Seq<char>,
    status: Seq<char>,
    ok: bool,
)
    requires
        after_start == before.push("Connecting to "@ + ip),
        ok ==> after_finish == after_start.push("Device status: "@ + status),
        !ok ==> after_finish == after_start,
    ensures
        ok ==> after_finish =~= before + seq![
            "Connecting to "@ + ip,
            "Device status: "@ + status,
        ],
        !ok ==> after_finish =~= before + seq!["Connecting to "@ + ip],
{
}

} // verus!
