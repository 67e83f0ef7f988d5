//! The assembled shell: the orchestrator wires the window registry, the
//! tray controller, the autostart capability and the splash timer
//! together at startup and routes every entry point to them.
//!
//! Each component is constructed once here and handed to whoever needs
//! it — no ambient global.  Every entry point's contract carries a frame:
//! in particular nothing but the timer poll touches the timer, which is
//! why concurrent invocations cannot fire the swap a second time.

use vstd::prelude::*;

use crate::autostart::Autostart;
use crate::autostart::toggle_result;
use crate::commands;
use crate::commands::DeviceReply;
use crate::events::EventLog;
use crate::lifecycle::Lifecycle;
use crate::lifecycle::Phase;
use crate::lifecycle::SPLASH_DELAY;
use crate::tray::TrayAction;
use crate::tray::TrayController;
use crate::tray::TrayEffect;
use crate::tray::parse_menu_event;
use crate::tray::spec_action_of;
use crate::tray::spec_show_main;
use crate::windows::VisOp;
use crate::windows::WindowName;
use crate::windows::WindowRegistry;
use crate::windows::apply_op;

verus! {

/// What a close request on the window of a given name leaves behind:
/// a registered live window is hidden, anything else is untouched.
pub open spec fn spec_close_effect(r: WindowRegistry, name: Seq<char>) -> WindowRegistry {
    if name == "main"@ && r.main.live {
        r.set_window(WindowName::Main, apply_op(r.main, VisOp::Hide))
    } else if name == "splashscreen"@ && r.splash.live {
        r.set_window(WindowName::Splashscreen, apply_op(r.splash, VisOp::Hide))
    } else {
        r
    }
}

/// The shell: every component, wired once at startup.
#[derive(Debug)]
pub struct Shell {
    pub windows: WindowRegistry,
    pub tray: TrayController,
    pub autostart: Autostart,
    pub lifecycle: Lifecycle,
    pub log: EventLog,
}

impl Shell {
    /// The shell's invariant: the tray is built and its menu holds the
    /// three fixed ids in order.
    pub open spec fn wf(self) -> bool {
        &&& self.tray.phase is Built
        &&& self.tray.menu.wf()
    }

    /// Startup: both windows from configuration — splash shown, main
    /// hidden — the tray built from a fresh autostart query, the swap
    /// timer armed for `SPLASH_DELAY` from `now`, the log stream empty.
    /// A tray icon that fails to decode aborts startup entirely: the
    /// tray is the sole recovery path for a hidden window.
    pub fn startup(autostart_enabled: bool, icon_ok: bool, now: u64) -> (r: Result<Shell, String>)
        requires
            now <= u64::MAX - SPLASH_DELAY,
        ensures
            icon_ok ==> (r matches Ok(s) && s.wf() && s.tray.menu.label_current(autostart_enabled)
                && s.windows == WindowRegistry::spec_startup() && s.windows.at_most_one_visible()
                && s.autostart.enabled == autostart_enabled && s.lifecycle == (Lifecycle {
                phase: Phase::SplashVisible,
                deadline: (now + SPLASH_DELAY) as u64,
                fired: false,
            }) && s.log@ == Seq::<Seq<char>>::empty()),
            !icon_ok ==> (r matches Err(e) && e@ == "failed to load tray icon"@),
    {
        let tray = match TrayController::build(autostart_enabled, icon_ok) {
            Ok(t) => t,
            Err(e) => {
                return Err(e);
            },
        };
        Ok(
            Shell {
                windows: WindowRegistry::startup(),
                tray,
                autostart: Autostart::startup(autostart_enabled),
                lifecycle: Lifecycle::setup(now),
                log: EventLog::new(),
            },
        )
    }

    /// The background timer task's poll: the only entry point that
    /// advances the splash-to-main swap.  On the single firing poll the
    /// splash is hidden and the main window shown; everything else —
    /// tray, autostart, log — stays put.
    pub fn on_timer(&mut self, now: u64) -> (fired_now: bool)
        ensures
            fired_now == old(self).lifecycle.fires(now),
            final(self).lifecycle == old(self).lifecycle.poll_spec(now),
            final(self).tray == old(self).tray,
            final(self).autostart == old(self).autostart,
            final(self).log == old(self).log,
            fired_now ==> final(self).windows == old(self).windows.set_window(
                WindowName::Splashscreen,
                apply_op(old(self).windows.splash, VisOp::Hide),
            ).set_window(WindowName::Main, apply_op(old(self).windows.main, VisOp::Show)),
            !fired_now ==> final(self).windows == old(self).windows,
            old(self).windows.at_most_one_visible() ==> final(self).windows.at_most_one_visible(),
            fired_now && old(self).windows.main.live ==> final(self).windows.main.visible,
            fired_now && old(self).windows.splash.live ==> !final(self).windows.splash.visible,
    {
        self.lifecycle.poll(now, &mut self.windows)
    }

    /// A tray click, from the platform's menu item id to its effect.
    /// The timer and the log are untouched, whatever the click.
    pub fn on_tray_event(&mut self, id: &str, os_outcome: Result<(), String>) -> (eff: TrayEffect)
        requires
            old(self).wf(),
        ensures
            final(self).wf(),
            final(self).lifecycle == old(self).lifecycle,
            final(self).log == old(self).log,
            old(self).tray.menu.label_current(old(self).autostart.enabled) ==> final(self).tray.menu.label_current(final(self).autostart.enabled),
            match spec_action_of(id@) {
                TrayAction::Show => final(self).windows == spec_show_main(old(self).windows)
                    && final(self).autostart == old(self).autostart && eff is Carry,
                TrayAction::Quit => final(self).windows == old(self).windows && final(self).autostart == old(self).autostart && eff == TrayEffect::Exit(0),
                TrayAction::ToggleAutostart => final(self).windows == old(self).windows && final(self).autostart == toggle_result(
                    old(self).autostart,
                    !old(self).autostart.enabled,
                    os_outcome is Ok,
                ) && eff is Carry,
                TrayAction::Unknown => final(self).windows == old(self).windows && final(self).autostart == old(self).autostart && eff is Carry,
            },
    {
        let action = parse_menu_event(id);
        self.tray.handle_action(action, &mut self.windows, &mut self.autostart, os_outcome)
    }

    /// A platform close request on the window of the given name: the
    /// global interception policy hides it instead of closing it, so
    /// the live window count never drops.
    pub fn on_close_requested(&mut self, name: &str)
        ensures
            final(self).windows == spec_close_effect(old(self).windows, name@),
            final(self).windows.live_count() == old(self).windows.live_count(),
            final(self).lifecycle == old(self).lifecycle,
            final(self).tray == old(self).tray,
            final(self).autostart == old(self).autostart,
            final(self).log == old(self).log,
            old(self).windows.at_most_one_visible() ==> final(self).windows.at_most_one_visible(),
    {
        let target = self.windows.get(name);
        match target {
            Some(n) => self.windows.close_requested(n),
            None => {},
        }
    }

    /// The `toggle_autostart` invocation from the UI surface: unlike
    /// the tray path a failure is surfaced to the caller, and the menu
    /// label is not refreshed on this path.
    pub fn toggle_autostart(&mut self, enable: bool, os_outcome: Result<(), String>) -> (r: Result<
        (),
        String,
    >)
        ensures
            final(self).autostart == toggle_result(old(self).autostart, enable, os_outcome is Ok),
            r == os_outcome,
            final(self).windows == old(self).windows,
            final(self).tray == old(self).tray,
            final(self).lifecycle == old(self).lifecycle,
            final(self).log == old(self).log,
    {
        self.autostart.apply_toggle(enable, os_outcome)
    }

    /// The `is_autostart_enabled` invocation: a fresh query of the OS
    /// state, never an error.
    pub fn is_autostart_enabled(&self) -> (r: bool)
        ensures
            r == self.autostart.enabled,
    {
        self.autostart.is_enabled()
    }

    /// The `manual_sync` invocation: its one fixed log line.
    pub fn manual_sync(&mut self)
        ensures
            final(self).log@ == old(self).log@.push("Manual sync started"@),
            final(self).windows == old(self).windows,
            final(self).tray == old(self).tray,
            final(self).autostart == old(self).autostart,
            final(self).lifecycle == old(self).lifecycle,
    {
        commands::manual_sync(&mut self.log);
    }

    /// The `disconnect_device` invocation: its one fixed log line.
    pub fn disconnect_device(&mut self)
        ensures
            final(self).log@ == old(self).log@.push("Device disconnected"@),
            final(self).windows == old(self).windows,
            final(self).tray == old(self).tray,
            final(self).autostart == old(self).autostart,
            final(self).lifecycle == old(self).lifecycle,
    {
        commands::disconnect_device(&mut self.log);
    }

    /// The first half of a `connect_device` invocation, before the
    /// outbound request: announces the target on the log channel.
    pub fn connect_device_start(&mut self, ip: &str)
        ensures
            final(self).log@ == old(self).log@.push("Connecting to "@ + ip@),
            final(self).windows == old(self).windows,
            final(self).tray == old(self).tray,
            final(self).autostart == old(self).autostart,
            final(self).lifecycle == old(self).lifecycle,
    {
        commands::connect_device_start(ip, &mut self.log);
    }

    /// The second half of a `connect_device` invocation, from the
    /// endpoint's decoded reply or its transport failure.
    pub fn connect_device_finish(&mut self, reply: DeviceReply) -> (r: Result<String, String>)
        ensures
            match reply {
                DeviceReply::Body { status, message } => {
                    &&& final(self).log@ == old(self).log@.push("Device status: "@ + status@)
                    &&& r matches Ok(m) && m@ == "Connected: "@ + message@
                },
                DeviceReply::Failed { error } => {
                    &&& final(self).log@ == old(self).log@
                    &&& r matches Err(e) && e@ == error@
                },
            },
            final(self).windows == old(self).windows,
            final(self).tray == old(self).tray,
            final(self).autostart == old(self).autostart,
            final(self).lifecycle == old(self).lifecycle,
    {
        commands::connect_device_finish(reply, &mut self.log)
    }
}

} // verus!
