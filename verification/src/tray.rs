//! The tray controller: the persistent icon's menu and the dispatch of
//! its clicks.
//!
//! The menu holds exactly three entries — show, toggle-autostart, quit,
//! in that order — for the whole life of the built controller; only the
//! toggle entry's label ever changes, and only after a successful toggle,
//! so it always reflects the last successfully queried autostart state.
//! Construction fails fatally when the icon cannot be decoded, because
//! the tray is the only way to recover a hidden window.

use vstd::prelude::*;

use crate::autostart::Autostart;
use crate::autostart::toggle_result;
use crate::text::str_eq;
use crate::windows::WindowName;
use crate::windows::WindowRegistry;
use crate::windows::WindowState;

verus! {

/// One tray menu entry: a stable id and a label shown to the user.
#[derive(Debug)]
pub struct MenuItem {
    pub id: String,
    pub label: String,
}

/// The tray menu: the three fixed entries.
#[derive(Debug)]
pub struct TrayMenu {
    pub items: Vec<MenuItem>,
}

/// The label the toggle entry carries for a given autostart state.
pub open spec fn spec_autostart_label(enabled: bool) -> Seq<char> {
    if enabled {
        "Disable Autostart"@
    } else {
        "Enable Autostart"@
    }
}

/// Builds the toggle entry's label for a given autostart state.
pub fn autostart_label(enabled: bool) -> (r: String)
    ensures
        r@ == spec_autostart_label(enabled),
{
    if enabled {
        String::from_str("Disable Autostart")
    } else {
        String::from_str("Enable Autostart")
    }
}

impl TrayMenu {
    /// The structural menu invariant: exactly the ids show,
    /// toggle-autostart, quit, in that order, with the fixed labels of
    /// the show and quit entries.
    pub open spec fn wf(self) -> bool {
        &&& self.items@.len() == 3
        &&& self.items@[0].id@ == "show"@
        &&& self.items@[1].id@ == "toggle-autostart"@
        &&& self.items@[2].id@ == "quit"@
        &&& self.items@[0].label@ == "Show"@
        &&& self.items@[2].label@ == "Quit"@
    }

    /// Whether the toggle entry's label reflects the given autostart
    /// state: the state last successfully queried on the tray's path.
    pub open spec fn label_current(self, autostart_enabled: bool) -> bool {
        self.items@.len() == 3 && self.items@[1].label@ == spec_autostart_label(autostart_enabled)
    }

    /// Builds the startup menu from a fresh autostart query.
    pub fn build(autostart_enabled: bool) -> (r: TrayMenu)
        ensures
            r.wf(),
            r.label_current(autostart_enabled),
    {
        let mut items: Vec<MenuItem> = Vec::new();
        items.push(MenuItem { id: String::from_str("show"), label: String::from_str("Show") });
        items.push(
            MenuItem {
                id: String::from_str("toggle-autostart"),
                label: autostart_label(autostart_enabled),
            },
        );
        items.push(MenuItem { id: String::from_str("quit"), label: String::from_str("Quit") });
        TrayMenu { items }
    }

    /// Replaces the toggle entry's label; ids and the other entries are
    /// untouched.
    pub fn set_toggle_label(&mut self, label: String)
        requires
            old(self).items@.len() == 3,
        ensures
            final(self).items@ == old(self).items@.update(
                1,
                MenuItem { id: old(self).items@[1].id, label },
            ),
    {
        let id = self.items[1].id.clone();
        self.items[1] = MenuItem { id, label };
    }
}

/// The controller's lifecycle: built once at startup, destroyed only at
/// process exit.
#[derive(Clone, Copy, Debug, PartialEq, Eq, Structural)]
pub enum TrayPhase {
    Uninitialized,
    Built,
    Destroyed,
}

/// What a clicked menu item id maps to; unknown ids are kept as no-ops,
/// forward-compatible with future menu entries.
#[derive(Clone, Copy, Debug, PartialEq, Eq, Structural)]
pub enum TrayAction {
    Show,
    Quit,
    ToggleAutostart,
    Unknown,
}

/// What a handled click asks of the process: carry on, or exit with the
/// given code.
#[derive(Clone, Copy, Debug, PartialEq, Eq, Structural)]
pub enum TrayEffect {
    Carry,
    Exit(i32),
}

/// The action a menu item id maps to.
pub open spec fn spec_action_of(id: Seq<char>) -> TrayAction {
    if id == "show"@ {
        TrayAction::Show
    } else if id == "quit"@ {
        TrayAction::Quit
    } else if id == "toggle-autostart"@ {
        TrayAction::ToggleAutostart
    } else {
        TrayAction::Unknown
    }
}

/// Maps a clicked menu item id to its action, one case per id.
pub fn parse_menu_event(id: &str) -> (a: TrayAction)
    ensures
        a == spec_action_of(id@),
{
    if str_eq(id, "show") {
        TrayAction::Show
    } else if str_eq(id, "quit") {
        TrayAction::Quit
    } else if str_eq(id, "toggle-autostart") {
        TrayAction::ToggleAutostart
    } else {
        TrayAction::Unknown
    }
}

/// A tray "show" click's effect on the registry: the main window, if it
/// still exists, is shown and focused; its absence is a silent no-op.
pub open spec fn spec_show_main(r: WindowRegistry) -> WindowRegistry {
    if r.main.live {
        WindowRegistry {
            main: WindowState { live: true, visible: true },
            focused: Some(WindowName::Main),
            ..r
        }
    } else {
        r
    }
}

/// The tray controller: its lifecycle phase and its menu.
#[derive(Debug)]
pub struct TrayController {
    pub phase: TrayPhase,
    pub menu: TrayMenu,
}

impl TrayController {
    /// Constructs icon and menu. `icon_ok` is whether the icon bytes
    /// decoded; on failure startup aborts with the error, since the tray
    /// is the sole recovery path for a hidden window.
    pub fn build(autostart_enabled: bool, icon_ok: bool) -> (r: Result<TrayController, String>)
        ensures
            icon_ok ==> (r matches Ok(t) && t.phase is Built && t.menu.wf()
                && t.menu.label_current(autostart_enabled)),
            !icon_ok ==> (r matches Err(e) && e@ == "failed to load tray icon"@),
    {
        if icon_ok {
            Ok(TrayController { phase: TrayPhase::Built, menu: TrayMenu::build(autostart_enabled) })
        } else {
            Err(String::from_str("failed to load tray icon"))
        }
    }

    /// Handles one tray click on a built controller.  `os_outcome` is
    /// what the autostart facility returned for the toggle's OS call (it
    /// is ignored by every other action); toggle failures are swallowed
    /// here by design — best-effort — and the label then keeps the
    /// queried state.
    pub fn handle_action(
        &mut self,
        action: TrayAction,
        windows: &mut WindowRegistry,
        autostart: &mut Autostart,
        os_outcome: Result<(), String>,
    ) -> (eff: TrayEffect)
        requires
            old(self).phase is Built,
            old(self).menu.wf(),
        ensures
            final(self).phase is Built,
            final(self).menu.wf(),
            old(self).menu.label_current(old(autostart).enabled) ==> final(self).menu.label_current(
                final(autostart).enabled,
            ),
            !(action is ToggleAutostart && os_outcome is Ok) ==> final(self).menu == old(
                self,
            ).menu,
            match action {
                TrayAction::Show => {
                    &&& *final(windows) == spec_show_main(*old(windows))
                    &&& *final(autostart) == *old(autostart)
                    &&& eff is Carry
                },
                TrayAction::Quit => {
                    &&& *final(windows) == *old(windows)
                    &&& *final(autostart) == *old(autostart)
                    &&& eff == TrayEffect::Exit(0)
                },
                TrayAction::ToggleAutostart => {
                    &&& *final(windows) == *old(windows)
                    &&& *final(autostart) == toggle_result(
                        *old(autostart),
                        !old(autostart).enabled,
                        os_outcome is Ok,
                    )
                    &&& (os_outcome is Ok ==> final(self).menu.label_current(
                        final(autostart).enabled,
                    ))
                    &&& eff is Carry
                },
                TrayAction::Unknown => {
                    &&& *final(windows) == *old(windows)
                    &&& *final(autostart) == *old(autostart)
                    &&& eff is Carry
                },
            },
    {
        match action {
            TrayAction::Show => {
                windows.show(WindowName::Main);
                windows.focus(WindowName::Main);
                TrayEffect::Carry
            },
            TrayAction::Quit => TrayEffect::Exit(0),
            TrayAction::ToggleAutostart => {
                let currently_enabled = autostart.is_enabled();
                let res = autostart.apply_toggle(!currently_enabled, os_outcome);
                if res.is_ok() {
                    let label = autostart_label(!currently_enabled);
                    self.menu.set_toggle_label(label);
                }
                TrayEffect::Carry
            },
            TrayAction::Unknown => TrayEffect::Carry,
        }
    }

    /// Torn down at process exit.
    pub fn destroy(&mut self)
        ensures
            final(self).phase is Destroyed,
    {
        self.phase = TrayPhase::Destroyed;
    }
}

/// For the lifetime of the built state the menu holds exactly the ids
/// show, toggle-autostart, quit, in that order: established at
/// construction and preserved by every click.
pub proof fn lemma_menu_ids_fixed(menu: TrayMenu)
    requires
        menu.wf(),
    ensures
        menu.items@.map_values(|m: MenuItem| m.id@) =~= seq!["show"@, "toggle-autostart"@, "quit"@],
{
    assert(menu.items@.map_values(|m: MenuItem| m.id@).len() == 3);
}

} // verus!
