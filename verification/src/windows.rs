//! The window registry: the named set of windows the shell manages.
//!
//! Two windows exist, keyed by the platform names `"main"` and
//! `"splashscreen"`.  Every mutation is best-effort: a request against a
//! window that no longer exists is a silent no-op, never an error, because
//! window lifecycle is secondary to process lifecycle.  A platform close
//! request is intercepted globally and turned into a hide, so only the
//! tray's explicit quit ever ends the process.

use vstd::prelude::*;

use crate::text::str_eq;

verus! {

/// The two windows the shell manages.
#[derive(Clone, Copy, Debug, PartialEq, Eq, Structural)]
pub enum WindowName {
    Main,
    Splashscreen,
}

/// A show or hide request against one window.
#[derive(Clone, Copy, Debug, PartialEq, Eq, Structural)]
pub enum VisOp {
    Show,
    Hide,
}

/// One window slot: `live` says whether the platform window still exists,
/// `visible` whether it is currently shown.
#[derive(Clone, Copy, Debug, PartialEq, Eq, Structural)]
pub struct WindowState {
    pub live: bool,
    pub visible: bool,
}

/// What one show/hide request does to a window: a dead window ignores it.
pub open spec fn apply_op(w: WindowState, op: VisOp) -> WindowState {
    if w.live {
        WindowState { live: true, visible: op is Show }
    } else {
        w
    }
}

/// The effect of a whole sequence of show/hide requests, first to last.
pub open spec fn apply_ops(w: WindowState, ops: Seq<VisOp>) -> WindowState
    decreases ops.len(),
{
    if ops.len() == 0 {
        w
    } else {
        apply_ops(apply_op(w, ops[0]), ops.drop_first())
    }
}

/// Visibility after any non-empty run of show/hide requests on a live
/// window is decided by the last request alone; everything before it is
/// overwritten.
pub proof fn lemma_last_op_wins(w: WindowState, ops: Seq<VisOp>)
    requires
        w.live,
        ops.len() > 0,
    ensures
        apply_ops(w, ops).live,
        apply_ops(w, ops).visible == (ops.last() is Show),
    decreases ops.len(),
{
    if ops.len() == 1 {
        reveal_with_fuel(apply_ops, 2);
        assert(ops.drop_first().len() == 0);
        assert(ops.last() == ops[0]);
    } else {
        lemma_last_op_wins(apply_op(w, ops[0]), ops.drop_first());
        assert(ops.drop_first().last() == ops.last());
    }
}

/// Repeating a show or a hide changes nothing beyond the first
/// application: the operations are idempotent.
pub proof fn lemma_op_idempotent(w: WindowState, op: VisOp)
    ensures
        apply_op(apply_op(w, op), op) == apply_op(w, op),
{
}

/// The named set of windows, plus the window last asked to take focus.
#[derive(Clone, Copy, Debug)]
pub struct WindowRegistry {
    pub main: WindowState,
    pub splash: WindowState,
    pub focused: Option<WindowName>,
}

impl WindowRegistry {
    /// The slot a name designates.
    pub open spec fn window(self, n: WindowName) -> WindowState {
        match n {
            WindowName::Main => self.main,
            WindowName::Splashscreen => self.splash,
        }
    }

    /// The registry with one slot replaced, the rest untouched.
    pub open spec fn set_window(self, n: WindowName, w: WindowState) -> WindowRegistry {
        match n {
            WindowName::Main => WindowRegistry { main: w, ..self },
            WindowName::Splashscreen => WindowRegistry { splash: w, ..self },
        }
    }

    /// At most one window is shown: holds through the whole startup
    /// transition, from setup until the splash-to-main swap.
    pub open spec fn at_most_one_visible(self) -> bool {
        !((self.main.live && self.main.visible) && (self.splash.live && self.splash.visible))
    }

    /// How many platform windows are alive.
    pub open spec fn live_count(self) -> int {
        (if self.main.live {
            1int
        } else {
            0int
        }) + (if self.splash.live {
            1int
        } else {
            0int
        })
    }

    /// The configuration the process starts from: both windows exist,
    /// the splash screen shown, the main window hidden, nothing focused.
    pub open spec fn spec_startup() -> WindowRegistry {
        WindowRegistry {
            main: WindowState { live: true, visible: false },
            splash: WindowState { live: true, visible: true },
            focused: None,
        }
    }

    /// Builds the startup configuration.
    pub fn startup() -> (r: WindowRegistry)
        ensures
            r == Self::spec_startup(),
    {
        WindowRegistry {
            main: WindowState { live: true, visible: false },
            splash: WindowState { live: true, visible: true },
            focused: None,
        }
    }

    /// Looks a window up by its platform name: the handle comes back only
    /// while the window exists; unknown names find nothing.
    pub fn get(&self, name: &str) -> (r: Option<WindowName>)
        ensures
            r == (if name@ == "main"@ && self.main.live {
                Some(WindowName::Main)
            } else if name@ == "splashscreen"@ && self.splash.live {
                Some(WindowName::Splashscreen)
            } else {
                Option::<WindowName>::None
            }),
    {
        proof {
            reveal_strlit("main");
            reveal_strlit("splashscreen");
            assert("main"@.len() == 4);
            assert("splashscreen"@.len() == 12);
            assert("main"@ != "splashscreen"@);
        }
        if str_eq(name, "main") {
            if self.main.live {
                Some(WindowName::Main)
            } else {
                None
            }
        } else if str_eq(name, "splashscreen") {
            if self.splash.live {
                Some(WindowName::Splashscreen)
            } else {
                None
            }
        } else {
            None
        }
    }

    /// Shows a window: a live one becomes visible, a dead one ignores it.
    pub fn show(&mut self, n: WindowName)
        ensures
            *final(self) == old(self).set_window(n, apply_op(old(self).window(n), VisOp::Show)),
    {
        match n {
            WindowName::Main => {
                if self.main.live {
                    self.main.visible = true;
                }
            },
            WindowName::Splashscreen => {
                if self.splash.live {
                    self.splash.visible = true;
                }
            },
        }
    }

    /// Hides a window: a live one becomes invisible, a dead one ignores it.
    pub fn hide_window(&mut self, n: WindowName)
        ensures
            *final(self) == old(self).set_window(n, apply_op(old(self).window(n), VisOp::Hide)),
    {
        match n {
            WindowName::Main => {
                if self.main.live {
                    self.main.visible = false;
                }
            },
            WindowName::Splashscreen => {
                if self.splash.live {
                    self.splash.visible = false;
                }
            },
        }
    }

    /// Asks a window to take focus: recorded for a live window, ignored
    /// for a dead one; visibility and liveness are untouched.
    pub fn focus(&mut self, n: WindowName)
        ensures
            old(self).window(n).live ==> *final(self) == (WindowRegistry {
                focused: Some(n),
                ..*old(self)
            }),
            !old(self).window(n).live ==> *final(self) == *old(self),
    {
        let live = match n {
            WindowName::Main => self.main.live,
            WindowName::Splashscreen => self.splash.live,
        };
        if live {
            self.focused = Some(n);
        }
    }

    /// A platform close request: intercepted by the global policy, the
    /// window hides instead of closing, so the live window count never
    /// drops — only visible can turn into hidden.
    pub fn close_requested(&mut self, n: WindowName)
        ensures
            *final(self) == old(self).set_window(n, apply_op(old(self).window(n), VisOp::Hide)),
            final(self).live_count() == old(self).live_count(),
            final(self).window(n).live == old(self).window(n).live,
            old(self).window(n).live ==> !final(self).window(n).visible,
    {
        self.hide_window(n);
    }
}

} // verus!
