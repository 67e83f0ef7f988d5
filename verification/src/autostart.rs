//! The autostart capability: an opaque OS facility with enable, disable
//! and query.
//!
//! The OS registration entry is the single source of truth; this model
//! mirrors it by being handed the outcome of every OS call, so no locally
//! cached guess can drift.  A query never fails observably; an enable or
//! disable can, and its failure is surfaced to the caller as a string,
//! never a panic — the caller decides whether to ignore it.

use vstd::prelude::*;

verus! {

/// The OS autostart registration entry, mirrored as a single boolean.
#[derive(Clone, Copy, Debug, PartialEq, Eq, Structural)]
pub struct Autostart {
    pub enabled: bool,
}

/// What a toggle leaves behind: the requested state if the OS call
/// succeeded, the untouched old state if it failed.
pub open spec fn toggle_result(a: Autostart, enable: bool, os_ok: bool) -> Autostart {
    if os_ok {
        Autostart { enabled: enable }
    } else {
        a
    }
}

impl Autostart {
    /// The state read from the OS when the process comes up.
    pub fn startup(enabled: bool) -> (r: Autostart)
        ensures
            r.enabled == enabled,
    {
        Autostart { enabled }
    }

    /// A fresh query of the OS state; it never fails observably.
    pub fn is_enabled(&self) -> (r: bool)
        ensures
            r == self.enabled,
    {
        self.enabled
    }

    /// Applies the outcome of one OS enable or disable call: `enable` is
    /// what was requested, `outcome` what the OS facility returned.  On
    /// success the entry now matches the request; on failure it is
    /// untouched and the error is handed back unchanged.
    pub fn apply_toggle(&mut self, enable: bool, outcome: Result<(), String>) -> (r: Result<
        (),
        String,
    >)
        ensures
            *final(self) == toggle_result(*old(self), enable, outcome is Ok),
            r == outcome,
    {
        match outcome {
            Ok(u) => {
                self.enabled = enable;
                Ok(u)
            },
            Err(e) => Err(e),
        }
    }
}

/// Toggling on and then querying reads back `true` exactly when the OS
/// call succeeded; after a failed call the query still reads the
/// pre-toggle state — there is no stale optimistic update.
pub proof fn lemma_toggle_then_query(a: Autostart, os_ok: bool)
    ensures
        os_ok ==> toggle_result(a, true, os_ok).enabled,
        !os_ok ==> toggle_result(a, true, os_ok).enabled == a.enabled,
{
}

} // verus!
