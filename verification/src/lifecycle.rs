//! The lifecycle orchestrator: startup sequencing.
//!
//! Both windows exist at process start — splash shown, main hidden — and
//! a single-shot timer armed at setup swaps them: when it fires, the
//! splash window is closed (hence hidden, by the interception policy)
//! and the main window shown.  The timer has no cancellation path and a
//! poll that comes back late or repeated changes nothing, so the swap
//! happens exactly once per process run, never before `SPLASH_DELAY`
//! time units have passed since setup.

use vstd::prelude::*;

use crate::windows::VisOp;
use crate::windows::WindowName;
use crate::windows::WindowRegistry;
use crate::windows::apply_op;

verus! {

/// Time units between setup and the splash-to-main swap.
pub const SPLASH_DELAY: u64 = 4;

/// The startup phases.
#[derive(Clone, Copy, Debug, PartialEq, Eq, Structural)]
pub enum Phase {
    Init,
    SplashVisible,
    MainVisible,
}

/// The startup sequencing state machine.
#[derive(Clone, Copy, Debug, PartialEq, Eq, Structural)]
pub struct Lifecycle {
    pub phase: Phase,
    pub deadline: u64,
    pub fired: bool,
}

impl Lifecycle {
    /// The orchestrator right after setup at time `now`: the splash
    /// phase is implicit in the start configuration, and the timer is
    /// armed for `SPLASH_DELAY` from now.
    pub fn setup(now: u64) -> (r: Lifecycle)
        requires
            now <= u64::MAX - SPLASH_DELAY,
        ensures
            r == (Lifecycle {
                phase: Phase::SplashVisible,
                deadline: (now + SPLASH_DELAY) as u64,
                fired: false,
            }),
    {
        Lifecycle { phase: Phase::SplashVisible, deadline: now + SPLASH_DELAY, fired: false }
    }

    /// Whether a poll at time `now` fires the single-shot timer.
    pub open spec fn fires(self, now: u64) -> bool {
        !self.fired && now >= self.deadline
    }

    /// The orchestrator after a poll at time `now`.
    pub open spec fn poll_spec(self, now: u64) -> Lifecycle {
        if self.fires(now) {
            Lifecycle { phase: Phase::MainVisible, deadline: self.deadline, fired: true }
        } else {
            self
        }
    }

    /// One poll of the timer.  On the single firing poll the splash
    /// window is closed — the interception policy keeps it alive and
    /// merely hidden — and the main window shown; if either window is
    /// gone, that half of the swap is a silent no-op.  Any other poll
    /// changes nothing.
    pub fn poll(&mut self, now: u64, windows: &mut WindowRegistry) -> (fired_now: bool)
        ensures
            fired_now == old(self).fires(now),
            *final(self) == old(self).poll_spec(now),
            fired_now ==> *final(windows) == old(windows).set_window(
                WindowName::Splashscreen,
                apply_op(old(windows).window(WindowName::Splashscreen), VisOp::Hide),
            ).set_window(
                WindowName::Main,
                apply_op(old(windows).window(WindowName::Main), VisOp::Show),
            ),
            !fired_now ==> *final(windows) == *old(windows),
    {
        if !self.fired && now >= self.deadline {
            windows.close_requested(WindowName::Splashscreen);
            windows.show(WindowName::Main);
            self.phase = Phase::MainVisible;
            self.fired = true;
            true
        } else {
            false
        }
    }

    /// The orchestrator after a whole sequence of polls, first to last.
    pub open spec fn run_polls(self, times: Seq<u64>) -> Lifecycle
        decreases times.len(),
    {
        if times.len() == 0 {
            self
        } else {
            self.poll_spec(times[0]).run_polls(times.drop_first())
        }
    }

    /// How many polls of a sequence fire the timer.
    pub open spec fn fire_count(self, times: Seq<u64>) -> nat
        decreases times.len(),
    {
        if times.len() == 0 {
            0nat
        } else {
            (if self.fires(times[0]) {
                1nat
            } else {
                0nat
            }) + self.poll_spec(times[0]).fire_count(times.drop_first())
        }
    }

    /// Once the timer has fired it is inert: no further poll fires or
    /// changes anything.
    pub proof fn lemma_fired_inert(self, times: Seq<u64>)
        requires
            self.fired,
        ensures
            self.fire_count(times) == 0,
            self.run_polls(times) == self,
        decreases times.len(),
    {
        if times.len() > 0 {
            assert(self.poll_spec(times[0]) == self);
            self.lemma_fired_inert(times.drop_first());
        }
    }

    /// Over any sequence of polls the timer fires at most once per
    /// process run, however the polls interleave with other work.
    pub proof fn lemma_fires_at_most_once(self, times: Seq<u64>)
        ensures
            self.fire_count(times) <= 1,
        decreases times.len(),
    {
        if times.len() > 0 {
            if self.fires(times[0]) {
                self.poll_spec(times[0]).lemma_fired_inert(times.drop_first());
            } else {
                self.lemma_fires_at_most_once(times.drop_first());
            }
        }
    }

    /// A timer not yet fired fires exactly once as soon as some poll
    /// reaches the deadline.
    pub proof fn lemma_fires_exactly_once(self, times: Seq<u64>)
        requires
            !self.fired,
            exists|i: int| 0 <= i < times.len() && times[i] >= self.deadline,
        ensures
            self.fire_count(times) == 1,
        decreases times.len(),
    {
        let i = choose|i: int| 0 <= i < times.len() && times[i] >= self.deadline;
        if self.fires(times[0]) {
            self.poll_spec(times[0]).lemma_fired_inert(times.drop_first());
        } else {
            assert(times[0] < self.deadline);
            assert(i > 0);
            assert(self.poll_spec(times[0]) == self);
            assert(times.drop_first()[i - 1] >= self.deadline);
            self.lemma_fires_exactly_once(times.drop_first());
        }
    }

    /// A firing poll comes no earlier than `SPLASH_DELAY` time units
    /// after the setup that armed the timer.
    pub proof fn lemma_no_early_fire(setup_time: u64, lc: Lifecycle, now: u64)
        requires
            setup_time <= u64::MAX - SPLASH_DELAY,
            lc.deadline == setup_time + SPLASH_DELAY,
            lc.fires(now),
        ensures
            now >= setup_time + SPLASH_DELAY,
    {
    }
}

} // verus!
