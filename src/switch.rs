use std::sync::atomic::{AtomicBool, Ordering};
use std::sync::Arc;
use vstd::prelude::*;

use crate::error::KillSwitchErr;
use crate::state::{kill_outcome, label, state_label};

verus! {

// The flag is an atomic that other handles, on other threads, may flip at
// any moment, so what a read of it returns is known to no caller. The
// contracts below state which flag a handle holds; the decisions taken on a
// value read (`kill_outcome`, `state_label`) have exact contracts. The
// model `state::run` describes a flag's states over a sequence of
// operations; no contract here refers to it.

/// A kill switch: reads the shared flag, flips it, and derives watchers.
///
/// Initially `is_alive()` returns `true`. Clones share the flag, across
/// threads too; once any of them has been `kill()`ed, all of them return
/// `false` from `is_alive()`.
#[derive(Clone, Debug)]
pub struct KillSwitch {
    switch: Arc<AtomicBool>,
}

/// Derived from a [`KillSwitch`]: reads the shared flag but cannot flip it.
/// Useful to hand to a thread that only watches the switch.
#[derive(Clone, Debug)]
pub struct KillSwitchWatcher {
    switch: Arc<AtomicBool>,
}

impl KillSwitchWatcher {
    /// Whether the kill switch has not been flipped yet: `true` before the
    /// flip, `false` afterwards.
    pub fn is_alive(&self) -> (r: bool) {
        self.switch.load(Ordering::Relaxed)
    }

    /// Renders the state at this moment: `"alive"` or `"killed"`.
    pub fn to_string(&self) -> (r: String)
        ensures
            r@ == label(true) || r@ == label(false),
    {
        state_label(self.is_alive())
    }
}

impl KillSwitch {
    /// Whether the kill switch has not been flipped yet: `true` before the
    /// flip, `false` afterwards.
    pub fn is_alive(&self) -> (r: bool) {
        self.switch.load(Ordering::Relaxed)
    }

    /// Flips the kill switch, after which every handle sharing it reads
    /// `false` from `is_alive()`.
    ///
    /// The flip is one compare-and-swap from alive to killed: the call
    /// returns `kill_outcome` of whether that swap took place. That racing
    /// calls therefore have a single winner rests on the atomicity of
    /// `AtomicBool::compare_exchange`, which is not proved here.
    pub fn kill(&self) -> (r: Result<(), KillSwitchErr>) {
        let swapped = self.switch.compare_exchange(true, false, Ordering::Relaxed, Ordering::Relaxed);
        kill_outcome(swapped.is_ok())
    }

    /// Whether watcher `w` holds this switch's own flag.
    pub closed spec fn shares(&self, w: KillSwitchWatcher) -> bool {
        self.switch == w.switch
    }

    /// Produces a handle that can only watch the flag, not flip it. The
    /// watcher holds this switch's own flag, not a new one.
    pub fn watcher(&self) -> (r: KillSwitchWatcher)
        ensures
            self.shares(r),
    {
        KillSwitchWatcher { switch: self.switch.clone() }
    }

    /// Renders the state at this moment: `"alive"` or `"killed"`.
    pub fn to_string(&self) -> (r: String)
        ensures
            r@ == label(true) || r@ == label(false),
    {
        state_label(self.is_alive())
    }
}

impl Default for KillSwitch {
    /// A new kill switch over a fresh flag, alive.
    fn default() -> (r: Self) {
        KillSwitch { switch: Arc::new(AtomicBool::new(true)) }
    }
}

} // verus!
