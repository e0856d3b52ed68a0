//! A coalescing, single-slot wakeup signal.
//!
//! A source-check task signals it to nudge the sink decision loop ahead of
//! the loop's own timer. Signalling is idempotent: any number of signals
//! before the next consumption collapse into one wakeup, and consuming the
//! signal re-arms it to the quiet state.

use vstd::prelude::*;

verus! {

/// A single-slot wakeup flag: settable at any time, consumable once.
pub struct Wakeup {
    /// Whether a wakeup is pending.
    pub woken: bool,
}

impl Wakeup {
    /// Creates the signal, pre-armed when `initially_woken_up` is set.
    pub fn new(initially_woken_up: bool) -> (w: Self)
        ensures
            w.woken == initially_woken_up,
    {
        Wakeup { woken: initially_woken_up }
    }

    /// Arms the signal. Repeated calls before the next consumption collapse
    /// into a single pending wakeup.
    pub fn wakeup(&mut self)
        ensures
            final(self).woken,
    {
        self.woken = true;
    }

    /// Consumes the signal: reports whether a wakeup was pending and clears
    /// it, so a second consumption waits for the next `wakeup`.
    pub fn consume(&mut self) -> (was_woken: bool)
        ensures
            was_woken == old(self).woken,
            !final(self).woken,
    {
        let was: bool = self.woken;
        self.woken = false;
        was
    }
}

} // verus!
