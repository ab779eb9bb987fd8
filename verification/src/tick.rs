//! Synchronization ticks and the changed-since comparison they support.
//!
//! A tick is a monotonically increasing counter naming a run boundary.  Each
//! stored component instance carries an *added* tick and a *changed* tick;
//! a query captures a `(last_run, this_run)` window once at its start and
//! asks, per instance, whether a tick falls inside that window.  The counter
//! wraps around, so the comparison works on wrapping differences measured
//! from `this_run`, clamped to the greatest age the store lets a tick reach
//! before re-clamping old values.

use vstd::prelude::*;

verus! {

/// Greatest tick age the store allows before clamping old tick values back,
/// and therefore the greatest age that can take part in a comparison.
pub const MAX_CHANGE_AGE: u32 = u32::MAX - (2 * 518_400_000 - 1);

/// Difference `a - b` on the wrapping tick counter.
pub open spec fn wrapping_tick_diff(a: u32, b: u32) -> u32 {
    if a - b < 0 {
        (a - b + 0x1_0000_0000) as u32
    } else {
        (a - b) as u32
    }
}

/// Age of `tick`, seen from `this_run`: the wrapping distance from `tick` to
/// `this_run`, clamped to [`MAX_CHANGE_AGE`].
pub open spec fn tick_age(tick: u32, this_run: u32) -> u32 {
    if wrapping_tick_diff(this_run, tick) <= MAX_CHANGE_AGE {
        wrapping_tick_diff(this_run, tick)
    } else {
        MAX_CHANGE_AGE
    }
}

/// `tick` lies strictly inside the window that ends at `this_run` and starts
/// just after `last_run`: it is younger than `last_run` is, as both ages are
/// seen from `this_run`.
pub open spec fn tick_is_newer_than(tick: u32, last_run: u32, this_run: u32) -> bool {
    tick_age(last_run, this_run) > tick_age(tick, this_run)
}

/// One value of the wrapping synchronization counter.
#[derive(Clone, Copy, PartialEq, Eq, Structural, Debug)]
pub struct Tick {
    pub tick: u32,
}

impl Tick {
    pub fn new(tick: u32) -> (r: Tick)
        ensures
            r.tick == tick,
    {
        Tick { tick }
    }

    pub fn get(self) -> (r: u32)
        ensures
            r == self.tick,
    {
        self.tick
    }

    /// Does this tick fall inside the change window `(last_run, this_run]`?
    pub fn is_newer_than(self, last_run: Tick, this_run: Tick) -> (r: bool)
        ensures
            r == tick_is_newer_than(self.tick, last_run.tick, this_run.tick),
    {
        let since_insert_raw: u32 = this_run.tick.wrapping_sub(self.tick);
        let since_insert: u32 = if since_insert_raw <= MAX_CHANGE_AGE {
            since_insert_raw
        } else {
            MAX_CHANGE_AGE
        };
        let since_system_raw: u32 = this_run.tick.wrapping_sub(last_run.tick);
        let since_system: u32 = if since_system_raw <= MAX_CHANGE_AGE {
            since_system_raw
        } else {
            MAX_CHANGE_AGE
        };
        since_system > since_insert
    }
}

/// A tick equal to `last_run` never counts as newer: its age equals the
/// window's own age, and the comparison is strict.
pub proof fn lemma_tick_at_last_run_not_newer(last_run: u32, this_run: u32)
    ensures
        !tick_is_newer_than(last_run, last_run, this_run),
{
}

/// A tick equal to `this_run` counts as newer exactly when the window is not
/// empty, that is, when `last_run` and `this_run` differ.
pub proof fn lemma_tick_at_this_run_newer_iff_window_nonempty(last_run: u32, this_run: u32)
    ensures
        tick_is_newer_than(this_run, last_run, this_run) == (last_run != this_run),
{
}

/// On ticks that have not wrapped around `this_run` and are no older than the
/// clamping age, the comparison is exactly the window predicate: the tick is
/// strictly newer than `last_run` and no newer than `this_run`.
pub proof fn lemma_tick_window(tick: u32, last_run: u32, this_run: u32)
    requires
        last_run <= this_run,
        this_run - last_run <= MAX_CHANGE_AGE,
        tick <= this_run,
        this_run - tick <= MAX_CHANGE_AGE,
    ensures
        tick_is_newer_than(tick, last_run, this_run) == (last_run < tick && tick <= this_run),
{
}

} // verus!
