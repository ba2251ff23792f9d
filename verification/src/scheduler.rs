//! The background loop's decisions: what one loop iteration does with a
//! timer tick or an inbound interval update, and a model of the periodic
//! ticker that the loop rebuilds when the interval changes.
//!
//! The loop itself suspends on a real timer and a real channel outside the
//! library; on each wakeup it feeds the event in here and performs the
//! action handed back.

use vstd::prelude::*;
use crate::monitoring::{spec_reconfigure, StateModel};

verus! {

/// What woke the loop: a firing of the periodic timer, or an interval
/// update received on the control channel.
#[derive(Clone, Copy, Debug, PartialEq, Eq, Structural)]
pub enum LoopEvent {
    Tick,
    IntervalUpdate(u64),
}

/// What the loop must do next: run a probe, rebuild its ticker with a new
/// period, or nothing.
#[derive(Clone, Copy, Debug, PartialEq, Eq, Structural)]
pub enum LoopAction {
    RunProbe,
    RebuildTicker(u64),
    NoAction,
}

/// One loop iteration: a tick runs a probe exactly when probing is
/// enabled; an interval update rebuilds the ticker exactly when the value
/// differs from the current interval. Nothing else ever changes the
/// interval the loop holds.
pub open spec fn spec_scheduler_step(current_interval: u64, enabled: bool, event: LoopEvent) -> (u64, LoopAction) {
    match event {
        LoopEvent::Tick => (
            current_interval,
            if enabled {
                LoopAction::RunProbe
            } else {
                LoopAction::NoAction
            },
        ),
        LoopEvent::IntervalUpdate(n) => if n != current_interval {
            (n, LoopAction::RebuildTicker(n))
        } else {
            (current_interval, LoopAction::NoAction)
        },
    }
}

/// Decide one loop iteration; returns the interval to hold from now on and
/// the action to perform.
pub fn scheduler_step(current_interval: u64, enabled: bool, event: &LoopEvent) -> (r: (u64, LoopAction))
    ensures
        r == spec_scheduler_step(current_interval, enabled, *event),
{
    match event {
        LoopEvent::Tick => {
            if enabled {
                (current_interval, LoopAction::RunProbe)
            } else {
                (current_interval, LoopAction::NoAction)
            }
        },
        LoopEvent::IntervalUpdate(n) => {
            if *n != current_interval {
                (*n, LoopAction::RebuildTicker(*n))
            } else {
                (current_interval, LoopAction::NoAction)
            }
        },
    }
}

/// A model of the loop's periodic ticker: its period and the minute its
/// next tick is due. Rebuilding it resets the countdown to a full period
/// from now.
#[derive(Clone, Copy, Debug, PartialEq, Eq, Structural)]
pub struct Ticker {
    pub period_minutes: u64,
    pub next_due_minute: u64,
}

/// The ticker a rebuild at `now_minute` yields.
pub open spec fn spec_rebuild(now_minute: u64, period_minutes: u64) -> Ticker {
    Ticker { period_minutes, next_due_minute: (now_minute + period_minutes) as u64 }
}

/// Whether the ticker fires at the given minute.
pub open spec fn spec_ticker_due(t: Ticker, now_minute: u64) -> bool {
    now_minute >= t.next_due_minute
}

impl Ticker {
    /// Create or recreate the ticker with the given period; the first tick
    /// is due a full period from now.
    pub fn rebuild(now_minute: u64, period_minutes: u64) -> (t: Ticker)
        requires
            period_minutes >= 1,
            now_minute + period_minutes <= u64::MAX,
        ensures
            t == spec_rebuild(now_minute, period_minutes),
    {
        Ticker { period_minutes, next_due_minute: now_minute + period_minutes }
    }

    /// Whether a tick is due.
    pub fn is_due(&self, now_minute: u64) -> (r: bool)
        ensures
            r == spec_ticker_due(*self, now_minute),
    {
        now_minute >= self.next_due_minute
    }

    /// Take the tick that is due and start the next full period.
    pub fn advance(&mut self, now_minute: u64)
        requires
            spec_ticker_due(*old(self), now_minute),
            now_minute + old(self).period_minutes <= u64::MAX,
        ensures
            *final(self) == spec_rebuild(now_minute, old(self).period_minutes),
    {
        self.next_due_minute = now_minute + self.period_minutes;
    }
}

/// Toggling the enabled flag gates probe execution on ticks without
/// touching the loop's interval: a tick while disabled does nothing, and a
/// tick after re-enabling runs a probe again.
pub proof fn lemma_toggle_enabled_gates_probe(current_interval: u64)
    ensures
        spec_scheduler_step(current_interval, false, LoopEvent::Tick) == (
            current_interval,
            LoopAction::NoAction,
        ),
        spec_scheduler_step(current_interval, true, LoopEvent::Tick) == (
            current_interval,
            LoopAction::RunProbe,
        ),
{
}

/// A reconfiguration that changes the interval makes the loop rebuild its
/// ticker with the new period, and the rebuilt ticker's next tick comes no
/// earlier than a full new period after the rebuild.
pub proof fn lemma_interval_change_rebuilds_full_period(
    s: StateModel,
    enabled: bool,
    new_interval: u64,
    now_minute: u64,
    t: u64,
)
    requires
        new_interval != s.interval_minutes,
        now_minute + new_interval <= u64::MAX,
        t < now_minute + new_interval,
    ensures
        spec_reconfigure(s, enabled, new_interval).1 == Some(new_interval),
        spec_scheduler_step(s.interval_minutes, enabled, LoopEvent::IntervalUpdate(new_interval))
            == (new_interval, LoopAction::RebuildTicker(new_interval)),
        !spec_ticker_due(spec_rebuild(now_minute, new_interval), t),
{
}

} // verus!
