//! The per-tick decisions of the enforcement loop, as a function from the
//! controller's state and what was observed to the next state and the actions
//! to perform. The loop itself (clock, sleeping, files) runs outside.
use vstd::prelude::*;
use crate::budget::{BudgetConfig, spent, remaining_after};
use crate::slot::LoadOutcome;

verus! {

/// A reading of the local wall clock, as far as the controller needs it.
#[derive(Clone, Copy, Debug, PartialEq, Eq, Structural)]
pub struct ClockReading {
    /// The local calendar day, counted from any fixed day.
    pub day: u64,
    pub hour: u8,
    pub minute: u8,
}

/// What one tick observes: the clock and whether restricted activity is present.
#[derive(Clone, Copy, Debug, PartialEq, Eq, Structural)]
pub struct TickInput {
    pub now: ClockReading,
    pub active: bool,
}

/// What the loop must do after a tick.
#[derive(Clone, Copy, Debug, PartialEq, Eq, Structural)]
pub struct TickAction {
    /// A day began: rotate the log.
    pub rotate_log: bool,
    /// The countdown changed: persist this many seconds.
    pub save_secs: Option<u64>,
    /// The budget is exhausted: terminate the restricted applications.
    pub enforce: bool,
    /// The countdown just reached the early-warning threshold: notify the user.
    pub warn_low: bool,
}

/// The countdown, the day it was last reset on, and whether the low-budget
/// warning has been given since.
#[derive(Clone, Copy, Debug, PartialEq, Eq, Structural)]
pub struct Controller {
    pub config: BudgetConfig,
    pub remaining_secs: u64,
    pub last_reset_day: Option<u64>,
    pub warned: bool,
}

/// The coarse day-boundary check: the first minute after local midnight.
pub open spec fn in_midnight_minute(now: ClockReading) -> bool {
    now.hour == 0 && now.minute == 0
}

/// A reset is due in the first minute of a day on which none has happened yet.
pub open spec fn reset_due(last_reset_day: Option<u64>, now: ClockReading) -> bool {
    in_midnight_minute(now) && last_reset_day != Some(now.day)
}

impl Controller {
    pub open spec fn wf(self) -> bool {
        self.config.wf() && self.remaining_secs <= self.config.allowed_secs
    }

    /// The countdown value at which the user is warned: ten ticks left.
    pub open spec fn warn_threshold(self) -> int {
        10 * self.config.tick_secs
    }

    /// The state after the day-boundary step of a tick.
    pub open spec fn after_reset(self, now: ClockReading) -> Controller {
        if reset_due(self.last_reset_day, now) {
            Controller {
                config: self.config,
                remaining_secs: self.config.allowed_secs,
                last_reset_day: Some(now.day),
                warned: false,
            }
        } else {
            self
        }
    }

    /// The countdown after the whole tick.
    pub open spec fn next_remaining(self, input: TickInput) -> u64 {
        let r = self.after_reset(input.now);
        if input.active {
            spent(r.remaining_secs as nat, self.config.tick_secs as nat) as u64
        } else {
            r.remaining_secs
        }
    }

    /// Whether this tick gives the low-budget warning.
    pub open spec fn warns(self, input: TickInput) -> bool {
        !self.after_reset(input.now).warned && self.next_remaining(input) == self.warn_threshold()
    }

    /// The state after one tick.
    pub open spec fn step(self, input: TickInput) -> Controller {
        let r = self.after_reset(input.now);
        Controller {
            config: self.config,
            remaining_secs: self.next_remaining(input),
            last_reset_day: r.last_reset_day,
            warned: r.warned || self.warns(input),
        }
    }

    /// The actions of one tick.
    pub open spec fn action(self, input: TickInput) -> TickAction {
        let next = self.next_remaining(input);
        TickAction {
            rotate_log: reset_due(self.last_reset_day, input.now),
            save_secs: if next != self.remaining_secs {
                Some(next)
            } else {
                None
            },
            enforce: next == 0,
            warn_low: self.warns(input),
        }
    }

    /// Starts the controller from what was loaded from the slot on day `today`.
    /// A start-up reset counts as that day's reset.
    pub fn new(config: BudgetConfig, loaded: LoadOutcome, today: u64) -> (r: Controller)
        requires
            config.wf(),
            loaded.remaining_secs <= config.allowed_secs,
        ensures
            r.wf(),
            r.config == config,
            r.remaining_secs == loaded.remaining_secs,
            r.last_reset_day == (if loaded.day_reset {
                Some(today)
            } else {
                None
            }),
            !r.warned,
    {
        Controller {
            config,
            remaining_secs: loaded.remaining_secs,
            last_reset_day: if loaded.day_reset {
                Some(today)
            } else {
                None
            },
            warned: false,
        }
    }

    /// One tick: reset at a day boundary, spend one interval if restricted
    /// activity is present and budget is left, and report what to do.
    pub fn tick(&mut self, input: TickInput) -> (a: TickAction)
        requires
            old(self).wf(),
        ensures
            *final(self) == old(self).step(input),
            a == old(self).action(input),
            final(self).wf(),
    {
        let before = self.remaining_secs;
        let now = input.now;
        let due = now.hour == 0 && now.minute == 0 && match self.last_reset_day {
            Some(d) => d != now.day,
            None => true,
        };
        if due {
            self.remaining_secs = self.config.allowed_secs;
            self.last_reset_day = Some(now.day);
            self.warned = false;
        }
        if input.active {
            self.remaining_secs = self.config.spend(self.remaining_secs);
        }
        let warn = !self.warned && self.config.tick_secs <= u64::MAX / 10
            && self.remaining_secs == self.config.tick_secs * 10;
        if warn {
            self.warned = true;
        }
        let after = self.remaining_secs;
        TickAction {
            rotate_log: due,
            save_secs: if after != before {
                Some(after)
            } else {
                None
            },
            enforce: after == 0,
            warn_low: warn,
        }
    }
}

/// The state after a sequence of ticks.
pub open spec fn run(c: Controller, inputs: Seq<TickInput>) -> Controller
    decreases inputs.len(),
{
    if inputs.len() == 0 {
        c
    } else {
        run(c, inputs.drop_last()).step(inputs.last())
    }
}

/// From a full allowance, `t` ticks of restricted activity with no day boundary
/// among them leave `max(0, allowed - t * tick)` seconds.
pub proof fn lemma_active_countdown(c: Controller, inputs: Seq<TickInput>)
    requires
        c.wf(),
        c.remaining_secs == c.config.allowed_secs,
        forall|i: int| 0 <= i < inputs.len() ==> (#[trigger] inputs[i]).active,
        forall|i: int| 0 <= i < inputs.len() ==> !in_midnight_minute((#[trigger] inputs[i]).now),
    ensures
        run(c, inputs).remaining_secs == remaining_after(
            c.config.allowed_secs as nat,
            c.config.tick_secs as nat,
            inputs.len(),
        ),
        run(c, inputs).config == c.config,
        run(c, inputs).wf(),
    decreases inputs.len(),
{
    if inputs.len() > 0 {
        let prefix = inputs.drop_last();
        assert forall|i: int| 0 <= i < prefix.len() implies (#[trigger] prefix[i]).active
            && !in_midnight_minute(prefix[i].now) by {
            assert(prefix[i] == inputs[i]);
        }
        lemma_active_countdown(c, prefix);
        let k = prefix.len();
        let a = c.config.allowed_secs as nat;
        let t = c.config.tick_secs as nat;
        assert((k + 1) * t == k * t + t) by (nonlinear_arith);
        assert(inputs.last() == inputs[inputs.len() - 1]);
    }
}

/// An exhausted countdown stays at zero through any ticks without a day boundary.
pub proof fn lemma_exhausted_stays_exhausted(c: Controller, inputs: Seq<TickInput>)
    requires
        c.wf(),
        c.remaining_secs == 0,
        forall|i: int| 0 <= i < inputs.len() ==> !in_midnight_minute((#[trigger] inputs[i]).now),
    ensures
        run(c, inputs).remaining_secs == 0,
        run(c, inputs).wf(),
    decreases inputs.len(),
{
    if inputs.len() > 0 {
        let prefix = inputs.drop_last();
        assert forall|i: int| 0 <= i < prefix.len() implies !in_midnight_minute(
            (#[trigger] prefix[i]).now,
        ) by {
            assert(prefix[i] == inputs[i]);
        }
        lemma_exhausted_stays_exhausted(c, prefix);
        assert(inputs.last() == inputs[inputs.len() - 1]);
    }
}

/// A tick that leaves budget after an exhausted countdown is a day-boundary reset.
pub proof fn lemma_refill_only_by_reset(c: Controller, input: TickInput)
    requires
        c.wf(),
        c.remaining_secs == 0,
        c.step(input).remaining_secs > 0,
    ensures
        reset_due(c.last_reset_day, input.now),
        c.action(input).rotate_log,
{
}

proof fn lemma_reset_day_kept(c: Controller, day: u64, inputs: Seq<TickInput>)
    requires
        c.last_reset_day == Some(day),
        forall|i: int| 0 <= i < inputs.len() ==> (#[trigger] inputs[i]).now.day == day,
    ensures
        run(c, inputs).last_reset_day == Some(day),
    decreases inputs.len(),
{
    if inputs.len() > 0 {
        let prefix = inputs.drop_last();
        assert forall|i: int| 0 <= i < prefix.len() implies (#[trigger] prefix[i]).now.day == day by {
            assert(prefix[i] == inputs[i]);
        }
        lemma_reset_day_kept(c, day, prefix);
        assert(inputs.last() == inputs[inputs.len() - 1]);
    }
}

/// Once a day's reset has happened, no later tick of the same day resets again,
/// however many of them fall in the midnight minute.
pub proof fn lemma_one_reset_per_day(c: Controller, first: TickInput, later: Seq<TickInput>)
    requires
        c.wf(),
        reset_due(c.last_reset_day, first.now),
        forall|i: int| 0 <= i < later.len() ==> (#[trigger] later[i]).now.day == first.now.day,
    ensures
        forall|k: int|
            0 <= k < later.len() ==> !(#[trigger] run(c.step(first), later.take(k)).action(
                later[k],
            ).rotate_log),
{
    let c1 = c.step(first);
    assert forall|k: int| 0 <= k < later.len() implies !(#[trigger] run(c1, later.take(k)).action(
        later[k],
    ).rotate_log) by {
        let p = later.take(k);
        assert forall|i: int| 0 <= i < p.len() implies (#[trigger] p[i]).now.day == first.now.day by {
            assert(p[i] == later[i]);
        }
        lemma_reset_day_kept(c1, first.now.day, p);
    }
}

/// Where the service loop stands.
#[derive(Clone, Copy, Debug, PartialEq, Eq, Structural)]
pub enum RunState {
    Running,
    Stopping,
    Stopped,
}

/// What ends a tick's wait, or what happens during a tick.
#[derive(Clone, Copy, Debug, PartialEq, Eq, Structural)]
pub enum LoopEvent {
    /// The interval elapsed without a stop request.
    WaitTimedOut,
    /// The service manager asked the service to stop.
    StopRequested,
    /// The channel that carries stop requests is gone.
    ChannelClosed,
    /// The low-budget notification could not be delivered.
    NotificationFailed,
    /// The work of the current tick is complete.
    TickFinished,
}

pub open spec fn next_run_state_spec(state: RunState, event: LoopEvent) -> RunState {
    match state {
        RunState::Running => match event {
            LoopEvent::WaitTimedOut | LoopEvent::TickFinished => RunState::Running,
            _ => RunState::Stopping,
        },
        RunState::Stopping => match event {
            LoopEvent::TickFinished => RunState::Stopped,
            _ => RunState::Stopping,
        },
        RunState::Stopped => RunState::Stopped,
    }
}

/// Cooperative shutdown: a stop request, a closed channel or a failed
/// notification moves a running loop to stopping; it stops once the current
/// tick's work is finished; a timeout keeps it running.
pub fn next_run_state(state: RunState, event: LoopEvent) -> (r: RunState)
    ensures
        r == next_run_state_spec(state, event),
{
    match state {
        RunState::Running => match event {
            LoopEvent::WaitTimedOut | LoopEvent::TickFinished => RunState::Running,
            _ => RunState::Stopping,
        },
        RunState::Stopping => match event {
            LoopEvent::TickFinished => RunState::Stopped,
            _ => RunState::Stopping,
        },
        RunState::Stopped => RunState::Stopped,
    }
}

} // verus!
