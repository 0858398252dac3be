use vstd::prelude::*;

verus! {

/// The daily allowance used by the service: four hours, in seconds.
pub const DEFAULT_ALLOWED_SECS: u64 = 14400;

/// The polling interval used by the service, in seconds.
pub const DEFAULT_TICK_SECS: u64 = 30;

/// Why a pair of durations cannot drive the countdown.
#[derive(Clone, Copy, Debug, PartialEq, Eq, Structural)]
pub enum ConfigError {
    /// The polling interval is zero seconds.
    ZeroTick,
    /// The allowance is not a whole number of polling intervals, so the
    /// countdown could never land exactly on zero.
    NotMultipleOfTick,
}

/// The daily allowance and the polling interval, both in whole seconds.
#[derive(Clone, Copy, Debug, PartialEq, Eq, Structural)]
pub struct BudgetConfig {
    pub allowed_secs: u64,
    pub tick_secs: u64,
}

/// What a well-formed configuration satisfies.
pub open spec fn config_ok(allowed: u64, tick: u64) -> bool {
    tick > 0 && allowed % tick == 0
}

/// The countdown after one tick: one interval less, never below zero.
pub open spec fn spent(remaining: nat, tick: nat) -> nat {
    if remaining >= tick {
        (remaining - tick) as nat
    } else {
        0
    }
}

/// The countdown after `t` active ticks from a full allowance.
pub open spec fn remaining_after(allowed: nat, tick: nat, t: nat) -> nat {
    if allowed >= t * tick {
        (allowed - t * tick) as nat
    } else {
        0
    }
}

impl BudgetConfig {
    pub open spec fn wf(self) -> bool {
        config_ok(self.allowed_secs, self.tick_secs)
    }

    /// Builds a configuration, refusing an interval of zero and an allowance
    /// that is not an exact multiple of the interval.
    pub fn new(allowed_secs: u64, tick_secs: u64) -> (r: Result<BudgetConfig, ConfigError>)
        ensures
            tick_secs == 0 ==> r == Err::<BudgetConfig, ConfigError>(ConfigError::ZeroTick),
            tick_secs > 0 && allowed_secs % tick_secs != 0 ==> r == Err::<BudgetConfig, ConfigError>(
                ConfigError::NotMultipleOfTick,
            ),
            config_ok(allowed_secs, tick_secs) ==> r == Ok::<BudgetConfig, ConfigError>(
                (BudgetConfig { allowed_secs, tick_secs }),
            ),
            r is Ok ==> r->Ok_0.wf(),
    {
        if tick_secs == 0 {
            Err(ConfigError::ZeroTick)
        } else if allowed_secs % tick_secs != 0 {
            Err(ConfigError::NotMultipleOfTick)
        } else {
            Ok(BudgetConfig { allowed_secs, tick_secs })
        }
    }

    /// The configuration the service runs with: four hours in ticks of thirty seconds.
    pub fn standard() -> (r: BudgetConfig)
        ensures
            r.allowed_secs == DEFAULT_ALLOWED_SECS,
            r.tick_secs == DEFAULT_TICK_SECS,
            r.wf(),
    {
        BudgetConfig { allowed_secs: DEFAULT_ALLOWED_SECS, tick_secs: DEFAULT_TICK_SECS }
    }

    /// The countdown after one tick of restricted activity.
    pub fn spend(&self, remaining: u64) -> (r: u64)
        ensures
            r == spent(remaining as nat, self.tick_secs as nat),
    {
        if remaining >= self.tick_secs {
            remaining - self.tick_secs
        } else {
            0
        }
    }
}

} // verus!
