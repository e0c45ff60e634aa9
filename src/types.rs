use vstd::prelude::*;

verus! {

/// Identity of an account (a user, a developer, a runner or a contract).
pub type Address = u64;

/// Price per unit of each metered dimension.
#[derive(Clone, Copy, Debug, PartialEq, Eq, Structural)]
pub struct UsageMeterRates {
    pub llm_in: i128,
    pub llm_out: i128,
    pub http_calls: i128,
    pub runtime_ms: i128,
}

impl UsageMeterRates {
    pub open spec fn is_non_negative(&self) -> bool {
        self.llm_in >= 0 && self.llm_out >= 0 && self.http_calls >= 0 && self.runtime_ms >= 0
    }

    pub fn validate_non_negative(&self) -> (r: bool)
        ensures
            r == self.is_non_negative(),
    {
        self.llm_in >= 0 && self.llm_out >= 0 && self.http_calls >= 0 && self.runtime_ms >= 0
    }
}

/// Amount of each metered dimension: a budget declared at open time, or the
/// usage reported at settlement.
#[derive(Clone, Copy, Debug, PartialEq, Eq, Structural)]
pub struct UsageBreakdown {
    pub llm_in: i128,
    pub llm_out: i128,
    pub http_calls: i128,
    pub runtime_ms: i128,
}

impl UsageBreakdown {
    pub open spec fn is_non_negative(&self) -> bool {
        self.llm_in >= 0 && self.llm_out >= 0 && self.http_calls >= 0 && self.runtime_ms >= 0
    }

    /// Componentwise `self <= bound`.
    pub open spec fn within(&self, bound: UsageBreakdown) -> bool {
        self.llm_in <= bound.llm_in && self.llm_out <= bound.llm_out && self.http_calls
            <= bound.http_calls && self.runtime_ms <= bound.runtime_ms
    }

    pub fn to_usage_meter_rates(&self) -> (r: UsageMeterRates)
        ensures
            r.llm_in == self.llm_in,
            r.llm_out == self.llm_out,
            r.http_calls == self.http_calls,
            r.runtime_ms == self.runtime_ms,
    {
        UsageMeterRates::from(*self)
    }
}

impl From<UsageMeterRates> for UsageBreakdown {
    fn from(value: UsageMeterRates) -> Self {
        UsageBreakdown {
            llm_in: value.llm_in,
            llm_out: value.llm_out,
            http_calls: value.http_calls,
            runtime_ms: value.runtime_ms,
        }
    }
}

impl vstd::std_specs::convert::FromSpecImpl<UsageMeterRates> for UsageBreakdown {
    open spec fn obeys_from_spec() -> bool {
        true
    }

    open spec fn from_spec(value: UsageMeterRates) -> Self {
        UsageBreakdown {
            llm_in: value.llm_in,
            llm_out: value.llm_out,
            http_calls: value.http_calls,
            runtime_ms: value.runtime_ms,
        }
    }
}

impl From<UsageBreakdown> for UsageMeterRates {
    fn from(value: UsageBreakdown) -> Self {
        UsageMeterRates {
            llm_in: value.llm_in,
            llm_out: value.llm_out,
            http_calls: value.http_calls,
            runtime_ms: value.runtime_ms,
        }
    }
}

impl vstd::std_specs::convert::FromSpecImpl<UsageBreakdown> for UsageMeterRates {
    open spec fn obeys_from_spec() -> bool {
        true
    }

    open spec fn from_spec(value: UsageBreakdown) -> Self {
        UsageMeterRates {
            llm_in: value.llm_in,
            llm_out: value.llm_out,
            http_calls: value.http_calls,
            runtime_ms: value.runtime_ms,
        }
    }
}

/// Spend policy of one user. Caps of 0 mean "no cap". `reserved_today` counts
/// escrow reserved on day `reserved_day` and is treated as 0 on any other day.
#[derive(Clone, Copy, Debug, PartialEq, Eq, Structural)]
pub struct UserPolicy {
    pub per_run_cap: i128,
    pub daily_cap: i128,
    pub paused: bool,
    pub reserved_today: i128,
    pub reserved_day: u64,
}

impl UserPolicy {
    pub open spec fn zeroed() -> UserPolicy {
        UserPolicy {
            per_run_cap: 0,
            daily_cap: 0,
            paused: false,
            reserved_today: 0,
            reserved_day: 0,
        }
    }

    pub open spec fn wf(&self) -> bool {
        self.per_run_cap >= 0 && self.daily_cap >= 0 && self.reserved_today >= 0
    }

    /// The policy as seen on day `today`: the reservation of another day is dropped.
    pub open spec fn on_day(self, today: u64) -> UserPolicy {
        if self.reserved_day != today {
            UserPolicy { reserved_day: today, reserved_today: 0, ..self }
        } else {
            self
        }
    }

    pub fn ensure_day(&mut self, current_day: u64)
        ensures
            *final(self) == old(self).on_day(current_day),
    {
        if self.reserved_day != current_day {
            self.reserved_day = current_day;
            self.reserved_today = 0;
        }
    }
}

impl Default for UserPolicy {
    fn default() -> (r: Self)
        ensures
            r == UserPolicy::zeroed(),
    {
        UserPolicy {
            per_run_cap: 0,
            daily_cap: 0,
            paused: false,
            reserved_today: 0,
            reserved_day: 0,
        }
    }
}

/// The caps and pause flag that a user sets.
#[derive(Clone, Copy, Debug, PartialEq, Eq, Structural)]
pub struct PolicyInput {
    pub per_run_cap: i128,
    pub daily_cap: i128,
    pub paused: bool,
}

/// Why a vault operation was rejected.
#[derive(Clone, Copy, Debug, PartialEq, Eq, Structural)]
pub enum VaultError {
    AlreadyInitialized,
    NotInitialized,
    Unauthorized,
    InvalidAmount,
    InsufficientBalance,
    PolicyPaused,
    PerRunCapExceeded,
    DailyCapExceeded,
    AgentRegistryNotSet,
    AgentNotFound,
    RunNotFound,
    RunNotOpen,
    UsageExceedsBudget,
    InvalidRateVersion,
    UnauthorizedRunner,
    RunnerGrantExists,
    RunnerGrantNotFound,
}

impl VaultError {
    /// The numeric code of each error, in the order the variants are declared.
    pub open spec fn code_spec(self) -> u32 {
        match self {
            VaultError::AlreadyInitialized => 1,
            VaultError::NotInitialized => 2,
            VaultError::Unauthorized => 3,
            VaultError::InvalidAmount => 4,
            VaultError::InsufficientBalance => 5,
            VaultError::PolicyPaused => 6,
            VaultError::PerRunCapExceeded => 7,
            VaultError::DailyCapExceeded => 8,
            VaultError::AgentRegistryNotSet => 9,
            VaultError::AgentNotFound => 10,
            VaultError::RunNotFound => 11,
            VaultError::RunNotOpen => 12,
            VaultError::UsageExceedsBudget => 13,
            VaultError::InvalidRateVersion => 14,
            VaultError::UnauthorizedRunner => 15,
            VaultError::RunnerGrantExists => 16,
            VaultError::RunnerGrantNotFound => 17,
        }
    }

    /// The numeric code of the error, as the contract host reports it.
    pub fn code(&self) -> (r: u32)
        ensures
            r == self.code_spec(),
    {
        match self {
            VaultError::AlreadyInitialized => 1,
            VaultError::NotInitialized => 2,
            VaultError::Unauthorized => 3,
            VaultError::InvalidAmount => 4,
            VaultError::InsufficientBalance => 5,
            VaultError::PolicyPaused => 6,
            VaultError::PerRunCapExceeded => 7,
            VaultError::DailyCapExceeded => 8,
            VaultError::AgentRegistryNotSet => 9,
            VaultError::AgentNotFound => 10,
            VaultError::RunNotFound => 11,
            VaultError::RunNotOpen => 12,
            VaultError::UsageExceedsBudget => 13,
            VaultError::InvalidRateVersion => 14,
            VaultError::UnauthorizedRunner => 15,
            VaultError::RunnerGrantExists => 16,
            VaultError::RunnerGrantNotFound => 17,
        }
    }
}

} // verus!
