//! Escrow and metering for pay-per-use agent runs: a registry of agents and
//! their versioned rate cards, and a prepaid vault that escrows a user's funds
//! against a usage budget and settles them to the usage actually metered.
pub mod charge;
pub mod grants;
pub mod registry;
pub mod types;
pub mod vault;

pub use charge::{compute_charge, current_day, validate_non_negative_usage};
pub use grants::RunnerGrant;
pub use registry::{
    AgentDetails, AgentRecord, AgentRegistry, AgentRegistryError, AgentRegistryInterface, RateCard,
    RateCardInput,
};
pub use types::{Address, PolicyInput, UsageBreakdown, UsageMeterRates, UserPolicy, VaultError};
pub use vault::{
    PrepaidVault, RunLifecycle, RunReceipt, RunRecord, RunSettlement, RunnerGrantLog,
    RunnerRevokeLog,
};
