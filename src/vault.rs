use vstd::prelude::*;

use std::collections::HashMap;

use crate::charge::{
    charge_of, compute_charge, current_day, day_of, lemma_charge_non_negative,
    validate_non_negative_usage,
};
use crate::grants::{
    find_grant, has_grant, is_grant_for, is_live, lemma_has_live_grant, lemma_live_grants_members,
    lemma_without_grant_members, live_grants, prune_expired_grants, remove_runner_grant,
    without_grant, RunnerGrant,
};
use crate::registry::AgentRegistryInterface;
use crate::types::{Address, PolicyInput, UsageBreakdown, UserPolicy, VaultError};

verus! {

broadcast use vstd::std_specs::hash::group_hash_axioms;

/// What a finalized run settled to.
#[derive(Clone, Copy, Debug, PartialEq, Eq)]
pub struct RunSettlement {
    pub usage: UsageBreakdown,
    pub actual_charge: i128,
    pub refund: i128,
    pub output_hash: [u8; 32],
}

/// Where a run stands. Both non-open states are final.
#[derive(Clone, Copy, Debug, PartialEq, Eq)]
pub enum RunLifecycle {
    Open,
    Finalized(RunSettlement),
    Cancelled,
}

/// One escrowed run of an agent for a user.
#[derive(Clone, Copy, Debug, PartialEq, Eq)]
pub struct RunRecord {
    pub user: Address,
    pub opened_by: Address,
    pub agent_id: u32,
    pub rate_version: u32,
    pub budgets: UsageBreakdown,
    pub max_charge: i128,
    pub escrowed: i128,
    pub opened_at: u64,
    pub lifecycle: RunLifecycle,
}

/// What `finalize_run` reports.
#[derive(Clone, Copy, Debug, PartialEq, Eq)]
pub struct RunReceipt {
    pub run_id: u64,
    pub actual_charge: i128,
    pub refund: i128,
    pub developer: Address,
}

/// The event of a new runner grant.
#[derive(Clone, Copy, Debug, PartialEq, Eq)]
pub struct RunnerGrantLog {
    pub user: Address,
    pub runner: Address,
    pub agent_id: u32,
    pub issued_at: u64,
    pub expires_at: Option<u64>,
}

/// The event of a revoked runner grant.
#[derive(Clone, Copy, Debug, PartialEq, Eq)]
pub struct RunnerRevokeLog {
    pub user: Address,
    pub runner: Address,
    pub agent_id: u32,
    pub revoked_at: u64,
}

/// A run whose amounts agree with its state: escrow equals the maximum charge
/// while open and is zero after; a settlement splits the maximum charge into
/// the charge and the refund.
pub open spec fn run_wf(r: RunRecord) -> bool {
    &&& r.max_charge >= 0
    &&& r.budgets.is_non_negative()
    &&& match r.lifecycle {
        RunLifecycle::Open => r.escrowed == r.max_charge,
        RunLifecycle::Finalized(s) => {
            &&& r.escrowed == 0
            &&& s.actual_charge >= 0
            &&& s.refund >= 0
            &&& s.actual_charge + s.refund == r.max_charge
        },
        RunLifecycle::Cancelled => r.escrowed == 0,
    }
}

/// The policy after releasing `amount` of reservation on day `today`; it
/// never goes below zero.
pub open spec fn released(p: UserPolicy, today: u64, amount: int) -> UserPolicy {
    let q = p.on_day(today);
    UserPolicy {
        reserved_today: if q.reserved_today >= amount {
            (q.reserved_today - amount) as i128
        } else {
            0
        },
        ..q
    }
}

/// The vault's state. Maps hold only the keys that were written; an absent
/// balance reads as 0, an absent policy as the zeroed one, an absent grant
/// list as empty. Run `id` is `runs[id - 1]`.
pub struct VaultView {
    pub registry: Option<Address>,
    pub balances: Map<Address, i128>,
    pub developer_balances: Map<Address, i128>,
    pub policies: Map<Address, UserPolicy>,
    pub grants: Map<Address, Seq<RunnerGrant>>,
    pub runs: Seq<RunRecord>,
}

impl VaultView {
    pub open spec fn balance(self, user: Address) -> int {
        if self.balances.contains_key(user) {
            self.balances[user] as int
        } else {
            0
        }
    }

    pub open spec fn developer_balance(self, developer: Address) -> int {
        if self.developer_balances.contains_key(developer) {
            self.developer_balances[developer] as int
        } else {
            0
        }
    }

    pub open spec fn policy(self, user: Address) -> UserPolicy {
        if self.policies.contains_key(user) {
            self.policies[user]
        } else {
            UserPolicy::zeroed()
        }
    }

    pub open spec fn grants_of(self, user: Address) -> Seq<RunnerGrant> {
        if self.grants.contains_key(user) {
            self.grants[user]
        } else {
            Seq::empty()
        }
    }

    pub open spec fn has_run(self, run_id: u64) -> bool {
        1 <= run_id <= self.runs.len()
    }

    pub open spec fn run(self, run_id: u64) -> RunRecord {
        self.runs[run_id - 1]
    }

    pub open spec fn wf(self) -> bool {
        &&& forall|u: Address| #[trigger] self.balances.contains_key(u) ==> self.balances[u] >= 0
        &&& forall|d: Address| #[trigger]
            self.developer_balances.contains_key(d) ==> self.developer_balances[d] >= 0
        &&& forall|u: Address| #[trigger] self.policies.contains_key(u) ==> self.policies[u].wf()
        &&& forall|u: Address| #[trigger] self.grants.contains_key(u) ==> self.grants[u].len() > 0
        &&& self.runs.len() < u64::MAX
        &&& forall|i: int| 0 <= i < self.runs.len() ==> run_wf(#[trigger] self.runs[i])
    }

    /// The state with `user`'s grant list stored as `grants`; an empty list
    /// removes the entry.
    pub open spec fn with_grants(self, user: Address, grants: Seq<RunnerGrant>) -> VaultView {
        VaultView {
            grants: if grants.len() == 0 {
                self.grants.remove(user)
            } else {
                self.grants.insert(user, grants)
            },
            ..self
        }
    }

    pub open spec fn with_balance(self, user: Address, amount: int) -> VaultView {
        VaultView { balances: self.balances.insert(user, amount as i128), ..self }
    }

    pub open spec fn with_developer_balance(self, developer: Address, amount: int) -> VaultView {
        VaultView {
            developer_balances: self.developer_balances.insert(developer, amount as i128),
            ..self
        }
    }

    pub open spec fn with_policy(self, user: Address, policy: UserPolicy) -> VaultView {
        VaultView { policies: self.policies.insert(user, policy), ..self }
    }

    pub open spec fn with_run(self, run_id: u64, record: RunRecord) -> VaultView {
        VaultView { runs: self.runs.update(run_id - 1, record), ..self }
    }
    /// Grants `runner` the right to run `agent_id` for `user` from `now`.
    pub open spec fn grant_runner_spec<R: AgentRegistryInterface>(
        self,
        registry: R,
        user: Address,
        runner: Address,
        agent_id: u32,
        expires_at: Option<u64>,
        now: u64,
    ) -> Result<VaultView, VaultError> {
        let live = live_grants(self.grants_of(user), now);
        if runner == user {
            Err(VaultError::InvalidAmount)
        } else if self.registry is None {
            Err(VaultError::NotInitialized)
        } else if !registry.has_agent_view(agent_id) {
            Err(VaultError::AgentNotFound)
        } else if !registry.is_runner_view(agent_id, runner) {
            Err(VaultError::UnauthorizedRunner)
        } else if has_grant(live, runner, agent_id) {
            Err(VaultError::RunnerGrantExists)
        } else {
            Ok(
                self.with_grants(
                    user,
                    live.push(RunnerGrant { runner, agent_id, issued_at: now, expires_at }),
                ),
            )
        }
    }

    /// Removes `user`'s live grant for `runner` on `agent_id`.
    pub open spec fn revoke_runner_spec(
        self,
        user: Address,
        runner: Address,
        agent_id: u32,
        now: u64,
    ) -> Result<VaultView, VaultError> {
        let live = live_grants(self.grants_of(user), now);
        if !has_grant(live, runner, agent_id) {
            Err(VaultError::RunnerGrantNotFound)
        } else {
            Ok(self.with_grants(user, without_grant(live, runner, agent_id)))
        }
    }

    /// Whether `runner` may act for `user` on `agent_id` at `now`: a live grant
    /// exists and the registry still lists the runner. A grant the registry no
    /// longer backs is deleted; expired grants are pruned either way.
    pub open spec fn is_runner_authorized_spec<R: AgentRegistryInterface>(
        self,
        registry: R,
        user: Address,
        runner: Address,
        agent_id: u32,
        now: u64,
    ) -> Result<(VaultView, bool), VaultError> {
        let live = live_grants(self.grants_of(user), now);
        if !has_grant(live, runner, agent_id) {
            Ok((self.with_grants(user, live), false))
        } else if self.registry is None {
            Err(VaultError::NotInitialized)
        } else if !registry.has_agent_view(agent_id) {
            Err(VaultError::AgentNotFound)
        } else if !registry.is_runner_view(agent_id, runner) {
            Ok((self.with_grants(user, without_grant(live, runner, agent_id)), false))
        } else {
            Ok((self.with_grants(user, live), true))
        }
    }

    /// Opens a run: checks the caller, prices the budget under the rate card,
    /// applies the policy, and escrows the maximum charge from the balance.
    pub open spec fn open_run_spec<R: AgentRegistryInterface>(
        self,
        registry: R,
        user: Address,
        caller: Address,
        agent_id: u32,
        rate_version: u32,
        budgets: UsageBreakdown,
        now: u64,
    ) -> Result<(VaultView, u64), VaultError> {
        let delegated = caller != user;
        let live = live_grants(self.grants_of(user), now);
        if delegated && !has_grant(live, caller, agent_id) {
            Err(VaultError::UnauthorizedRunner)
        } else if delegated && self.registry is None {
            Err(VaultError::NotInitialized)
        } else if delegated && !registry.has_agent_view(agent_id) {
            Err(VaultError::AgentNotFound)
        } else if delegated && !registry.is_runner_view(agent_id, caller) {
            Err(VaultError::UnauthorizedRunner)
        } else if !budgets.is_non_negative() {
            Err(VaultError::InvalidAmount)
        } else if self.registry is None {
            Err(VaultError::NotInitialized)
        } else if registry.rate_card_view(agent_id, rate_version) is None {
            Err(VaultError::AgentNotFound)
        } else {
            let card = registry.rate_card_view(agent_id, rate_version).unwrap();
            let max = charge_of(card.rates, budgets);
            let p = self.policy(user).on_day(day_of(now));
            if max > i128::MAX {
                Err(VaultError::InvalidAmount)
            } else if p.paused {
                Err(VaultError::PolicyPaused)
            } else if p.per_run_cap > 0 && max > p.per_run_cap {
                Err(VaultError::PerRunCapExceeded)
            } else if p.daily_cap > 0 && p.reserved_today + max > p.daily_cap {
                Err(VaultError::DailyCapExceeded)
            } else if self.balance(user) < max {
                Err(VaultError::InsufficientBalance)
            } else {
                let policy = if p.daily_cap > 0 {
                    UserPolicy { reserved_today: (p.reserved_today + max) as i128, ..p }
                } else {
                    p
                };
                let record = RunRecord {
                    user,
                    opened_by: caller,
                    agent_id,
                    rate_version,
                    budgets,
                    max_charge: max as i128,
                    escrowed: max as i128,
                    opened_at: now,
                    lifecycle: RunLifecycle::Open,
                };
                let base = if delegated {
                    self.with_grants(user, live)
                } else {
                    self
                };
                let v = VaultView {
                    runs: self.runs.push(record),
                    ..base.with_policy(user, policy).with_balance(user, self.balance(user) - max)
                };
                Ok((v, (self.runs.len() + 1) as u64))
            }
        }
    }

    /// Settles an open run to the charge for `usage`: the developer is paid
    /// that charge, the user gets the rest of the escrow back, and the day's
    /// reservation is released.
    pub open spec fn finalize_run_spec<R: AgentRegistryInterface>(
        self,
        registry: R,
        run_id: u64,
        runner: Address,
        rate_version: u32,
        usage: UsageBreakdown,
        output_hash: [u8; 32],
        now: u64,
    ) -> Result<(VaultView, RunReceipt), VaultError> {
        if !self.has_run(run_id) {
            Err(VaultError::RunNotFound)
        } else {
            let rec = self.run(run_id);
            let live = live_grants(self.grants_of(rec.user), now);
            if !(rec.lifecycle is Open) {
                Err(VaultError::RunNotOpen)
            } else if rate_version != rec.rate_version {
                Err(VaultError::InvalidRateVersion)
            } else if !usage.is_non_negative() {
                Err(VaultError::InvalidAmount)
            } else if !usage.within(rec.budgets) {
                Err(VaultError::UsageExceedsBudget)
            } else if self.registry is None {
                Err(VaultError::NotInitialized)
            } else if !registry.has_agent_view(rec.agent_id) {
                Err(VaultError::AgentNotFound)
            } else if !registry.is_runner_view(rec.agent_id, runner) {
                Err(VaultError::UnauthorizedRunner)
            } else if registry.rate_card_view(rec.agent_id, rec.rate_version) is None {
                Err(VaultError::AgentNotFound)
            } else if !has_grant(live, runner, rec.agent_id) {
                Err(VaultError::UnauthorizedRunner)
            } else {
                let actual = charge_of(
                    registry.rate_card_view(rec.agent_id, rec.rate_version).unwrap().rates,
                    usage,
                );
                let developer = registry.developer_view(rec.agent_id);
                let refund = rec.max_charge - actual;
                if actual > i128::MAX {
                    Err(VaultError::InvalidAmount)
                } else if actual > rec.max_charge {
                    Err(VaultError::UsageExceedsBudget)
                } else if self.developer_balance(developer) + actual > i128::MAX {
                    Err(VaultError::InvalidAmount)
                } else if self.balance(rec.user) + refund > i128::MAX {
                    Err(VaultError::InvalidAmount)
                } else {
                    let settlement = RunSettlement {
                        usage,
                        actual_charge: actual as i128,
                        refund: refund as i128,
                        output_hash,
                    };
                    let record = RunRecord {
                        escrowed: 0,
                        lifecycle: RunLifecycle::Finalized(settlement),
                        ..rec
                    };
                    let v = self.with_grants(rec.user, live).with_developer_balance(
                        developer,
                        self.developer_balance(developer) + actual,
                    ).with_balance(rec.user, self.balance(rec.user) + refund).with_policy(
                        rec.user,
                        released(self.policy(rec.user), day_of(now), rec.max_charge as int),
                    ).with_run(run_id, record);
                    let receipt = RunReceipt {
                        run_id,
                        actual_charge: actual as i128,
                        refund: refund as i128,
                        developer,
                    };
                    Ok((v, receipt))
                }
            }
        }
    }

    /// Cancels an open run of `user`: the whole escrow goes back to the user
    /// and the day's reservation is released.
    pub open spec fn cancel_run_spec(self, user: Address, run_id: u64, now: u64) -> Result<
        VaultView,
        VaultError,
    > {
        if !self.has_run(run_id) {
            Err(VaultError::RunNotFound)
        } else {
            let rec = self.run(run_id);
            if rec.user != user {
                Err(VaultError::Unauthorized)
            } else if !(rec.lifecycle is Open) {
                Err(VaultError::RunNotOpen)
            } else if self.balance(user) + rec.escrowed > i128::MAX {
                Err(VaultError::InvalidAmount)
            } else {
                let record = RunRecord { escrowed: 0, lifecycle: RunLifecycle::Cancelled, ..rec };
                Ok(
                    self.with_balance(user, self.balance(user) + rec.escrowed).with_policy(
                        user,
                        released(self.policy(user), day_of(now), rec.max_charge as int),
                    ).with_run(run_id, record),
                )
            }
        }
    }
}

/// The prepaid vault: balances of users and developers, spend policies,
/// runner grants and runs.
pub struct PrepaidVault {
    registry: Option<Address>,
    balances: HashMap<Address, i128>,
    developer_balances: HashMap<Address, i128>,
    policies: HashMap<Address, UserPolicy>,
    grants: HashMap<Address, Vec<RunnerGrant>>,
    runs: Vec<RunRecord>,
}

impl View for PrepaidVault {
    type V = VaultView;

    closed spec fn view(&self) -> VaultView {
        VaultView {
            registry: self.registry,
            balances: self.balances@,
            developer_balances: self.developer_balances@,
            policies: self.policies@,
            grants: self.grants@.map_values(|v: Vec<RunnerGrant>| v@),
            runs: self.runs@,
        }
    }
}

impl PrepaidVault {
    pub open spec fn wf(&self) -> bool {
        self@.wf()
    }

    /// An empty vault, not yet bound to a registry.
    pub fn new() -> (r: PrepaidVault)
        ensures
            r.wf(),
            r@.registry is None,
            r@.balances.is_empty(),
            r@.developer_balances.is_empty(),
            r@.policies.is_empty(),
            r@.grants.is_empty(),
            r@.runs.len() == 0,
    {
        let r = PrepaidVault {
            registry: None,
            balances: HashMap::new(),
            developer_balances: HashMap::new(),
            policies: HashMap::new(),
            grants: HashMap::new(),
            runs: Vec::new(),
        };
        proof {
            assert(r@.grants =~= Map::empty());
        }
        r
    }

    /// Binds the vault to the registry at `registry`; fails if it is bound already.
    pub fn init(&mut self, registry: Address) -> (r: Result<(), VaultError>)
        requires
            old(self).wf(),
        ensures
            final(self).wf(),
            old(self)@.registry is Some ==> r == Err::<(), _>(VaultError::AlreadyInitialized)
                && *final(self) == *old(self),
            old(self)@.registry is None ==> r is Ok && final(self)@ == (VaultView {
                registry: Some(registry),
                ..old(self)@
            }),
    {
        if self.registry.is_some() {
            return Err(VaultError::AlreadyInitialized);
        }
        self.registry = Some(registry);
        Ok(())
    }

    fn require_registry(&self) -> (r: Result<Address, VaultError>)
        ensures
            match self@.registry {
                Some(a) => r == Ok::<Address, VaultError>(a),
                None => r == Err::<Address, _>(VaultError::NotInitialized),
            },
    {
        match self.registry {
            Some(a) => Ok(a),
            None => Err(VaultError::NotInitialized),
        }
    }

    fn read_balance(&self, user: Address) -> (r: i128)
        ensures
            r == self@.balance(user),
    {
        match self.balances.get(&user) {
            Some(b) => *b,
            None => 0,
        }
    }

    fn read_developer_balance(&self, developer: Address) -> (r: i128)
        ensures
            r == self@.developer_balance(developer),
    {
        match self.developer_balances.get(&developer) {
            Some(b) => *b,
            None => 0,
        }
    }

    fn read_policy(&self, user: Address) -> (r: UserPolicy)
        ensures
            r == self@.policy(user),
    {
        match self.policies.get(&user) {
            Some(p) => *p,
            None => UserPolicy::default(),
        }
    }

    /// The user's grants that are live at `now`.
    fn read_live_grants(&self, user: Address, now: u64) -> (r: Vec<RunnerGrant>)
        ensures
            r@ == live_grants(self@.grants_of(user), now),
    {
        match self.grants.get(&user) {
            Some(g) => prune_expired_grants(g, now),
            None => {
                let empty: Vec<RunnerGrant> = Vec::new();
                proof {
                    assert(live_grants(Seq::<RunnerGrant>::empty(), now) =~= Seq::empty());
                }
                empty
            },
        }
    }

    fn write_grants(&mut self, user: Address, grants: Vec<RunnerGrant>)
        ensures
            final(self)@ == old(self)@.with_grants(user, grants@),
    {
        let ghost g = grants@;
        if grants.len() == 0 {
            self.grants.remove(&user);
        } else {
            self.grants.insert(user, grants);
        }
        proof {
            assert(self@.grants =~= old(self)@.with_grants(user, g).grants);
        }
    }

    /// Credits `amount` to the user's balance.
    pub fn deposit(&mut self, user: Address, amount: i128) -> (r: Result<(), VaultError>)
        requires
            old(self).wf(),
        ensures
            final(self).wf(),
            amount <= 0 ==> r == Err::<(), _>(VaultError::InvalidAmount),
            amount > 0 && old(self)@.balance(user) + amount > i128::MAX ==> r == Err::<(), _>(
                VaultError::InvalidAmount,
            ),
            r is Err ==> *final(self) == *old(self),
            amount > 0 && old(self)@.balance(user) + amount <= i128::MAX ==> r is Ok
                && final(self)@ == old(self)@.with_balance(user, old(self)@.balance(user) + amount),
    {
        if amount <= 0 {
            return Err(VaultError::InvalidAmount);
        }
        let balance = self.read_balance(user);
        let new_balance = match balance.checked_add(amount) {
            Some(b) => b,
            None => return Err(VaultError::InvalidAmount),
        };
        self.balances.insert(user, new_balance);
        Ok(())
    }

    /// Pays `amount` out of the user's balance.
    pub fn withdraw(&mut self, user: Address, amount: i128) -> (r: Result<(), VaultError>)
        requires
            old(self).wf(),
        ensures
            final(self).wf(),
            amount <= 0 ==> r == Err::<(), _>(VaultError::InvalidAmount),
            amount > 0 && old(self)@.balance(user) < amount ==> r == Err::<(), _>(
                VaultError::InsufficientBalance,
            ),
            r is Err ==> *final(self) == *old(self),
            amount > 0 && old(self)@.balance(user) >= amount ==> r is Ok && final(self)@ == old(
                self,
            )@.with_balance(user, old(self)@.balance(user) - amount),
    {
        if amount <= 0 {
            return Err(VaultError::InvalidAmount);
        }
        let balance = self.read_balance(user);
        if balance < amount {
            return Err(VaultError::InsufficientBalance);
        }
        self.balances.insert(user, balance - amount);
        Ok(())
    }

    /// Sets the user's caps and pause flag; the day's reservation is kept.
    pub fn set_policy(&mut self, user: Address, policy: PolicyInput) -> (r: Result<
        (),
        VaultError,
    >)
        requires
            old(self).wf(),
        ensures
            final(self).wf(),
            r is Err <==> policy.per_run_cap < 0 || policy.daily_cap < 0,
            r is Err ==> r == Err::<(), _>(VaultError::InvalidAmount) && *final(self) == *old(self),
            r is Ok ==> final(self)@ == old(self)@.with_policy(
                user,
                UserPolicy {
                    per_run_cap: policy.per_run_cap,
                    daily_cap: policy.daily_cap,
                    paused: policy.paused,
                    ..old(self)@.policy(user)
                },
            ),
    {
        if policy.per_run_cap < 0 || policy.daily_cap < 0 {
            return Err(VaultError::InvalidAmount);
        }
        let mut stored = self.read_policy(user);
        stored.per_run_cap = policy.per_run_cap;
        stored.daily_cap = policy.daily_cap;
        stored.paused = policy.paused;
        self.policies.insert(user, stored);
        Ok(())
    }

    /// The user's balance.
    pub fn balance_of(&self, user: Address) -> (r: i128)
        ensures
            r == self@.balance(user),
    {
        self.read_balance(user)
    }

    /// The developer's balance.
    pub fn developer_balance(&self, developer: Address) -> (r: i128)
        ensures
            r == self@.developer_balance(developer),
    {
        self.read_developer_balance(developer)
    }

    /// Pays `amount` out of the developer's balance.
    pub fn claim_developer(&mut self, developer: Address, amount: i128) -> (r: Result<
        (),
        VaultError,
    >)
        requires
            old(self).wf(),
        ensures
            final(self).wf(),
            amount <= 0 ==> r == Err::<(), _>(VaultError::InvalidAmount),
            amount > 0 && old(self)@.developer_balance(developer) < amount ==> r == Err::<(), _>(
                VaultError::InsufficientBalance,
            ),
            r is Err ==> *final(self) == *old(self),
            amount > 0 && old(self)@.developer_balance(developer) >= amount ==> r is Ok
                && final(self)@ == old(self)@.with_developer_balance(
                developer,
                old(self)@.developer_balance(developer) - amount,
            ),
    {
        if amount <= 0 {
            return Err(VaultError::InvalidAmount);
        }
        let balance = self.read_developer_balance(developer);
        if balance < amount {
            return Err(VaultError::InsufficientBalance);
        }
        self.developer_balances.insert(developer, balance - amount);
        Ok(())
    }

    /// The record of a run.
    pub fn get_run(&self, run_id: u64) -> (r: Result<RunRecord, VaultError>)
        ensures
            self@.has_run(run_id) ==> r == Ok::<RunRecord, VaultError>(self@.run(run_id)),
            !self@.has_run(run_id) ==> r == Err::<RunRecord, _>(VaultError::RunNotFound),
    {
        if run_id == 0 || run_id > self.runs.len() as u64 {
            return Err(VaultError::RunNotFound);
        }
        Ok(self.runs[(run_id - 1) as usize])
    }
    /// Lets `runner` open and settle runs of `agent_id` for `user`, until
    /// `expires_at` if given. Expired grants of the user are pruned.
    pub fn grant_runner<R: AgentRegistryInterface>(
        &mut self,
        registry: &R,
        user: Address,
        runner: Address,
        agent_id: u32,
        expires_at: Option<u64>,
        now: u64,
    ) -> (r: Result<RunnerGrantLog, VaultError>)
        requires
            old(self).wf(),
            registry.registry_wf(),
        ensures
            final(self).wf(),
            match old(self)@.grant_runner_spec(*registry, user, runner, agent_id, expires_at, now) {
                Ok(v) => r == Ok::<RunnerGrantLog, VaultError>(
                    RunnerGrantLog { user, runner, agent_id, issued_at: now, expires_at },
                ) && final(self)@ == v,
                Err(e) => r == Err::<RunnerGrantLog, _>(e) && *final(self) == *old(self),
            },
    {
        if runner == user {
            return Err(VaultError::InvalidAmount);
        }
        if let Err(e) = self.require_registry() {
            return Err(e);
        }
        match registry.is_runner(agent_id, runner) {
            Ok(true) => {},
            Ok(false) => return Err(VaultError::UnauthorizedRunner),
            Err(_) => return Err(VaultError::AgentNotFound),
        }
        let mut grants = self.read_live_grants(user, now);
        if find_grant(&grants, runner, agent_id) {
            return Err(VaultError::RunnerGrantExists);
        }
        grants.push(RunnerGrant { runner, agent_id, issued_at: now, expires_at });
        self.write_grants(user, grants);
        Ok(RunnerGrantLog { user, runner, agent_id, issued_at: now, expires_at })
    }

    /// Withdraws `user`'s grant to `runner` for `agent_id`. Expired grants
    /// are pruned first and count as absent.
    pub fn revoke_runner(&mut self, user: Address, runner: Address, agent_id: u32, now: u64) -> (r:
        Result<RunnerRevokeLog, VaultError>)
        requires
            old(self).wf(),
        ensures
            final(self).wf(),
            match old(self)@.revoke_runner_spec(user, runner, agent_id, now) {
                Ok(v) => r == Ok::<RunnerRevokeLog, VaultError>(
                    RunnerRevokeLog { user, runner, agent_id, revoked_at: now },
                ) && final(self)@ == v,
                Err(e) => r == Err::<RunnerRevokeLog, _>(e) && *final(self) == *old(self),
            },
    {
        let grants = self.read_live_grants(user, now);
        let (filtered, removed) = remove_runner_grant(&grants, runner, agent_id);
        if !removed {
            return Err(VaultError::RunnerGrantNotFound);
        }
        self.write_grants(user, filtered);
        Ok(RunnerRevokeLog { user, runner, agent_id, revoked_at: now })
    }

    /// The user's live grants; the expired ones are pruned from storage.
    pub fn list_runner_grants(&mut self, user: Address, now: u64) -> (r: Vec<RunnerGrant>)
        requires
            old(self).wf(),
        ensures
            final(self).wf(),
            r@ == live_grants(old(self)@.grants_of(user), now),
            final(self)@ == old(self)@.with_grants(user, r@),
    {
        let grants = self.read_live_grants(user, now);
        let mut copy: Vec<RunnerGrant> = Vec::new();
        let mut i: usize = 0;
        while i < grants.len()
            invariant
                i <= grants.len(),
                copy@ == grants@.subrange(0, i as int),
            decreases grants.len() - i,
        {
            copy.push(grants[i]);
            i = i + 1;
        }
        proof {
            assert(grants@.subrange(0, grants@.len() as int) =~= grants@);
        }
        self.write_grants(user, grants);
        copy
    }

    /// Whether `runner` may act for `user` on `agent_id` now; see
    /// `VaultView::is_runner_authorized_spec`.
    pub fn is_runner_authorized<R: AgentRegistryInterface>(
        &mut self,
        registry: &R,
        user: Address,
        runner: Address,
        agent_id: u32,
        now: u64,
    ) -> (r: Result<bool, VaultError>)
        requires
            old(self).wf(),
            registry.registry_wf(),
        ensures
            final(self).wf(),
            match old(self)@.is_runner_authorized_spec(*registry, user, runner, agent_id, now) {
                Ok((v, b)) => r == Ok::<bool, VaultError>(b) && final(self)@ == v,
                Err(e) => r == Err::<bool, _>(e) && *final(self) == *old(self),
            },
    {
        let grants = self.read_live_grants(user, now);
        if !find_grant(&grants, runner, agent_id) {
            self.write_grants(user, grants);
            return Ok(false);
        }
        if let Err(e) = self.require_registry() {
            return Err(e);
        }
        match registry.is_runner(agent_id, runner) {
            Ok(true) => {
                self.write_grants(user, grants);
                Ok(true)
            },
            Ok(false) => {
                let (filtered, _) = remove_runner_grant(&grants, runner, agent_id);
                self.write_grants(user, filtered);
                Ok(false)
            },
            Err(_) => Err(VaultError::AgentNotFound),
        }
    }
    /// Opens a run of `agent_id` for `user`, started by `caller` (the user,
    /// or a runner holding the user's grant), escrowing the maximum charge
    /// of `budgets`. Returns the new run id.
    pub fn open_run<R: AgentRegistryInterface>(
        &mut self,
        registry: &R,
        user: Address,
        caller: Address,
        agent_id: u32,
        rate_version: u32,
        budgets: UsageBreakdown,
        now: u64,
    ) -> (r: Result<u64, VaultError>)
        requires
            old(self).wf(),
            registry.registry_wf(),
            old(self)@.runs.len() + 1 < u64::MAX,
        ensures
            final(self).wf(),
            match old(self)@.open_run_spec(
                *registry,
                user,
                caller,
                agent_id,
                rate_version,
                budgets,
                now,
            ) {
                Ok((v, id)) => r == Ok::<u64, VaultError>(id) && final(self)@ == v,
                Err(e) => r == Err::<u64, _>(e) && *final(self) == *old(self),
            },
    {
        let delegated = caller != user;
        let mut live: Vec<RunnerGrant> = Vec::new();
        if delegated {
            live = self.read_live_grants(user, now);
            if !find_grant(&live, caller, agent_id) {
                return Err(VaultError::UnauthorizedRunner);
            }
            if let Err(e) = self.require_registry() {
                return Err(e);
            }
            match registry.is_runner(agent_id, caller) {
                Ok(true) => {},
                Ok(false) => return Err(VaultError::UnauthorizedRunner),
                Err(_) => return Err(VaultError::AgentNotFound),
            }
        }
        if !validate_non_negative_usage(&budgets) {
            return Err(VaultError::InvalidAmount);
        }
        if let Err(e) = self.require_registry() {
            return Err(e);
        }
        let card = match registry.get_rate_card(agent_id, rate_version) {
            Ok(card) => card,
            Err(_) => return Err(VaultError::AgentNotFound),
        };
        proof {
            registry.lemma_rates_non_negative(agent_id, rate_version);
        }
        let max_charge = match compute_charge(&card.rates, &budgets) {
            Some(c) => c,
            None => return Err(VaultError::InvalidAmount),
        };
        let mut policy = self.read_policy(user);
        policy.ensure_day(current_day(now));
        if policy.paused {
            return Err(VaultError::PolicyPaused);
        }
        if policy.per_run_cap > 0 && max_charge > policy.per_run_cap {
            return Err(VaultError::PerRunCapExceeded);
        }
        if policy.daily_cap > 0 {
            let new_reserved = match policy.reserved_today.checked_add(max_charge) {
                Some(v) => v,
                None => return Err(VaultError::DailyCapExceeded),
            };
            if new_reserved > policy.daily_cap {
                return Err(VaultError::DailyCapExceeded);
            }
            policy.reserved_today = new_reserved;
        }
        let balance = self.read_balance(user);
        if balance < max_charge {
            return Err(VaultError::InsufficientBalance);
        }
        let run_id = self.runs.len() as u64 + 1;
        if delegated {
            self.write_grants(user, live);
        }
        self.policies.insert(user, policy);
        self.balances.insert(user, balance - max_charge);
        self.runs.push(
            RunRecord {
                user,
                opened_by: caller,
                agent_id,
                rate_version,
                budgets,
                max_charge,
                escrowed: max_charge,
                opened_at: now,
                lifecycle: RunLifecycle::Open,
            },
        );
        Ok(run_id)
    }

    /// The policy of `user` after releasing `amount` of today's reservation.
    fn release_reserved(&self, user: Address, amount: i128, now: u64) -> (r: UserPolicy)
        requires
            self.wf(),
            amount >= 0,
        ensures
            r == released(self@.policy(user), day_of(now), amount as int),
            r.wf(),
    {
        let mut policy = self.read_policy(user);
        policy.ensure_day(current_day(now));
        if policy.reserved_today >= amount {
            policy.reserved_today = policy.reserved_today - amount;
        } else {
            policy.reserved_today = 0;
        }
        policy
    }

    /// Settles an open run to the metered `usage`, reported by `runner`
    /// under the run's rate version: the developer is paid the charge, the
    /// user is refunded the rest of the escrow.
    pub fn finalize_run<R: AgentRegistryInterface>(
        &mut self,
        registry: &R,
        run_id: u64,
        runner: Address,
        rate_version: u32,
        usage: UsageBreakdown,
        output_hash: [u8; 32],
        now: u64,
    ) -> (r: Result<RunReceipt, VaultError>)
        requires
            old(self).wf(),
            registry.registry_wf(),
        ensures
            final(self).wf(),
            match old(self)@.finalize_run_spec(
                *registry,
                run_id,
                runner,
                rate_version,
                usage,
                output_hash,
                now,
            ) {
                Ok((v, receipt)) => r == Ok::<RunReceipt, VaultError>(receipt) && final(self)@ == v,
                Err(e) => r == Err::<RunReceipt, _>(e) && *final(self) == *old(self),
            },
    {
        if run_id == 0 || run_id > self.runs.len() as u64 {
            return Err(VaultError::RunNotFound);
        }
        let idx = (run_id - 1) as usize;
        let record = self.runs[idx];
        proof {
            assert(run_wf(self@.runs[idx as int]));
        }
        match record.lifecycle {
            RunLifecycle::Open => {},
            _ => return Err(VaultError::RunNotOpen),
        }
        if rate_version != record.rate_version {
            return Err(VaultError::InvalidRateVersion);
        }
        if !validate_non_negative_usage(&usage) {
            return Err(VaultError::InvalidAmount);
        }
        if usage.llm_in > record.budgets.llm_in || usage.llm_out > record.budgets.llm_out
            || usage.http_calls > record.budgets.http_calls || usage.runtime_ms
            > record.budgets.runtime_ms {
            return Err(VaultError::UsageExceedsBudget);
        }
        if let Err(e) = self.require_registry() {
            return Err(e);
        }
        match registry.is_runner(record.agent_id, runner) {
            Ok(true) => {},
            Ok(false) => return Err(VaultError::UnauthorizedRunner),
            Err(_) => return Err(VaultError::AgentNotFound),
        }
        let card = match registry.get_rate_card(record.agent_id, record.rate_version) {
            Ok(card) => card,
            Err(_) => return Err(VaultError::AgentNotFound),
        };
        proof {
            registry.lemma_rates_non_negative(record.agent_id, record.rate_version);
        }
        let developer = match registry.developer_of(record.agent_id) {
            Ok(d) => d,
            Err(_) => return Err(VaultError::AgentNotFound),
        };
        let live = self.read_live_grants(record.user, now);
        if !find_grant(&live, runner, record.agent_id) {
            return Err(VaultError::UnauthorizedRunner);
        }
        let actual_charge = match compute_charge(&card.rates, &usage) {
            Some(c) => c,
            None => return Err(VaultError::InvalidAmount),
        };
        if actual_charge > record.max_charge {
            return Err(VaultError::UsageExceedsBudget);
        }
        let refund = record.max_charge - actual_charge;
        let dev_balance = self.read_developer_balance(developer);
        let new_dev_balance = match dev_balance.checked_add(actual_charge) {
            Some(b) => b,
            None => return Err(VaultError::InvalidAmount),
        };
        let user_balance = self.read_balance(record.user);
        let new_user_balance = match user_balance.checked_add(refund) {
            Some(b) => b,
            None => return Err(VaultError::InvalidAmount),
        };
        let policy = self.release_reserved(record.user, record.max_charge, now);
        self.write_grants(record.user, live);
        self.developer_balances.insert(developer, new_dev_balance);
        self.balances.insert(record.user, new_user_balance);
        self.policies.insert(record.user, policy);
        let settlement = RunSettlement { usage, actual_charge, refund, output_hash };
        let mut updated = record;
        updated.escrowed = 0;
        updated.lifecycle = RunLifecycle::Finalized(settlement);
        self.runs.set(idx, updated);
        Ok(RunReceipt { run_id, actual_charge, refund, developer })
    }

    /// Cancels an open run of `user`, refunding the whole escrow to the user.
    pub fn cancel_run(&mut self, user: Address, run_id: u64, now: u64) -> (r: Result<
        (),
        VaultError,
    >)
        requires
            old(self).wf(),
        ensures
            final(self).wf(),
            match old(self)@.cancel_run_spec(user, run_id, now) {
                Ok(v) => r is Ok && final(self)@ == v,
                Err(e) => r == Err::<(), _>(e) && *final(self) == *old(self),
            },
    {
        if run_id == 0 || run_id > self.runs.len() as u64 {
            return Err(VaultError::RunNotFound);
        }
        let idx = (run_id - 1) as usize;
        let record = self.runs[idx];
        proof {
            assert(run_wf(self@.runs[idx as int]));
        }
        if record.user != user {
            return Err(VaultError::Unauthorized);
        }
        match record.lifecycle {
            RunLifecycle::Open => {},
            _ => return Err(VaultError::RunNotOpen),
        }
        let balance = self.read_balance(user);
        let new_balance = match balance.checked_add(record.escrowed) {
            Some(b) => b,
            None => return Err(VaultError::InvalidAmount),
        };
        let policy = self.release_reserved(user, record.max_charge, now);
        self.balances.insert(user, new_balance);
        self.policies.insert(user, policy);
        let mut updated = record;
        updated.escrowed = 0;
        updated.lifecycle = RunLifecycle::Cancelled;
        self.runs.set(idx, updated);
        Ok(())
    }
}

/// A run opened and then finalized splits its escrow exactly: the maximum
/// charge is the charge plus the refund, the user ends up paying only the
/// charge, and the developer is credited the charge.
pub proof fn lemma_escrow_conservation<R: AgentRegistryInterface>(
    v0: VaultView,
    v1: VaultView,
    v2: VaultView,
    registry_at_open: R,
    registry_at_finalize: R,
    user: Address,
    caller: Address,
    agent_id: u32,
    rate_version: u32,
    budgets: UsageBreakdown,
    opened_at: u64,
    run_id: u64,
    runner: Address,
    usage: UsageBreakdown,
    output_hash: [u8; 32],
    finalized_at: u64,
    receipt: RunReceipt,
)
    requires
        v0.wf(),
        registry_at_open.registry_wf(),
        registry_at_finalize.registry_wf(),
        v0.open_run_spec(registry_at_open, user, caller, agent_id, rate_version, budgets, opened_at)
            == Ok::<(VaultView, u64), VaultError>((v1, run_id)),
        v1.finalize_run_spec(
            registry_at_finalize,
            run_id,
            runner,
            rate_version,
            usage,
            output_hash,
            finalized_at,
        ) == Ok::<(VaultView, RunReceipt), VaultError>((v2, receipt)),
    ensures
        v1.run(run_id).max_charge == receipt.actual_charge + receipt.refund,
        v1.balance(user) == v0.balance(user) - v1.run(run_id).max_charge,
        v2.balance(user) == v1.balance(user) + receipt.refund,
        v2.balance(user) == v0.balance(user) - receipt.actual_charge,
        v2.developer_balance(receipt.developer) == v0.developer_balance(receipt.developer)
            + receipt.actual_charge,
        v2.run(run_id).escrowed == 0,
{
    registry_at_open.lemma_rates_non_negative(agent_id, rate_version);
    lemma_charge_non_negative(
        registry_at_open.rate_card_view(agent_id, rate_version).unwrap().rates,
        budgets,
    );
    assert(v1.run(run_id).user == user);
    registry_at_finalize.lemma_rates_non_negative(agent_id, rate_version);
    lemma_charge_non_negative(
        registry_at_finalize.rate_card_view(agent_id, rate_version).unwrap().rates,
        usage,
    );
}

/// A run opened and then cancelled gives the user back exactly what the
/// opening took, and credits no developer.
pub proof fn lemma_cancel_conservation<R: AgentRegistryInterface>(
    v0: VaultView,
    v1: VaultView,
    v2: VaultView,
    registry: R,
    user: Address,
    caller: Address,
    agent_id: u32,
    rate_version: u32,
    budgets: UsageBreakdown,
    opened_at: u64,
    run_id: u64,
    cancelled_at: u64,
)
    requires
        v0.wf(),
        registry.registry_wf(),
        v0.open_run_spec(registry, user, caller, agent_id, rate_version, budgets, opened_at)
            == Ok::<(VaultView, u64), VaultError>((v1, run_id)),
        v1.cancel_run_spec(user, run_id, cancelled_at) == Ok::<VaultView, VaultError>(v2),
    ensures
        v2.balance(user) == v0.balance(user),
        v2.developer_balances == v0.developer_balances,
        v2.run(run_id).escrowed == 0,
        v2.run(run_id).lifecycle == RunLifecycle::Cancelled,
{
    registry.lemma_rates_non_negative(agent_id, rate_version);
    let card = registry.rate_card_view(agent_id, rate_version).unwrap();
    lemma_charge_non_negative(card.rates, budgets);
    assert(v1.run(run_id).user == user);
}

/// Finalized and cancelled runs are final: settling or cancelling one again
/// fails with `RunNotOpen` (the operations then leave the state unchanged).
pub proof fn lemma_terminal_runs_stay<R: AgentRegistryInterface>(
    v: VaultView,
    registry: R,
    run_id: u64,
    runner: Address,
    rate_version: u32,
    usage: UsageBreakdown,
    output_hash: [u8; 32],
    now: u64,
)
    requires
        v.has_run(run_id),
        !(v.run(run_id).lifecycle is Open),
    ensures
        v.finalize_run_spec(registry, run_id, runner, rate_version, usage, output_hash, now)
            == Err::<(VaultView, RunReceipt), VaultError>(VaultError::RunNotOpen),
        v.cancel_run_spec(v.run(run_id).user, run_id, now) == Err::<VaultView, VaultError>(
            VaultError::RunNotOpen,
        ),
{
}

/// Opening a run on a later day than the one the reservation was counted
/// for starts the day's reservation from zero, whatever was reserved before
/// and whether or not it was released.
pub proof fn lemma_daily_cap_rollover<R: AgentRegistryInterface>(
    v0: VaultView,
    v1: VaultView,
    registry: R,
    user: Address,
    caller: Address,
    agent_id: u32,
    rate_version: u32,
    budgets: UsageBreakdown,
    now: u64,
    run_id: u64,
)
    requires
        v0.wf(),
        registry.registry_wf(),
        v0.open_run_spec(registry, user, caller, agent_id, rate_version, budgets, now) == Ok::<
            (VaultView, u64),
            VaultError,
        >((v1, run_id)),
        v0.policy(user).reserved_day < day_of(now),
    ensures
        v1.policy(user).reserved_day == day_of(now),
        v1.policy(user).reserved_today == if v0.policy(user).daily_cap > 0 {
            v1.run(run_id).max_charge
        } else {
            0
        },
{
    registry.lemma_rates_non_negative(agent_id, rate_version);
    let card = registry.rate_card_view(agent_id, rate_version).unwrap();
    lemma_charge_non_negative(card.rates, budgets);
}

/// An expired grant never authorizes a runner, and any operation that reads
/// the user's grants leaves it out of what it stores.
pub proof fn lemma_expired_grant_inert<R: AgentRegistryInterface>(
    v: VaultView,
    registry: R,
    user: Address,
    g: RunnerGrant,
    runner: Address,
    agent_id: u32,
    now: u64,
)
    requires
        v.grants_of(user).contains(g),
        !is_live(g, now),
    ensures
        !live_grants(v.grants_of(user), now).contains(g),
        !v.with_grants(user, live_grants(v.grants_of(user), now)).grants_of(user).contains(g),
        v.is_runner_authorized_spec(registry, user, runner, agent_id, now) matches Ok((v2, b)) ==> {
            &&& !v2.grants_of(user).contains(g)
            &&& b ==> exists|i: int|
                0 <= i < v.grants_of(user).len() && is_grant_for(
                    #[trigger] v.grants_of(user)[i],
                    runner,
                    agent_id,
                ) && is_live(v.grants_of(user)[i], now)
        },
        (forall|i: int|
            0 <= i < v.grants_of(user).len() && is_grant_for(
                #[trigger] v.grants_of(user)[i],
                runner,
                agent_id,
            ) ==> !is_live(v.grants_of(user)[i], now)) ==> v.is_runner_authorized_spec(
            registry,
            user,
            runner,
            agent_id,
            now,
        ) == Ok::<(VaultView, bool), VaultError>(
            (v.with_grants(user, live_grants(v.grants_of(user), now)), false),
        ),
{
    let live = live_grants(v.grants_of(user), now);
    lemma_live_grants_members(v.grants_of(user), now);
    lemma_has_live_grant(v.grants_of(user), now, runner, agent_id);
    lemma_without_grant_members(live, runner, agent_id);
}

} // verus!
