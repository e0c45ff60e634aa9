use prepaid_vault::{
    compute_charge, current_day, validate_non_negative_usage, AgentRegistry, PolicyInput,
    PrepaidVault, RateCardInput, RunLifecycle, RunnerGrant, UsageBreakdown, UsageMeterRates,
    UserPolicy, VaultError,
};

const REGISTRY: u64 = 1;
const DEVELOPER: u64 = 10;
const RUNNER: u64 = 20;
const USER: u64 = 30;
const NOW: u64 = 1_000;
const DAY: u64 = 86_400;

fn hash(byte: u8) -> [u8; 32] {
    [byte; 32]
}

fn sample_rates() -> UsageMeterRates {
    UsageMeterRates {
        llm_in: 10_000,
        llm_out: 20_000,
        http_calls: 10_000_000,
        runtime_ms: 1,
    }
}

fn default_policy() -> PolicyInput {
    PolicyInput {
        per_run_cap: 50_000_000,
        daily_cap: 100_000_000,
        paused: false,
    }
}

fn sample_budgets() -> UsageBreakdown {
    UsageBreakdown { llm_in: 100, llm_out: 50, http_calls: 1, runtime_ms: 1000 }
}

fn setup_agent(registry: &mut AgentRegistry, runners: Vec<u64>) -> u32 {
    let rate = RateCardInput { rates: sample_rates(), manifest_hash: hash(1) };
    registry.register_agent(DEVELOPER, None, runners, rate).unwrap()
}

fn setup() -> (AgentRegistry, PrepaidVault, u32) {
    let mut registry = AgentRegistry::new();
    let mut vault = PrepaidVault::new();
    vault.init(REGISTRY).unwrap();
    let agent_id = setup_agent(&mut registry, vec![RUNNER]);
    (registry, vault, agent_id)
}

#[test]
fn finalize_refunds_unused_amount() {
    let (registry, mut vault, agent_id) = setup();

    let deposit_amount: i128 = 20_000_000;
    vault.deposit(USER, deposit_amount).unwrap();
    vault.set_policy(USER, default_policy()).unwrap();
    vault.grant_runner(&registry, USER, RUNNER, agent_id, None, NOW).unwrap();

    let budgets = sample_budgets();
    let rate_version = 1u32;
    let run_id = vault
        .open_run(&registry, USER, USER, agent_id, rate_version, budgets, NOW)
        .unwrap();

    let usage = UsageBreakdown { llm_in: 80, llm_out: 40, http_calls: 1, runtime_ms: 500 };

    let expected_max = compute_charge(&sample_rates(), &budgets).unwrap();
    let expected_actual = compute_charge(&sample_rates(), &usage).unwrap();
    let expected_refund = expected_max - expected_actual;

    let receipt = vault
        .finalize_run(&registry, run_id, RUNNER, rate_version, usage, hash(9), NOW + 10)
        .unwrap();

    assert_eq!(receipt.actual_charge, expected_actual);
    assert_eq!(receipt.refund, expected_refund);
    assert_eq!(vault.balance_of(USER), deposit_amount - expected_actual);
    assert_eq!(vault.developer_balance(DEVELOPER), expected_actual);

    let run = vault.get_run(run_id).unwrap();
    match run.lifecycle {
        RunLifecycle::Finalized(settlement) => {
            assert_eq!(settlement.actual_charge, expected_actual);
            assert_eq!(settlement.refund, expected_refund);
        }
        _ => panic!("run should be finalized"),
    }
}

#[test]
fn usage_over_budget_panics() {
    let (registry, mut vault, agent_id) = setup();
    vault.deposit(USER, 20_000_000).unwrap();
    vault.set_policy(USER, default_policy()).unwrap();

    let run_id = vault
        .open_run(&registry, USER, USER, agent_id, 1, sample_budgets(), NOW)
        .unwrap();

    let usage = UsageBreakdown { llm_in: 120, llm_out: 40, http_calls: 1, runtime_ms: 400 };

    let err = vault
        .finalize_run(&registry, run_id, RUNNER, 1, usage, hash(2), NOW)
        .unwrap_err();
    assert_eq!(err, VaultError::UsageExceedsBudget);
    assert_eq!(err.code(), 13);
}

#[test]
fn mismatched_rate_version_rejected() {
    let (mut registry, mut vault, agent_id) = setup();
    vault.deposit(USER, 20_000_000).unwrap();
    vault.set_policy(USER, default_policy()).unwrap();

    let run_id = vault
        .open_run(&registry, USER, USER, agent_id, 1, sample_budgets(), NOW)
        .unwrap();

    // publish new rate card version
    let new_rate = RateCardInput {
        rates: UsageMeterRates { llm_in: 12_000, ..sample_rates() },
        manifest_hash: hash(3),
    };
    registry.publish_rate_card(agent_id, new_rate).unwrap();

    let usage = UsageBreakdown { llm_in: 50, llm_out: 20, http_calls: 1, runtime_ms: 200 };

    let err = vault
        .finalize_run(&registry, run_id, RUNNER, 2, usage, hash(4), NOW)
        .unwrap_err();
    assert_eq!(err, VaultError::InvalidRateVersion);
    assert_eq!(err.code(), 14);
}

#[test]
fn cancel_run_refunds_full_amount() {
    let (registry, mut vault, agent_id) = setup();
    let deposit_amount = 15_000_000;
    vault.deposit(USER, deposit_amount).unwrap();
    vault.set_policy(USER, default_policy()).unwrap();

    let budgets = UsageBreakdown { llm_in: 50, llm_out: 20, http_calls: 1, runtime_ms: 200 };

    let rate_version = 1u32;
    let run_id = vault
        .open_run(&registry, USER, USER, agent_id, rate_version, budgets, NOW)
        .unwrap();
    // Cancel should refund entire escrowed amount.
    vault.cancel_run(USER, run_id, NOW).unwrap();
    assert_eq!(vault.balance_of(USER), deposit_amount);
    assert_eq!(vault.developer_balance(DEVELOPER), 0);
    let run = vault.get_run(run_id).unwrap();
    match run.lifecycle {
        RunLifecycle::Cancelled => {}
        _ => panic!("run expected to be cancelled"),
    }
}

#[test]
fn charge_is_the_sum_of_products() {
    assert_eq!(compute_charge(&sample_rates(), &sample_budgets()), Some(12_001_000));
    let usage = UsageBreakdown { llm_in: 80, llm_out: 40, http_calls: 1, runtime_ms: 500 };
    assert_eq!(compute_charge(&sample_rates(), &usage), Some(11_600_500));
    let zero = UsageBreakdown { llm_in: 0, llm_out: 0, http_calls: 0, runtime_ms: 0 };
    assert_eq!(compute_charge(&sample_rates(), &zero), Some(0));
}

#[test]
fn charge_overflow_is_signalled() {
    let huge = UsageMeterRates { llm_in: i128::MAX, llm_out: 0, http_calls: 0, runtime_ms: 0 };
    let two = UsageBreakdown { llm_in: 2, llm_out: 0, http_calls: 0, runtime_ms: 0 };
    assert_eq!(compute_charge(&huge, &two), None);
    let one = UsageBreakdown { llm_in: 1, llm_out: 0, http_calls: 0, runtime_ms: 0 };
    assert_eq!(compute_charge(&huge, &one), Some(i128::MAX));
    // each product fits but the sum does not
    let rates = UsageMeterRates { llm_in: i128::MAX, llm_out: 1, http_calls: 0, runtime_ms: 0 };
    let usage = UsageBreakdown { llm_in: 1, llm_out: 1, http_calls: 0, runtime_ms: 0 };
    assert_eq!(compute_charge(&rates, &usage), None);
}

#[test]
fn usage_and_rate_validation() {
    assert!(validate_non_negative_usage(&sample_budgets()));
    let negative = UsageBreakdown { llm_in: 1, llm_out: -1, http_calls: 0, runtime_ms: 0 };
    assert!(!validate_non_negative_usage(&negative));
    assert!(sample_rates().validate_non_negative());
    let rates = negative.to_usage_meter_rates();
    assert_eq!(rates.llm_out, -1);
    assert!(!rates.validate_non_negative());
    assert_eq!(UsageBreakdown::from(sample_rates()).http_calls, 10_000_000);
}

#[test]
fn day_index_and_rollover() {
    assert_eq!(current_day(0), 0);
    assert_eq!(current_day(DAY - 1), 0);
    assert_eq!(current_day(3 * DAY + 5), 3);
    let mut policy = UserPolicy { reserved_today: 500, reserved_day: 2, ..UserPolicy::default() };
    policy.ensure_day(2);
    assert_eq!(policy.reserved_today, 500);
    policy.ensure_day(3);
    assert_eq!(policy.reserved_today, 0);
    assert_eq!(policy.reserved_day, 3);
}

#[test]
fn open_escrows_the_priced_budget() {
    let (registry, mut vault, agent_id) = setup();
    vault.deposit(USER, 20_000_000).unwrap();
    let run_id = vault
        .open_run(&registry, USER, USER, agent_id, 1, sample_budgets(), NOW)
        .unwrap();
    assert_eq!(run_id, 1);
    assert_eq!(vault.balance_of(USER), 7_999_000);
    let run = vault.get_run(run_id).unwrap();
    assert_eq!(run.max_charge, 12_001_000);
    assert_eq!(run.escrowed, 12_001_000);
    assert_eq!(run.lifecycle, RunLifecycle::Open);
    let second = vault
        .open_run(
            &registry,
            USER,
            USER,
            agent_id,
            1,
            UsageBreakdown { llm_in: 1, llm_out: 0, http_calls: 0, runtime_ms: 0 },
            NOW,
        )
        .unwrap();
    assert_eq!(second, 2);
}

#[test]
fn finalize_settles_scenario_amounts() {
    let (registry, mut vault, agent_id) = setup();
    vault.deposit(USER, 20_000_000).unwrap();
    vault.grant_runner(&registry, USER, RUNNER, agent_id, None, NOW).unwrap();
    let run_id = vault
        .open_run(&registry, USER, RUNNER, agent_id, 1, sample_budgets(), NOW)
        .unwrap();
    assert_eq!(vault.get_run(run_id).unwrap().opened_by, RUNNER);
    assert_eq!(vault.balance_of(USER), 7_999_000);
    let usage = UsageBreakdown { llm_in: 80, llm_out: 40, http_calls: 1, runtime_ms: 500 };
    let receipt = vault
        .finalize_run(&registry, run_id, RUNNER, 1, usage, hash(7), NOW)
        .unwrap();
    assert_eq!(receipt.run_id, run_id);
    assert_eq!(receipt.actual_charge, 11_600_500);
    assert_eq!(receipt.refund, 400_500);
    assert_eq!(receipt.developer, DEVELOPER);
    assert_eq!(receipt.actual_charge + receipt.refund, 12_001_000);
    assert_eq!(vault.balance_of(USER), 8_399_500);
    assert_eq!(vault.developer_balance(DEVELOPER), 11_600_500);
    assert_eq!(vault.get_run(run_id).unwrap().escrowed, 0);
}

#[test]
fn terminal_runs_reject_further_settlement() {
    let (registry, mut vault, agent_id) = setup();
    vault.deposit(USER, 40_000_000).unwrap();
    vault.grant_runner(&registry, USER, RUNNER, agent_id, None, NOW).unwrap();
    let usage = UsageBreakdown { llm_in: 80, llm_out: 40, http_calls: 1, runtime_ms: 500 };

    let finalized = vault
        .open_run(&registry, USER, USER, agent_id, 1, sample_budgets(), NOW)
        .unwrap();
    vault.finalize_run(&registry, finalized, RUNNER, 1, usage, hash(1), NOW).unwrap();
    let balance = vault.balance_of(USER);
    let developer = vault.developer_balance(DEVELOPER);
    assert_eq!(
        vault.finalize_run(&registry, finalized, RUNNER, 1, usage, hash(1), NOW),
        Err(VaultError::RunNotOpen)
    );
    assert_eq!(vault.cancel_run(USER, finalized, NOW), Err(VaultError::RunNotOpen));
    assert_eq!(vault.balance_of(USER), balance);
    assert_eq!(vault.developer_balance(DEVELOPER), developer);

    let cancelled = vault
        .open_run(&registry, USER, USER, agent_id, 1, sample_budgets(), NOW)
        .unwrap();
    vault.cancel_run(USER, cancelled, NOW).unwrap();
    assert_eq!(vault.cancel_run(USER, cancelled, NOW), Err(VaultError::RunNotOpen));
    assert_eq!(
        vault.finalize_run(&registry, cancelled, RUNNER, 1, usage, hash(1), NOW),
        Err(VaultError::RunNotOpen)
    );
    assert_eq!(vault.balance_of(USER), balance);
}

#[test]
fn daily_cap_resets_on_the_next_day() {
    let (registry, mut vault, agent_id) = setup();
    vault.deposit(USER, 100_000_000).unwrap();
    vault
        .set_policy(USER, PolicyInput { per_run_cap: 0, daily_cap: 13_000_000, paused: false })
        .unwrap();
    let day_one = 5 * DAY + 10;
    vault.open_run(&registry, USER, USER, agent_id, 1, sample_budgets(), day_one).unwrap();
    assert_eq!(
        vault.open_run(&registry, USER, USER, agent_id, 1, sample_budgets(), day_one + 1),
        Err(VaultError::DailyCapExceeded)
    );
    let day_two = 6 * DAY;
    let run_id = vault
        .open_run(&registry, USER, USER, agent_id, 1, sample_budgets(), day_two)
        .unwrap();
    assert_eq!(run_id, 2);
    // the reservation of the new day holds only the new run
    assert_eq!(
        vault.open_run(&registry, USER, USER, agent_id, 1, sample_budgets(), day_two),
        Err(VaultError::DailyCapExceeded)
    );
    // releasing the new run frees the new day's reservation
    vault.cancel_run(USER, run_id, day_two).unwrap();
    assert!(vault
        .open_run(&registry, USER, USER, agent_id, 1, sample_budgets(), day_two)
        .is_ok());
}

#[test]
fn expired_grant_never_authorizes() {
    let (registry, mut vault, agent_id) = setup();
    vault.grant_runner(&registry, USER, RUNNER, agent_id, Some(NOW + 50), NOW).unwrap();
    assert_eq!(vault.is_runner_authorized(&registry, USER, RUNNER, agent_id, NOW + 49), Ok(true));
    assert_eq!(vault.list_runner_grants(USER, NOW + 49).len(), 1);
    assert_eq!(vault.is_runner_authorized(&registry, USER, RUNNER, agent_id, NOW + 50), Ok(false));
    assert_eq!(vault.list_runner_grants(USER, NOW).len(), 0);
    // once expired it cannot be revoked either, and a new grant is accepted
    assert_eq!(
        vault.revoke_runner(USER, RUNNER, agent_id, NOW),
        Err(VaultError::RunnerGrantNotFound)
    );
    let log = vault.grant_runner(&registry, USER, RUNNER, agent_id, None, NOW + 60).unwrap();
    assert_eq!(log.issued_at, NOW + 60);
    assert_eq!(
        vault.list_runner_grants(USER, NOW + 1_000_000),
        vec![RunnerGrant { runner: RUNNER, agent_id, issued_at: NOW + 60, expires_at: None }]
    );
}

#[test]
fn stale_grant_heals_when_registry_drops_runner() {
    let mut registry = AgentRegistry::new();
    let mut vault = PrepaidVault::new();
    vault.init(REGISTRY).unwrap();
    let agent_id = setup_agent(&mut registry, vec![RUNNER, 21]);
    vault.grant_runner(&registry, USER, RUNNER, agent_id, None, NOW).unwrap();
    vault.grant_runner(&registry, USER, 21, agent_id, None, NOW).unwrap();
    registry.remove_runner(agent_id, RUNNER).unwrap();
    assert_eq!(vault.is_runner_authorized(&registry, USER, RUNNER, agent_id, NOW), Ok(false));
    let left = vault.list_runner_grants(USER, NOW);
    assert_eq!(left.len(), 1);
    assert_eq!(left[0].runner, 21);
}

#[test]
fn grant_and_revoke_errors() {
    let (registry, mut vault, agent_id) = setup();
    assert_eq!(
        vault.grant_runner(&registry, USER, USER, agent_id, None, NOW),
        Err(VaultError::InvalidAmount)
    );
    assert_eq!(
        vault.grant_runner(&registry, USER, 77, agent_id, None, NOW),
        Err(VaultError::UnauthorizedRunner)
    );
    assert_eq!(
        vault.grant_runner(&registry, USER, RUNNER, agent_id + 1, None, NOW),
        Err(VaultError::AgentNotFound)
    );
    vault.grant_runner(&registry, USER, RUNNER, agent_id, None, NOW).unwrap();
    assert_eq!(
        vault.grant_runner(&registry, USER, RUNNER, agent_id, None, NOW),
        Err(VaultError::RunnerGrantExists)
    );
    let log = vault.revoke_runner(USER, RUNNER, agent_id, NOW + 3).unwrap();
    assert_eq!(log.revoked_at, NOW + 3);
    assert_eq!(
        vault.revoke_runner(USER, RUNNER, agent_id, NOW),
        Err(VaultError::RunnerGrantNotFound)
    );
    assert_eq!(vault.is_runner_authorized(&registry, USER, RUNNER, agent_id, NOW), Ok(false));
}

#[test]
fn open_run_rejections() {
    let (registry, mut vault, agent_id) = setup();
    vault.deposit(USER, 20_000_000).unwrap();
    let budgets = sample_budgets();
    assert_eq!(
        vault.open_run(&registry, USER, RUNNER, agent_id, 1, budgets, NOW),
        Err(VaultError::UnauthorizedRunner)
    );
    let negative = UsageBreakdown { llm_in: -1, ..budgets };
    assert_eq!(
        vault.open_run(&registry, USER, USER, agent_id, 1, negative, NOW),
        Err(VaultError::InvalidAmount)
    );
    assert_eq!(
        vault.open_run(&registry, USER, USER, agent_id, 2, budgets, NOW),
        Err(VaultError::AgentNotFound)
    );
    let huge = UsageBreakdown { llm_in: i128::MAX, ..budgets };
    assert_eq!(
        vault.open_run(&registry, USER, USER, agent_id, 1, huge, NOW),
        Err(VaultError::InvalidAmount)
    );
    vault
        .set_policy(USER, PolicyInput { per_run_cap: 1_000, daily_cap: 0, paused: false })
        .unwrap();
    assert_eq!(
        vault.open_run(&registry, USER, USER, agent_id, 1, budgets, NOW),
        Err(VaultError::PerRunCapExceeded)
    );
    vault
        .set_policy(USER, PolicyInput { per_run_cap: 0, daily_cap: 0, paused: true })
        .unwrap();
    assert_eq!(
        vault.open_run(&registry, USER, USER, agent_id, 1, budgets, NOW),
        Err(VaultError::PolicyPaused)
    );
    vault.set_policy(USER, default_policy()).unwrap();
    assert_eq!(
        vault.open_run(&registry, 31, 31, agent_id, 1, budgets, NOW),
        Err(VaultError::InsufficientBalance)
    );
    assert_eq!(vault.balance_of(USER), 20_000_000);
    assert_eq!(vault.get_run(1), Err(VaultError::RunNotFound));

    let mut fresh = PrepaidVault::new();
    assert_eq!(
        fresh.open_run(&registry, USER, USER, agent_id, 1, budgets, NOW),
        Err(VaultError::NotInitialized)
    );
    assert_eq!(fresh.init(REGISTRY), Ok(()));
    assert_eq!(fresh.init(REGISTRY), Err(VaultError::AlreadyInitialized));
}

#[test]
fn cancel_and_finalize_rejections() {
    let (registry, mut vault, agent_id) = setup();
    vault.deposit(USER, 20_000_000).unwrap();
    let run_id = vault
        .open_run(&registry, USER, USER, agent_id, 1, sample_budgets(), NOW)
        .unwrap();
    assert_eq!(vault.cancel_run(RUNNER, run_id, NOW), Err(VaultError::Unauthorized));
    assert_eq!(vault.cancel_run(USER, 9, NOW), Err(VaultError::RunNotFound));
    let usage = UsageBreakdown { llm_in: 1, llm_out: 1, http_calls: 0, runtime_ms: 1 };
    assert_eq!(
        vault.finalize_run(&registry, 9, RUNNER, 1, usage, hash(1), NOW),
        Err(VaultError::RunNotFound)
    );
    let negative = UsageBreakdown { llm_in: -1, ..usage };
    assert_eq!(
        vault.finalize_run(&registry, run_id, RUNNER, 1, negative, hash(1), NOW),
        Err(VaultError::InvalidAmount)
    );
    assert_eq!(
        vault.finalize_run(&registry, run_id, 77, 1, usage, hash(1), NOW),
        Err(VaultError::UnauthorizedRunner)
    );
    // a registered runner without the user's grant is refused too
    assert_eq!(
        vault.finalize_run(&registry, run_id, RUNNER, 1, usage, hash(1), NOW),
        Err(VaultError::UnauthorizedRunner)
    );
    assert_eq!(vault.get_run(run_id).unwrap().lifecycle, RunLifecycle::Open);
    assert_eq!(vault.balance_of(USER), 7_999_000);
}

#[test]
fn balances_move_with_deposits_and_claims() {
    let (registry, mut vault, agent_id) = setup();
    assert_eq!(vault.deposit(USER, 0), Err(VaultError::InvalidAmount));
    assert_eq!(vault.withdraw(USER, -5), Err(VaultError::InvalidAmount));
    vault.deposit(USER, 20_000_000).unwrap();
    assert_eq!(vault.deposit(USER, i128::MAX), Err(VaultError::InvalidAmount));
    assert_eq!(vault.withdraw(USER, 20_000_001), Err(VaultError::InsufficientBalance));
    vault.withdraw(USER, 1_000_000).unwrap();
    assert_eq!(vault.balance_of(USER), 19_000_000);
    assert_eq!(
        vault.set_policy(USER, PolicyInput { per_run_cap: -1, daily_cap: 0, paused: false }),
        Err(VaultError::InvalidAmount)
    );

    vault.grant_runner(&registry, USER, RUNNER, agent_id, None, NOW).unwrap();
    let run_id = vault
        .open_run(&registry, USER, USER, agent_id, 1, sample_budgets(), NOW)
        .unwrap();
    let usage = UsageBreakdown { llm_in: 80, llm_out: 40, http_calls: 1, runtime_ms: 500 };
    vault.finalize_run(&registry, run_id, RUNNER, 1, usage, hash(1), NOW).unwrap();
    assert_eq!(vault.claim_developer(DEVELOPER, 0), Err(VaultError::InvalidAmount));
    assert_eq!(
        vault.claim_developer(DEVELOPER, 11_600_501),
        Err(VaultError::InsufficientBalance)
    );
    vault.claim_developer(DEVELOPER, 600_500).unwrap();
    assert_eq!(vault.developer_balance(DEVELOPER), 11_000_000);
    assert_eq!(VaultError::AlreadyInitialized.code(), 1);
    assert_eq!(VaultError::RunnerGrantNotFound.code(), 17);
}
