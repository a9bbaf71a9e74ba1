use price_agent::deposit::DEPOSIT_AMOUNT_E8S;
use price_agent::settlement::SettlementOutcome;
use price_agent::state::{AddressAction, AgentState, ControlError};
use price_agent::trigger::{
    should_trigger, tick_begin, tick_deposit_failed, tick_deposit_ok, tick_price_failed,
    tick_price_fetched, tick_settle_completed, tick_settle_failed, TickAction, TickPhase,
};

fn log_strings(agent: &AgentState) -> Vec<String> {
    agent.get_logs()
}

#[test]
fn trigger_boundary_is_exact_integer_inequality() {
    // prev = 100000 cents, threshold 97%: 97000 triggers, 97001 does not.
    assert!(should_trigger(100_000, 97, 97_000));
    assert!(!should_trigger(100_000, 97, 97_001));
    assert!(should_trigger(100_000, 97, 96_999));
}

#[test]
fn first_tick_only_seeds_baseline() {
    let mut agent = AgentState::new();
    let (mut t, a) = tick_begin(&mut agent, 1);
    assert_eq!(a, TickAction::FetchPrice);
    // Reference price is 0: even a tiny fetched price must not trigger.
    let a = tick_price_fetched(&mut t, &mut agent, 1, 1);
    assert_eq!(a, TickAction::Done);
    assert_eq!(t.phase, TickPhase::Finished);
    assert_eq!(agent.reference_price_cents, 1);
    assert!(agent.last_settlement_id.is_none());
}

#[test]
fn successful_tick_commits_fetched_price() {
    let mut agent = AgentState::new();
    let (mut t, _) = tick_begin(&mut agent, 1);
    tick_price_fetched(&mut t, &mut agent, 1, 500_000);
    assert_eq!(agent.reference_price_cents, 500_000);
    // A later non-triggering tick replaces the baseline again.
    let (mut t, _) = tick_begin(&mut agent, 2);
    tick_price_fetched(&mut t, &mut agent, 2, 499_000);
    assert_eq!(agent.reference_price_cents, 499_000);
}

#[test]
fn failed_fetch_leaves_baseline_unchanged() {
    let mut agent = AgentState::new();
    let (mut t, _) = tick_begin(&mut agent, 1);
    tick_price_fetched(&mut t, &mut agent, 1, 500_000);
    let (mut t, _) = tick_begin(&mut agent, 2);
    let a = tick_price_failed(&mut t, &mut agent, 2, "connection reset");
    assert_eq!(a, TickAction::Done);
    assert_eq!(agent.reference_price_cents, 500_000);
}

#[test]
fn triggered_tick_runs_deposit_then_settlement() {
    let mut agent = AgentState::new();
    let (mut t, _) = tick_begin(&mut agent, 1);
    tick_price_fetched(&mut t, &mut agent, 1, 100_000);
    let (mut t, _) = tick_begin(&mut agent, 2);
    let a = tick_price_fetched(&mut t, &mut agent, 2, 97_000);
    assert_eq!(a, TickAction::Deposit { amount: DEPOSIT_AMOUNT_E8S });
    // Baseline is not committed until the tick ends.
    assert_eq!(agent.reference_price_cents, 100_000);
    let a = tick_deposit_ok(&mut t, &mut agent, 2, 42);
    assert_eq!(a, TickAction::Settle);
    let a = tick_settle_completed(
        &mut t,
        &mut agent,
        2,
        SettlementOutcome::Sent { txid: String::from("abcd") },
    );
    assert_eq!(a, TickAction::Done);
    assert_eq!(agent.reference_price_cents, 97_000);
    assert_eq!(agent.last_settlement_id.as_deref(), Some("abcd"));
}

#[test]
fn deposit_failure_skips_settlement_but_commits_price() {
    let mut agent = AgentState::new();
    let (mut t, _) = tick_begin(&mut agent, 1);
    tick_price_fetched(&mut t, &mut agent, 1, 100_000);
    let (mut t, _) = tick_begin(&mut agent, 2);
    tick_price_fetched(&mut t, &mut agent, 2, 90_000);
    let a = tick_deposit_failed(&mut t, &mut agent, 2, "remote rejected");
    assert_eq!(a, TickAction::Done);
    assert_eq!(t.phase, TickPhase::Finished);
    assert_eq!(agent.reference_price_cents, 90_000);
    assert!(agent.last_settlement_id.is_none());
}

#[test]
fn settlement_failure_still_commits_price() {
    let mut agent = AgentState::new();
    let (mut t, _) = tick_begin(&mut agent, 1);
    tick_price_fetched(&mut t, &mut agent, 1, 100_000);
    let (mut t, _) = tick_begin(&mut agent, 2);
    tick_price_fetched(&mut t, &mut agent, 2, 90_000);
    tick_deposit_ok(&mut t, &mut agent, 2, 7);
    let a = tick_settle_failed(&mut t, &mut agent, 2, "broadcast refused");
    assert_eq!(a, TickAction::Done);
    assert_eq!(agent.reference_price_cents, 90_000);
    assert!(agent.last_settlement_id.is_none());
}

#[test]
fn paused_tick_does_nothing_but_log_once() {
    let mut agent = AgentState::new();
    agent.set_paused(1, true);
    let before = log_strings(&agent);
    let reference_before = agent.reference_price_cents;
    let (t, a) = tick_begin(&mut agent, 2);
    assert_eq!(a, TickAction::Done);
    assert_eq!(t.phase, TickPhase::Finished);
    assert_eq!(agent.reference_price_cents, reference_before);
    let after = log_strings(&agent);
    assert_eq!(after.len(), before.len() + 1);
    assert_eq!(after.last().unwrap(), "[2] paused: tick skipped");
}

#[test]
fn set_threshold_accepts_exactly_90_to_99() {
    let mut agent = AgentState::new();
    assert_eq!(agent.set_threshold(1, 89), Err(ControlError::InvalidRange));
    assert_eq!(agent.threshold_pct, 97);
    assert_eq!(agent.set_threshold(1, 100), Err(ControlError::InvalidRange));
    assert_eq!(agent.threshold_pct, 97);
    assert_eq!(agent.set_threshold(1, 90), Ok(()));
    assert_eq!(agent.threshold_pct, 90);
    assert_eq!(agent.set_threshold(1, 99), Ok(()));
    assert_eq!(agent.threshold_pct, 99);
    let logs = log_strings(&agent);
    assert_eq!(logs[0], "[1] threshold must be between 90 and 99");
    assert_eq!(logs[3], "[1] threshold updated to 99%");
}

#[test]
fn pause_and_resume_are_logged() {
    let mut agent = AgentState::new();
    agent.set_paused(5, true);
    assert!(agent.paused);
    agent.set_paused(6, false);
    assert!(!agent.paused);
    let logs = log_strings(&agent);
    assert_eq!(logs, vec!["[5] operations paused", "[6] operations resumed"]);
}

#[test]
fn stats_report_placeholder_until_address_installed() {
    let mut agent = AgentState::new();
    let s = agent.get_stats();
    assert_eq!(s.reference_price_cents, 0);
    assert_eq!(s.threshold_pct, 97);
    assert!(!s.paused);
    assert_eq!(s.custody_address, "Not initialized");
    agent.install_address(3, String::from("tb1qexample"));
    let s = agent.get_stats();
    assert_eq!(s.custody_address, "tb1qexample");
}

#[test]
fn ensure_address_is_idempotent_with_one_key_retrieval() {
    let mut agent = AgentState::new();
    let mut key_retrievals = 0u32;
    let first = match agent.ensure_address() {
        AddressAction::Use(a) => a,
        AddressAction::RequestKey => {
            key_retrievals += 1;
            let derived = String::from("tb1qderived");
            agent.install_address(1, derived.clone());
            derived
        }
    };
    let second = match agent.ensure_address() {
        AddressAction::Use(a) => a,
        AddressAction::RequestKey => {
            key_retrievals += 1;
            let derived = String::from("tb1qother");
            agent.install_address(2, derived.clone());
            derived
        }
    };
    assert_eq!(first, second);
    assert_eq!(key_retrievals, 1);
}

#[test]
fn add_log_renders_timestamp_prefix() {
    let mut agent = AgentState::new();
    agent.add_log(1234567890, "hello");
    let logs = log_strings(&agent);
    assert_eq!(logs, vec!["[1234567890] hello"]);
}

#[test]
fn tick_driven_by_parsed_payloads() {
    let mut agent = AgentState::new();
    // First tick: the quote service reports $1000.00 -> seeds 100000 cents.
    let body = r#"{"bitcoin":{"usd":1000.00}}"#.as_bytes().to_vec();
    let price = price_agent::price::normalize_price_response(200, &body).unwrap();
    let (mut t, _) = tick_begin(&mut agent, 1);
    tick_price_fetched(&mut t, &mut agent, 1, price);
    assert_eq!(agent.reference_price_cents, 100_000);
    // Second tick: $970.00 is exactly 97% of the baseline -> triggers.
    let body = r#"{"bitcoin":{"usd":970.00}}"#.as_bytes().to_vec();
    let price = price_agent::price::normalize_price_response(200, &body).unwrap();
    let (mut t, _) = tick_begin(&mut agent, 2);
    let a = tick_price_fetched(&mut t, &mut agent, 2, price);
    assert_eq!(a, TickAction::Deposit { amount: DEPOSIT_AMOUNT_E8S });
}

#[test]
fn threshold_change_moves_the_trigger_cut() {
    let mut agent = AgentState::new();
    agent.set_threshold(1, 90).unwrap();
    let (mut t, _) = tick_begin(&mut agent, 1);
    tick_price_fetched(&mut t, &mut agent, 1, 100_000);
    // At threshold 90%, a drop to 90001 does not trigger; 90000 does.
    let (mut t, _) = tick_begin(&mut agent, 2);
    let a = tick_price_fetched(&mut t, &mut agent, 2, 90_001);
    assert_eq!(a, TickAction::Done);
    assert_eq!(agent.reference_price_cents, 90_001);
    let (mut t, _) = tick_begin(&mut agent, 3);
    let a = tick_price_fetched(&mut t, &mut agent, 3, 81_000);
    assert_eq!(a, TickAction::Deposit { amount: DEPOSIT_AMOUNT_E8S });
}
