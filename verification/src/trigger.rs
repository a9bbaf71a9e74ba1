//! The trigger engine: the per-tick state machine.
//!
//! One tick runs `AwaitPrice -> (AwaitDeposit -> AwaitSettle)? -> Finished`.
//! The caller performs each outside call a returned `TickAction` asks for
//! (price fetch, deposit, settlement) and feeds the result back through the
//! matching step function; every decision between those calls is made and
//! logged here.  Within one tick the deposit always precedes the settlement,
//! and the reference price is committed exactly once: to the fetched price on
//! every path whose fetch succeeded, and not at all otherwise.

use vstd::prelude::*;
use vstd::string::StringExecFns;

use crate::deposit::DEPOSIT_AMOUNT_E8S;
use crate::logs::log_appended;
use crate::settlement::{msg_insufficient_funds, msg_settlement_sent, record_insufficient_funds,
    record_settlement_sent, SettlementOutcome};
use crate::state::AgentState;
use crate::text::{dec_of, log_line_of, u64_to_dec};

verus! {

/// The drop condition: a seeded baseline, and a new price at or below
/// `threshold_pct` percent of it — an exact integer inequality, equivalent
/// to a drop of at least `100 - threshold_pct` percent.
pub open spec fn trigger_condition(prev: u64, threshold_pct: u64, price: u64) -> bool {
    prev > 0 && price * 100 <= prev * threshold_pct
}

/// Evaluates the drop condition exactly, without overflow.
pub fn should_trigger(prev: u64, threshold_pct: u64, price: u64) -> (r: bool)
    ensures
        r == trigger_condition(prev, threshold_pct, price),
{
    proof {
        assert((prev as int) * (threshold_pct as int) <= (u64::MAX as int) * (u64::MAX as int))
            by (nonlinear_arith)
            requires
                prev <= u64::MAX,
                threshold_pct <= u64::MAX,
        ;
    }
    prev > 0 && (price as u128) * 100 <= (prev as u128) * (threshold_pct as u128)
}

/// Where a tick stands between outside calls.
#[derive(Clone, Copy, Debug, PartialEq, Eq, Structural)]
pub enum TickPhase {
    /// The price fetch is outstanding.
    AwaitPrice,
    /// The drop condition held; the deposit is outstanding.  The fetched
    /// price is carried until it is committed at the end of the tick.
    AwaitDeposit { price: u64 },
    /// The deposit succeeded; the settlement is outstanding.
    AwaitSettle { price: u64 },
    /// The tick is over and the state is committed.
    Finished,
}

/// One running tick.
pub struct TickRun {
    pub phase: TickPhase,
}

/// What the caller must do next for this tick.
#[derive(Clone, Copy, Debug, PartialEq, Eq, Structural)]
pub enum TickAction {
    /// Nothing: the tick is over.
    Done,
    /// Fetch the current price and report it via `tick_price_fetched` or
    /// `tick_price_failed`.
    FetchPrice,
    /// Record the fixed deposit with the counterparty and report via
    /// `tick_deposit_ok` or `tick_deposit_failed`.
    Deposit { amount: u64 },
    /// Run the settlement and report via `tick_settle_completed` or
    /// `tick_settle_failed`.
    Settle,
}

/// The reference price when a tick is over, as a function of how it went:
/// a paused tick and a failed fetch keep the old baseline, and every tick
/// whose fetch succeeded commits the fetched price, whether or not it
/// triggered.
pub open spec fn reference_after_tick(prev: u64, paused: bool, fetched: Option<u64>) -> u64 {
    if paused {
        prev
    } else {
        match fetched {
            Some(p) => p,
            None => prev,
        }
    }
}

/// The log line of a skipped tick while paused.
pub open spec fn msg_tick_skipped() -> Seq<char> {
    "paused: tick skipped"@
}

/// The log line opening a running tick.
pub open spec fn msg_tick_started() -> Seq<char> {
    "tick started"@
}

/// The log line of a failed price fetch.
pub open spec fn msg_fetch_failed(reason: Seq<char>) -> Seq<char> {
    "price fetch failed: "@ + reason
}

/// The log line of a first tick seeding the baseline.
pub open spec fn msg_price_seeded(price: u64) -> Seq<char> {
    "reference price seeded: "@ + dec_of(price as nat) + " cents"@
}

/// The log line of a tick whose drop condition did not hold.
pub open spec fn msg_no_trigger(prev: u64, price: u64) -> Seq<char> {
    "no significant price change: "@ + dec_of(prev as nat) + " -> "@ + dec_of(price as nat)
}

/// The log line of a detected drop.
pub open spec fn msg_drop_detected(prev: u64, price: u64) -> Seq<char> {
    "price drop detected: "@ + dec_of(prev as nat) + " -> "@ + dec_of(price as nat)
}

/// The log line of a successful deposit.
pub open spec fn msg_deposit_ok(new_balance: u64) -> Seq<char> {
    "deposit succeeded, new balance: "@ + dec_of(new_balance as nat) + " e8s"@
}

/// The log line of a failed deposit.
pub open spec fn msg_deposit_failed(reason: Seq<char>) -> Seq<char> {
    "deposit failed: "@ + reason
}

/// The log line of a settlement that failed on a collaborator.
pub open spec fn msg_settlement_failed(reason: Seq<char>) -> Seq<char> {
    "settlement failed: "@ + reason
}

/// Begins one tick.  While paused the tick performs nothing — no fetch, no
/// deposit, no settlement — and appends exactly one log line noting the
/// skip; otherwise it asks for the price fetch.
pub fn tick_begin(agent: &mut AgentState, now: u64) -> (r: (TickRun, TickAction))
    requires
        old(agent).wf(),
    ensures
        final(agent).wf(),
        final(agent).reference_price_cents == old(agent).reference_price_cents,
        final(agent).threshold_pct == old(agent).threshold_pct,
        final(agent).paused == old(agent).paused,
        final(agent).custody_address == old(agent).custody_address,
        final(agent).last_settlement_id == old(agent).last_settlement_id,
        old(agent).paused ==> {
            &&& r.0.phase == TickPhase::Finished
            &&& r.1 == TickAction::Done
            &&& final(agent).logs@ == log_appended(
                old(agent).logs@,
                log_line_of(now, msg_tick_skipped()),
            )
            &&& final(agent).reference_price_cents == reference_after_tick(
                old(agent).reference_price_cents,
                true,
                None,
            )
        },
        !old(agent).paused ==> {
            &&& r.0.phase == TickPhase::AwaitPrice
            &&& r.1 == TickAction::FetchPrice
            &&& final(agent).logs@ == log_appended(
                old(agent).logs@,
                log_line_of(now, msg_tick_started()),
            )
        },
{
    if agent.paused {
        agent.add_log(now, "paused: tick skipped");
        (TickRun { phase: TickPhase::Finished }, TickAction::Done)
    } else {
        agent.add_log(now, "tick started");
        (TickRun { phase: TickPhase::AwaitPrice }, TickAction::FetchPrice)
    }
}

/// Ends a tick whose price fetch failed: the failure is logged and the
/// reference price is left exactly as it was, so a failed fetch never
/// corrupts the baseline.
pub fn tick_price_failed(t: &mut TickRun, agent: &mut AgentState, now: u64, reason: &str) -> (r:
    TickAction)
    requires
        old(t).phase == TickPhase::AwaitPrice,
        old(agent).wf(),
    ensures
        final(agent).wf(),
        final(t).phase == TickPhase::Finished,
        r == TickAction::Done,
        final(agent).reference_price_cents == reference_after_tick(
            old(agent).reference_price_cents,
            false,
            None,
        ),
        final(agent).threshold_pct == old(agent).threshold_pct,
        final(agent).paused == old(agent).paused,
        final(agent).custody_address == old(agent).custody_address,
        final(agent).last_settlement_id == old(agent).last_settlement_id,
        final(agent).logs@ == log_appended(
            old(agent).logs@,
            log_line_of(now, msg_fetch_failed(reason@)),
        ),
{
    let mut m = String::from_str("price fetch failed: ");
    m.append(reason);
    proof {
        assert(m@ =~= msg_fetch_failed(reason@));
    }
    agent.add_log(now, m.as_str());
    t.phase = TickPhase::Finished;
    TickAction::Done
}

/// Evaluates a successfully fetched price.  If the drop condition holds the
/// tick moves on to the deposit, carrying the price; otherwise the tick is
/// over and the fetched price becomes the new baseline at once — also on the
/// first tick, which only seeds it and never triggers.
pub fn tick_price_fetched(t: &mut TickRun, agent: &mut AgentState, now: u64, price_cents: u64) -> (r:
    TickAction)
    requires
        old(t).phase == TickPhase::AwaitPrice,
        old(agent).wf(),
    ensures
        final(agent).wf(),
        final(agent).threshold_pct == old(agent).threshold_pct,
        final(agent).paused == old(agent).paused,
        final(agent).custody_address == old(agent).custody_address,
        final(agent).last_settlement_id == old(agent).last_settlement_id,
        trigger_condition(
            old(agent).reference_price_cents,
            old(agent).threshold_pct,
            price_cents,
        ) ==> {
            &&& final(t).phase == TickPhase::AwaitDeposit { price: price_cents }
            &&& r == TickAction::Deposit { amount: DEPOSIT_AMOUNT_E8S }
            &&& final(agent).reference_price_cents == old(agent).reference_price_cents
            &&& final(agent).logs@ == log_appended(
                old(agent).logs@,
                log_line_of(now, msg_drop_detected(old(agent).reference_price_cents, price_cents)),
            )
        },
        !trigger_condition(
            old(agent).reference_price_cents,
            old(agent).threshold_pct,
            price_cents,
        ) ==> {
            &&& final(t).phase == TickPhase::Finished
            &&& r == TickAction::Done
            &&& final(agent).reference_price_cents == reference_after_tick(
                old(agent).reference_price_cents,
                false,
                Some(price_cents),
            )
            &&& final(agent).logs@ == log_appended(
                old(agent).logs@,
                log_line_of(
                    now,
                    if old(agent).reference_price_cents > 0 {
                        msg_no_trigger(old(agent).reference_price_cents, price_cents)
                    } else {
                        msg_price_seeded(price_cents)
                    },
                ),
            )
        },
{
    let prev = agent.reference_price_cents;
    if should_trigger(prev, agent.threshold_pct, price_cents) {
        let mut m = String::from_str("price drop detected: ");
        let d0 = u64_to_dec(prev);
        m.append(d0.as_str());
        m.append(" -> ");
        let d1 = u64_to_dec(price_cents);
        m.append(d1.as_str());
        proof {
            assert(m@ =~= msg_drop_detected(prev, price_cents));
        }
        agent.add_log(now, m.as_str());
        t.phase = TickPhase::AwaitDeposit { price: price_cents };
        TickAction::Deposit { amount: DEPOSIT_AMOUNT_E8S }
    } else {
        if prev > 0 {
            let mut m = String::from_str("no significant price change: ");
            let d0 = u64_to_dec(prev);
            m.append(d0.as_str());
            m.append(" -> ");
            let d1 = u64_to_dec(price_cents);
            m.append(d1.as_str());
            proof {
                assert(m@ =~= msg_no_trigger(prev, price_cents));
            }
            agent.add_log(now, m.as_str());
        } else {
            let mut m = String::from_str("reference price seeded: ");
            let d0 = u64_to_dec(price_cents);
            m.append(d0.as_str());
            m.append(" cents");
            proof {
                assert(m@ =~= msg_price_seeded(price_cents));
            }
            agent.add_log(now, m.as_str());
        }
        agent.reference_price_cents = price_cents;
        t.phase = TickPhase::Finished;
        TickAction::Done
    }
}

/// Moves a triggered tick past a successful deposit, on to the settlement.
/// The deposit always precedes the settlement within a tick: `Settle` is
/// only ever asked for from here.
pub fn tick_deposit_ok(t: &mut TickRun, agent: &mut AgentState, now: u64, new_balance: u64) -> (r:
    TickAction)
    requires
        old(t).phase matches TickPhase::AwaitDeposit { .. },
        old(agent).wf(),
    ensures
        final(agent).wf(),
        final(t).phase == (TickPhase::AwaitSettle {
            price: old(t).phase->AwaitDeposit_price,
        }),
        r == TickAction::Settle,
        final(agent).reference_price_cents == old(agent).reference_price_cents,
        final(agent).threshold_pct == old(agent).threshold_pct,
        final(agent).paused == old(agent).paused,
        final(agent).custody_address == old(agent).custody_address,
        final(agent).last_settlement_id == old(agent).last_settlement_id,
        final(agent).logs@ == log_appended(
            old(agent).logs@,
            log_line_of(now, msg_deposit_ok(new_balance)),
        ),
{
    let mut m = String::from_str("deposit succeeded, new balance: ");
    let d = u64_to_dec(new_balance);
    m.append(d.as_str());
    m.append(" e8s");
    proof {
        assert(m@ =~= msg_deposit_ok(new_balance));
    }
    agent.add_log(now, m.as_str());
    let price = match t.phase {
        TickPhase::AwaitDeposit { price } => price,
        _ => 0,
    };
    t.phase = TickPhase::AwaitSettle { price };
    TickAction::Settle
}

/// Ends a triggered tick whose deposit failed: the settlement is not
/// attempted, the failure is logged, and the fetched price still becomes the
/// new baseline.
pub fn tick_deposit_failed(t: &mut TickRun, agent: &mut AgentState, now: u64, reason: &str) -> (r:
    TickAction)
    requires
        old(t).phase matches TickPhase::AwaitDeposit { .. },
        old(agent).wf(),
    ensures
        final(agent).wf(),
        final(t).phase == TickPhase::Finished,
        r == TickAction::Done,
        final(agent).reference_price_cents == reference_after_tick(
            old(agent).reference_price_cents,
            false,
            Some(old(t).phase->AwaitDeposit_price),
        ),
        final(agent).threshold_pct == old(agent).threshold_pct,
        final(agent).paused == old(agent).paused,
        final(agent).custody_address == old(agent).custody_address,
        final(agent).last_settlement_id == old(agent).last_settlement_id,
        final(agent).logs@ == log_appended(
            old(agent).logs@,
            log_line_of(now, msg_deposit_failed(reason@)),
        ),
{
    let mut m = String::from_str("deposit failed: ");
    m.append(reason);
    proof {
        assert(m@ =~= msg_deposit_failed(reason@));
    }
    agent.add_log(now, m.as_str());
    let price = match t.phase {
        TickPhase::AwaitDeposit { price } => price,
        _ => 0,
    };
    agent.reference_price_cents = price;
    t.phase = TickPhase::Finished;
    TickAction::Done
}

/// Ends a triggered tick whose settlement ran to completion.  A broadcast
/// transaction id is recorded as the last settlement id; insufficiency is
/// logged distinctly and records nothing.  Either way the fetched price
/// becomes the new baseline.
pub fn tick_settle_completed(
    t: &mut TickRun,
    agent: &mut AgentState,
    now: u64,
    outcome: SettlementOutcome,
) -> (r: TickAction)
    requires
        old(t).phase matches TickPhase::AwaitSettle { .. },
        old(agent).wf(),
    ensures
        final(agent).wf(),
        final(t).phase == TickPhase::Finished,
        r == TickAction::Done,
        final(agent).reference_price_cents == reference_after_tick(
            old(agent).reference_price_cents,
            false,
            Some(old(t).phase->AwaitSettle_price),
        ),
        final(agent).threshold_pct == old(agent).threshold_pct,
        final(agent).paused == old(agent).paused,
        final(agent).custody_address == old(agent).custody_address,
        match outcome {
            SettlementOutcome::Sent { txid } => {
                &&& final(agent).last_settlement_id == Some(txid)
                &&& final(agent).logs@ == log_appended(
                    old(agent).logs@,
                    log_line_of(now, msg_settlement_sent(txid@)),
                )
            },
            SettlementOutcome::InsufficientFunds => {
                &&& final(agent).last_settlement_id == old(agent).last_settlement_id
                &&& final(agent).logs@ == log_appended(
                    old(agent).logs@,
                    log_line_of(now, msg_insufficient_funds()),
                )
            },
        },
{
    match outcome {
        SettlementOutcome::Sent { txid } => {
            record_settlement_sent(agent, now, txid);
        },
        SettlementOutcome::InsufficientFunds => {
            record_insufficient_funds(agent, now);
        },
    }
    let price = match t.phase {
        TickPhase::AwaitSettle { price } => price,
        _ => 0,
    };
    agent.reference_price_cents = price;
    t.phase = TickPhase::Finished;
    TickAction::Done
}

/// Ends a triggered tick whose settlement failed on a collaborator: the
/// failure is logged, nothing is recorded as sent, and the fetched price
/// still becomes the new baseline.
pub fn tick_settle_failed(t: &mut TickRun, agent: &mut AgentState, now: u64, reason: &str) -> (r:
    TickAction)
    requires
        old(t).phase matches TickPhase::AwaitSettle { .. },
        old(agent).wf(),
    ensures
        final(agent).wf(),
        final(t).phase == TickPhase::Finished,
        r == TickAction::Done,
        final(agent).reference_price_cents == reference_after_tick(
            old(agent).reference_price_cents,
            false,
            Some(old(t).phase->AwaitSettle_price),
        ),
        final(agent).threshold_pct == old(agent).threshold_pct,
        final(agent).paused == old(agent).paused,
        final(agent).custody_address == old(agent).custody_address,
        final(agent).last_settlement_id == old(agent).last_settlement_id,
        final(agent).logs@ == log_appended(
            old(agent).logs@,
            log_line_of(now, msg_settlement_failed(reason@)),
        ),
{
    let mut m = String::from_str("settlement failed: ");
    m.append(reason);
    proof {
        assert(m@ =~= msg_settlement_failed(reason@));
    }
    agent.add_log(now, m.as_str());
    let price = match t.phase {
        TickPhase::AwaitSettle { price } => price,
        _ => 0,
    };
    agent.reference_price_cents = price;
    t.phase = TickPhase::Finished;
    TickAction::Done
}

/// Law: a tick that starts with no baseline never triggers, whatever price
/// was fetched and whatever the threshold; it only seeds the baseline.
pub proof fn lemma_first_tick_never_triggers(threshold_pct: u64, price: u64)
    ensures
        !trigger_condition(0, threshold_pct, price),
{
}

/// Law: the reference price tracks the fetch.  After any tick it equals the
/// fetched price exactly when the tick was running and its fetch succeeded,
/// and is unchanged from before the tick whenever the tick was paused or the
/// fetch failed.
pub proof fn lemma_reference_tracks_fetch(prev: u64, paused: bool, fetched: Option<u64>)
    ensures
        !paused && fetched.is_some() ==> reference_after_tick(prev, paused, fetched)
            == fetched.unwrap(),
        paused || fetched.is_none() ==> reference_after_tick(prev, paused, fetched) == prev,
{
}

} // verus!
