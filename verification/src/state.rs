//! The persistent agent state and its control surface.
//!
//! A single `AgentState` record holds everything the agent remembers between
//! ticks: the rolling reference price, the trigger threshold, the pause flag,
//! the custody address, the last settlement id, and the bounded log.
//! Administrative operations (threshold, pause) and read-only introspection
//! (stats, logs) live here too.

use vstd::prelude::*;
use vstd::string::StringExecFns;

use crate::logs::{log_appended, line_views, LogBuffer};
use crate::text::{dec_of, log_line_of, render_log_line, u64_to_dec};

verus! {

/// Default trigger threshold, in percent.
pub const DEFAULT_THRESHOLD_PCT: u64 = 97;

/// Lowest admissible trigger threshold, in percent.
pub const MIN_THRESHOLD_PCT: u64 = 90;

/// Highest admissible trigger threshold, in percent.
pub const MAX_THRESHOLD_PCT: u64 = 99;

/// Rejection of an administrative call.
#[derive(Clone, Copy, Debug, PartialEq, Eq)]
pub enum ControlError {
    /// The requested threshold lies outside the admissible range.
    InvalidRange,
}

/// The single mutable record of the agent.
pub struct AgentState {
    /// Price observed at the last successful tick, in integer cents;
    /// 0 means "uninitialized".
    pub reference_price_cents: u64,
    /// Percentage of the reference price at or below which a newly fetched
    /// price triggers settlement.
    pub threshold_pct: u64,
    /// When true, ticks do nothing but note the skip.
    pub paused: bool,
    /// Deposit address backed by the remote signing key; set exactly once.
    pub custody_address: Option<String>,
    /// Transaction id of the last settlement that actually moved funds.
    pub last_settlement_id: Option<String>,
    /// Bounded operational log.
    pub logs: LogBuffer,
}

/// Read-only snapshot returned by `get_stats`.
#[derive(Debug, Clone, PartialEq, Eq)]
pub struct Stats {
    pub reference_price_cents: u64,
    pub threshold_pct: u64,
    pub paused: bool,
    pub custody_address: String,
}

/// All fields but the log are unchanged between two states.
pub open spec fn same_but_logs(pre: AgentState, post: AgentState) -> bool {
    &&& post.reference_price_cents == pre.reference_price_cents
    &&& post.threshold_pct == pre.threshold_pct
    &&& post.paused == pre.paused
    &&& post.custody_address == pre.custody_address
    &&& post.last_settlement_id == pre.last_settlement_id
}

/// The log line announcing a threshold change.
pub open spec fn msg_threshold_updated(pct: u64) -> Seq<char> {
    "threshold updated to "@ + dec_of(pct as nat) + "%"@
}

/// The log line rejecting a threshold outside the admissible range.
pub open spec fn msg_threshold_rejected() -> Seq<char> {
    "threshold must be between 90 and 99"@
}

/// The log line announcing a pause or resume.
pub open spec fn msg_paused(flag: bool) -> Seq<char> {
    if flag {
        "operations paused"@
    } else {
        "operations resumed"@
    }
}

/// The log line announcing the one-time custody address installation.
pub open spec fn msg_address_installed(addr: Seq<char>) -> Seq<char> {
    "custody address installed: "@ + addr
}

/// The placeholder stats report for a custody address not yet installed.
pub open spec fn no_address_placeholder() -> Seq<char> {
    "Not initialized"@
}

/// What `ensure_address` answers from state alone: the installed address, or
/// nothing when a key retrieval is still needed.
pub open spec fn spec_address_action(s: AgentState) -> Option<Seq<char>> {
    match s.custody_address {
        Some(a) => Some(a@),
        None => None,
    }
}

/// The first phase of obtaining the custody address: either reuse the one
/// already installed, or ask the caller to retrieve the signing key.
#[derive(Debug, Clone, PartialEq, Eq)]
pub enum AddressAction {
    /// The address is already installed; no key retrieval is needed.
    Use(String),
    /// No address yet: retrieve the public key, derive the address, then
    /// call `install_address`.
    RequestKey,
}

impl AgentState {
    /// The state invariant: the threshold stays in its policy range and the
    /// log stays within its bound.
    pub open spec fn wf(&self) -> bool {
        &&& MIN_THRESHOLD_PCT <= self.threshold_pct <= MAX_THRESHOLD_PCT
        &&& self.logs.wf()
    }

    /// A fresh state: no baseline, default threshold, not paused, no
    /// custody address, no settlement yet, empty log.
    pub fn new() -> (r: AgentState)
        ensures
            r.wf(),
            r.reference_price_cents == 0,
            r.threshold_pct == DEFAULT_THRESHOLD_PCT,
            !r.paused,
            r.custody_address.is_none(),
            r.last_settlement_id.is_none(),
            r.logs@ == Seq::<Seq<char>>::empty(),
    {
        AgentState {
            reference_price_cents: 0,
            threshold_pct: DEFAULT_THRESHOLD_PCT,
            paused: false,
            custody_address: None,
            last_settlement_id: None,
            logs: LogBuffer::new(),
        }
    }

    /// Appends one timestamped message to the bounded log.
    pub fn add_log(&mut self, now: u64, message: &str)
        requires
            old(self).logs.wf(),
        ensures
            final(self).logs.wf(),
            same_but_logs(*old(self), *final(self)),
            final(self).logs@ == log_appended(old(self).logs@, log_line_of(now, message@)),
    {
        let line = render_log_line(now, message);
        self.logs.append(line);
    }

    /// Replaces the trigger threshold, or rejects a percentage outside
    /// [`MIN_THRESHOLD_PCT`, `MAX_THRESHOLD_PCT`]; either way the decision is
    /// logged.
    pub fn set_threshold(&mut self, now: u64, pct: u64) -> (r: Result<(), ControlError>)
        requires
            old(self).wf(),
        ensures
            final(self).wf(),
            r.is_ok() <==> MIN_THRESHOLD_PCT <= pct <= MAX_THRESHOLD_PCT,
            r.is_ok() ==> {
                &&& final(self).threshold_pct == pct
                &&& final(self).logs@ == log_appended(
                    old(self).logs@,
                    log_line_of(now, msg_threshold_updated(pct)),
                )
            },
            r.is_err() ==> {
                &&& r == Err::<(), ControlError>(ControlError::InvalidRange)
                &&& final(self).threshold_pct == old(self).threshold_pct
                &&& final(self).logs@ == log_appended(
                    old(self).logs@,
                    log_line_of(now, msg_threshold_rejected()),
                )
            },
            final(self).reference_price_cents == old(self).reference_price_cents,
            final(self).paused == old(self).paused,
            final(self).custody_address == old(self).custody_address,
            final(self).last_settlement_id == old(self).last_settlement_id,
    {
        if pct < MIN_THRESHOLD_PCT || pct > MAX_THRESHOLD_PCT {
            self.add_log(now, "threshold must be between 90 and 99");
            Err(ControlError::InvalidRange)
        } else {
            self.threshold_pct = pct;
            let mut m = String::from_str("threshold updated to ");
            let d = u64_to_dec(pct);
            m.append(d.as_str());
            m.append("%");
            proof {
                assert(m@ =~= msg_threshold_updated(pct));
            }
            self.add_log(now, m.as_str());
            Ok(())
        }
    }

    /// Sets or clears the pause flag, logging the transition.
    pub fn set_paused(&mut self, now: u64, flag: bool)
        requires
            old(self).wf(),
        ensures
            final(self).wf(),
            final(self).paused == flag,
            final(self).logs@ == log_appended(old(self).logs@, log_line_of(now, msg_paused(flag))),
            final(self).reference_price_cents == old(self).reference_price_cents,
            final(self).threshold_pct == old(self).threshold_pct,
            final(self).custody_address == old(self).custody_address,
            final(self).last_settlement_id == old(self).last_settlement_id,
    {
        self.paused = flag;
        if flag {
            self.add_log(now, "operations paused");
        } else {
            self.add_log(now, "operations resumed");
        }
    }

    /// A read-only snapshot of the operational fields; the custody address
    /// reads as a fixed placeholder until it is installed.
    pub fn get_stats(&self) -> (r: Stats)
        ensures
            r.reference_price_cents == self.reference_price_cents,
            r.threshold_pct == self.threshold_pct,
            r.paused == self.paused,
            match self.custody_address {
                Some(a) => r.custody_address@ == a@,
                None => r.custody_address@ == no_address_placeholder(),
            },
    {
        let custody_address = match &self.custody_address {
            Some(a) => a.clone(),
            None => String::from_str("Not initialized"),
        };
        Stats {
            reference_price_cents: self.reference_price_cents,
            threshold_pct: self.threshold_pct,
            paused: self.paused,
            custody_address,
        }
    }

    /// A copy of the retained log lines, oldest first.
    pub fn get_logs(&self) -> (r: Vec<String>)
        ensures
            line_views(r@) == self.logs@,
    {
        self.logs.snapshot()
    }

    /// First phase of the idempotent address setup: answers from state alone
    /// whether the installed address can be reused or a key retrieval is
    /// needed.
    pub fn ensure_address(&self) -> (r: AddressAction)
        ensures
            match self.custody_address {
                Some(a) => r matches AddressAction::Use(x) && x@ == a@,
                None => r matches AddressAction::RequestKey,
            },
            r matches AddressAction::RequestKey <==> spec_address_action(*self).is_none(),
    {
        match &self.custody_address {
            Some(a) => AddressAction::Use(a.clone()),
            None => AddressAction::RequestKey,
        }
    }

    /// Second phase of the address setup: installs the address derived from
    /// the freshly retrieved public key.  The address is write-once: callers
    /// reach this only when `ensure_address` answered `RequestKey`.
    pub fn install_address(&mut self, now: u64, addr: String)
        requires
            old(self).wf(),
            old(self).custody_address.is_none(),
        ensures
            final(self).wf(),
            final(self).custody_address == Some(addr),
            final(self).logs@ == log_appended(
                old(self).logs@,
                log_line_of(now, msg_address_installed(addr@)),
            ),
            final(self).reference_price_cents == old(self).reference_price_cents,
            final(self).threshold_pct == old(self).threshold_pct,
            final(self).paused == old(self).paused,
            final(self).last_settlement_id == old(self).last_settlement_id,
    {
        let mut m = String::from_str("custody address installed: ");
        m.append(addr.as_str());
        proof {
            assert(m@ =~= msg_address_installed(addr@));
        }
        self.custody_address = Some(addr);
        self.add_log(now, m.as_str());
    }
}

/// Law: obtaining the custody address is idempotent after the first success.
/// Once an address is present, `ensure_address` answers it from state alone —
/// the same address every time, and no further key retrieval is requested.
pub proof fn lemma_ensure_address_idempotent(s: AgentState, addr: String)
    requires
        s.custody_address == Some(addr),
    ensures
        spec_address_action(s) == Some(addr@),
        spec_address_action(s).is_some(),
{
}

} // verus!
