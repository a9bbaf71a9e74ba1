//! The ledger deposit leg of a trigger: counterparty identity and policy.
//!
//! On each trigger the agent records a fixed-amount deposit with a fixed
//! counterparty.  The counterparty is addressed by the textual form of a
//! principal identity; resolving that text is the one computation here, and
//! the remote call itself is the caller's.

use vstd::prelude::*;
use vstd::string::StringExecFns;

verus! {

/// Amount recorded with the counterparty on each trigger, in e8s.  A policy
/// constant, not derived from the price delta.
pub const DEPOSIT_AMOUNT_E8S: u64 = 1_000_000;

/// Rejection of a ledger deposit.
#[derive(Debug, Clone, PartialEq, Eq)]
pub enum DepositError {
    /// The configured counterparty identity is not a valid principal text.
    InvalidCounterparty,
    /// The counterparty accepted the call and rejected the deposit.
    RemoteRejected { reason: String },
    /// The call to the counterparty failed in transport.
    Transport { reason: String },
}

/// The reason text of a deposit rejection.
pub open spec fn spec_deposit_reason(e: DepositError) -> Seq<char> {
    match e {
        DepositError::InvalidCounterparty => "invalid counterparty identity"@,
        DepositError::RemoteRejected { reason } => "counterparty rejected: "@ + reason@,
        DepositError::Transport { reason } => "transport: "@ + reason@,
    }
}

impl DepositError {
    /// Renders this rejection as its reason text.
    pub fn reason_text(&self) -> (r: String)
        ensures
            r@ == spec_deposit_reason(*self),
    {
        match self {
            DepositError::InvalidCounterparty => String::from_str("invalid counterparty identity"),
            DepositError::RemoteRejected { reason } => {
                let mut m = String::from_str("counterparty rejected: ");
                m.append(reason.as_str());
                proof {
                    assert(m@ =~= spec_deposit_reason(*self));
                }
                m
            },
            DepositError::Transport { reason } => {
                let mut m = String::from_str("transport: ");
                m.append(reason.as_str());
                proof {
                    assert(m@ =~= spec_deposit_reason(*self));
                }
                m
            },
        }
    }
}

#[verifier::external_type_specification]
#[verifier::external_body]
pub struct ExPrincipal(candid::Principal);

/// Whether a text is a principal rendering that the counterparty identifier
/// parser accepts.
pub uninterp spec fn principal_text_ok(s: Seq<char>) -> bool;

/// Relies on candid::Principal::from_text: parses the textual form of a
/// principal identity; whether it succeeds depends on the text alone.
#[verifier::external_body]
fn parse_principal(text: &str) -> (r: Option<candid::Principal>)
    ensures
        r.is_some() == principal_text_ok(text@),
{
    candid::Principal::from_text(text).ok()
}

/// Resolves a counterparty identity from its textual form; an invalid text
/// is the distinct `InvalidCounterparty` rejection, reported before any
/// remote call is made.
pub fn counterparty_principal(text: &str) -> (r: Result<candid::Principal, DepositError>)
    ensures
        r.is_ok() <==> principal_text_ok(text@),
        r.is_err() ==> r matches Err(DepositError::InvalidCounterparty),
{
    match parse_principal(text) {
        Some(p) => Ok(p),
        None => Err(DepositError::InvalidCounterparty),
    }
}

} // verus!
