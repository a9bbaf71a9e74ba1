//! Unspent-output accounting and the settlement record-keeping.
//!
//! A settlement moves funds out of the custody address: the caller queries
//! the indexing service for the address's unspent outputs, this module
//! decides sufficiency against the minimum-funds policy, and after the caller
//! has signed and broadcast the transaction the outcome is recorded here.

use vstd::prelude::*;
use vstd::string::StringExecFns;

use crate::logs::log_appended;
use crate::state::AgentState;
use crate::text::log_line_of;

verus! {

/// Minimum total spendable value below which no settlement is attempted.
pub const MIN_SETTLEMENT_SATS: u64 = 10_000;

/// Fixed amount a settlement transaction moves, in satoshis.
pub const SETTLEMENT_SEND_SATS: u64 = 1_000;

/// An unspent output owned by the custody address, as the indexing service
/// reports it: its value in the smallest unit and its outpoint.
#[derive(Debug, Clone, PartialEq, Eq)]
pub struct Utxo {
    /// Value in satoshis.
    pub value: u64,
    /// Transaction id of the output's creating transaction.
    pub txid: Vec<u8>,
    /// Index of the output within that transaction.
    pub vout: u32,
}

/// Outcome of a settlement attempt that ran to completion.  Insufficient
/// funds is a normal business outcome, not an error.
#[derive(Debug, Clone, PartialEq, Eq)]
pub enum SettlementOutcome {
    /// The transaction was signed and broadcast under this id.
    Sent { txid: String },
    /// Total spendable value was below the minimum; nothing was moved.
    InsufficientFunds,
}

/// A collaborator failure during settlement, or a settlement attempted
/// before the custody address exists.
#[derive(Debug, Clone, PartialEq, Eq)]
pub enum SettlementError {
    /// No custody address is installed yet; the attempt is premature rather
    /// than failed.
    AddressNotInitialized,
    /// The unspent-output query failed.
    Indexer { reason: String },
    /// The signing service refused or failed.
    Signing { reason: String },
    /// The broadcast of the signed transaction failed.
    Broadcast { reason: String },
}

/// The reason text of a settlement failure.
pub open spec fn spec_settlement_reason(e: SettlementError) -> Seq<char> {
    match e {
        SettlementError::AddressNotInitialized => "custody address not initialized"@,
        SettlementError::Indexer { reason } => "indexer: "@ + reason@,
        SettlementError::Signing { reason } => "signing: "@ + reason@,
        SettlementError::Broadcast { reason } => "broadcast: "@ + reason@,
    }
}

impl SettlementError {
    /// Renders this failure as its reason text.
    pub fn reason_text(&self) -> (r: String)
        ensures
            r@ == spec_settlement_reason(*self),
    {
        match self {
            SettlementError::AddressNotInitialized => String::from_str(
                "custody address not initialized",
            ),
            SettlementError::Indexer { reason } => {
                let mut m = String::from_str("indexer: ");
                m.append(reason.as_str());
                proof {
                    assert(m@ =~= spec_settlement_reason(*self));
                }
                m
            },
            SettlementError::Signing { reason } => {
                let mut m = String::from_str("signing: ");
                m.append(reason.as_str());
                proof {
                    assert(m@ =~= spec_settlement_reason(*self));
                }
                m
            },
            SettlementError::Broadcast { reason } => {
                let mut m = String::from_str("broadcast: ");
                m.append(reason.as_str());
                proof {
                    assert(m@ =~= spec_settlement_reason(*self));
                }
                m
            },
        }
    }
}

/// Total spendable value of a sequence of unspent outputs.
pub open spec fn total_value(s: Seq<Utxo>) -> int
    decreases s.len(),
{
    if s.len() == 0 {
        0
    } else {
        total_value(s.drop_last()) + s.last().value
    }
}

/// The log line recording a broadcast settlement.
pub open spec fn msg_settlement_sent(txid: Seq<char>) -> Seq<char> {
    "settlement sent: "@ + txid
}

/// The log line recording a sufficiency check that came up short.
pub open spec fn msg_insufficient_funds() -> Seq<char> {
    "settlement skipped: insufficient funds"@
}

/// The custody address a settlement spends from; a missing address is the
/// distinct premature-attempt failure, not a collaborator error.
pub fn settlement_address(agent: &AgentState) -> (r: Result<String, SettlementError>)
    ensures
        r.is_ok() <==> agent.custody_address.is_some(),
        r matches Ok(a) ==> a@ == agent.custody_address.unwrap()@,
        r.is_err() ==> r matches Err(SettlementError::AddressNotInitialized),
{
    match &agent.custody_address {
        Some(a) => Ok(a.clone()),
        None => Err(SettlementError::AddressNotInitialized),
    }
}

/// Whether the queried outputs clear the minimum-funds policy: true exactly
/// when their total value reaches `MIN_SETTLEMENT_SATS`.
pub fn sufficient_funds(utxos: &Vec<Utxo>) -> (r: bool)
    ensures
        r == (total_value(utxos@) >= MIN_SETTLEMENT_SATS),
{
    let mut acc: u128 = 0;
    let mut i: usize = 0;
    proof {
        assert(utxos@.take(0) =~= Seq::<Utxo>::empty());
    }
    while i < utxos.len()
        invariant
            i <= utxos.len(),
            acc == total_value(utxos@.take(i as int)),
            0 <= total_value(utxos@.take(i as int)) <= (i as int) * (u64::MAX as int),
        decreases utxos.len() - i,
    {
        proof {
            assert(utxos@.take(i as int + 1).drop_last() =~= utxos@.take(i as int));
            assert(utxos@.take(i as int + 1).last() == utxos@[i as int]);
        }
        acc = acc + (utxos[i].value as u128);
        i = i + 1;
    }
    proof {
        assert(utxos@.take(utxos@.len() as int) =~= utxos@);
    }
    acc >= (MIN_SETTLEMENT_SATS as u128)
}

/// Little-endian byte rendering of a 32-bit value.
pub open spec fn le4(v: u32) -> Seq<u8> {
    seq![
        (v % 256) as u8,
        ((v / 256) % 256) as u8,
        ((v / 65536) % 256) as u8,
        ((v / 16777216) % 256) as u8,
    ]
}

/// Little-endian byte rendering of a 64-bit value.
pub open spec fn le8(v: u64) -> Seq<u8> {
    seq![
        (v % 256) as u8,
        ((v / 256) % 256) as u8,
        ((v / 65536) % 256) as u8,
        ((v / 16777216) % 256) as u8,
        ((v / 4294967296) % 256) as u8,
        ((v / 1099511627776) % 256) as u8,
        ((v / 281474976710656) % 256) as u8,
        ((v / 72057594037927936) % 256) as u8,
    ]
}

/// The serialized form of one unspent output inside the signing preimage:
/// its creating transaction's id, its output index, then its value.
pub open spec fn utxo_bytes(u: Utxo) -> Seq<u8> {
    u.txid@ + le4(u.vout) + le8(u.value)
}

/// The serialized spent outputs, in query order.
pub open spec fn utxos_bytes(s: Seq<Utxo>) -> Seq<u8>
    decreases s.len(),
{
    if s.len() == 0 {
        Seq::empty()
    } else {
        utxos_bytes(s.drop_last()) + utxo_bytes(s.last())
    }
}

/// The signing preimage of a settlement transaction: the spending address's
/// bytes, each spent output in order, then the fixed send amount.
pub open spec fn settlement_preimage(addr: Seq<u8>, utxos: Seq<Utxo>) -> Seq<u8> {
    addr + utxos_bytes(utxos) + le8(SETTLEMENT_SEND_SATS)
}

/// The 32-byte digest over the first `n` preimage bytes: byte `i` is
/// xor-folded into position `i` modulo 32.
pub open spec fn fold_digest(pre: Seq<u8>, n: int) -> Seq<u8>
    decreases n,
{
    if n <= 0 {
        Seq::new(32, |j: int| 0u8)
    } else {
        let h = fold_digest(pre, n - 1);
        h.update((n - 1) % 32, h[(n - 1) % 32] ^ pre[n - 1])
    }
}

/// The digest of the whole settlement preimage: what the agent hands the
/// signing service as the message hash, and what it renders as the
/// transaction id.
pub open spec fn settlement_digest_of(addr: Seq<u8>, utxos: Seq<Utxo>) -> Seq<u8> {
    fold_digest(
        settlement_preimage(addr, utxos),
        settlement_preimage(addr, utxos).len() as int,
    )
}

fn push_bytes(out: &mut Vec<u8>, src: &Vec<u8>)
    ensures
        final(out)@ == old(out)@ + src@,
{
    proof {
        assert(out@ =~= out@ + src@.take(0));
    }
    let mut i: usize = 0;
    while i < src.len()
        invariant
            i <= src@.len(),
            out@ == old(out)@ + src@.take(i as int),
        decreases src.len() - i,
    {
        out.push(src[i]);
        i = i + 1;
        proof {
            assert(out@ =~= old(out)@ + src@.take(i as int));
        }
    }
    proof {
        assert(src@.take(src@.len() as int) =~= src@);
    }
}

fn push_le4(out: &mut Vec<u8>, v: u32)
    ensures
        final(out)@ == old(out)@ + le4(v),
{
    out.push((v % 256) as u8);
    out.push(((v / 256) % 256) as u8);
    out.push(((v / 65536) % 256) as u8);
    out.push(((v / 16777216) % 256) as u8);
    proof {
        assert(out@ =~= old(out)@ + le4(v));
    }
}

fn push_le8(out: &mut Vec<u8>, v: u64)
    ensures
        final(out)@ == old(out)@ + le8(v),
{
    out.push((v % 256) as u8);
    out.push(((v / 256) % 256) as u8);
    out.push(((v / 65536) % 256) as u8);
    out.push(((v / 16777216) % 256) as u8);
    out.push(((v / 4294967296) % 256) as u8);
    out.push(((v / 1099511627776) % 256) as u8);
    out.push(((v / 281474976710656) % 256) as u8);
    out.push(((v / 72057594037927936) % 256) as u8);
    proof {
        assert(out@ =~= old(out)@ + le8(v));
    }
}

/// Serializes the signing preimage of the settlement transaction spending
/// the given outputs from the given address.
pub fn settlement_preimage_bytes(address_bytes: &Vec<u8>, utxos: &Vec<Utxo>) -> (r: Vec<u8>)
    ensures
        r@ == settlement_preimage(address_bytes@, utxos@),
{
    let mut out: Vec<u8> = Vec::new();
    push_bytes(&mut out, address_bytes);
    proof {
        assert(out@ =~= address_bytes@ + utxos_bytes(utxos@.take(0)));
    }
    let mut i: usize = 0;
    while i < utxos.len()
        invariant
            i <= utxos@.len(),
            out@ == address_bytes@ + utxos_bytes(utxos@.take(i as int)),
        decreases utxos.len() - i,
    {
        push_bytes(&mut out, &utxos[i].txid);
        push_le4(&mut out, utxos[i].vout);
        push_le8(&mut out, utxos[i].value);
        i = i + 1;
        proof {
            assert(utxos@.take(i as int).drop_last() =~= utxos@.take(i as int - 1));
            assert(utxos@.take(i as int).last() == utxos@[i as int - 1]);
            assert(out@ =~= address_bytes@ + utxos_bytes(utxos@.take(i as int)));
        }
    }
    proof {
        assert(utxos@.take(utxos@.len() as int) =~= utxos@);
    }
    push_le8(&mut out, SETTLEMENT_SEND_SATS);
    proof {
        assert(out@ =~= settlement_preimage(address_bytes@, utxos@));
    }
    out
}

/// Builds the 32-byte digest the settlement hands the signing service and
/// renders as the transaction id: the preimage xor-folded into 32 bytes.
/// The network's own transaction hashing belongs to the broadcast
/// collaborator's contract; this digest is the agent's deterministic
/// construction over exactly the address, the spent outputs and the fixed
/// amount.
pub fn settlement_digest(address_bytes: &Vec<u8>, utxos: &Vec<Utxo>) -> (r: Vec<u8>)
    ensures
        r@ == settlement_digest_of(address_bytes@, utxos@),
        r@.len() == 32,
{
    let pre = settlement_preimage_bytes(address_bytes, utxos);
    let mut h: Vec<u8> = Vec::new();
    let mut j: usize = 0;
    while j < 32
        invariant
            j <= 32,
            h@.len() == j,
            forall|t: int| 0 <= t < j ==> h@[t] == 0u8,
        decreases 32 - j,
    {
        h.push(0u8);
        j = j + 1;
    }
    proof {
        assert(h@ =~= fold_digest(pre@, 0));
    }
    let mut i: usize = 0;
    while i < pre.len()
        invariant
            i <= pre@.len(),
            h@.len() == 32,
            h@ == fold_digest(pre@, i as int),
        decreases pre.len() - i,
    {
        let idx = i % 32;
        let b = pre[i];
        let cur = h[idx];
        h[idx] = cur ^ b;
        i = i + 1;
        proof {
            assert(h@ =~= fold_digest(pre@, i as int));
        }
    }
    proof {
        assert(pre@.len() as int == settlement_preimage(address_bytes@, utxos@).len() as int);
    }
    h
}

/// Records a settlement that actually moved funds: the broadcast transaction
/// id becomes the last settlement id and the outcome is logged.
pub fn record_settlement_sent(agent: &mut AgentState, now: u64, txid: String)
    requires
        old(agent).wf(),
    ensures
        final(agent).wf(),
        final(agent).last_settlement_id == Some(txid),
        final(agent).logs@ == log_appended(
            old(agent).logs@,
            log_line_of(now, msg_settlement_sent(txid@)),
        ),
        final(agent).reference_price_cents == old(agent).reference_price_cents,
        final(agent).threshold_pct == old(agent).threshold_pct,
        final(agent).paused == old(agent).paused,
        final(agent).custody_address == old(agent).custody_address,
{
    let mut m = String::from_str("settlement sent: ");
    m.append(txid.as_str());
    proof {
        assert(m@ =~= msg_settlement_sent(txid@));
    }
    agent.last_settlement_id = Some(txid);
    agent.add_log(now, m.as_str());
}

/// Records an insufficiency outcome: it is logged, and the last settlement
/// id is left untouched — nothing moved, so nothing is recorded as sent.
pub fn record_insufficient_funds(agent: &mut AgentState, now: u64)
    requires
        old(agent).wf(),
    ensures
        final(agent).wf(),
        final(agent).last_settlement_id == old(agent).last_settlement_id,
        final(agent).logs@ == log_appended(
            old(agent).logs@,
            log_line_of(now, msg_insufficient_funds()),
        ),
        final(agent).reference_price_cents == old(agent).reference_price_cents,
        final(agent).threshold_pct == old(agent).threshold_pct,
        final(agent).paused == old(agent).paused,
        final(agent).custody_address == old(agent).custody_address,
{
    agent.add_log(now, "settlement skipped: insufficient funds");
}

} // verus!
