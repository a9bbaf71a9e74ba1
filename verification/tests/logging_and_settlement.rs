use price_agent::deposit::{counterparty_principal, DepositError};
use price_agent::logs::{LogBuffer, MAX_LOGS};
use price_agent::price::FeedError;
use price_agent::settlement::{
    settlement_address, sufficient_funds, SettlementError, Utxo, MIN_SETTLEMENT_SATS,
};
use price_agent::state::AgentState;
use price_agent::text::format_txid;

fn utxo(value: u64) -> Utxo {
    Utxo { value, txid: vec![0u8; 32], vout: 0 }
}

#[test]
fn log_buffer_keeps_exactly_the_last_fifty() {
    let mut buf = LogBuffer::new();
    for i in 0..60 {
        buf.append(format!("entry {}", i));
        assert!(buf.len() <= MAX_LOGS);
    }
    let lines = buf.snapshot();
    assert_eq!(lines.len(), 50);
    // Oldest first: entries 10 through 59 remain.
    assert_eq!(lines[0], "entry 10");
    assert_eq!(lines[49], "entry 59");
    for (k, line) in lines.iter().enumerate() {
        assert_eq!(line, &format!("entry {}", 10 + k));
    }
}

#[test]
fn log_buffer_under_bound_keeps_everything() {
    let mut buf = LogBuffer::new();
    for i in 0..50 {
        buf.append(format!("line {}", i));
    }
    let lines = buf.snapshot();
    assert_eq!(lines.len(), 50);
    assert_eq!(lines[0], "line 0");
}

#[test]
fn sufficiency_cut_is_at_ten_thousand_sats() {
    // 9,999 total is insufficient; 10,000 proceeds.
    assert!(!sufficient_funds(&vec![utxo(9_999)]));
    assert!(sufficient_funds(&vec![utxo(10_000)]));
    assert!(sufficient_funds(&vec![utxo(4_000), utxo(6_000)]));
    assert!(!sufficient_funds(&vec![utxo(4_000), utxo(5_999)]));
    assert!(!sufficient_funds(&Vec::new()));
    assert_eq!(MIN_SETTLEMENT_SATS, 10_000);
}

#[test]
fn insufficient_funds_records_no_settlement_id() {
    let mut agent = AgentState::new();
    agent.install_address(1, String::from("tb1qcustody"));
    let utxos = vec![utxo(9_999)];
    assert!(!sufficient_funds(&utxos));
    price_agent::settlement::record_insufficient_funds(&mut agent, 2);
    assert!(agent.last_settlement_id.is_none());
    let logs = agent.get_logs();
    assert_eq!(logs.last().unwrap(), "[2] settlement skipped: insufficient funds");
}

#[test]
fn sent_settlement_records_txid() {
    let mut agent = AgentState::new();
    agent.install_address(1, String::from("tb1qcustody"));
    price_agent::settlement::record_settlement_sent(&mut agent, 3, String::from("deadbeef"));
    assert_eq!(agent.last_settlement_id.as_deref(), Some("deadbeef"));
    let logs = agent.get_logs();
    assert_eq!(logs.last().unwrap(), "[3] settlement sent: deadbeef");
}

#[test]
fn settlement_before_address_is_distinct_failure() {
    let agent = AgentState::new();
    assert_eq!(settlement_address(&agent), Err(SettlementError::AddressNotInitialized));
    let mut agent = agent;
    agent.install_address(1, String::from("tb1qcustody"));
    assert_eq!(settlement_address(&agent), Ok(String::from("tb1qcustody")));
}

#[test]
fn txid_renders_as_lowercase_hex() {
    assert_eq!(format_txid(&vec![0x12, 0x34]), "1234");
    let bytes = vec![
        0x12, 0x34, 0x56, 0x78, 0x9a, 0xbc, 0xde, 0xf0, 0x12, 0x34, 0x56, 0x78, 0x9a, 0xbc, 0xde,
        0xf0,
    ];
    assert_eq!(format_txid(&bytes), "123456789abcdef0123456789abcdef0");
    assert_eq!(format_txid(&Vec::new()), "");
}

#[test]
fn counterparty_identity_is_validated() {
    assert!(counterparty_principal("rrkah-fqaaa-aaaaa-aaaaq-cai").is_ok());
    assert_eq!(
        counterparty_principal("not a principal"),
        Err(DepositError::InvalidCounterparty)
    );
}

#[test]
fn settlement_digest_folds_the_exact_preimage() {
    let address_bytes = b"tb1qcustody".to_vec();
    let utxos = vec![
        Utxo { value: 7_000, txid: vec![0xaa, 0xbb], vout: 1 },
        Utxo { value: 5_000, txid: vec![0xcc], vout: 0 },
    ];
    // The preimage is address bytes, then each output's txid, index and
    // value little-endian, then the fixed send amount.
    let mut preimage: Vec<u8> = Vec::new();
    preimage.extend_from_slice(b"tb1qcustody");
    preimage.extend_from_slice(&[0xaa, 0xbb]);
    preimage.extend_from_slice(&1u32.to_le_bytes());
    preimage.extend_from_slice(&7_000u64.to_le_bytes());
    preimage.extend_from_slice(&[0xcc]);
    preimage.extend_from_slice(&0u32.to_le_bytes());
    preimage.extend_from_slice(&5_000u64.to_le_bytes());
    preimage.extend_from_slice(&price_agent::settlement::SETTLEMENT_SEND_SATS.to_le_bytes());
    let mut expected = vec![0u8; 32];
    for (i, b) in preimage.iter().enumerate() {
        expected[i % 32] ^= *b;
    }
    let digest = price_agent::settlement::settlement_digest(&address_bytes, &utxos);
    assert_eq!(digest.len(), 32);
    assert_eq!(digest, expected);
}

#[test]
fn settlement_digest_depends_on_the_outputs() {
    let address_bytes = b"tb1qcustody".to_vec();
    let a = vec![Utxo { value: 10_000, txid: vec![1, 2, 3], vout: 0 }];
    let b = vec![Utxo { value: 10_001, txid: vec![1, 2, 3], vout: 0 }];
    let da = price_agent::settlement::settlement_digest(&address_bytes, &a);
    let db = price_agent::settlement::settlement_digest(&address_bytes, &b);
    assert_ne!(da, db);
}

#[test]
fn failure_reason_texts_are_exact() {
    assert_eq!(
        FeedError::Network { reason: String::from("tcp reset") }.reason_text(),
        "network: tcp reset"
    );
    assert_eq!(FeedError::BadStatus { status: 503 }.reason_text(), "http status 503");
    assert_eq!(FeedError::MalformedPayload.reason_text(), "malformed payload");
    assert_eq!(
        SettlementError::AddressNotInitialized.reason_text(),
        "custody address not initialized"
    );
    assert_eq!(
        SettlementError::Indexer { reason: String::from("timeout") }.reason_text(),
        "indexer: timeout"
    );
    assert_eq!(
        SettlementError::Signing { reason: String::from("refused") }.reason_text(),
        "signing: refused"
    );
    assert_eq!(
        SettlementError::Broadcast { reason: String::from("rejected") }.reason_text(),
        "broadcast: rejected"
    );
    assert_eq!(DepositError::InvalidCounterparty.reason_text(), "invalid counterparty identity");
    assert_eq!(
        DepositError::RemoteRejected { reason: String::from("over limit") }.reason_text(),
        "counterparty rejected: over limit"
    );
    assert_eq!(
        DepositError::Transport { reason: String::from("no route") }.reason_text(),
        "transport: no route"
    );
}
