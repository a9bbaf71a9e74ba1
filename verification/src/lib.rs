//! A verified price-watching settlement agent.
//!
//! The library holds the decision logic of an autonomous agent that samples an
//! external asset price, detects when a drop crosses a configurable threshold,
//! and then sequences a ledger deposit and an on-chain settlement from a
//! custodied address.  Everything that computes or decides lives here with a
//! contract; the surrounding runtime performs the outside calls (HTTP fetch,
//! key service, indexer, broadcast, deposit) and feeds their results back in
//! as plain values.

pub mod deposit;
pub mod logs;
pub mod price;
pub mod settlement;
pub mod state;
pub mod text;
pub mod trigger;
