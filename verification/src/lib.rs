//! A bonding-curve ledger: each post carries a two-asset reserve pool (native
//! currency and a synthetic "hype" token), and users buy and sell hype against
//! that pool at a price set by a constant-product market-maker formula, with
//! protocol fees skimmed on every value-moving operation.
//!
//! The library holds the pricing math ([`amm`]), the ledger records
//! ([`ledger`]), and the state transitions over them ([`protocol`]). Custody of
//! native-currency balances, signature checks, account addressing, and event
//! transport belong to the surrounding platform: the transitions take the
//! caller's identity and the loaded records as plain values and hand back the
//! transfer amounts and event to apply.

pub mod amm;
pub mod ledger;
pub mod protocol;
