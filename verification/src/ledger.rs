//! The durable ledger records: the global treasury configuration, the per-post
//! pool, the per-(user, post) hype holding, and the events each trade emits.
//! All monetary quantities are unsigned integers; reserves are tracked at
//! 128-bit precision while every externally transferred amount must fit 64
//! bits.

use vstd::prelude::*;

verus! {

/// Smallest hype amount a buy order may name.
pub const MIN_HYPE_TO_BUY: u128 = 1_000_000;

/// Smallest hype amount a sell order may name.
pub const MIN_HYPE_TO_SELL: u128 = 1_000_000;

/// Fixed exchange rate seeding a new pool: hype minted into the reserve per
/// base unit deposited. Not market-determined.
pub const HYPE_PER_LAMPORT: u128 = 10;

/// Opaque identity of a platform account. The ledger never looks inside an
/// identity; it only compares identities for equality, so one plain value
/// stands for whatever addressing scheme the platform uses.
#[derive(Clone, Copy, Debug, PartialEq, Eq, Structural)]
pub struct AccountId {
    pub id: u64,
}

/// Process-wide singleton: who may withdraw the collected protocol fees.
#[derive(Clone, Copy, Debug, PartialEq, Eq, Structural)]
pub struct Config {
    pub admin: AccountId,
}

/// Per-post reserve pool backing the bonding curve.
///
/// `total_hype` counts the hype in circulation for this post: the creator's
/// seeded slice plus everything bought and not yet sold back. The unsold
/// inventory sitting in `reserved_hype` is not in circulation, so
/// `total_hype` and `reserved_hype` are not tied to one another.
#[derive(Clone, Copy, Debug, PartialEq, Eq, Structural)]
pub struct PostPool {
    pub creator: AccountId,
    pub creator_hype_balance: u128,
    pub post_id: u64,
    pub vault: AccountId,
    pub reserved_sol: u128,
    pub reserved_hype: u128,
    pub total_hype: u128,
}

/// A user's hype balance against one pool.
#[derive(Clone, Copy, Debug, PartialEq, Eq, Structural)]
pub struct HypeRecord {
    pub user: AccountId,
    pub post_pool: AccountId,
    pub amount: u128,
}

/// Custody-only marker: the native currency backing a pool lives in the
/// platform's custody layer, so the vault carries no ledger fields.
#[derive(Clone, Copy, Debug, PartialEq, Eq, Structural)]
pub struct PostVault {}

/// Record of a completed purchase, for off-chain consumers. `price` is the
/// per-unit price (total cost divided by amount, truncated).
#[derive(Clone, Copy, Debug, PartialEq, Eq, Structural)]
pub struct HypeEvent {
    pub post_id: u64,
    pub user: AccountId,
    pub amount: u64,
    pub price: u64,
    pub total_cost: u64,
    pub timestamp: i64,
}

/// Record of a completed sale or creator release. `total_refund` is the gross
/// curve refund, before any fee is deducted.
#[derive(Clone, Copy, Debug, PartialEq, Eq, Structural)]
pub struct UnhypeEvent {
    pub post_id: u64,
    pub user: AccountId,
    pub amount: u64,
    pub price: u64,
    pub total_refund: u64,
    pub timestamp: i64,
}

/// Why an operation was rejected. Every rejection happens before any ledger
/// mutation; the caller may correct the inputs and resubmit.
#[derive(Clone, Copy, Debug, PartialEq, Eq, Structural)]
pub enum TrenderError {
    InvalidDepositAmount,
    InvalidHypeAmount,
    InsufficientHypeReserve,
    Unauthorized,
    InsufficientHypeBalance,
    InsufficientSolReserve,
    AmountTooLarge,
    SlippageExceeded,
    InsufficientFunds,
}

/// Well-formedness of a pool on its own: the hype in circulation covers at
/// least the creator's redeemable balance.
pub open spec fn pool_wf(pool: PostPool) -> bool {
    pool.total_hype >= pool.creator_hype_balance
}

/// Well-formedness of a pool together with one holding against it: the hype in
/// circulation covers the creator's balance and this holding side by side.
/// Pool creation establishes it for the fresh pool and an empty holding, and
/// every transition preserves it.
pub open spec fn pool_record_wf(pool: PostPool, record: HypeRecord) -> bool {
    pool.total_hype >= pool.creator_hype_balance + record.amount
}

} // verus!
