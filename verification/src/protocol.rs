//! The state transitions over the ledger: pool creation, buy, sell, creator
//! release, and treasury withdrawal. Each transition validates its inputs,
//! quotes the curve, and either mutates the records it was handed and returns
//! the custody transfers and event to apply, or returns an error and leaves
//! every record exactly as it was. The platform performs the transfers and
//! supplies the caller's identity and the clock.

use vstd::prelude::*;
use crate::amm::{
    amm_price, amm_refund, lemma_purchase_preserves_product, lemma_sale_preserves_product,
    price_for_purchase, refund_for_sale,
};
use crate::ledger::{
    AccountId, Config, HypeEvent, HypeRecord, PostPool, TrenderError, UnhypeEvent,
    HYPE_PER_LAMPORT, MIN_HYPE_TO_BUY, MIN_HYPE_TO_SELL, pool_record_wf, pool_wf,
};

verus! {

/// Accounts touched when the treasury is bootstrapped: the paying caller
/// becomes the admin recorded in the fresh configuration.
#[derive(Clone, Copy, Debug, PartialEq, Eq, Structural)]
pub struct InitializeTreasury {
    pub payer: AccountId,
    pub config: Config,
}

/// One-time bootstrap: records the paying caller as the treasury admin.
pub fn initialize_treasury(ctx: &mut InitializeTreasury)
    ensures
        final(ctx).config.admin == old(ctx).payer,
        final(ctx).payer == old(ctx).payer,
{
    ctx.config.admin = ctx.payer;
}

/// Accounts touched by pool creation: the depositing creator, the fresh vault
/// recorded into the pool, and the pool record itself, filled in on success.
#[derive(Clone, Copy, Debug, PartialEq, Eq, Structural)]
pub struct InitializePost {
    pub creator: AccountId,
    pub post_vault: AccountId,
    pub post_pool: PostPool,
}

/// Custody transfers requested by a successful pool creation: the full deposit
/// moves from the creator to the vault, and the fee moves separately from the
/// creator to the treasury on top of it.
#[derive(Clone, Copy, Debug, PartialEq, Eq, Structural)]
pub struct DepositTransfers {
    pub deposit: u64,
    pub fee: u64,
}

/// The pool a deposit of `deposited_sol` creates: the whole deposit becomes
/// the base reserve, hype inventory is minted at the fixed rate, and the
/// creator is seeded with a tenth of that inventory, which is all the hype in
/// circulation at this point.
pub open spec fn initial_pool(
    creator: AccountId,
    post_id: u64,
    vault: AccountId,
    deposited_sol: u128,
) -> PostPool
    recommends
        deposited_sol <= u64::MAX,
{
    PostPool {
        creator,
        creator_hype_balance: (deposited_sol * HYPE_PER_LAMPORT / 10) as u128,
        post_id,
        vault,
        reserved_sol: deposited_sol,
        reserved_hype: (deposited_sol * HYPE_PER_LAMPORT) as u128,
        total_hype: (deposited_sol * HYPE_PER_LAMPORT / 10) as u128,
    }
}

/// Creates the pool for a post from its initial deposit. A two-percent fee on
/// the deposit (truncated) goes to the treasury. Rejects a zero deposit, and a
/// deposit that cannot be transferred in 64 bits; on rejection nothing is
/// written.
pub fn initialize_post(ctx: &mut InitializePost, post_id: u64, deposited_sol: u128) -> (r: Result<
    DepositTransfers,
    TrenderError,
>)
    ensures
        r is Ok <==> 0 < deposited_sol <= u64::MAX,
        final(ctx).creator == old(ctx).creator,
        final(ctx).post_vault == old(ctx).post_vault,
        r matches Err(e) ==> {
            &&& *final(ctx) == *old(ctx)
            &&& (e == TrenderError::InvalidDepositAmount <==> deposited_sol == 0)
            &&& (e == TrenderError::AmountTooLarge <==> deposited_sol > u64::MAX)
        },
        r matches Ok(t) ==> {
            &&& t.deposit == deposited_sol
            &&& t.fee == deposited_sol * 2 / 100
            &&& final(ctx).post_pool == initial_pool(
                old(ctx).creator,
                post_id,
                old(ctx).post_vault,
                deposited_sol,
            )
        },
        r is Ok ==> pool_wf(final(ctx).post_pool),
        r is Ok ==> final(ctx).post_pool.total_hype == final(ctx).post_pool.creator_hype_balance,
{
    if deposited_sol == 0 {
        return Err(TrenderError::InvalidDepositAmount);
    }
    if deposited_sol > u64::MAX as u128 {
        return Err(TrenderError::AmountTooLarge);
    }
    let deposit = deposited_sol as u64;
    let fee = deposited_sol * 2 / 100;
    let fee_u64 = fee as u64;
    let reserved_hype = deposited_sol * HYPE_PER_LAMPORT;
    let creator_hype_balance = reserved_hype / 10;
    ctx.post_pool = PostPool {
        creator: ctx.creator,
        creator_hype_balance,
        post_id,
        vault: ctx.post_vault,
        reserved_sol: deposited_sol,
        reserved_hype,
        total_hype: creator_hype_balance,
    };
    Ok(DepositTransfers { deposit, fee: fee_u64 })
}

/// Accounts touched by a buy: the paying buyer, the pool (loaded by the
/// platform, along with the address it lives at, which the holding records),
/// and the buyer's holding against that pool — zeroed by the platform on the
/// buyer's first purchase.
#[derive(Clone, Copy, Debug, PartialEq, Eq, Structural)]
pub struct HypePost {
    pub buyer: AccountId,
    pub post_pool_key: AccountId,
    pub post_pool: PostPool,
    pub hype_record: HypeRecord,
}

/// Result of a successful buy: the quoted cost moves from the buyer to the
/// vault, the fee moves separately from the buyer to the treasury on top of
/// it, and the event goes to off-chain consumers once both are committed.
#[derive(Clone, Copy, Debug, PartialEq, Eq, Structural)]
pub struct HypeOutcome {
    pub cost: u64,
    pub fee: u64,
    pub event: HypeEvent,
}

/// The validation a buy order must pass before the curve is even quoted: at
/// least the minimum amount, and strictly less than the hype reserve (buying
/// the whole reserve has no finite price).
pub open spec fn buy_checks_pass(pool: PostPool, amount: u128) -> bool {
    MIN_HYPE_TO_BUY <= amount && amount < pool.reserved_hype
}

/// The curve's quote for buying `amount` hype from `pool`.
pub open spec fn buy_cost(pool: PostPool, amount: u128) -> int {
    price_for_purchase(pool.reserved_sol as int, pool.reserved_hype as int, amount as int)
}

/// When a buy goes through: the order is valid, the quoted cost is within the
/// caller's slippage bound, and both the cost and the amount can be carried in
/// 64 bits across the custody boundary.
pub open spec fn buy_accepted(pool: PostPool, amount: u128, max_acceptable_price: u128) -> bool {
    &&& buy_checks_pass(pool, amount)
    &&& buy_cost(pool, amount) <= max_acceptable_price
    &&& buy_cost(pool, amount) <= u64::MAX
    &&& amount <= u64::MAX
}

/// Buys `amount` hype from the pool at the curve's quote, provided the quote
/// does not exceed `max_acceptable_price` (a bound on the total cost). The
/// half-percent fee (truncated) is charged on top of the quote, so the buyer
/// pays `cost + fee` in all while the pool's base reserve grows by exactly
/// `cost`. The bought hype enters circulation and the buyer's holding. On any
/// rejection nothing is written.
pub fn hype(
    ctx: &mut HypePost,
    amount: u128,
    post_id: u64,
    max_acceptable_price: u128,
    timestamp: i64,
) -> (r: Result<HypeOutcome, TrenderError>)
    requires
        pool_record_wf(old(ctx).post_pool, old(ctx).hype_record),
        buy_checks_pass(old(ctx).post_pool, amount) ==> old(ctx).post_pool.reserved_sol * old(
            ctx,
        ).post_pool.reserved_hype <= u128::MAX,
        buy_accepted(old(ctx).post_pool, amount, max_acceptable_price) ==> old(
            ctx,
        ).post_pool.total_hype + amount <= u128::MAX,
    ensures
        r is Ok <==> buy_accepted(old(ctx).post_pool, amount, max_acceptable_price),
        final(ctx).buyer == old(ctx).buyer,
        final(ctx).post_pool_key == old(ctx).post_pool_key,
        r matches Err(e) ==> {
            &&& *final(ctx) == *old(ctx)
            &&& (e == TrenderError::InvalidHypeAmount <==> amount < MIN_HYPE_TO_BUY)
            &&& (e == TrenderError::InsufficientHypeReserve <==> MIN_HYPE_TO_BUY <= amount
                && amount >= old(ctx).post_pool.reserved_hype)
            &&& (e == TrenderError::SlippageExceeded <==> buy_checks_pass(old(ctx).post_pool, amount)
                && buy_cost(old(ctx).post_pool, amount) > max_acceptable_price)
            &&& (e == TrenderError::AmountTooLarge <==> buy_checks_pass(old(ctx).post_pool, amount)
                && buy_cost(old(ctx).post_pool, amount) <= max_acceptable_price && (buy_cost(
                old(ctx).post_pool,
                amount,
            ) > u64::MAX || amount > u64::MAX))
        },
        r is Ok ==> {
            let cost = buy_cost(old(ctx).post_pool, amount);
            &&& final(ctx).post_pool == (PostPool {
                reserved_sol: (old(ctx).post_pool.reserved_sol + cost) as u128,
                reserved_hype: (old(ctx).post_pool.reserved_hype - amount) as u128,
                total_hype: (old(ctx).post_pool.total_hype + amount) as u128,
                ..old(ctx).post_pool
            })
            &&& final(ctx).hype_record == (HypeRecord {
                user: old(ctx).buyer,
                post_pool: old(ctx).post_pool_key,
                amount: (old(ctx).hype_record.amount + amount) as u128,
            })
        },
        r matches Ok(o) ==> {
            let cost = buy_cost(old(ctx).post_pool, amount);
            o == (HypeOutcome {
                cost: cost as u64,
                fee: (cost * 5 / 1000) as u64,
                event: HypeEvent {
                    post_id,
                    user: old(ctx).buyer,
                    amount: amount as u64,
                    price: (cost / amount as int) as u64,
                    total_cost: cost as u64,
                    timestamp,
                },
            })
        },
        r is Ok ==> pool_record_wf(final(ctx).post_pool, final(ctx).hype_record),
        r is Ok ==> pool_wf(final(ctx).post_pool),
{
    if amount < MIN_HYPE_TO_BUY {
        return Err(TrenderError::InvalidHypeAmount);
    }
    if amount >= ctx.post_pool.reserved_hype {
        return Err(TrenderError::InsufficientHypeReserve);
    }
    let price = amm_price(ctx.post_pool.reserved_sol, ctx.post_pool.reserved_hype, amount);
    if price > max_acceptable_price {
        return Err(TrenderError::SlippageExceeded);
    }
    if price > u64::MAX as u128 || amount > u64::MAX as u128 {
        return Err(TrenderError::AmountTooLarge);
    }
    let cost = price as u64;
    let fee = (price * 5 / 1000) as u64;
    let price_per_unit = (price / amount) as u64;
    ctx.post_pool.reserved_sol = ctx.post_pool.reserved_sol + price;
    ctx.post_pool.reserved_hype = ctx.post_pool.reserved_hype - amount;
    ctx.post_pool.total_hype = ctx.post_pool.total_hype + amount;
    ctx.hype_record.user = ctx.buyer;
    ctx.hype_record.post_pool = ctx.post_pool_key;
    ctx.hype_record.amount = ctx.hype_record.amount + amount;
    Ok(
        HypeOutcome {
            cost,
            fee,
            event: HypeEvent {
                post_id,
                user: ctx.buyer,
                amount: amount as u64,
                price: price_per_unit,
                total_cost: cost,
                timestamp,
            },
        },
    )
}

/// Law: a buy whose quote divides evenly does not decrease the pool's
/// constant product — the reserves [`hype`] leaves behind multiply to the old
/// product exactly. (A truncating quote shrinks the product by the remainder,
/// bounded by `lemma_product_after_purchase`.)
pub proof fn lemma_buy_keeps_product_when_exact(pool: PostPool, amount: u128)
    requires
        buy_checks_pass(pool, amount),
        (pool.reserved_sol * pool.reserved_hype) % (pool.reserved_hype - amount) == 0,
    ensures
        (pool.reserved_sol + buy_cost(pool, amount)) * (pool.reserved_hype - amount)
            >= pool.reserved_sol * pool.reserved_hype,
{
    lemma_purchase_preserves_product(
        pool.reserved_sol as int,
        pool.reserved_hype as int,
        amount as int,
    );
}

/// Law: a sell whose quote divides evenly does not decrease the pool's
/// constant product — the reserves [`unhype`] leaves behind multiply to the
/// old product exactly. (A truncating quote shrinks the product by the
/// remainder, bounded by `lemma_product_after_sale`.)
pub proof fn lemma_sell_keeps_product_when_exact(pool: PostPool, amount: u128)
    requires
        0 < amount,
        (pool.reserved_sol * pool.reserved_hype) % (pool.reserved_hype + amount) == 0,
    ensures
        (pool.reserved_sol - sell_refund(pool, amount)) * (pool.reserved_hype + amount)
            >= pool.reserved_sol * pool.reserved_hype,
{
    lemma_sale_preserves_product(
        pool.reserved_sol as int,
        pool.reserved_hype as int,
        amount as int,
    );
}

/// Accounts touched by a sell: the selling user, the pool, and the user's
/// holding against it.
#[derive(Clone, Copy, Debug, PartialEq, Eq, Structural)]
pub struct UnhypePost {
    pub user: AccountId,
    pub post_pool: PostPool,
    pub hype_record: HypeRecord,
}

/// Result of a successful sell: the net refund moves from the vault to the
/// user, the fee moves separately from the vault to the treasury, and the
/// event goes out once both are committed. `payout + fee` equals the gross
/// curve refund the pool's base reserve shrinks by.
#[derive(Clone, Copy, Debug, PartialEq, Eq, Structural)]
pub struct UnhypeOutcome {
    pub payout: u64,
    pub fee: u64,
    pub event: UnhypeEvent,
}

/// The validation a sell order must pass before the curve is quoted: the
/// caller owns the holding, names at least the minimum amount, and does not
/// sell more than the holding carries.
pub open spec fn sell_checks_pass(record: HypeRecord, user: AccountId, amount: u128) -> bool {
    &&& record.user == user
    &&& MIN_HYPE_TO_SELL <= amount
    &&& amount <= record.amount
}

/// The curve's gross refund for selling `amount` hype into `pool`.
pub open spec fn sell_refund(pool: PostPool, amount: u128) -> int {
    refund_for_sale(pool.reserved_sol as int, pool.reserved_hype as int, amount as int)
}

/// When a sell goes through: the order is valid, the gross refund and the
/// amount can be carried in 64 bits, and the refund meets the caller's
/// slippage floor.
pub open spec fn sell_accepted(
    pool: PostPool,
    record: HypeRecord,
    user: AccountId,
    amount: u128,
    min_acceptable_refund: u128,
) -> bool {
    &&& sell_checks_pass(record, user, amount)
    &&& sell_refund(pool, amount) <= u64::MAX
    &&& sell_refund(pool, amount) >= min_acceptable_refund
    &&& amount <= u64::MAX
}

/// Sells `amount` hype from the caller's holding back into the pool at the
/// curve's gross refund, provided the refund is at least
/// `min_acceptable_refund`. The half-percent fee (truncated) is deducted from
/// the refund, so the user receives `payout = refund - fee` while the pool's
/// base reserve shrinks by the full `refund`. The sold hype leaves circulation
/// and returns to the reserve. On any rejection nothing is written. The
/// redundant base-reserve check the design calls for is kept even though the
/// curve algebra guarantees the reserve covers the refund.
pub fn unhype(
    ctx: &mut UnhypePost,
    amount: u128,
    post_id: u64,
    min_acceptable_refund: u128,
    timestamp: i64,
) -> (r: Result<UnhypeOutcome, TrenderError>)
    requires
        pool_record_wf(old(ctx).post_pool, old(ctx).hype_record),
        sell_checks_pass(old(ctx).hype_record, old(ctx).user, amount) ==> old(
            ctx,
        ).post_pool.reserved_sol * old(ctx).post_pool.reserved_hype <= u128::MAX && old(
            ctx,
        ).post_pool.reserved_hype + amount <= u128::MAX,
    ensures
        r is Ok <==> sell_accepted(
            old(ctx).post_pool,
            old(ctx).hype_record,
            old(ctx).user,
            amount,
            min_acceptable_refund,
        ),
        final(ctx).user == old(ctx).user,
        r matches Err(e) ==> {
            let checks = sell_checks_pass(old(ctx).hype_record, old(ctx).user, amount);
            let refund = sell_refund(old(ctx).post_pool, amount);
            &&& *final(ctx) == *old(ctx)
            &&& (e == TrenderError::Unauthorized <==> old(ctx).hype_record.user != old(ctx).user)
            &&& (e == TrenderError::InvalidHypeAmount <==> old(ctx).hype_record.user == old(
                ctx,
            ).user && amount < MIN_HYPE_TO_SELL)
            &&& (e == TrenderError::InsufficientHypeBalance <==> old(ctx).hype_record.user == old(
                ctx,
            ).user && MIN_HYPE_TO_SELL <= amount && amount > old(ctx).hype_record.amount)
            &&& (e == TrenderError::AmountTooLarge <==> checks && (refund > u64::MAX || (refund
                >= min_acceptable_refund && amount > u64::MAX)))
            &&& (e == TrenderError::SlippageExceeded <==> checks && refund <= u64::MAX && refund
                < min_acceptable_refund)
        },
        r is Ok ==> {
            let refund = sell_refund(old(ctx).post_pool, amount);
            &&& final(ctx).post_pool == (PostPool {
                reserved_sol: (old(ctx).post_pool.reserved_sol - refund) as u128,
                reserved_hype: (old(ctx).post_pool.reserved_hype + amount) as u128,
                total_hype: (old(ctx).post_pool.total_hype - amount) as u128,
                ..old(ctx).post_pool
            })
            &&& final(ctx).hype_record == (HypeRecord {
                amount: (old(ctx).hype_record.amount - amount) as u128,
                ..old(ctx).hype_record
            })
        },
        r matches Ok(o) ==> {
            let refund = sell_refund(old(ctx).post_pool, amount);
            let fee = refund * 5 / 1000;
            o == (UnhypeOutcome {
                payout: (refund - fee) as u64,
                fee: fee as u64,
                event: UnhypeEvent {
                    post_id,
                    user: old(ctx).user,
                    amount: amount as u64,
                    price: (refund / amount as int) as u64,
                    total_refund: refund as u64,
                    timestamp,
                },
            })
        },
        r is Ok ==> pool_record_wf(final(ctx).post_pool, final(ctx).hype_record),
        r is Ok ==> pool_wf(final(ctx).post_pool),
{
    if ctx.hype_record.user != ctx.user {
        return Err(TrenderError::Unauthorized);
    }
    if amount < MIN_HYPE_TO_SELL {
        return Err(TrenderError::InvalidHypeAmount);
    }
    if amount > ctx.hype_record.amount {
        return Err(TrenderError::InsufficientHypeBalance);
    }
    let refund = amm_refund(ctx.post_pool.reserved_sol, ctx.post_pool.reserved_hype, amount);
    if ctx.post_pool.reserved_sol < refund {
        return Err(TrenderError::InsufficientSolReserve);
    }
    if refund > u64::MAX as u128 {
        return Err(TrenderError::AmountTooLarge);
    }
    if refund < min_acceptable_refund {
        return Err(TrenderError::SlippageExceeded);
    }
    if amount > u64::MAX as u128 {
        return Err(TrenderError::AmountTooLarge);
    }
    let fee = refund * 5 / 1000;
    let payout = (refund - fee) as u64;
    let price_per_unit = (refund / amount) as u64;
    ctx.post_pool.reserved_sol = ctx.post_pool.reserved_sol - refund;
    ctx.post_pool.reserved_hype = ctx.post_pool.reserved_hype + amount;
    ctx.post_pool.total_hype = ctx.post_pool.total_hype - amount;
    ctx.hype_record.amount = ctx.hype_record.amount - amount;
    Ok(
        UnhypeOutcome {
            payout,
            fee: fee as u64,
            event: UnhypeEvent {
                post_id,
                user: ctx.user,
                amount: amount as u64,
                price: price_per_unit,
                total_refund: refund as u64,
                timestamp,
            },
        },
    )
}

/// Accounts touched by a creator release: the calling creator and the pool.
#[derive(Clone, Copy, Debug, PartialEq, Eq, Structural)]
pub struct CreatorRelaseHype {
    pub user: AccountId,
    pub post_pool: PostPool,
}

/// Result of a successful creator release: the payout moves from the vault to
/// the creator, with no fee on this path, and the event goes out once the
/// transfer is committed.
#[derive(Clone, Copy, Debug, PartialEq, Eq, Structural)]
pub struct ReleaseOutcome {
    pub payout: u64,
    pub event: UnhypeEvent,
}

/// The validation a release must pass before the curve is quoted: only the
/// pool's creator may release, a positive amount, covered by the creator's
/// balance.
pub open spec fn release_checks_pass(pool: PostPool, user: AccountId, amount: u128) -> bool {
    &&& user == pool.creator
    &&& 0 < amount
    &&& amount <= pool.creator_hype_balance
}

/// When a release goes through: the checks pass, the amount and the quote can
/// be carried in 64 bits, and the base reserve covers the quote.
pub open spec fn release_accepted(pool: PostPool, user: AccountId, amount: u128) -> bool {
    &&& release_checks_pass(pool, user, amount)
    &&& amount <= u64::MAX
    &&& buy_cost(pool, amount) <= u64::MAX
    &&& buy_cost(pool, amount) <= pool.reserved_sol
}

/// Releases `amount` of the creator's seeded hype back into the pool's
/// tradeable reserve, paying the creator what a buyer would be quoted for
/// removing that much hype — the buy-side formula, a deliberate asymmetry of
/// the design — with no fee on this path. The released hype leaves circulation
/// and grows the reserve while the base reserve shrinks by the payout. On any
/// rejection nothing is written.
pub fn creator_release_hype(ctx: &mut CreatorRelaseHype, amount: u128, post_id: u64, timestamp: i64)
    -> (r: Result<ReleaseOutcome, TrenderError>)
    requires
        pool_wf(old(ctx).post_pool),
        release_checks_pass(old(ctx).post_pool, old(ctx).user, amount) && amount <= u64::MAX ==> {
            &&& amount < old(ctx).post_pool.reserved_hype
            &&& old(ctx).post_pool.reserved_sol * old(ctx).post_pool.reserved_hype <= u128::MAX
            &&& old(ctx).post_pool.reserved_hype + amount <= u128::MAX
        },
    ensures
        r is Ok <==> release_accepted(old(ctx).post_pool, old(ctx).user, amount),
        final(ctx).user == old(ctx).user,
        r matches Err(e) ==> {
            let checks = release_checks_pass(old(ctx).post_pool, old(ctx).user, amount);
            let cost = buy_cost(old(ctx).post_pool, amount);
            &&& *final(ctx) == *old(ctx)
            &&& (e == TrenderError::Unauthorized <==> old(ctx).user != old(ctx).post_pool.creator)
            &&& (e == TrenderError::InvalidHypeAmount <==> old(ctx).user == old(
                ctx,
            ).post_pool.creator && amount == 0)
            &&& (e == TrenderError::InsufficientHypeBalance <==> old(ctx).user == old(
                ctx,
            ).post_pool.creator && 0 < amount && amount > old(ctx).post_pool.creator_hype_balance)
            &&& (e == TrenderError::AmountTooLarge <==> checks && (amount > u64::MAX || cost
                > u64::MAX))
            &&& (e == TrenderError::InsufficientSolReserve <==> checks && amount <= u64::MAX && cost
                <= u64::MAX && cost > old(ctx).post_pool.reserved_sol)
        },
        r is Ok ==> {
            let cost = buy_cost(old(ctx).post_pool, amount);
            final(ctx).post_pool == (PostPool {
                creator_hype_balance: (old(ctx).post_pool.creator_hype_balance - amount) as u128,
                reserved_sol: (old(ctx).post_pool.reserved_sol - cost) as u128,
                reserved_hype: (old(ctx).post_pool.reserved_hype + amount) as u128,
                total_hype: (old(ctx).post_pool.total_hype - amount) as u128,
                ..old(ctx).post_pool
            })
        },
        r matches Ok(o) ==> {
            let cost = buy_cost(old(ctx).post_pool, amount);
            o == (ReleaseOutcome {
                payout: cost as u64,
                event: UnhypeEvent {
                    post_id,
                    user: old(ctx).user,
                    amount: amount as u64,
                    price: (cost / amount as int) as u64,
                    total_refund: cost as u64,
                    timestamp,
                },
            })
        },
        r is Ok ==> pool_wf(final(ctx).post_pool),
{
    if ctx.user != ctx.post_pool.creator {
        return Err(TrenderError::Unauthorized);
    }
    if amount == 0 {
        return Err(TrenderError::InvalidHypeAmount);
    }
    if amount > ctx.post_pool.creator_hype_balance {
        return Err(TrenderError::InsufficientHypeBalance);
    }
    if amount > u64::MAX as u128 {
        return Err(TrenderError::AmountTooLarge);
    }
    let creator_refund = amm_price(ctx.post_pool.reserved_sol, ctx.post_pool.reserved_hype, amount);
    if creator_refund > u64::MAX as u128 {
        return Err(TrenderError::AmountTooLarge);
    }
    if creator_refund > ctx.post_pool.reserved_sol {
        return Err(TrenderError::InsufficientSolReserve);
    }
    let payout = creator_refund as u64;
    let price_per_unit = (creator_refund / amount) as u64;
    ctx.post_pool.creator_hype_balance = ctx.post_pool.creator_hype_balance - amount;
    ctx.post_pool.total_hype = ctx.post_pool.total_hype - amount;
    ctx.post_pool.reserved_sol = ctx.post_pool.reserved_sol - creator_refund;
    ctx.post_pool.reserved_hype = ctx.post_pool.reserved_hype + amount;
    Ok(
        ReleaseOutcome {
            payout,
            event: UnhypeEvent {
                post_id,
                user: ctx.user,
                amount: amount as u64,
                price: price_per_unit,
                total_refund: payout,
                timestamp,
            },
        },
    )
}

/// Accounts touched by a treasury withdrawal: the caller, the recipient of the
/// funds, and the configuration naming the admin.
#[derive(Clone, Copy, Debug, PartialEq, Eq, Structural)]
pub struct WithdrawTreasury {
    pub authority: AccountId,
    pub recipient: AccountId,
    pub config: Config,
}

/// Admin-only withdrawal from the treasury. The ledger checks only the
/// authorization and hands back the amount to move from the treasury to the
/// recipient; whether the treasury can cover it is the custody layer's check.
pub fn withdraw_treasury(ctx: &WithdrawTreasury, amount: u64) -> (r: Result<u64, TrenderError>)
    ensures
        r is Ok <==> ctx.config.admin == ctx.authority,
        r matches Ok(a) ==> a == amount,
        r matches Err(e) ==> e == TrenderError::Unauthorized,
{
    if ctx.config.admin == ctx.authority {
        Ok(amount)
    } else {
        Err(TrenderError::Unauthorized)
    }
}

} // verus!
