use trender::ledger::{AccountId, Config, HypeRecord, PostPool, TrenderError};
use trender::protocol::{
    creator_release_hype, hype, initialize_post, initialize_treasury, unhype, withdraw_treasury,
    CreatorRelaseHype, HypePost, InitializePost, InitializeTreasury, UnhypePost, WithdrawTreasury,
};

fn acct(id: u64) -> AccountId {
    AccountId { id }
}

fn empty_pool() -> PostPool {
    PostPool {
        creator: acct(0),
        creator_hype_balance: 0,
        post_id: 0,
        vault: acct(0),
        reserved_sol: 0,
        reserved_hype: 0,
        total_hype: 0,
    }
}

/// The pool a deposit of 1_000_000 base units creates, creator 1, vault 2.
fn seeded_pool() -> PostPool {
    PostPool {
        creator: acct(1),
        creator_hype_balance: 1_000_000,
        post_id: 5,
        vault: acct(2),
        reserved_sol: 1_000_000,
        reserved_hype: 10_000_000,
        total_hype: 1_000_000,
    }
}

fn fresh_record() -> HypeRecord {
    HypeRecord { user: acct(0), post_pool: acct(0), amount: 0 }
}

#[test]
fn treasury_bootstrap_records_admin() {
    let mut ctx = InitializeTreasury { payer: acct(11), config: Config { admin: acct(0) } };
    initialize_treasury(&mut ctx);
    assert_eq!(ctx.config.admin, acct(11));
}

#[test]
fn deposit_seeds_pool_and_fees() {
    let mut ctx = InitializePost { creator: acct(1), post_vault: acct(2), post_pool: empty_pool() };
    let t = initialize_post(&mut ctx, 5, 1_000_000).unwrap();
    // The deposit transfers in full; the two-percent fee transfers separately.
    assert_eq!(t.deposit, 1_000_000);
    assert_eq!(t.fee, 20_000);
    assert_eq!(ctx.post_pool, seeded_pool());
}

#[test]
fn deposit_of_zero_rejected() {
    let mut ctx = InitializePost { creator: acct(1), post_vault: acct(2), post_pool: empty_pool() };
    assert_eq!(initialize_post(&mut ctx, 5, 0), Err(TrenderError::InvalidDepositAmount));
    assert_eq!(ctx.post_pool, empty_pool());
}

#[test]
fn deposit_beyond_transfer_range_rejected() {
    let mut ctx = InitializePost { creator: acct(1), post_vault: acct(2), post_pool: empty_pool() };
    let too_big = u64::MAX as u128 + 1;
    assert_eq!(initialize_post(&mut ctx, 5, too_big), Err(TrenderError::AmountTooLarge));
    assert_eq!(ctx.post_pool, empty_pool());
}

#[test]
fn buy_moves_reserves_and_holding() {
    let mut ctx = HypePost {
        buyer: acct(7),
        post_pool_key: acct(9),
        post_pool: seeded_pool(),
        hype_record: fresh_record(),
    };
    let o = hype(&mut ctx, 1_000_000, 5, 200_000, 42).unwrap();
    assert_eq!(o.cost, 111_111);
    assert_eq!(o.fee, 555);
    assert_eq!(o.event.amount, 1_000_000);
    assert_eq!(o.event.price, 0); // 111_111 / 1_000_000 truncates
    assert_eq!(o.event.total_cost, 111_111);
    assert_eq!(o.event.timestamp, 42);
    assert_eq!(ctx.post_pool.reserved_sol, 1_111_111);
    assert_eq!(ctx.post_pool.reserved_hype, 9_000_000);
    assert_eq!(ctx.post_pool.total_hype, 2_000_000);
    assert_eq!(ctx.hype_record.user, acct(7));
    assert_eq!(ctx.hype_record.post_pool, acct(9));
    assert_eq!(ctx.hype_record.amount, 1_000_000);
}

#[test]
fn buy_rejected_on_slippage_before_any_mutation() {
    let mut ctx = HypePost {
        buyer: acct(7),
        post_pool_key: acct(9),
        post_pool: seeded_pool(),
        hype_record: fresh_record(),
    };
    let r = hype(&mut ctx, 1_000_000, 5, 100_000, 42);
    assert_eq!(r, Err(TrenderError::SlippageExceeded));
    assert_eq!(ctx.post_pool, seeded_pool());
    assert_eq!(ctx.hype_record, fresh_record());
}

#[test]
fn buy_below_minimum_rejected() {
    let mut ctx = HypePost {
        buyer: acct(7),
        post_pool_key: acct(9),
        post_pool: seeded_pool(),
        hype_record: fresh_record(),
    };
    assert_eq!(hype(&mut ctx, 999_999, 5, u128::MAX, 0), Err(TrenderError::InvalidHypeAmount));
}

#[test]
fn buy_of_whole_reserve_rejected() {
    let mut ctx = HypePost {
        buyer: acct(7),
        post_pool_key: acct(9),
        post_pool: seeded_pool(),
        hype_record: fresh_record(),
    };
    assert_eq!(
        hype(&mut ctx, 10_000_000, 5, u128::MAX, 0),
        Err(TrenderError::InsufficientHypeReserve)
    );
}

#[test]
fn buy_quote_beyond_transfer_range_rejected() {
    // k fits 128 bits but the quote for the order is above u64::MAX, so the
    // cost cannot cross the custody boundary.
    let pool = PostPool {
        creator: acct(1),
        creator_hype_balance: 0,
        post_id: 5,
        vault: acct(2),
        reserved_sol: 1 << 70,
        reserved_hype: 2_000_000,
        total_hype: 0,
    };
    let mut ctx = HypePost {
        buyer: acct(7),
        post_pool_key: acct(9),
        post_pool: pool,
        hype_record: fresh_record(),
    };
    assert_eq!(hype(&mut ctx, 1_000_000, 5, u128::MAX, 0), Err(TrenderError::AmountTooLarge));
    assert_eq!(ctx.post_pool, pool);
}

#[test]
fn buy_amount_beyond_transfer_range_rejected() {
    let pool = PostPool {
        creator: acct(1),
        creator_hype_balance: 0,
        post_id: 5,
        vault: acct(2),
        reserved_sol: 1,
        reserved_hype: 1 << 66,
        total_hype: 0,
    };
    let mut ctx = HypePost {
        buyer: acct(7),
        post_pool_key: acct(9),
        post_pool: pool,
        hype_record: fresh_record(),
    };
    assert_eq!(hype(&mut ctx, 1 << 65, 5, u128::MAX, 0), Err(TrenderError::AmountTooLarge));
}

#[test]
fn sell_refund_beyond_transfer_range_rejected() {
    let pool = PostPool {
        creator: acct(1),
        creator_hype_balance: 0,
        post_id: 5,
        vault: acct(2),
        reserved_sol: 1 << 70,
        reserved_hype: 2_000_000,
        total_hype: 1_000_000,
    };
    let mut ctx = UnhypePost {
        user: acct(7),
        post_pool: pool,
        hype_record: HypeRecord { user: acct(7), post_pool: acct(9), amount: 1_000_000 },
    };
    assert_eq!(unhype(&mut ctx, 1_000_000, 5, 0, 0), Err(TrenderError::AmountTooLarge));
    assert_eq!(ctx.post_pool, pool);
}

#[test]
fn sell_pays_refund_less_fee() {
    // Buy first, then sell the same amount back at the pool's new reserves.
    let mut ctx = HypePost {
        buyer: acct(7),
        post_pool_key: acct(9),
        post_pool: seeded_pool(),
        hype_record: fresh_record(),
    };
    let bought = hype(&mut ctx, 1_000_000, 5, 200_000, 0).unwrap();
    let mut sell_ctx = UnhypePost {
        user: acct(7),
        post_pool: ctx.post_pool,
        hype_record: ctx.hype_record,
    };
    let o = unhype(&mut sell_ctx, 1_000_000, 5, 0, 43).unwrap();
    // Gross refund 111_112, fee 555 (half a percent truncated), net 110_557.
    assert_eq!(o.event.total_refund, 111_112);
    assert_eq!(o.fee, 555);
    assert_eq!(o.payout, 110_557);
    assert_eq!(o.event.timestamp, 43);
    assert_eq!(sell_ctx.post_pool.reserved_sol, 999_999);
    assert_eq!(sell_ctx.post_pool.reserved_hype, 10_000_000);
    assert_eq!(sell_ctx.post_pool.total_hype, 1_000_000);
    assert_eq!(sell_ctx.hype_record.amount, 0);
    // Fees make the round trip a net loss for the user even though the gross
    // refund overshoots the price by the one truncated unit.
    assert!(o.payout + o.fee <= bought.cost + bought.fee + 1);
    assert!(o.payout < bought.cost + bought.fee);
}

#[test]
fn sell_by_wrong_user_rejected() {
    let mut ctx = UnhypePost {
        user: acct(8),
        post_pool: seeded_pool(),
        hype_record: HypeRecord { user: acct(7), post_pool: acct(9), amount: 1_000_000 },
    };
    assert_eq!(unhype(&mut ctx, 1_000_000, 5, 0, 0), Err(TrenderError::Unauthorized));
}

#[test]
fn sell_below_minimum_rejected() {
    let mut ctx = UnhypePost {
        user: acct(7),
        post_pool: seeded_pool(),
        hype_record: HypeRecord { user: acct(7), post_pool: acct(9), amount: 1_000_000 },
    };
    assert_eq!(unhype(&mut ctx, 999_999, 5, 0, 0), Err(TrenderError::InvalidHypeAmount));
}

#[test]
fn sell_beyond_holding_rejected() {
    let pool = PostPool { total_hype: 2_000_000, ..seeded_pool() };
    let mut ctx = UnhypePost {
        user: acct(7),
        post_pool: pool,
        hype_record: HypeRecord { user: acct(7), post_pool: acct(9), amount: 1_000_000 },
    };
    assert_eq!(
        unhype(&mut ctx, 1_000_001, 5, 0, 0),
        Err(TrenderError::InsufficientHypeBalance)
    );
    assert_eq!(ctx.post_pool, pool);
}

#[test]
fn sell_rejected_when_refund_below_floor() {
    let pool = PostPool { total_hype: 2_000_000, ..seeded_pool() };
    let mut ctx = UnhypePost {
        user: acct(7),
        post_pool: pool,
        hype_record: HypeRecord { user: acct(7), post_pool: acct(9), amount: 1_000_000 },
    };
    // The gross refund would be 90_910.
    assert_eq!(unhype(&mut ctx, 1_000_000, 5, 90_911, 0), Err(TrenderError::SlippageExceeded));
    assert_eq!(ctx.post_pool, pool);
}

#[test]
fn release_pays_buy_side_quote_without_fee() {
    let mut ctx = CreatorRelaseHype { user: acct(1), post_pool: seeded_pool() };
    let o = creator_release_hype(&mut ctx, 500_000, 5, 44).unwrap();
    // k = 10^13, new hype reserve 9_500_000, new base reserve 1_052_631
    // (truncated): the creator is paid 52_631 with no fee taken.
    assert_eq!(o.payout, 52_631);
    assert_eq!(o.event.total_refund, 52_631);
    assert_eq!(o.event.amount, 500_000);
    assert_eq!(o.event.timestamp, 44);
    assert_eq!(ctx.post_pool.creator_hype_balance, 500_000);
    assert_eq!(ctx.post_pool.total_hype, 500_000);
    assert_eq!(ctx.post_pool.reserved_sol, 947_369);
    assert_eq!(ctx.post_pool.reserved_hype, 10_500_000);
}

#[test]
fn release_by_non_creator_rejected() {
    let mut ctx = CreatorRelaseHype { user: acct(3), post_pool: seeded_pool() };
    assert_eq!(creator_release_hype(&mut ctx, 500_000, 5, 0), Err(TrenderError::Unauthorized));
}

#[test]
fn release_of_zero_rejected() {
    let mut ctx = CreatorRelaseHype { user: acct(1), post_pool: seeded_pool() };
    assert_eq!(creator_release_hype(&mut ctx, 0, 5, 0), Err(TrenderError::InvalidHypeAmount));
}

#[test]
fn release_beyond_creator_balance_rejected() {
    let mut ctx = CreatorRelaseHype { user: acct(1), post_pool: seeded_pool() };
    assert_eq!(
        creator_release_hype(&mut ctx, 1_000_001, 5, 0),
        Err(TrenderError::InsufficientHypeBalance)
    );
}

#[test]
fn release_rejected_when_reserve_cannot_cover_quote() {
    // Quote for removing 90 of 100 hype from a 10-unit base reserve is 90,
    // which the reserve cannot pay.
    let pool = PostPool {
        creator: acct(1),
        creator_hype_balance: 90,
        post_id: 5,
        vault: acct(2),
        reserved_sol: 10,
        reserved_hype: 100,
        total_hype: 200,
    };
    let mut ctx = CreatorRelaseHype { user: acct(1), post_pool: pool };
    assert_eq!(
        creator_release_hype(&mut ctx, 90, 5, 0),
        Err(TrenderError::InsufficientSolReserve)
    );
    assert_eq!(ctx.post_pool, pool);
}

#[test]
fn withdraw_by_admin_passes_amount_through() {
    let ctx = WithdrawTreasury {
        authority: acct(11),
        recipient: acct(12),
        config: Config { admin: acct(11) },
    };
    assert_eq!(withdraw_treasury(&ctx, 4_000), Ok(4_000));
}

#[test]
fn withdraw_by_non_admin_rejected() {
    let ctx = WithdrawTreasury {
        authority: acct(13),
        recipient: acct(12),
        config: Config { admin: acct(11) },
    };
    assert_eq!(withdraw_treasury(&ctx, 4_000), Err(TrenderError::Unauthorized));
}

#[test]
fn circulation_covers_creator_balance_across_transitions() {
    let mut ctx = InitializePost { creator: acct(1), post_vault: acct(2), post_pool: empty_pool() };
    initialize_post(&mut ctx, 5, 1_000_000).unwrap();
    let pool = ctx.post_pool;
    assert!(pool.total_hype >= pool.creator_hype_balance);

    let mut buy_ctx = HypePost {
        buyer: acct(7),
        post_pool_key: acct(9),
        post_pool: pool,
        hype_record: fresh_record(),
    };
    hype(&mut buy_ctx, 1_000_000, 5, 200_000, 0).unwrap();
    assert!(buy_ctx.post_pool.total_hype >= buy_ctx.post_pool.creator_hype_balance);

    let mut sell_ctx = UnhypePost {
        user: acct(7),
        post_pool: buy_ctx.post_pool,
        hype_record: buy_ctx.hype_record,
    };
    unhype(&mut sell_ctx, 1_000_000, 5, 0, 0).unwrap();
    assert!(sell_ctx.post_pool.total_hype >= sell_ctx.post_pool.creator_hype_balance);

    let mut release_ctx = CreatorRelaseHype { user: acct(1), post_pool: sell_ctx.post_pool };
    creator_release_hype(&mut release_ctx, 500_000, 5, 0).unwrap();
    assert!(release_ctx.post_pool.total_hype >= release_ctx.post_pool.creator_hype_balance);
}
