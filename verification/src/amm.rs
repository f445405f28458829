//! Constant-product pricing: the cost of buying hype out of a pool's reserve
//! and the refund for selling hype back into it. All quantities are integers;
//! every division truncates toward zero, and the direction of that truncation
//! is part of the protocol, so the executable functions promise the truncated
//! formulas exactly.

use vstd::prelude::*;
use vstd::arithmetic::div_mod::{
    lemma_div_by_multiple, lemma_div_is_ordered_by_denominator, lemma_div_nonincreasing,
    lemma_div_pos_is_pos, lemma_fundamental_div_mod, lemma_fundamental_div_mod_converse,
    lemma_mod_bound,
};
use vstd::arithmetic::mul::lemma_mul_nonnegative;

verus! {

/// The pool's constant-product invariant `k`: base reserve times hype reserve.
pub open spec fn constant_product(reserved_sol: int, reserved_hype: int) -> int {
    reserved_sol * reserved_hype
}

/// Base cost of removing `hype_bought` hype from reserves `(reserved_sol,
/// reserved_hype)`: the base reserve must grow to `k / (reserved_hype -
/// hype_bought)` (truncated) to keep the product, and the buyer pays the
/// difference.
pub open spec fn price_for_purchase(reserved_sol: int, reserved_hype: int, hype_bought: int) -> int
    recommends
        0 < hype_bought < reserved_hype,
{
    constant_product(reserved_sol, reserved_hype) / (reserved_hype - hype_bought) - reserved_sol
}

/// Base refund for returning `hype_sold` hype into reserves `(reserved_sol,
/// reserved_hype)`: the base reserve shrinks to `k / (reserved_hype +
/// hype_sold)` (truncated) and the seller receives the difference.
pub open spec fn refund_for_sale(reserved_sol: int, reserved_hype: int, hype_sold: int) -> int
    recommends
        0 <= reserved_hype,
        0 < hype_sold,
{
    reserved_sol - constant_product(reserved_sol, reserved_hype) / (reserved_hype + hype_sold)
}

/// Quote for buying `hype_bought` hype: the exact truncated curve value.
/// Buying the whole reserve (or more) has no finite price, so the caller must
/// keep `hype_bought` strictly below the reserve; the product `k` must fit the
/// 128-bit range, anything larger is a fatal arithmetic boundary.
pub fn amm_price(reserved_sol: u128, reserved_hype: u128, hype_bought: u128) -> (price: u128)
    requires
        0 < hype_bought < reserved_hype,
        reserved_sol * reserved_hype <= u128::MAX,
    ensures
        price == price_for_purchase(reserved_sol as int, reserved_hype as int, hype_bought as int),
        reserved_sol + price <= u128::MAX,
{
    let k = reserved_sol * reserved_hype;
    let new_reserved_hype = reserved_hype - hype_bought;
    let new_reserved_sol = k / new_reserved_hype;
    proof {
        lemma_div_is_ordered_by_denominator(
            k as int,
            new_reserved_hype as int,
            reserved_hype as int,
        );
        lemma_div_by_multiple(reserved_sol as int, reserved_hype as int);
        lemma_div_nonincreasing(k as int, new_reserved_hype as int);
    }
    new_reserved_sol - reserved_sol
}

/// Quote for selling `hype_sold` hype: the exact truncated curve value, never
/// more than the base reserve itself. The product `k` and the grown hype
/// reserve must fit the 128-bit range, anything larger is a fatal arithmetic
/// boundary.
pub fn amm_refund(reserved_sol: u128, reserved_hype: u128, hype_sold: u128) -> (refund: u128)
    requires
        0 < hype_sold,
        reserved_sol * reserved_hype <= u128::MAX,
        reserved_hype + hype_sold <= u128::MAX,
    ensures
        refund == refund_for_sale(reserved_sol as int, reserved_hype as int, hype_sold as int),
        refund <= reserved_sol,
{
    let k = reserved_sol * reserved_hype;
    let new_reserved_hype = reserved_hype + hype_sold;
    let new_reserved_sol = k / new_reserved_hype;
    proof {
        lemma_mul_nonnegative(reserved_sol as int, reserved_hype as int);
        lemma_div_pos_is_pos(k as int, new_reserved_hype as int);
        if reserved_hype > 0 {
            lemma_div_is_ordered_by_denominator(
                k as int,
                reserved_hype as int,
                new_reserved_hype as int,
            );
            lemma_div_by_multiple(reserved_sol as int, reserved_hype as int);
        }
    }
    reserved_sol - new_reserved_sol
}

/// Law: a purchase costs something whenever the order is big enough to move
/// the truncated curve, which is exactly when `hype_bought * (reserved_sol +
/// 1)` reaches the hype reserve. (A smaller order against a thin base reserve
/// truncates to a cost of zero: reserves `(1, 100)` and an order of `10` cost
/// nothing.)
pub proof fn lemma_price_positive(b: int, h: int, a: int)
    requires
        0 <= b,
        0 < a < h,
        h <= a * (b + 1),
    ensures
        price_for_purchase(b, h, a) > 0,
{
    let k = b * h;
    let d = h - a;
    let q = k / d;
    let r = k % d;
    lemma_fundamental_div_mod(k, d);
    lemma_mod_bound(k, d);
    assert(d * (b + 1) <= k) by (nonlinear_arith)
        requires
            h <= a * (b + 1),
            0 < a < h,
            0 <= b,
            k == b * h,
            d == h - a,
    ;
    assert(q > b) by (nonlinear_arith)
        requires
            k == d * q + r,
            0 <= r < d,
            d * (b + 1) <= k,
            0 < d,
    ;
}

/// Law: a sale never refunds more than the base reserve, and never a negative
/// amount, whatever the reserves.
pub proof fn lemma_refund_nonneg(b: int, h: int, a: int)
    requires
        0 <= b,
        0 <= h,
        0 < a,
    ensures
        0 <= refund_for_sale(b, h, a) <= b,
{
    let k = b * h;
    lemma_mul_nonnegative(b, h);
    lemma_div_pos_is_pos(k, h + a);
    if h > 0 {
        lemma_div_is_ordered_by_denominator(k, h, h + a);
        lemma_div_by_multiple(b, h);
    } else {
        lemma_div_nonincreasing(k, h + a);
    }
}

/// Law: buying and selling the same amount at the same reserves never favours
/// the user — the purchase costs at least what the sale refunds — whenever the
/// two truncation remainders are small enough against the reserves, which is
/// exactly the stated bound. (Outside it the refund can exceed the price by
/// one: at reserves `(1, 100)` and amount `10`, the price is `0` and the
/// refund `1`.)
pub proof fn lemma_price_geq_refund(b: int, h: int, a: int)
    requires
        0 <= b,
        0 < a < h,
        ((b * h) % (h - a)) * (h + a) + ((b * h) % (h + a)) * (h - a) <= 2 * b * (a * a),
    ensures
        price_for_purchase(b, h, a) >= refund_for_sale(b, h, a),
{
    let k = b * h;
    let d1 = h - a;
    let d2 = h + a;
    let q1 = k / d1;
    let r1 = k % d1;
    let q2 = k / d2;
    let r2 = k % d2;
    lemma_fundamental_div_mod(k, d1);
    lemma_mod_bound(k, d1);
    lemma_fundamental_div_mod(k, d2);
    lemma_mod_bound(k, d2);
    assert((q1 + q2) * (d1 * d2) == (k - r1) * d2 + (k - r2) * d1) by (nonlinear_arith)
        requires
            k == d1 * q1 + r1,
            k == d2 * q2 + r2,
    ;
    assert((k - r1) * d2 + (k - r2) * d1 == 2 * b * (d1 * d2) + 2 * b * (a * a) - (r1 * d2 + r2
        * d1)) by (nonlinear_arith)
        requires
            k == b * h,
            d1 == h - a,
            d2 == h + a,
    ;
    assert(q1 + q2 >= 2 * b) by (nonlinear_arith)
        requires
            (q1 + q2) * (d1 * d2) >= 2 * b * (d1 * d2),
            d1 > 0,
            d2 > 0,
    ;
}

/// The exact constant product left by a purchase: the new base reserve times
/// the new hype reserve is the old product `b * h` less the truncation
/// remainder, so the product never grows and drops by less than the new hype
/// reserve.
pub proof fn lemma_product_after_purchase(b: int, h: int, a: int)
    requires
        0 <= b,
        0 < a < h,
    ensures
        (b + price_for_purchase(b, h, a)) * (h - a) == b * h - (b * h) % (h - a),
        (b + price_for_purchase(b, h, a)) * (h - a) <= b * h,
        b * h - (h - a) < (b + price_for_purchase(b, h, a)) * (h - a),
{
    let k = b * h;
    let d = h - a;
    let q = k / d;
    lemma_fundamental_div_mod(k, d);
    lemma_mod_bound(k, d);
    assert(q * d == d * q) by (nonlinear_arith);
}

/// The exact constant product left by a sale: the new base reserve times the
/// new hype reserve is the old product `b * h` less the truncation remainder,
/// so the product never grows and drops by less than the new hype reserve.
pub proof fn lemma_product_after_sale(b: int, h: int, a: int)
    requires
        0 <= b,
        0 <= h,
        0 < a,
    ensures
        (b - refund_for_sale(b, h, a)) * (h + a) == b * h - (b * h) % (h + a),
        (b - refund_for_sale(b, h, a)) * (h + a) <= b * h,
        b * h - (h + a) < (b - refund_for_sale(b, h, a)) * (h + a),
{
    let k = b * h;
    let d = h + a;
    let q = k / d;
    lemma_fundamental_div_mod(k, d);
    lemma_mod_bound(k, d);
    assert(q * d == d * q) by (nonlinear_arith);
}

/// Law: a purchase whose quote divides evenly keeps the constant product —
/// the new reserves' product is no less than the old.
pub proof fn lemma_purchase_preserves_product(b: int, h: int, a: int)
    requires
        0 <= b,
        0 < a < h,
        (b * h) % (h - a) == 0,
    ensures
        (b + price_for_purchase(b, h, a)) * (h - a) == b * h,
        (b + price_for_purchase(b, h, a)) * (h - a) >= b * h,
{
    lemma_product_after_purchase(b, h, a);
}

/// Law: a sale whose quote divides evenly keeps the constant product — the
/// new reserves' product is no less than the old.
pub proof fn lemma_sale_preserves_product(b: int, h: int, a: int)
    requires
        0 <= b,
        0 <= h,
        0 < a,
        (b * h) % (h + a) == 0,
    ensures
        (b - refund_for_sale(b, h, a)) * (h + a) == b * h,
        (b - refund_for_sale(b, h, a)) * (h + a) >= b * h,
{
    lemma_product_after_sale(b, h, a);
}

/// Law: buying an amount and selling it straight back at the pool's new
/// reserves returns exactly what was paid whenever the purchase divides
/// evenly. (When it does not, the refund overshoots the price by one:
/// `lemma_round_trip_bounds`. Reserves `(1_000_000, 10_000_000)` and amount
/// `1_000_000` price at `111_111` and refund `111_112`.)
pub proof fn lemma_round_trip(b: int, h: int, a: int)
    requires
        0 <= b,
        0 < a < h,
        (b * h) % (h - a) == 0,
    ensures
        refund_for_sale(b + price_for_purchase(b, h, a), h - a, a) == price_for_purchase(b, h, a),
{
    let k = b * h;
    let d = h - a;
    let q = k / d;
    lemma_fundamental_div_mod(k, d);
    assert(q * d == d * q) by (nonlinear_arith);
    assert(q * d == b * h);
    lemma_div_by_multiple(b, h);
}

/// The sharp round-trip bound: buying an amount and selling it straight back
/// at the pool's new reserves refunds the price paid, or that price plus one
/// when the purchase truncated.
pub proof fn lemma_round_trip_bounds(b: int, h: int, a: int)
    requires
        0 <= b,
        0 < a < h,
    ensures
        price_for_purchase(b, h, a) <= refund_for_sale(
            b + price_for_purchase(b, h, a),
            h - a,
            a,
        ) <= price_for_purchase(b, h, a) + 1,
{
    let k = b * h;
    let d = h - a;
    let q = k / d;
    let r = k % d;
    lemma_fundamental_div_mod(k, d);
    lemma_mod_bound(k, d);
    assert(q * d == d * q) by (nonlinear_arith);
    if r == 0 {
        lemma_round_trip(b, h, a);
    } else {
        assert(q * d == (b - 1) * h + (h - r)) by (nonlinear_arith)
            requires
                q * d == b * h - r,
        ;
        lemma_fundamental_div_mod_converse(q * d, h, b - 1, h - r);
    }
}

} // verus!
