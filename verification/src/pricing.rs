//! Cost computation for a stay: whole nights times the nightly price,
//! then the loyalty discount, applied with truncating integer
//! arithmetic. A start date after the end date yields a negative cost,
//! which is passed through rather than rejected.

use vstd::prelude::*;

use crate::model::Date;

verus! {

/// Bound on a raw stay cost: the longest representable stay times the
/// largest `i32` nightly price stays below this, and twice this still
/// fits in `i64`, so applying a discount cannot overflow.
pub const RAW_COST_LIMIT: i64 = 0x0800_0000_0000_0000;

/// Number of whole nights from `start` to `end`; negative when the
/// dates are out of order.
pub open spec fn spec_nights(start: Date, end: Date) -> int {
    end.days - start.days
}

/// Cost of the stay before any discount: nights times nightly price.
pub open spec fn spec_raw_cost(start: Date, end: Date, price: i32) -> int {
    spec_nights(start, end) * price
}

/// The discounted share of a raw cost, `raw * discount / 100` with the
/// division truncating toward zero.
pub open spec fn spec_discount_portion(raw: int, discount: int) -> int {
    if raw * discount >= 0 {
        raw * discount / 100
    } else {
        -((-(raw * discount)) / 100)
    }
}

/// A raw cost after the discount: the truncated percentage share is
/// subtracted from the raw cost.
pub open spec fn spec_apply_discount(raw: int, discount: int) -> int {
    raw - spec_discount_portion(raw, discount)
}

/// Number of whole nights from `start` to `end`.
pub fn nights(start: Date, end: Date) -> (r: i64)
    requires
        start.valid(),
        end.valid(),
    ensures
        r == spec_nights(start, end),
{
    (end.days as i64) - (start.days as i64)
}

/// Cost of the stay before any discount.
pub fn raw_cost(start: Date, end: Date, price: i32) -> (r: i64)
    requires
        start.valid(),
        end.valid(),
    ensures
        r == spec_raw_cost(start, end, price),
        -RAW_COST_LIMIT <= r <= RAW_COST_LIMIT,
{
    let n: i64 = (end.days as i64) - (start.days as i64);
    let p: i64 = price as i64;
    proof {
        assert(-0x0800_0000_0000_0000 <= n * p <= 0x0800_0000_0000_0000) by (nonlinear_arith)
            requires
                -200_000_000 <= n <= 200_000_000,
                -2_147_483_648 <= p <= 2_147_483_647,
        ;
    }
    n * p
}

/// Applies a percentage discount to a raw cost, truncating the
/// discounted share toward zero.
pub fn apply_discount(raw_cost: i64, discount: i32) -> (r: i64)
    requires
        0 <= discount <= 100,
        -RAW_COST_LIMIT <= raw_cost <= RAW_COST_LIMIT,
    ensures
        r == spec_apply_discount(raw_cost as int, discount as int),
{
    proof {
        assert(-100 * 0x0800_0000_0000_0000 <= (raw_cost as int) * (discount as int) <= 100
            * 0x0800_0000_0000_0000) by (nonlinear_arith)
            requires
                -0x0800_0000_0000_0000 <= raw_cost <= 0x0800_0000_0000_0000,
                0 <= discount <= 100,
        ;
    }
    let prod: i128 = (raw_cost as i128) * (discount as i128);
    let q128: i128 = prod / 100;
    let q: i64 = q128 as i64;
    raw_cost - q
}

/// A raw cost computed from dates in the calendar range stays within
/// [`RAW_COST_LIMIT`].
pub proof fn lemma_raw_cost_in_range(start: Date, end: Date, price: i32)
    requires
        start.valid(),
        end.valid(),
    ensures
        -RAW_COST_LIMIT <= spec_raw_cost(start, end, price) <= RAW_COST_LIMIT,
{
    let n = spec_nights(start, end);
    assert(-0x0800_0000_0000_0000 <= n * price <= 0x0800_0000_0000_0000) by (nonlinear_arith)
        requires
            -200_000_000 <= n <= 200_000_000,
            -2_147_483_648 <= price <= 2_147_483_647,
    ;
}

/// The discounted share never exceeds the raw cost in magnitude, so a
/// discounted cost stays within twice [`RAW_COST_LIMIT`].
pub proof fn lemma_apply_discount_in_range(raw: int, discount: int)
    requires
        -RAW_COST_LIMIT <= raw <= RAW_COST_LIMIT,
        0 <= discount <= 100,
    ensures
        -2 * RAW_COST_LIMIT <= spec_apply_discount(raw, discount) <= 2 * RAW_COST_LIMIT,
{
    let limit = RAW_COST_LIMIT as int;
    let p = raw * discount;
    assert(-100 * limit <= p <= 100 * limit) by (nonlinear_arith)
        requires
            -limit <= raw <= limit,
            0 <= discount <= 100,
            p == raw * discount,
    ;
    vstd::arithmetic::div_mod::lemma_div_by_multiple(limit, 100);
    if p >= 0 {
        vstd::arithmetic::div_mod::lemma_div_pos_is_pos(p, 100);
        vstd::arithmetic::div_mod::lemma_div_is_ordered(p, 100 * limit, 100);
    } else {
        vstd::arithmetic::div_mod::lemma_div_pos_is_pos(-p, 100);
        vstd::arithmetic::div_mod::lemma_div_is_ordered(-p, 100 * limit, 100);
    }
}

/// For a nonnegative raw cost whose discounted share divides evenly by
/// 100, subtracting the truncated share is the same as taking the floor
/// of `raw * (100 - discount) / 100` directly.
pub proof fn lemma_discount_as_floor(raw: int, discount: int)
    requires
        0 <= raw,
        0 <= discount <= 100,
        (raw * discount) % 100 == 0,
    ensures
        spec_apply_discount(raw, discount) == (raw * (100 - discount)) / 100,
{
    let k = raw * discount / 100;
    assert(raw * discount >= 0) by (nonlinear_arith)
        requires
            0 <= raw,
            0 <= discount,
    ;
    assert(raw * discount == 100 * k) by {
        vstd::arithmetic::div_mod::lemma_fundamental_div_mod(raw * discount, 100);
    }
    assert(raw * (100 - discount) == 100 * (raw - k)) by (nonlinear_arith)
        requires
            raw * discount == 100 * k,
    ;
    assert((100 * (raw - k)) / 100 == raw - k) by {
        vstd::arithmetic::div_mod::lemma_div_by_multiple(raw - k, 100);
    }
}

} // verus!
