//! Fee engine: pure functions from scalar inputs to fee amounts.
//!
//! Every product is formed in 128 bits before it is divided, and a result that
//! does not fit in 64 bits is reported as `ArithmeticOverflow`, never truncated.
use vstd::prelude::*;
use vstd::arithmetic::div_mod::{lemma_div_is_ordered, lemma_div_by_multiple};
use crate::errors::FundrError;

verus! {

/// Platform fee, charged on every deposit and every withdrawal (1%).
pub const PLATFORM_FEE_BPS: u16 = 100;

/// Largest fee on profit, or on gains above the high-water mark, that a fund may charge (20%).
pub const MAX_MANAGER_FEE_BPS: u16 = 2000;

/// 100% in basis points.
pub const BASIS_POINTS_DIVISOR: u16 = 10000;

/// Fixed-point scale of a NAV per share: `NAV_SCALE` stands for 1.0.
pub const NAV_SCALE: u64 = 1_000_000;

/// Length of the year over which a management fee rate is stated.
pub const SECONDS_PER_YEAR: u64 = 31_536_000;

/// The part `bps / 10000` of `amount`, rounded down.
pub open spec fn bps_share(amount: int, bps: int) -> int {
    amount * bps / (BASIS_POINTS_DIVISOR as int)
}

/// The platform fee on `amount`.
pub open spec fn platform_fee_of(amount: int) -> int {
    bps_share(amount, PLATFORM_FEE_BPS as int)
}

pub open spec fn fits_u64(x: int) -> bool {
    0 <= x <= u64::MAX
}

/// `x` as a 64-bit result, or `ArithmeticOverflow` where it does not fit.
pub open spec fn checked_u64(x: int) -> Result<u64, FundrError> {
    if fits_u64(x) {
        Ok(x as u64)
    } else {
        Err(FundrError::ArithmeticOverflow)
    }
}

/// `a * b / d` rounded down.
pub open spec fn mul_div(a: int, b: int, d: int) -> int {
    a * b / d
}

/// NAV per share (scaled by `NAV_SCALE`) of a pool; 1.0 while no share is out.
pub open spec fn nav_of(total_assets: int, total_shares: int) -> int {
    if total_shares > 0 {
        mul_div(total_assets, NAV_SCALE as int, total_shares)
    } else {
        NAV_SCALE as int
    }
}

/// Management fee at an annual rate of `bps`, prorated over `elapsed` seconds.
pub open spec fn management_fee_of(total_assets: int, bps: int, elapsed: int) -> int {
    total_assets * bps * elapsed / (BASIS_POINTS_DIVISOR as int) / (SECONDS_PER_YEAR as int)
}

/// Performance fee at rate `bps` on the gain of `nav` above the high-water mark `hwm`.
pub open spec fn performance_fee_of(total_assets: int, nav: int, hwm: int, bps: int) -> int {
    if nav > hwm {
        total_assets * (nav - hwm) * bps / (NAV_SCALE as int) / (BASIS_POINTS_DIVISOR as int)
    } else {
        0
    }
}

/// A basis-point share of at most 100% is no more than the amount.
pub proof fn lemma_bps_share_bounded(amount: int, bps: int)
    requires
        0 <= amount,
        0 <= bps <= BASIS_POINTS_DIVISOR,
    ensures
        0 <= bps_share(amount, bps) <= amount,
{
    assert(0 <= amount * bps <= amount * 10000) by (nonlinear_arith)
        requires 0 <= amount, 0 <= bps <= 10000;
    lemma_div_is_ordered(amount * bps, amount * 10000, 10000);
    lemma_div_by_multiple(amount, 10000);
}

/// A basis-point share of a non-negative amount is non-negative.
pub proof fn lemma_bps_share_nonneg(amount: int, bps: int)
    requires
        0 <= amount,
        0 <= bps,
    ensures
        0 <= bps_share(amount, bps),
{
    assert(0 <= amount * bps) by (nonlinear_arith)
        requires 0 <= amount, 0 <= bps;
}

/// `a * b / d` stays within `[0, a]` when `b <= d`, whichever order the factors come in.
pub proof fn lemma_mul_div_within(a: int, b: int, d: int)
    requires
        0 <= a,
        0 <= b <= d,
        0 < d,
    ensures
        0 <= mul_div(a, b, d) <= a,
        0 <= mul_div(b, a, d) <= a,
{
    assert(0 <= a * b <= a * d) by (nonlinear_arith)
        requires 0 <= a, 0 <= b <= d;
    assert(b * a == a * b) by (nonlinear_arith);
    lemma_div_is_ordered(a * b, a * d, d);
    lemma_div_by_multiple(a, d);
}

/// A value of at least 2^128 divided by at most 2^64 does not fit in 64 bits.
proof fn lemma_too_large_quotient(x: int, d1: int, d2: int)
    requires
        x > u128::MAX,
        0 < d1,
        0 < d2,
        d1 * d2 <= 0x1_0000_0000_0000_0000,
    ensures
        x / d1 / d2 > u64::MAX,
{
    vstd::arithmetic::div_mod::lemma_div_denominator(x, d1, d2);
    lemma_div_is_ordered(u128::MAX + 1, x, d1 * d2);
    lemma_div_is_ordered_by_small_denominator(d1 * d2);
}

/// 2^128 divided by at most 2^64 is at least 2^64.
proof fn lemma_div_is_ordered_by_small_denominator(d: int)
    requires
        0 < d <= 0x1_0000_0000_0000_0000,
    ensures
        (u128::MAX + 1) / d >= u64::MAX + 1,
{
    let big: int = u128::MAX + 1;
    let unit: int = u64::MAX + 1;
    assert(big == unit * unit);
    vstd::arithmetic::div_mod::lemma_div_is_ordered_by_denominator(big, d, unit);
    lemma_div_by_multiple(unit, unit);
}

/// `a * b / d` rounded down, formed in 128 bits; `ArithmeticOverflow` where
/// it does not fit in 64 bits.
pub fn checked_mul_div(a: u64, b: u64, d: u64) -> (r: Result<u64, FundrError>)
    requires
        d > 0,
    ensures
        r == checked_u64(mul_div(a as int, b as int, d as int)),
{
    assert((a as int) * (b as int) <= u64::MAX * u64::MAX) by (nonlinear_arith)
        requires 0 <= a <= u64::MAX, 0 <= b <= u64::MAX;
    assert(0 <= (a as int) * (b as int)) by (nonlinear_arith)
        requires 0 <= a, 0 <= b;
    let q: u128 = (a as u128) * (b as u128) / (d as u128);
    if q > u64::MAX as u128 {
        Err(FundrError::ArithmeticOverflow)
    } else {
        Ok(q as u64)
    }
}

/// Platform fee (1%) on `amount`, rounded down. It never exceeds `amount`.
pub fn calculate_platform_fee(amount: u64) -> (r: Result<u64, FundrError>)
    ensures
        r == Ok::<u64, FundrError>(platform_fee_of(amount as int) as u64),
        0 <= platform_fee_of(amount as int) <= amount,
{
    proof {
        lemma_bps_share_bounded(amount as int, PLATFORM_FEE_BPS as int);
    }
    let fee: u128 = (amount as u128) * (PLATFORM_FEE_BPS as u128) / (BASIS_POINTS_DIVISOR as u128);
    Ok(fee as u64)
}

/// Manager fee at `manager_fee_bps` on a profit, rounded down.
pub fn calculate_manager_fee(profit: u64, manager_fee_bps: u16) -> (r: Result<u64, FundrError>)
    ensures
        r == checked_u64(bps_share(profit as int, manager_fee_bps as int)),
{
    assert(0 <= (profit as int) * (manager_fee_bps as int) <= u64::MAX * u16::MAX) by (nonlinear_arith)
        requires 0 <= profit <= u64::MAX, 0 <= manager_fee_bps <= u16::MAX;
    let fee: u128 = (profit as u128) * (manager_fee_bps as u128) / (BASIS_POINTS_DIVISOR as u128);
    if fee > u64::MAX as u128 {
        Err(FundrError::ArithmeticOverflow)
    } else {
        Ok(fee as u64)
    }
}

/// NAV per share of a pool, scaled by `NAV_SCALE`; 1.0 while no share is out.
pub fn current_nav(total_assets: u64, total_shares: u64) -> (r: Result<u64, FundrError>)
    ensures
        r == checked_u64(nav_of(total_assets as int, total_shares as int)),
{
    if total_shares > 0 {
        checked_mul_div(total_assets, NAV_SCALE, total_shares)
    } else {
        Ok(NAV_SCALE)
    }
}

/// Management fee at an annual rate of `management_fee_bps`, prorated over
/// `elapsed_seconds`, rounded down.
pub fn calculate_management_fee(total_assets: u64, management_fee_bps: u16, elapsed_seconds: u64) -> (r:
    Result<u64, FundrError>)
    ensures
        r == checked_u64(
            management_fee_of(total_assets as int, management_fee_bps as int, elapsed_seconds as int),
        ),
{
    let ghost t = total_assets as int;
    let ghost b = management_fee_bps as int;
    let ghost e = elapsed_seconds as int;
    assert(0 <= t * b <= u64::MAX * u16::MAX) by (nonlinear_arith)
        requires 0 <= t <= u64::MAX, 0 <= b <= u16::MAX;
    assert(0 <= t * b * e) by (nonlinear_arith)
        requires 0 <= t, 0 <= b, 0 <= e;
    let rate: u128 = (total_assets as u128) * (management_fee_bps as u128);
    match rate.checked_mul(elapsed_seconds as u128) {
        None => {
            proof {
                lemma_too_large_quotient(t * b * e, 10000, 31_536_000);
            }
            Err(FundrError::ArithmeticOverflow)
        },
        Some(p) => {
            let fee: u128 = p / (BASIS_POINTS_DIVISOR as u128) / (SECONDS_PER_YEAR as u128);
            if fee > u64::MAX as u128 {
                Err(FundrError::ArithmeticOverflow)
            } else {
                Ok(fee as u64)
            }
        },
    }
}

/// Performance fee at `performance_fee_bps` on the gain of `nav` above the
/// high-water mark, rounded down; zero when `nav` does not exceed the mark.
pub fn calculate_performance_fee(
    total_assets: u64,
    nav: u64,
    high_water_mark: u64,
    performance_fee_bps: u16,
) -> (r: Result<u64, FundrError>)
    ensures
        r == checked_u64(
            performance_fee_of(
                total_assets as int,
                nav as int,
                high_water_mark as int,
                performance_fee_bps as int,
            ),
        ),
{
    if nav <= high_water_mark {
        return Ok(0);
    }
    let ghost t = total_assets as int;
    let ghost g = (nav - high_water_mark) as int;
    let ghost b = performance_fee_bps as int;
    assert(0 <= t * g <= u64::MAX * u64::MAX) by (nonlinear_arith)
        requires 0 <= t <= u64::MAX, 0 <= g <= u64::MAX;
    assert(0 <= t * g * b) by (nonlinear_arith)
        requires 0 <= t, 0 <= g, 0 <= b;
    let gain: u128 = (total_assets as u128) * ((nav - high_water_mark) as u128);
    match gain.checked_mul(performance_fee_bps as u128) {
        None => {
            proof {
                lemma_too_large_quotient(t * g * b, 1_000_000, 10000);
            }
            Err(FundrError::ArithmeticOverflow)
        },
        Some(p) => {
            let fee: u128 = p / (NAV_SCALE as u128) / (BASIS_POINTS_DIVISOR as u128);
            if fee > u64::MAX as u128 {
                Err(FundrError::ArithmeticOverflow)
            } else {
                Ok(fee as u64)
            }
        },
    }
}

} // verus!
