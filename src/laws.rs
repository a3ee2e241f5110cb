//! Properties of the ledger that hold across operations.
use vstd::prelude::*;
use vstd::arithmetic::div_mod::{
    lemma_div_by_multiple,
    lemma_div_is_ordered,
    lemma_fundamental_div_mod,
};
use crate::errors::FundrError;
use crate::fees::{
    NAV_SCALE,
    bps_share,
    lemma_bps_share_bounded,
    lemma_bps_share_nonneg,
    mul_div,
    nav_of,
    platform_fee_of,
};
use crate::ledger::{
    collect_fees_outcome,
    deposit_outcome,
    elapsed_since,
    withdraw_outcome,
};
use crate::state::{Fund, FundType, UserStake, share_value_of};

verus! {

/// Where `t / s <= t2 / s2`, the floor of `h * t / s` is at most the floor of `h * t2 / s2`.
proof fn lemma_floor_ratio_monotone(h: int, t: int, s: int, t2: int, s2: int)
    requires
        0 <= h,
        0 <= t,
        0 < s,
        0 < s2,
        0 <= t2,
        t * s2 <= t2 * s,
    ensures
        h * t / s <= h * t2 / s2,
{
    let a = h * t / s;
    lemma_fundamental_div_mod(h * t, s);
    assert(0 <= (h * t) % s);
    assert(a * s == s * a) by (nonlinear_arith);
    assert(a * s <= h * t);
    assert(a * s * s2 <= h * t * s2) by (nonlinear_arith)
        requires a * s <= h * t, 0 < s2;
    assert(h * t * s2 <= h * t2 * s) by (nonlinear_arith)
        requires t * s2 <= t2 * s, 0 <= h;
    assert(a * s2 <= h * t2) by (nonlinear_arith)
        requires a * s * s2 <= h * t2 * s, 0 < s;
    lemma_div_is_ordered(a * s2, h * t2, s2);
    lemma_div_by_multiple(a, s2);
}

/// One deposit, seen from the pool: the shares minted and the net amount added.
proof fn lemma_deposit_totals(f: Fund, s: UserStake, amount: u64, now: i64)
    requires
        deposit_outcome(f, s, amount, now) is Ok,
    ensures
        ({
            let (f2, s2, made) = deposit_outcome(f, s, amount, now)->Ok_0;
            &&& f2.total_shares == f.total_shares + made.shares_issued
            &&& f2.total_assets == f.total_assets + made.amount
            &&& made.amount == amount - platform_fee_of(amount as int)
            &&& made.amount <= amount
            &&& f.total_shares > 0 && f.total_assets > 0 ==> made.shares_issued * f.total_assets
                <= made.amount * f.total_shares
            &&& f.total_shares == 0 || f.total_assets == 0 ==> made.shares_issued == made.amount
        }),
{
    let (f2, s2, made) = deposit_outcome(f, s, amount, now)->Ok_0;
    lemma_bps_share_bounded(amount as int, 100);
    if f.total_shares > 0 && f.total_assets > 0 {
        let n = made.amount as int;
        let ts = f.total_shares as int;
        let ta = f.total_assets as int;
        lemma_fundamental_div_mod(n * ts, ta);
        assert(0 <= (n * ts) % ta);
        let q = (n * ts) / ta;
        assert(made.shares_issued == q);
        assert(q * ta == ta * q) by (nonlinear_arith);
        assert(made.shares_issued * ta <= n * ts);
    }
}

/// A deposit never lowers the value of shares already out: the NAV ratio
/// `total_assets / total_shares` does not fall, and any holding of at most
/// the shares outstanding before the deposit is worth at least as much after it.
pub proof fn lemma_deposit_does_not_dilute(f: Fund, s: UserStake, amount: u64, now: i64, held: u64)
    requires
        deposit_outcome(f, s, amount, now) is Ok,
        held <= f.total_shares,
    ensures
        ({
            let f2 = deposit_outcome(f, s, amount, now)->Ok_0.0;
            &&& f.total_shares > 0 ==> f.total_assets * f2.total_shares <= f2.total_assets
                * f.total_shares
            &&& share_value_of(held as int, f.total_shares as int, f.total_assets as int)
                <= share_value_of(held as int, f2.total_shares as int, f2.total_assets as int)
        }),
{
    let (f2, s2, made) = deposit_outcome(f, s, amount, now)->Ok_0;
    lemma_deposit_totals(f, s, amount, now);
    let t = f.total_assets as int;
    let ts = f.total_shares as int;
    let m = made.shares_issued as int;
    let n = made.amount as int;
    if ts > 0 {
        if t > 0 {
            assert(t * (ts + m) <= (t + n) * ts) by (nonlinear_arith)
                requires m * t <= n * ts;
        } else {
            assert(t * (ts + m) <= (t + n) * ts) by (nonlinear_arith)
                requires t == 0, 0 <= n, 0 < ts;
        }
        assert(f.total_assets * f2.total_shares <= f2.total_assets * f.total_shares);
        lemma_floor_ratio_monotone(held as int, t, ts, t + n, ts + m);
    }
}

/// The pool after each deposit of `steps` in turn (each made with the stake
/// given beside it), or `None` once one of them fails.
pub open spec fn deposit_run(f: Fund, steps: Seq<(UserStake, u64)>, now: i64) -> Option<Fund>
    decreases steps.len(),
{
    if steps.len() == 0 {
        Some(f)
    } else {
        match deposit_run(f, steps.drop_last(), now) {
            Some(g) => match deposit_outcome(g, steps.last().0, steps.last().1, now) {
                Ok((h, _, _)) => Some(h),
                Err(_) => None,
            },
            None => None,
        }
    }
}

/// Over any run of deposits (and no withdrawals), no holding of the shares
/// outstanding at the start loses value, whoever makes the deposits.
pub proof fn lemma_deposit_run_does_not_dilute(f: Fund, steps: Seq<(UserStake, u64)>, now: i64, held: u64)
    requires
        deposit_run(f, steps, now) is Some,
        held <= f.total_shares,
    ensures
        deposit_run(f, steps, now)->Some_0.total_shares >= f.total_shares,
        share_value_of(held as int, f.total_shares as int, f.total_assets as int) <= share_value_of(
            held as int,
            deposit_run(f, steps, now)->Some_0.total_shares as int,
            deposit_run(f, steps, now)->Some_0.total_assets as int,
        ),
    decreases steps.len(),
{
    if steps.len() > 0 {
        lemma_deposit_run_does_not_dilute(f, steps.drop_last(), now, held);
        let g = deposit_run(f, steps.drop_last(), now)->Some_0;
        lemma_deposit_totals(g, steps.last().0, steps.last().1, now);
        lemma_deposit_does_not_dilute(g, steps.last().0, steps.last().1, now, held);
    }
}

/// Depositing `amount` with an empty stake and then redeeming every share it
/// minted succeeds, charges no manager fee, and pays back at most `amount`
/// (unless the pool held assets but no shares, which the deposit takes over).
/// Into an empty pool it pays back exactly `net - platform_fee_of(net)`, where
/// `net = amount - platform_fee_of(amount)`: between `amount` less twice the
/// platform fee and `amount`.
pub proof fn lemma_deposit_then_withdraw_all(
    f: Fund,
    s: UserStake,
    amount: u64,
    now: i64,
    fund_balance: u64,
)
    requires
        f.wf(),
        s.shares == 0,
        f.total_shares > 0 || f.total_assets == 0,
        deposit_outcome(f, s, amount, now) is Ok,
        deposit_outcome(f, s, amount, now)->Ok_0.2.shares_issued > 0,
        f.fund_type == FundType::Auto || fund_balance >= amount,
    ensures
        ({
            let (f1, s1, made) = deposit_outcome(f, s, amount, now)->Ok_0;
            let net = amount - platform_fee_of(amount as int);
            withdraw_outcome(f1, s1, made.shares_issued, fund_balance) matches Ok((f2, s2, w)) && {
                &&& w.amount_received <= amount
                &&& w.manager_fee == 0
                &&& w.profit == 0
                &&& s2.shares == 0
                &&& (f.total_shares == 0 && f.total_assets == 0) ==> {
                    &&& w.amount_received == net - platform_fee_of(net)
                    &&& amount - 2 * platform_fee_of(amount as int) <= w.amount_received
                }
            }
        }),
{
    let (f1, s1, made) = deposit_outcome(f, s, amount, now)->Ok_0;
    lemma_deposit_totals(f, s, amount, now);
    let t = f.total_assets as int;
    let ts = f.total_shares as int;
    let m = made.shares_issued as int;
    let n = made.amount as int;
    let value = share_value_of(m, f1.total_shares as int, f1.total_assets as int);
    // The value of the minted shares is at most the net amount paid in.
    if ts > 0 && t > 0 {
        assert(m * (t + n) <= n * (ts + m)) by (nonlinear_arith)
            requires m * t <= n * ts;
    } else if ts > 0 {
        assert(m * (t + n) <= n * (ts + m)) by (nonlinear_arith)
            requires t == 0, m == n, 0 <= n, 0 < ts;
    } else {
        assert(m * (t + n) <= n * (ts + m)) by (nonlinear_arith)
            requires t == 0, ts == 0, m == n, 0 <= n;
    }
    lemma_div_is_ordered(m * (t + n), n * (ts + m), ts + m);
    lemma_div_by_multiple(n, ts + m);
    assert(n * (ts + m) == (ts + m) * n) by (nonlinear_arith);
    assert(value <= n);
    assert(0 <= m * (t + n)) by (nonlinear_arith)
        requires 0 <= m, 0 <= t + n;
    assert(0 <= value);
    // The proportional cost basis of all the stake's shares is the net amount.
    assert(s1.initial_deposit == n);
    assert(mul_div(n, m, m) == n) by {
        lemma_div_by_multiple(n, m);
    }
    lemma_bps_share_bounded(value, 100);
    lemma_bps_share_nonneg(0, f1.fees.manager_fee_bps as int);
    assert(bps_share(0, f1.fees.manager_fee_bps as int) == 0);
    if ts == 0 && t == 0 {
        assert(value == n) by {
            lemma_div_by_multiple(n, n);
            assert(m * (t + n) == n * n);
        }
        let fee_a = platform_fee_of(amount as int);
        let fee_n = platform_fee_of(n);
        lemma_div_is_ordered(n * 100, (amount as int) * 100, 10000);
        assert(fee_n <= fee_a);
    }
}

/// Two fee collections at the same moment: the second charges nothing and
/// leaves the fund (and its high-water mark) exactly as the first left it.
pub proof fn lemma_collect_fees_twice(f: Fund, now: i64)
    requires
        collect_fees_outcome(f, now) is Ok,
    ensures
        ({
            let f1 = collect_fees_outcome(f, now)->Ok_0.0;
            collect_fees_outcome(f1, now) matches Ok((f2, fees)) && {
                &&& fees.management_fee == 0
                &&& fees.performance_fee == 0
                &&& f2 == f1
            }
        }),
{
    let (f1, c1) = collect_fees_outcome(f, now)->Ok_0;
    let t = f.total_assets as int;
    let t1 = f1.total_assets as int;
    let ts = f.total_shares as int;
    let nav1 = nav_of(t, ts);
    let nav2 = nav_of(t1, ts);
    assert(t1 <= t);
    if ts > 0 {
        lemma_div_is_ordered(t1 * (NAV_SCALE as int), t * (NAV_SCALE as int), ts);
    }
    assert(nav2 <= nav1);
    assert(nav2 >= 0) by {
        if ts > 0 {
            vstd::arithmetic::div_mod::lemma_div_pos_is_pos(t1 * (NAV_SCALE as int), ts);
        }
    }
    assert(elapsed_since(now, now) == 0);
    let b = f.fees.management_fee_bps as int;
    assert(t1 * b * 0 == 0) by (nonlinear_arith);
    let pb = f.fees.performance_fee_bps as int;
    let hwm = f.high_water_mark as int;
    if c1.performance_fee == 0 && nav2 > hwm {
        assert(0 <= t1 * (nav2 - hwm) * pb <= t * (nav1 - hwm) * pb) by (nonlinear_arith)
            requires 0 <= t1 <= t, 0 < nav2 - hwm <= nav1 - hwm, 0 <= pb;
        lemma_div_is_ordered(t1 * (nav2 - hwm) * pb, t * (nav1 - hwm) * pb, 1_000_000);
        lemma_div_is_ordered(
            t1 * (nav2 - hwm) * pb / 1_000_000,
            t * (nav1 - hwm) * pb / 1_000_000,
            10000,
        );
        vstd::arithmetic::div_mod::lemma_div_pos_is_pos(t1 * (nav2 - hwm) * pb, 1_000_000);
        vstd::arithmetic::div_mod::lemma_div_pos_is_pos(t1 * (nav2 - hwm) * pb / 1_000_000, 10000);
    }
}

/// No operation on a fund lowers its high-water mark.
pub proof fn lemma_high_water_mark_never_decreases(
    f: Fund,
    s: UserStake,
    amount: u64,
    shares: u64,
    fund_balance: u64,
    now: i64,
)
    ensures
        deposit_outcome(f, s, amount, now) matches Ok((f2, _, _)) ==> f2.high_water_mark
            == f.high_water_mark,
        withdraw_outcome(f, s, shares, fund_balance) matches Ok((f2, _, _)) ==> f2.high_water_mark
            == f.high_water_mark,
        collect_fees_outcome(f, now) matches Ok((f2, _)) ==> f2.high_water_mark
            >= f.high_water_mark,
{
}

/// A deposit below the fund's minimum (but above zero, into an active fund)
/// always fails with `AmountTooSmall`.
pub proof fn lemma_deposit_below_minimum_fails(f: Fund, s: UserStake, amount: u64, now: i64)
    requires
        0 < amount < f.min_deposit,
        f.is_active,
    ensures
        deposit_outcome(f, s, amount, now) == Err::<(Fund, UserStake, crate::ledger::DepositMade), FundrError>(
            FundrError::AmountTooSmall,
        ),
{
}

/// Redeeming more shares than the stake holds (from an active fund) always
/// fails with `InsufficientShares`.
pub proof fn lemma_withdraw_beyond_stake_fails(f: Fund, s: UserStake, shares: u64, fund_balance: u64)
    requires
        shares > s.shares,
        f.is_active,
    ensures
        withdraw_outcome(f, s, shares, fund_balance) == Err::<
            (Fund, UserStake, crate::ledger::WithdrawalMade),
            FundrError,
        >(FundrError::InsufficientShares),
{
}

} // verus!
