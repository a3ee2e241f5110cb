//! Fund ledger: the operations on a fund and a stake. Each one either commits
//! its whole change and returns a record of it, or fails and changes nothing.
//! Moving currency, checking who signs, and reading the clock are left to the
//! caller; the results here say what to move.
use vstd::prelude::*;
use vstd::string::*;
use crate::allocation::{
    Address,
    TokenAllocation,
    allocation_table_check,
    upsert_outcome,
    upsert_allocation,
    validate_allocation_table,
};
use crate::errors::FundrError;
use crate::fees::{
    MAX_MANAGER_FEE_BPS,
    NAV_SCALE,
    bps_share,
    calculate_manager_fee,
    calculate_management_fee,
    calculate_performance_fee,
    calculate_platform_fee,
    checked_mul_div,
    current_nav,
    fits_u64,
    lemma_bps_share_nonneg,
    lemma_mul_div_within,
    management_fee_of,
    mul_div,
    nav_of,
    performance_fee_of,
    platform_fee_of,
};
use crate::state::{
    FeeSchedule,
    Fund,
    FundMode,
    FundType,
    MAX_DESCRIPTION_LEN,
    MAX_NAME_LEN,
    UserStake,
    share_value_of,
    shares_for_deposit_of,
};

verus! {

/// What a deposit did.
#[derive(Debug, Clone, Copy, PartialEq, Eq, Structural)]
pub struct DepositMade {
    /// Net amount added to the pool.
    pub amount: u64,
    pub shares_issued: u64,
    /// Platform fee taken from the gross amount.
    pub platform_fee: u64,
}

/// What a withdrawal did.
#[derive(Debug, Clone, Copy, PartialEq, Eq, Structural)]
pub struct WithdrawalMade {
    pub shares_withdrawn: u64,
    /// Paid to the depositor: the shares' value less both fees.
    pub amount_received: u64,
    pub platform_fee: u64,
    pub manager_fee: u64,
    /// Value of the shares above their cost basis (zero at a loss).
    pub profit: u64,
}

/// What a fee collection charged, to be paid to the manager.
#[derive(Debug, Clone, Copy, PartialEq, Eq, Structural)]
pub struct FeesCollected {
    pub management_fee: u64,
    pub performance_fee: u64,
    /// NAV per share at the collection, before the fees.
    pub nav: u64,
}

/// The allocation table before and after a rebalance.
#[derive(Debug, Clone)]
pub struct RebalanceExecuted {
    pub old_allocations: Vec<TokenAllocation>,
    pub new_allocations: Vec<TokenAllocation>,
}

/// One allocation entry set after a swap.
#[derive(Debug, Clone, Copy, PartialEq, Eq, Structural)]
pub struct AllocationUpdated {
    pub token_mint: Address,
    pub new_percentage: u16,
}

/// Balances after the rent of an emptied account is moved to the vault.
#[derive(Debug, Clone, Copy, PartialEq, Eq, Structural)]
pub struct RentReclaimed {
    pub reclaimed: u64,
    pub vault_lamports: u64,
}

// ---------------------------------------------------------------------------
// Models of the operations
// ---------------------------------------------------------------------------

/// The first limit that a new fund's parameters break, if any.
pub open spec fn create_fund_check(
    name: Seq<char>,
    description: Seq<char>,
    fees: FeeSchedule,
    initial_allocations: Seq<TokenAllocation>,
) -> Result<(), FundrError> {
    if name.len() > MAX_NAME_LEN {
        Err(FundrError::NameTooLong)
    } else if description.len() > MAX_DESCRIPTION_LEN {
        Err(FundrError::DescriptionTooLong)
    } else if fees.manager_fee_bps > MAX_MANAGER_FEE_BPS {
        Err(FundrError::ManagerFeeTooHigh)
    } else if fees.performance_fee_bps > MAX_MANAGER_FEE_BPS {
        Err(FundrError::ExcessiveFees)
    } else {
        allocation_table_check(initial_allocations)
    }
}

/// A fresh fund: active, no shares, no assets, high-water mark at NAV 1.0.
pub open spec fn new_fund(
    manager: Address,
    name: String,
    description: String,
    fund_type: FundType,
    fees: FeeSchedule,
    min_deposit: u64,
    allocations: Vec<TokenAllocation>,
    now: i64,
) -> Fund {
    Fund {
        manager,
        name,
        description,
        fund_type,
        fees,
        min_deposit,
        total_shares: 0,
        total_assets: 0,
        high_water_mark: NAV_SCALE,
        allocations,
        is_active: true,
        created_at: now,
        last_fee_collection: now,
    }
}

/// Fund, stake and record after a deposit of `amount` at time `now`, or its error.
pub open spec fn deposit_outcome(f: Fund, s: UserStake, amount: u64, now: i64) -> Result<
    (Fund, UserStake, DepositMade),
    FundrError,
> {
    let fee = platform_fee_of(amount as int);
    let net = amount - fee;
    let minted = shares_for_deposit_of(net, f.total_shares as int, f.total_assets as int);
    let first = s.shares == 0;
    let held = s.shares + minted;
    let basis = if first {
        net
    } else {
        s.initial_deposit + net
    };
    let entry = if first {
        nav_of(f.total_assets as int, f.total_shares as int)
    } else {
        mul_div(basis, NAV_SCALE as int, held)
    };
    if amount == 0 {
        Err(FundrError::InvalidAmount)
    } else if !f.is_active {
        Err(FundrError::FundInactive)
    } else if amount < f.min_deposit {
        Err(FundrError::AmountTooSmall)
    } else if !(fits_u64(minted) && fits_u64(held) && fits_u64(f.total_shares + minted) && fits_u64(
        f.total_assets + net,
    ) && fits_u64(basis) && fits_u64(entry)) {
        Err(FundrError::ArithmeticOverflow)
    } else {
        Ok(
            (
                Fund {
                    total_shares: (f.total_shares + minted) as u64,
                    total_assets: (f.total_assets + net) as u64,
                    ..f
                },
                UserStake {
                    shares: held as u64,
                    initial_deposit: basis as u64,
                    entry_price: entry as u64,
                    deposited_at: if first {
                        now
                    } else {
                        s.deposited_at
                    },
                    ..s
                },
                DepositMade {
                    amount: net as u64,
                    shares_issued: minted as u64,
                    platform_fee: fee as u64,
                },
            ),
        )
    }
}

/// `a - b`, or zero where `b` exceeds `a`.
pub open spec fn saturating_sub(a: int, b: int) -> int {
    if a >= b {
        a - b
    } else {
        0
    }
}

/// Fund, stake and record after `shares` are redeemed while the fund holds
/// `fund_balance` of spendable base currency, or the error.
pub open spec fn withdraw_outcome(f: Fund, s: UserStake, shares: u64, fund_balance: u64) -> Result<
    (Fund, UserStake, WithdrawalMade),
    FundrError,
> {
    let value = share_value_of(shares as int, f.total_shares as int, f.total_assets as int);
    let basis = mul_div(s.initial_deposit as int, shares as int, s.shares as int);
    let profit = saturating_sub(value, basis);
    let platform_fee = platform_fee_of(value);
    let manager_fee = bps_share(profit, f.fees.manager_fee_bps as int);
    let left = s.shares - shares;
    if shares == 0 {
        Err(FundrError::InvalidAmount)
    } else if !f.is_active {
        Err(FundrError::FundInactive)
    } else if shares > s.shares {
        Err(FundrError::InsufficientShares)
    } else if shares > f.total_shares {
        Err(FundrError::ArithmeticOverflow)
    } else if f.fund_type == FundType::Manual && fund_balance < value {
        Err(FundrError::InsufficientFundBalance)
    } else if platform_fee + manager_fee > value {
        Err(FundrError::ArithmeticOverflow)
    } else {
        Ok(
            (
                Fund {
                    total_shares: (f.total_shares - shares) as u64,
                    total_assets: saturating_sub(f.total_assets as int, basis) as u64,
                    ..f
                },
                UserStake {
                    shares: left as u64,
                    initial_deposit: if left == 0 {
                        0
                    } else {
                        (s.initial_deposit - basis) as u64
                    },
                    ..s
                },
                WithdrawalMade {
                    shares_withdrawn: shares,
                    amount_received: (value - platform_fee - manager_fee) as u64,
                    platform_fee: platform_fee as u64,
                    manager_fee: manager_fee as u64,
                    profit: profit as u64,
                },
            ),
        )
    }
}

/// Seconds from `last` to `now`; zero if the clock did not move forward.
pub open spec fn elapsed_since(last: i64, now: i64) -> int {
    if now > last {
        now - last
    } else {
        0
    }
}

/// Fund and record after a fee collection at time `now`, or its error.
pub open spec fn collect_fees_outcome(f: Fund, now: i64) -> Result<(Fund, FeesCollected), FundrError> {
    let nav = nav_of(f.total_assets as int, f.total_shares as int);
    let management_fee = management_fee_of(
        f.total_assets as int,
        f.fees.management_fee_bps as int,
        elapsed_since(f.last_fee_collection, now),
    );
    let performance_fee = performance_fee_of(
        f.total_assets as int,
        nav,
        f.high_water_mark as int,
        f.fees.performance_fee_bps as int,
    );
    let total = management_fee + performance_fee;
    if !(fits_u64(nav) && fits_u64(management_fee) && fits_u64(performance_fee) && fits_u64(total)) {
        Err(FundrError::ArithmeticOverflow)
    } else {
        Ok(
            (
                Fund {
                    total_assets: saturating_sub(f.total_assets as int, total) as u64,
                    high_water_mark: if performance_fee > 0 {
                        nav as u64
                    } else {
                        f.high_water_mark
                    },
                    last_fee_collection: now,
                    ..f
                },
                FeesCollected {
                    management_fee: management_fee as u64,
                    performance_fee: performance_fee as u64,
                    nav: nav as u64,
                },
            ),
        )
    }
}

// ---------------------------------------------------------------------------
// Operations
// ---------------------------------------------------------------------------

/// Creates a fund after checking its limits: name and description length,
/// the fee caps, and the initial allocation table. All counters start at
/// zero and the high-water mark at NAV 1.0.
pub fn create_fund(
    manager: Address,
    name: String,
    description: String,
    fund_type: FundType,
    fees: FeeSchedule,
    min_deposit: u64,
    initial_allocations: Vec<TokenAllocation>,
    now: i64,
) -> (r: Result<Fund, FundrError>)
    ensures
        match create_fund_check(name@, description@, fees, initial_allocations@) {
            Ok(()) => r == Ok::<Fund, FundrError>(
                new_fund(
                    manager,
                    name,
                    description,
                    fund_type,
                    fees,
                    min_deposit,
                    initial_allocations,
                    now,
                ),
            ),
            Err(e) => r == Err::<Fund, FundrError>(e),
        },
        r matches Ok(f) ==> f.wf(),
{
    if name.as_str().unicode_len() > MAX_NAME_LEN {
        return Err(FundrError::NameTooLong);
    }
    if description.as_str().unicode_len() > MAX_DESCRIPTION_LEN {
        return Err(FundrError::DescriptionTooLong);
    }
    if fees.manager_fee_bps > MAX_MANAGER_FEE_BPS {
        return Err(FundrError::ManagerFeeTooHigh);
    }
    if fees.performance_fee_bps > MAX_MANAGER_FEE_BPS {
        return Err(FundrError::ExcessiveFees);
    }
    match validate_allocation_table(&initial_allocations) {
        Ok(()) => {},
        Err(e) => {
            return Err(e);
        },
    }
    Ok(
        Fund {
            manager,
            name,
            description,
            fund_type,
            fees,
            min_deposit,
            total_shares: 0,
            total_assets: 0,
            high_water_mark: NAV_SCALE,
            allocations: initial_allocations,
            is_active: true,
            created_at: now,
            last_fee_collection: now,
        },
    )
}

/// Creates a fund that charges only a performance fee, with an empty
/// allocation table.
pub fn initialize_fund(
    manager: Address,
    name: String,
    description: String,
    performance_fee: u16,
    min_deposit: u64,
    fund_mode: FundMode,
    now: i64,
) -> (r: Result<Fund, FundrError>)
    ensures
        ({
            let fees = FeeSchedule {
                manager_fee_bps: 0,
                management_fee_bps: 0,
                performance_fee_bps: performance_fee,
            };
            match create_fund_check(name@, description@, fees, Seq::empty()) {
                Ok(()) => r matches Ok(f) && f == new_fund(
                    manager,
                    name,
                    description,
                    fund_mode,
                    fees,
                    min_deposit,
                    f.allocations,
                    now,
                ) && f.allocations@.len() == 0,
                Err(e) => r == Err::<Fund, FundrError>(e),
            }
        }),
        r matches Ok(f) ==> f.wf(),
{
    let fees = FeeSchedule { manager_fee_bps: 0, management_fee_bps: 0, performance_fee_bps: performance_fee };
    create_fund(manager, name, description, fund_mode, fees, min_deposit, Vec::new(), now)
}

/// Deposits `amount` at time `now`: takes the platform fee, mints shares for
/// the net amount at the current NAV, and updates the stake's cost basis and
/// entry price.
pub fn deposit(fund: &mut Fund, stake: &mut UserStake, amount: u64, now: i64) -> (r: Result<
    DepositMade,
    FundrError,
>)
    ensures
        match deposit_outcome(*old(fund), *old(stake), amount, now) {
            Ok((f, s, made)) => r == Ok::<DepositMade, FundrError>(made) && *final(fund) == f
                && *final(stake) == s,
            Err(e) => r == Err::<DepositMade, FundrError>(e) && *final(fund) == *old(fund)
                && *final(stake) == *old(stake),
        },
        final(fund).high_water_mark == old(fund).high_water_mark,
        old(fund).wf() ==> final(fund).wf(),
{
    if amount == 0 {
        return Err(FundrError::InvalidAmount);
    }
    if !fund.is_active {
        return Err(FundrError::FundInactive);
    }
    if amount < fund.min_deposit {
        return Err(FundrError::AmountTooSmall);
    }
    let platform_fee = match calculate_platform_fee(amount) {
        Ok(fee) => fee,
        Err(e) => {
            return Err(e);
        },
    };
    let net_deposit = amount - platform_fee;
    let minted = match fund.calculate_shares_for_deposit(net_deposit, fund.total_assets) {
        Ok(m) => m,
        Err(e) => {
            return Err(e);
        },
    };
    let first = stake.shares == 0;
    let held = match stake.shares.checked_add(minted) {
        Some(h) => h,
        None => {
            return Err(FundrError::ArithmeticOverflow);
        },
    };
    let total_shares = match fund.total_shares.checked_add(minted) {
        Some(t) => t,
        None => {
            return Err(FundrError::ArithmeticOverflow);
        },
    };
    let total_assets = match fund.total_assets.checked_add(net_deposit) {
        Some(t) => t,
        None => {
            return Err(FundrError::ArithmeticOverflow);
        },
    };
    let basis = if first {
        net_deposit
    } else {
        match stake.initial_deposit.checked_add(net_deposit) {
            Some(b) => b,
            None => {
                return Err(FundrError::ArithmeticOverflow);
            },
        }
    };
    let entry_price = if first {
        current_nav(fund.total_assets, fund.total_shares)
    } else {
        checked_mul_div(basis, NAV_SCALE, held)
    };
    let entry_price = match entry_price {
        Ok(p) => p,
        Err(e) => {
            return Err(e);
        },
    };
    if first {
        stake.deposited_at = now;
    }
    stake.shares = held;
    stake.initial_deposit = basis;
    stake.entry_price = entry_price;
    fund.total_shares = total_shares;
    fund.total_assets = total_assets;
    Ok(DepositMade { amount: net_deposit, shares_issued: minted, platform_fee })
}

/// Redeems `shares` of the stake. The shares are valued at the pool's NAV;
/// the platform fee is taken from that value and the manager fee from its
/// profit over the proportional cost basis. The pool's assets go down by that
/// cost basis. For a `Manual` fund, `fund_balance` (the base currency the fund
/// holds) must cover the value.
pub fn withdraw(fund: &mut Fund, stake: &mut UserStake, shares_to_withdraw: u64, fund_balance: u64) -> (r:
    Result<WithdrawalMade, FundrError>)
    ensures
        match withdraw_outcome(*old(fund), *old(stake), shares_to_withdraw, fund_balance) {
            Ok((f, s, made)) => r == Ok::<WithdrawalMade, FundrError>(made) && *final(fund) == f
                && *final(stake) == s,
            Err(e) => r == Err::<WithdrawalMade, FundrError>(e) && *final(fund) == *old(fund)
                && *final(stake) == *old(stake),
        },
        final(fund).high_water_mark == old(fund).high_water_mark,
        old(fund).wf() ==> final(fund).wf(),
{
    if shares_to_withdraw == 0 {
        return Err(FundrError::InvalidAmount);
    }
    if !fund.is_active {
        return Err(FundrError::FundInactive);
    }
    if shares_to_withdraw > stake.shares {
        return Err(FundrError::InsufficientShares);
    }
    if shares_to_withdraw > fund.total_shares {
        return Err(FundrError::ArithmeticOverflow);
    }
    proof {
        lemma_mul_div_within(fund.total_assets as int, shares_to_withdraw as int, fund.total_shares as int);
        lemma_mul_div_within(stake.initial_deposit as int, shares_to_withdraw as int, stake.shares as int);
    }
    let share_value = match fund.calculate_user_share_value(shares_to_withdraw, fund.total_assets) {
        Ok(v) => v,
        Err(e) => {
            return Err(e);
        },
    };
    let manual = match fund.fund_type {
        FundType::Manual => true,
        FundType::Auto => false,
    };
    if manual && fund_balance < share_value {
        return Err(FundrError::InsufficientFundBalance);
    }
    let basis = match checked_mul_div(stake.initial_deposit, shares_to_withdraw, stake.shares) {
        Ok(b) => b,
        Err(e) => {
            return Err(e);
        },
    };
    let profit = if share_value > basis {
        share_value - basis
    } else {
        0
    };
    let platform_fee = match calculate_platform_fee(share_value) {
        Ok(fee) => fee,
        Err(e) => {
            return Err(e);
        },
    };
    proof {
        lemma_bps_share_nonneg(profit as int, fund.fees.manager_fee_bps as int);
    }
    let manager_fee = match calculate_manager_fee(profit, fund.fees.manager_fee_bps) {
        Ok(fee) => fee,
        Err(e) => {
            return Err(e);
        },
    };
    if manager_fee > share_value - platform_fee {
        return Err(FundrError::ArithmeticOverflow);
    }
    let left = stake.shares - shares_to_withdraw;
    stake.shares = left;
    stake.initial_deposit = if left == 0 {
        0
    } else {
        stake.initial_deposit - basis
    };
    fund.total_shares = fund.total_shares - shares_to_withdraw;
    fund.total_assets = fund.total_assets.saturating_sub(basis);
    Ok(
        WithdrawalMade {
            shares_withdrawn: shares_to_withdraw,
            amount_received: share_value - platform_fee - manager_fee,
            platform_fee,
            manager_fee,
            profit,
        },
    )
}

/// Collects the management fee for the time since the last collection and
/// the performance fee on any NAV gain above the high-water mark. Both are
/// taken from the pool's assets (down to zero at most). The mark moves up to
/// the current NAV only when a performance fee is charged.
pub fn collect_fees(fund: &mut Fund, now: i64) -> (r: Result<FeesCollected, FundrError>)
    ensures
        match collect_fees_outcome(*old(fund), now) {
            Ok((f, fees)) => r == Ok::<FeesCollected, FundrError>(fees) && *final(fund) == f,
            Err(e) => r == Err::<FeesCollected, FundrError>(e) && *final(fund) == *old(fund),
        },
        final(fund).high_water_mark >= old(fund).high_water_mark,
        old(fund).wf() ==> final(fund).wf(),
{
    let nav = match current_nav(fund.total_assets, fund.total_shares) {
        Ok(n) => n,
        Err(e) => {
            return Err(e);
        },
    };
    let elapsed: u64 = if now > fund.last_fee_collection {
        (now as i128 - fund.last_fee_collection as i128) as u64
    } else {
        0
    };
    let management_fee = match calculate_management_fee(
        fund.total_assets,
        fund.fees.management_fee_bps,
        elapsed,
    ) {
        Ok(fee) => fee,
        Err(e) => {
            return Err(e);
        },
    };
    let performance_fee = match calculate_performance_fee(
        fund.total_assets,
        nav,
        fund.high_water_mark,
        fund.fees.performance_fee_bps,
    ) {
        Ok(fee) => fee,
        Err(e) => {
            return Err(e);
        },
    };
    let total = match management_fee.checked_add(performance_fee) {
        Some(t) => t,
        None => {
            return Err(FundrError::ArithmeticOverflow);
        },
    };
    fund.total_assets = fund.total_assets.saturating_sub(total);
    if performance_fee > 0 {
        fund.high_water_mark = nav;
    }
    fund.last_fee_collection = now;
    Ok(FeesCollected { management_fee, performance_fee, nav })
}

/// Replaces the allocation table with `new_allocations` after checking it.
/// No value moves: swaps toward the new targets are made elsewhere.
pub fn rebalance(fund: &mut Fund, new_allocations: Vec<TokenAllocation>) -> (r: Result<
    RebalanceExecuted,
    FundrError,
>)
    ensures
        match allocation_table_check(new_allocations@) {
            Ok(()) => r matches Ok(ev) && ev.old_allocations == old(fund).allocations
                && ev.new_allocations@ == new_allocations@ && *final(fund) == (Fund {
                allocations: new_allocations,
                ..*old(fund)
            }),
            Err(e) => r matches Err(x) && x == e && *final(fund) == *old(fund),
        },
        final(fund).high_water_mark == old(fund).high_water_mark,
        old(fund).wf() ==> final(fund).wf(),
{
    match validate_allocation_table(&new_allocations) {
        Ok(()) => {},
        Err(e) => {
            return Err(e);
        },
    }
    let recorded = new_allocations.clone();
    proof {
        assert(recorded@ =~= new_allocations@);
    }
    let mut table = new_allocations;
    core::mem::swap(&mut fund.allocations, &mut table);
    Ok(RebalanceExecuted { old_allocations: table, new_allocations: recorded })
}

/// Sets the weight of one asset after an outside swap, by the rules of
/// `upsert_outcome`. Only the allocation table changes.
pub fn update_allocation_after_swap(fund: &mut Fund, token_mint: Address, new_percentage: u16) -> (r:
    Result<AllocationUpdated, FundrError>)
    ensures
        *final(fund) == (Fund { allocations: final(fund).allocations, ..*old(fund) }),
        match upsert_outcome(old(fund).allocations@, token_mint, new_percentage) {
            Ok(t) => r == Ok::<AllocationUpdated, FundrError>(
                AllocationUpdated { token_mint, new_percentage },
            ) && final(fund).allocations@ == t,
            Err(e) => r == Err::<AllocationUpdated, FundrError>(e) && final(fund).allocations@ == old(
                fund,
            ).allocations@,
        },
        old(fund).wf() ==> final(fund).wf(),
{
    match upsert_allocation(&mut fund.allocations, token_mint, new_percentage) {
        Ok(()) => Ok(AllocationUpdated { token_mint, new_percentage }),
        Err(e) => Err(e),
    }
}

/// Switches the fund between manual and automatic allocation.
pub fn update_fund_mode(fund: &mut Fund, new_mode: FundMode)
    ensures
        *final(fund) == (Fund { fund_type: new_mode, ..*old(fund) }),
{
    fund.fund_type = new_mode;
}

/// Moves the balance of an emptied account into the vault. The account may
/// hold at most `minimum_rent` (the rent-exempt minimum of an empty account).
pub fn reclaim_rent(closed_lamports: u64, vault_lamports: u64, minimum_rent: u64) -> (r: Result<
    RentReclaimed,
    FundrError,
>)
    ensures
        r == (if closed_lamports > minimum_rent {
            Err::<RentReclaimed, FundrError>(FundrError::AccountNotEmpty)
        } else if vault_lamports + closed_lamports > u64::MAX {
            Err(FundrError::ArithmeticOverflow)
        } else {
            Ok(
                RentReclaimed {
                    reclaimed: closed_lamports,
                    vault_lamports: (vault_lamports + closed_lamports) as u64,
                },
            )
        }),
{
    if closed_lamports > minimum_rent {
        return Err(FundrError::AccountNotEmpty);
    }
    match vault_lamports.checked_add(closed_lamports) {
        Some(total) => Ok(RentReclaimed { reclaimed: closed_lamports, vault_lamports: total }),
        None => Err(FundrError::ArithmeticOverflow),
    }
}

/// A token account may be closed only when it holds no tokens.
pub fn ensure_token_account_empty(token_amount: u64) -> (r: Result<(), FundrError>)
    ensures
        r == (if token_amount == 0 {
            Ok::<(), FundrError>(())
        } else {
            Err(FundrError::TokenAccountNotEmpty)
        }),
{
    if token_amount == 0 {
        Ok(())
    } else {
        Err(FundrError::TokenAccountNotEmpty)
    }
}

} // verus!
