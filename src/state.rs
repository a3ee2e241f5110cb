//! The fund record, the depositor's stake, and the share arithmetic on them.
use vstd::prelude::*;
use crate::allocation::{Address, TokenAllocation, allocations_valid};
use crate::errors::FundrError;
use crate::fees::{MAX_MANAGER_FEE_BPS, checked_mul_div, checked_u64, mul_div};

verus! {

/// Longest fund name, in characters.
pub const MAX_NAME_LEN: usize = 50;

/// Longest fund description, in characters.
pub const MAX_DESCRIPTION_LEN: usize = 200;

/// How deposits are put to work: held in the base currency for the manager
/// to place (`Manual`), or spread over the allocation table by an outside
/// swap service (`Auto`).
#[derive(Debug, Clone, Copy, PartialEq, Eq, Structural)]
pub enum FundType {
    Manual,
    Auto,
}

/// Another name for [`FundType`].
pub type FundMode = FundType;

/// Fee rates of a fund, in basis points.
#[derive(Debug, Clone, Copy, PartialEq, Eq, Structural)]
pub struct FeeSchedule {
    /// Taken from the profit of each withdrawal (at most 20%).
    pub manager_fee_bps: u16,
    /// Annual rate on the pool, prorated over the time between collections.
    pub management_fee_bps: u16,
    /// Taken from gains above the high-water mark (at most 20%).
    pub performance_fee_bps: u16,
}

/// A managed pool.
#[derive(Debug, Clone)]
pub struct Fund {
    pub manager: Address,
    pub name: String,
    pub description: String,
    pub fund_type: FundType,
    pub fees: FeeSchedule,
    /// Smallest accepted deposit, in base-currency units.
    pub min_deposit: u64,
    /// Shares outstanding.
    pub total_shares: u64,
    /// Pool value in base-currency units: net contributions, less cost basis
    /// withdrawn and fees collected.
    pub total_assets: u64,
    /// Highest NAV per share (scaled by `NAV_SCALE`) at which a performance fee was charged.
    pub high_water_mark: u64,
    pub allocations: Vec<TokenAllocation>,
    /// Deposits and withdrawals are refused while this is false.
    pub is_active: bool,
    pub created_at: i64,
    pub last_fee_collection: i64,
}

/// One depositor's holding in one fund.
#[derive(Debug, Clone, Copy, PartialEq, Eq, Structural)]
pub struct UserStake {
    pub user: Address,
    pub fund: Address,
    pub shares: u64,
    /// Cost basis: net base currency contributed for the shares held.
    pub initial_deposit: u64,
    /// NAV per share at entry (scaled by `NAV_SCALE`), averaged over top-ups.
    pub entry_price: u64,
    pub deposited_at: i64,
}

/// Value of `shares` out of `total_shares` in a pool worth `fund_value`;
/// zero while no share is out.
pub open spec fn share_value_of(shares: int, total_shares: int, fund_value: int) -> int {
    if total_shares == 0 {
        0
    } else {
        mul_div(shares, fund_value, total_shares)
    }
}

/// Shares minted for `amount` into a pool of `total_shares` worth
/// `fund_value`; one share per unit while the pool is empty.
pub open spec fn shares_for_deposit_of(amount: int, total_shares: int, fund_value: int) -> int {
    if total_shares == 0 || fund_value == 0 {
        amount
    } else {
        mul_div(amount, total_shares, fund_value)
    }
}

/// `x` as an `i64`, or `ArithmeticOverflow` where it does not fit.
pub open spec fn checked_i64(x: int) -> Result<i64, FundrError> {
    if i64::MIN <= x <= i64::MAX {
        Ok(x as i64)
    } else {
        Err(FundrError::ArithmeticOverflow)
    }
}

impl Fund {
    /// The limits that creation checks and every operation keeps.
    pub open spec fn wf(&self) -> bool {
        &&& self.name@.len() <= MAX_NAME_LEN
        &&& self.description@.len() <= MAX_DESCRIPTION_LEN
        &&& self.fees.manager_fee_bps <= MAX_MANAGER_FEE_BPS
        &&& self.fees.performance_fee_bps <= MAX_MANAGER_FEE_BPS
        &&& allocations_valid(self.allocations@)
    }

    /// Value of `user_shares` when the pool is worth `current_fund_value`.
    pub fn calculate_user_share_value(&self, user_shares: u64, current_fund_value: u64) -> (r: Result<
        u64,
        FundrError,
    >)
        ensures
            r == checked_u64(
                share_value_of(user_shares as int, self.total_shares as int, current_fund_value as int),
            ),
    {
        if self.total_shares == 0 {
            return Ok(0);
        }
        checked_mul_div(user_shares, current_fund_value, self.total_shares)
    }

    /// Shares to mint for `deposit_amount` when the pool is worth `current_fund_value`.
    pub fn calculate_shares_for_deposit(&self, deposit_amount: u64, current_fund_value: u64) -> (r:
        Result<u64, FundrError>)
        ensures
            r == checked_u64(
                shares_for_deposit_of(
                    deposit_amount as int,
                    self.total_shares as int,
                    current_fund_value as int,
                ),
            ),
    {
        if self.total_shares == 0 || current_fund_value == 0 {
            return Ok(deposit_amount);
        }
        checked_mul_div(deposit_amount, self.total_shares, current_fund_value)
    }

    /// Whether the allocation weights sum to at most 100%.
    pub fn validate_allocations(&self) -> (r: bool)
        ensures
            r == (crate::allocation::total_weight(self.allocations@)
                <= crate::fees::BASIS_POINTS_DIVISOR),
    {
        crate::allocation::weights_within_limit(&self.allocations)
    }

    /// `Unauthorized` unless `caller` is the fund's manager.
    pub fn authorize(&self, caller: Address) -> (r: Result<(), FundrError>)
        ensures
            r == (if caller == self.manager {
                Ok::<(), FundrError>(())
            } else {
                Err(FundrError::Unauthorized)
            }),
    {
        if caller == self.manager {
            Ok(())
        } else {
            Err(FundrError::Unauthorized)
        }
    }
}

impl UserStake {
    /// An empty stake of `user` in `fund`.
    pub fn new(user: Address, fund: Address) -> (r: UserStake)
        ensures
            r == (UserStake {
                user,
                fund,
                shares: 0,
                initial_deposit: 0,
                entry_price: 0,
                deposited_at: 0,
            }),
    {
        UserStake { user, fund, shares: 0, initial_deposit: 0, entry_price: 0, deposited_at: 0 }
    }

    /// Profit of the stake when each share is worth `current_share_value`:
    /// the shares' value less the cost basis.
    pub fn calculate_profit(&self, current_share_value: u64) -> (r: Result<i64, FundrError>)
        ensures
            r == checked_i64(
                self.shares as int * current_share_value as int - self.initial_deposit as int,
            ),
    {
        let ghost s = self.shares as int;
        let ghost v = current_share_value as int;
        assert(0 <= s * v <= u64::MAX * u64::MAX) by (nonlinear_arith)
            requires 0 <= s <= u64::MAX, 0 <= v <= u64::MAX;
        let value: u128 = (self.shares as u128) * (current_share_value as u128);
        let basis: u128 = self.initial_deposit as u128;
        if value >= basis {
            let gain: u128 = value - basis;
            if gain > i64::MAX as u128 {
                Err(FundrError::ArithmeticOverflow)
            } else {
                Ok(gain as i64)
            }
        } else {
            let loss: u128 = basis - value;
            if loss > 0x8000_0000_0000_0000u128 {
                Err(FundrError::ArithmeticOverflow)
            } else if loss == 0x8000_0000_0000_0000u128 {
                Ok(i64::MIN)
            } else {
                Ok(-(loss as i64))
            }
        }
    }
}

} // verus!
