//! Accounting core of a pooled investment fund: share issue and redemption,
//! platform, manager, management and performance fees with a high-water
//! mark, and a bounded table of target allocations.
pub mod errors;
pub mod fees;
pub mod allocation;
pub mod state;
pub mod ledger;
pub mod laws;

pub use allocation::{Address, TokenAllocation};
pub use errors::FundrError;
pub use fees::{calculate_manager_fee, calculate_platform_fee};
pub use ledger::{
    AllocationUpdated,
    DepositMade,
    FeesCollected,
    RebalanceExecuted,
    RentReclaimed,
    WithdrawalMade,
    collect_fees,
    create_fund,
    deposit,
    initialize_fund,
    rebalance,
    update_allocation_after_swap,
    update_fund_mode,
    withdraw,
};
pub use state::{FeeSchedule, Fund, FundMode, FundType, UserStake};
