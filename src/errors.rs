use vstd::prelude::*;

verus! {

/// Failures of fund operations. The ledger reports its own before it changes
/// any state; `InvalidFundType`, `SwapFailed`, `InvalidTokenMint`,
/// `SlippageExceeded` and `InvalidAccount` are left for the host to report
/// for its own collaborators (swap routing, account checks).
#[derive(Debug, Clone, Copy, PartialEq, Eq, Structural)]
pub enum FundrError {
    NameTooLong,
    DescriptionTooLong,
    ManagerFeeTooHigh,
    TooManyAllocations,
    InvalidAllocation,
    InvalidAmount,
    FundInactive,
    InsufficientShares,
    InsufficientFundBalance,
    Unauthorized,
    ArithmeticOverflow,
    InvalidFundType,
    SwapFailed,
    InvalidTokenMint,
    AmountTooSmall,
    ExcessiveFees,
    AccountNotEmpty,
    TokenAccountNotEmpty,
    SlippageExceeded,
    InvalidAccount,
}

} // verus!
