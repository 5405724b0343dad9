use vstd::prelude::*;

verus! {

/// The ways an instruction of the bonding-curve program is refused.
#[derive(Debug, Clone, Copy, PartialEq, Eq, Structural)]
pub enum Error {
    UnauthorizedAddress,
    InsufficientAmountOut,
    InsufficientFunds,
    CurveLimitReached,
    IncorrectValueRange,
    IncorrectFeeRecipient,
    InvalidReserves,
    CurveNotInitialized,
    CurveNotCompleted,
    AlreadyMigrated,
    MathOverflow,
    InSufficientSolBalance,
    InufficientTokenBalance,
    InvalidPoolOwner,
    InvalidPoolState,
    InvalidPoolTokens,
    SlippageExceeded,
    DivisionByZero,
    InvaldTokenAllocation,
    InvalidCurveLimit,
    InvalidInitialSolReserve,
}

} // verus!
