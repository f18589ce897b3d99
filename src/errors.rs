use vstd::prelude::*;

verus! {

/// Failures of the token market: curve arithmetic, trading rules and agent
/// creation checks.
#[derive(Debug, Clone, Copy, PartialEq, Eq, Structural)]
pub enum AgentFactoryError {
    MathOverflow,
    InsufficientLiquidity,
    SlippageExceeded,
    AlreadyGraduated,
    CannotGraduate,
    InvalidName,
    InvalidSymbol,
    DescriptionTooLong,
    InstructionsTooLong,
    InvalidCreationFee,
    InsufficientFunds,
    InvalidBuyAmount,
    InvalidSellAmount,
    MaxBuyExceeded,
}

} // verus!
