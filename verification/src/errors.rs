use vstd::prelude::*;

verus! {

/// Every way an operation of this crate can be refused.
#[derive(Clone, Copy, Debug, PartialEq, Eq, Structural)]
pub enum ErrorCode {
    /// The fee-tier index is already taken, or no tier has it.
    InvalidIndex,
    /// A rate reaches the denominator, or the protocol and fund rates
    /// together exceed the trade rate.
    InvalidFeeRate,
    /// The two asset identities are not in strictly increasing order.
    InvalidMintOrder,
    /// The fee tier does not admit new pools.
    NotApproved,
    /// An amount or a reserve that has to be positive is zero.
    ZeroLiquidity,
    /// The requested feature is switched off for this pool.
    PoolDisabled,
    /// The pool does not trade before its opening time.
    PoolNotOpen,
    /// The liquidity that would result rounds to nothing, or the pool
    /// cannot pay out what was computed.
    InsufficientLiquidity,
    /// The holder owns less than the operation would take.
    InsufficientBalance,
    /// The output is below the minimum the caller accepts.
    SlippageExceeded,
    /// A quantity does not fit its width.
    ArithmeticOverflow,
    /// A subtraction would go below zero; accrued fees exceed what backs them.
    ArithmeticUnderflow,
    /// The caller is not the owner the record names.
    Unauthorized,
    /// Both accumulators are already empty.
    NothingToCollect,
}

/// The five families of failure; the caller decides by family whether to
/// adjust and retry or to give up.
#[derive(Clone, Copy, Debug, PartialEq, Eq, Structural)]
pub enum ErrorKind {
    Validation,
    Authorization,
    State,
    Arithmetic,
    Slippage,
}

impl ErrorCode {
    /// The family that each error belongs to.
    pub open spec fn spec_kind(self) -> ErrorKind {
        match self {
            ErrorCode::InvalidIndex => ErrorKind::Validation,
            ErrorCode::InvalidFeeRate => ErrorKind::Validation,
            ErrorCode::InvalidMintOrder => ErrorKind::Validation,
            ErrorCode::ZeroLiquidity => ErrorKind::Validation,
            ErrorCode::InsufficientLiquidity => ErrorKind::Validation,
            ErrorCode::InsufficientBalance => ErrorKind::Validation,
            ErrorCode::NothingToCollect => ErrorKind::Validation,
            ErrorCode::Unauthorized => ErrorKind::Authorization,
            ErrorCode::NotApproved => ErrorKind::State,
            ErrorCode::PoolDisabled => ErrorKind::State,
            ErrorCode::PoolNotOpen => ErrorKind::State,
            ErrorCode::ArithmeticOverflow => ErrorKind::Arithmetic,
            ErrorCode::ArithmeticUnderflow => ErrorKind::Arithmetic,
            ErrorCode::SlippageExceeded => ErrorKind::Slippage,
        }
    }

    /// The family of an error.
    pub fn kind(&self) -> (k: ErrorKind)
        ensures
            k == self.spec_kind(),
    {
        match self {
            ErrorCode::InvalidIndex
            | ErrorCode::InvalidFeeRate
            | ErrorCode::InvalidMintOrder
            | ErrorCode::ZeroLiquidity
            | ErrorCode::InsufficientLiquidity
            | ErrorCode::InsufficientBalance
            | ErrorCode::NothingToCollect => ErrorKind::Validation,
            ErrorCode::Unauthorized => ErrorKind::Authorization,
            ErrorCode::NotApproved | ErrorCode::PoolDisabled | ErrorCode::PoolNotOpen => ErrorKind::State,
            ErrorCode::ArithmeticOverflow | ErrorCode::ArithmeticUnderflow => ErrorKind::Arithmetic,
            ErrorCode::SlippageExceeded => ErrorKind::Slippage,
        }
    }

    /// True for the one family that a caller may answer by changing the
    /// request and trying again.
    pub fn is_retryable(&self) -> (b: bool)
        ensures
            b == (self.spec_kind() == ErrorKind::Slippage),
    {
        match self {
            ErrorCode::SlippageExceeded => true,
            _ => false,
        }
    }
}

} // verus!
