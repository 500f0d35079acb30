//! Closed error taxonomy of the handler.
//!
//! Every failure carries exactly one of these kinds and nothing else; each
//! kind has a stable numeric code that the hosting environment surfaces to
//! the caller. Errors are terminal: the handler never recovers, retries or
//! downgrades one.
use vstd::prelude::*;

verus! {

/// The closed set of failure kinds.
///
/// `MathOverflow`, `InvalidOffset` and `TypeCastFailed` are reserved taxonomy
/// entries: no path of the single currently defined instruction raises them,
/// but external capabilities and future opcodes may.
#[derive(Clone, Copy, Debug, PartialEq, Eq, Structural)]
pub enum AppError {
    InvalidInstruction,
    InvalidAccount,
    MathOverflow,
    InvalidOffset,
    InvalidSafeTransferParameters,
    TypeCastFailed,
    InvalidTokenProgram,
}

impl AppError {
    /// The stable numeric code of each kind, in declaration order.
    pub open spec fn spec_code(self) -> u32 {
        match self {
            AppError::InvalidInstruction => 0,
            AppError::InvalidAccount => 1,
            AppError::MathOverflow => 2,
            AppError::InvalidOffset => 3,
            AppError::InvalidSafeTransferParameters => 4,
            AppError::TypeCastFailed => 5,
            AppError::InvalidTokenProgram => 6,
        }
    }

    /// Numeric code under which the hosting environment reports this error.
    pub fn code(&self) -> (c: u32)
        ensures
            c == self.spec_code(),
    {
        match self {
            AppError::InvalidInstruction => 0,
            AppError::InvalidAccount => 1,
            AppError::MathOverflow => 2,
            AppError::InvalidOffset => 3,
            AppError::InvalidSafeTransferParameters => 4,
            AppError::TypeCastFailed => 5,
            AppError::InvalidTokenProgram => 6,
        }
    }
}

} // verus!
