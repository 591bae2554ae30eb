use vstd::prelude::*;

verus! {

/// Why the pool refused a request.
#[derive(Clone, Copy, Debug, PartialEq, Eq, Structural)]
pub enum ErrorCode {
    PoolLocked,
    InvalidAmount,
    SlippageExceeded,
    Unauthorized,
    NoAuthority,
}

impl ErrorCode {
    /// The human-readable message attached to each error.
    pub open spec fn spec_message(self) -> Seq<char> {
        match self {
            ErrorCode::PoolLocked => "The pool is currently locked"@,
            ErrorCode::InvalidAmount => "Invalid amount, must be greater than 0"@,
            ErrorCode::SlippageExceeded => "Slippage exceeded"@,
            ErrorCode::Unauthorized => "Unauthorized"@,
            ErrorCode::NoAuthority => "No authority set for this pool"@,
        }
    }

    pub fn message(&self) -> (m: &'static str)
        ensures
            m@ == self.spec_message(),
    {
        match self {
            ErrorCode::PoolLocked => "The pool is currently locked",
            ErrorCode::InvalidAmount => "Invalid amount, must be greater than 0",
            ErrorCode::SlippageExceeded => "Slippage exceeded",
            ErrorCode::Unauthorized => "Unauthorized",
            ErrorCode::NoAuthority => "No authority set for this pool",
        }
    }
}

} // verus!
