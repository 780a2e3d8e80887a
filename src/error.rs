use vstd::prelude::*;

verus! {

/// The failure reasons of the balance guard.
#[derive(Clone, Copy, Debug, PartialEq, Eq, Structural)]
pub enum ErrorCode {
    InvalidOwner,
    InvalidAuthority,
    InvalidBalanceLen,
    InvalidSolBalance,
    InvalidTokenBalance,
}

impl ErrorCode {
    /// The stable numeric identifier of the code, counted from the custom
    /// error offset of the hosting framework.
    pub open spec fn spec_number(self) -> u32 {
        match self {
            ErrorCode::InvalidOwner => 6000,
            ErrorCode::InvalidAuthority => 6001,
            ErrorCode::InvalidBalanceLen => 6002,
            ErrorCode::InvalidSolBalance => 6003,
            ErrorCode::InvalidTokenBalance => 6004,
        }
    }

    pub fn number(&self) -> (r: u32)
        ensures
            r == self.spec_number(),
    {
        match self {
            ErrorCode::InvalidOwner => 6000,
            ErrorCode::InvalidAuthority => 6001,
            ErrorCode::InvalidBalanceLen => 6002,
            ErrorCode::InvalidSolBalance => 6003,
            ErrorCode::InvalidTokenBalance => 6004,
        }
    }

    /// A human-readable description of the failure.
    pub fn msg(&self) -> (r: &'static str)
        ensures
            *self == ErrorCode::InvalidOwner ==> r@ == "Owner doesn't match the SPL token program"@,
            *self == ErrorCode::InvalidAuthority ==> r@ == "Authority doesn't match the user"@,
            *self == ErrorCode::InvalidBalanceLen ==> r@
                == "Accounts length must match the given instruction balance length."@,
            *self == ErrorCode::InvalidSolBalance ==> r@ == "Unexpected SOL balance"@,
            *self == ErrorCode::InvalidTokenBalance ==> r@ == "Unexpected token balance"@,
    {
        match self {
            ErrorCode::InvalidOwner => "Owner doesn't match the SPL token program",
            ErrorCode::InvalidAuthority => "Authority doesn't match the user",
            ErrorCode::InvalidBalanceLen => "Accounts length must match the given instruction balance length.",
            ErrorCode::InvalidSolBalance => "Unexpected SOL balance",
            ErrorCode::InvalidTokenBalance => "Unexpected token balance",
        }
    }
}

/// What a failed balance check reports.
#[derive(Clone, Copy, Debug, PartialEq, Eq, Structural)]
pub enum AssertError {
    /// One of the guard's own checks failed.
    Code(ErrorCode),
    /// A supplied account could not be read as a token account.
    AccountDidNotDeserialize,
}

} // verus!
