use vstd::prelude::*;

verus! {

/// Why an operation on the authorization was refused.
#[derive(Copy, Clone, Debug, Eq, PartialEq, PartialOrd, Ord, Structural)]
pub enum Error {
    /// `init` was called on an instance that already holds a record.
    ContractAlreadyInitialized,
    /// `withdraw` or `fix_amount` was called before `init`.
    ContractNotInitialized,
    /// The token service refused the transfer that the schedule permitted.
    InvalidAuth,
    /// Less than one full step has passed since the schedule cursor.
    ReceiverAlreadyWithdrawn,
    /// The clock has not yet reached the start of the schedule.
    PrematureFirstWithdraw,
    /// The caller is not an account.
    InvalidInvoker,
    /// A zero step, a zero amount, or an amount equal to the stored one.
    InvalidArguments,
    /// The amount read back after a write is not the amount written.
    ContractNotUpdated,
}

impl Error {
    /// The number under which the error is reported to a caller of the
    /// contract: the variants are numbered from one, in declaration order.
    pub open spec fn spec_code(self) -> u32 {
        match self {
            Error::ContractAlreadyInitialized => 1,
            Error::ContractNotInitialized => 2,
            Error::InvalidAuth => 3,
            Error::ReceiverAlreadyWithdrawn => 4,
            Error::PrematureFirstWithdraw => 5,
            Error::InvalidInvoker => 6,
            Error::InvalidArguments => 7,
            Error::ContractNotUpdated => 8,
        }
    }

    #[verifier::when_used_as_spec(spec_code)]
    pub fn code(self) -> (n: u32)
        ensures
            n == self.spec_code(),
            1 <= n <= 8,
    {
        match self {
            Error::ContractAlreadyInitialized => 1,
            Error::ContractNotInitialized => 2,
            Error::InvalidAuth => 3,
            Error::ReceiverAlreadyWithdrawn => 4,
            Error::PrematureFirstWithdraw => 5,
            Error::InvalidInvoker => 6,
            Error::InvalidArguments => 7,
            Error::ContractNotUpdated => 8,
        }
    }

    /// The error with the given number, if there is one.
    pub fn from_code(n: u32) -> (e: Option<Error>)
        ensures
            e matches Some(err) ==> err.spec_code() == n,
            e is Some <==> 1 <= n <= 8,
    {
        match n {
            1 => Some(Error::ContractAlreadyInitialized),
            2 => Some(Error::ContractNotInitialized),
            3 => Some(Error::InvalidAuth),
            4 => Some(Error::ReceiverAlreadyWithdrawn),
            5 => Some(Error::PrematureFirstWithdraw),
            6 => Some(Error::InvalidInvoker),
            7 => Some(Error::InvalidArguments),
            8 => Some(Error::ContractNotUpdated),
            _ => None,
        }
    }
}

} // verus!
