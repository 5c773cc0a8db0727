use vstd::prelude::*;
use crate::error::Error;

verus! {

/// An account, named by the 32 bytes of its Ed25519 public key.
#[derive(Clone, Copy, Debug, PartialEq, Eq)]
pub struct AccountId {
    pub key: [u8; 32],
}

/// A contract, named by the 32 bytes of its hash. The funding asset is the
/// token contract with this name.
#[derive(Clone, Copy, Debug, PartialEq, Eq)]
pub struct ContractId {
    pub hash: [u8; 32],
}

/// Who is calling, as the invocation envelope resolved it.
#[derive(Clone, Copy, Debug, PartialEq, Eq)]
pub enum Invoker {
    /// An account: the only kind of caller that can fund a schedule or
    /// trigger a withdrawal.
    Account(AccountId),
    /// Another contract.
    Contract(ContractId),
    /// An address of a kind that is neither of the two.
    Unknown,
}

/// The account behind a caller: an account gives itself, any other caller is
/// refused with `InvalidInvoker`.
pub open spec fn account_of(invoker: Invoker) -> Result<AccountId, Error> {
    match invoker {
        Invoker::Account(id) => Ok(id),
        _ => Err(Error::InvalidInvoker),
    }
}

pub fn to_account(invoker: Invoker) -> (r: Result<AccountId, Error>)
    ensures
        r == account_of(invoker),
{
    match invoker {
        Invoker::Account(id) => Ok(id),
        _ => Err(Error::InvalidInvoker),
    }
}

} // verus!
