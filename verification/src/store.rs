use vstd::prelude::*;
use crate::error::Error;
use crate::identity::{AccountId, ContractId, Invoker};
use crate::record::{Record, StorageKey, Transfer};

verus! {

/// The state of one instance: no record before `init`, one record after.
///
/// The operations work on this value and never on the ledger. Whoever
/// keeps it on a ledger reads it before an operation and writes back the
/// state that the operation, or `settle` after a withdrawal, says to keep.
#[derive(Clone, Copy, Debug, PartialEq, Eq)]
pub struct Store {
    pub record: Option<Record>,
}

impl Store {
    /// The outcome of `init` on this state.
    pub open spec fn init_result(self, invoker: Invoker, amount: i128, step: u64) -> Result<
        (),
        Error,
    > {
        if self.record is Some {
            Err(Error::ContractAlreadyInitialized)
        } else if step == 0 {
            Err(Error::InvalidArguments)
        } else if amount * step == 0 {
            Err(Error::InvalidArguments)
        } else if !(invoker is Account) {
            Err(Error::InvalidInvoker)
        } else {
            Ok(())
        }
    }

    /// The state that `init` leaves.
    pub open spec fn after_init(
        self,
        invoker: Invoker,
        receiver: AccountId,
        token_id: ContractId,
        start_epoch: u64,
        amount: i128,
        step: u64,
    ) -> Store {
        if self.init_result(invoker, amount, step) is Ok {
            Store {
                record: Some(
                    Record::opened(
                        invoker->Account_0,
                        receiver,
                        token_id,
                        start_epoch,
                        amount,
                        step,
                    ),
                ),
            }
        } else {
            self
        }
    }

    /// The outcome of `withdraw` on this state at the clock reading `now`:
    /// the payment to make, or the first check that refuses it.
    pub open spec fn withdraw_result(self, invoker: Invoker, now: u64) -> Result<Transfer, Error> {
        match self.record {
            None => Err(Error::ContractNotInitialized),
            Some(rec) => if !(invoker is Account) {
                Err(Error::InvalidInvoker)
            } else if rec.start_epoch > now {
                Err(Error::PrematureFirstWithdraw)
            } else if rec.next_due() > now {
                Err(Error::ReceiverAlreadyWithdrawn)
            } else {
                Ok(rec.payment())
            },
        }
    }

    /// The state that `withdraw` leaves.
    pub open spec fn after_withdraw(self, invoker: Invoker, now: u64) -> Store {
        if self.withdraw_result(invoker, now) is Ok {
            Store { record: Some(self.record->Some_0.advanced()) }
        } else {
            self
        }
    }

    /// The outcome of `fix_amount` on this state.
    pub open spec fn fix_amount_result(self, amount: i128) -> Result<(), Error> {
        if amount == 0 {
            Err(Error::InvalidArguments)
        } else {
            match self.record {
                None => Err(Error::ContractNotInitialized),
                Some(rec) => if rec.amount == amount {
                    Err(Error::InvalidArguments)
                } else {
                    Ok(())
                },
            }
        }
    }

    /// The state that `fix_amount` leaves.
    pub open spec fn after_fix_amount(self, amount: i128) -> Store {
        if self.fix_amount_result(amount) is Ok {
            Store { record: Some(self.record->Some_0.with_amount(amount)) }
        } else {
            self
        }
    }

    /// What `withdraw` reports once the token service has answered: the
    /// refusal of the schedule if there was one, `InvalidAuth` if the
    /// schedule granted the payment and the token service did not make it,
    /// success if it did.
    pub open spec fn settled(granted: Result<Transfer, Error>, moved: bool) -> Result<(), Error> {
        match granted {
            Err(refusal) => Err(refusal),
            Ok(_) => if moved {
                Ok(())
            } else {
                Err(Error::InvalidAuth)
            },
        }
    }

    /// The state to keep once the token service has answered: the state
    /// that `withdraw` left if the payment was granted and made, and the
    /// state from before it in every other case.
    pub open spec fn kept(
        before: Store,
        after: Store,
        granted: Result<Transfer, Error>,
        moved: bool,
    ) -> Store {
        if Store::settled(granted, moved) is Ok {
            after
        } else {
            before
        }
    }

    /// What the check after a write of `amount` reports: success if the
    /// ledger, read again, holds exactly `amount`, and `ContractNotUpdated`
    /// if it holds another value or none.
    pub open spec fn confirmed(amount: i128, reread: Option<i128>) -> Result<(), Error> {
        if reread == Some(amount) {
            Ok(())
        } else {
            Err(Error::ContractNotUpdated)
        }
    }

    /// The state that seven fields read from the ledger amount to: the
    /// record made of them where all seven were found, and no record where
    /// any is missing.
    pub open spec fn assembled(
        sender: Option<[u8; 32]>,
        receiver: Option<[u8; 32]>,
        token_id: Option<[u8; 32]>,
        start_epoch: Option<u64>,
        amount: Option<i128>,
        step: Option<u64>,
        latest: Option<i128>,
    ) -> Store {
        if sender is Some && receiver is Some && token_id is Some && start_epoch is Some
            && amount is Some && step is Some && latest is Some {
            Store {
                record: Some(
                    Record {
                        sender: AccountId { key: sender->Some_0 },
                        receiver: AccountId { key: receiver->Some_0 },
                        token_id: ContractId { hash: token_id->Some_0 },
                        start_epoch: start_epoch->Some_0,
                        amount: amount->Some_0,
                        step: step->Some_0,
                        latest: latest->Some_0,
                    },
                ),
            }
        } else {
            Store { record: None }
        }
    }

    /// True when the state holds no record, or one that is on schedule.
    pub open spec fn on_schedule(self) -> bool {
        self.record matches Some(rec) ==> rec.on_schedule()
    }

    /// The state of an instance on which `init` has not run.
    pub fn new() -> (s: Store)
        ensures
            s.record is None,
    {
        Store { record: None }
    }

    /// Puts together what was read from the ledger, field by field. A
    /// record of which any field is missing counts as no record.
    pub fn assemble(
        sender: Option<[u8; 32]>,
        receiver: Option<[u8; 32]>,
        token_id: Option<[u8; 32]>,
        start_epoch: Option<u64>,
        amount: Option<i128>,
        step: Option<u64>,
        latest: Option<i128>,
    ) -> (s: Store)
        ensures
            s == Store::assembled(sender, receiver, token_id, start_epoch, amount, step, latest),
    {
        match (sender, receiver, token_id, start_epoch, amount, step, latest) {
            (
                Some(sender),
                Some(receiver),
                Some(token_id),
                Some(start_epoch),
                Some(amount),
                Some(step),
                Some(latest),
            ) => Store {
                record: Some(
                    Record {
                        sender: AccountId { key: sender },
                        receiver: AccountId { key: receiver },
                        token_id: ContractId { hash: token_id },
                        start_epoch,
                        amount,
                        step,
                        latest,
                    },
                ),
            },
            _ => Store { record: None },
        }
    }

    /// Whether the field is present. All seven are written together, so the
    /// answer is the same for each key.
    pub fn has(&self, key: StorageKey) -> (present: bool)
        ensures
            present == (self.record is Some),
    {
        self.record.is_some()
    }

    /// Tests an amount before anything is read: zero is refused with
    /// `InvalidArguments`, which is then the answer of `fix_amount` on every
    /// state.
    pub fn nonzero_amount(amount: i128) -> (r: Result<(), Error>)
        ensures
            r == if amount == 0 {
                Err::<(), Error>(Error::InvalidArguments)
            } else {
                Ok::<(), Error>(())
            },
            r is Err ==> forall|state: Store| #[trigger] state.fix_amount_result(amount) == r,
    {
        if amount == 0 {
            Err(Error::InvalidArguments)
        } else {
            Ok(())
        }
    }

    /// Closes a withdrawal once the token service has answered. `before` is
    /// the state on which `withdraw` decided, `after` the state it left,
    /// `granted` its result and `moved` the token service's answer.
    ///
    /// Returns what the withdrawal reports together with the state to keep:
    /// the state after, if the payment was granted and made, and the state
    /// before in every other case. A payment that was granted and not made
    /// is `InvalidAuth`, and leaves the cursor where it was.
    pub fn settle(before: Store, after: Store, granted: Result<Transfer, Error>, moved: bool) -> (out:
        (Result<(), Error>, Store))
        ensures
            out.0 == Store::settled(granted, moved),
            out.1 == Store::kept(before, after, granted, moved),
    {
        match granted {
            Err(refusal) => (Err(refusal), before),
            Ok(_) => if moved {
                (Ok(()), after)
            } else {
                (Err(Error::InvalidAuth), before)
            },
        }
    }

    /// Holds what was read back after a write of `amount` against it:
    /// `ContractNotUpdated` unless the ledger holds exactly `amount`.
    pub fn confirm(amount: i128, reread: Option<i128>) -> (r: Result<(), Error>)
        ensures
            r == Store::confirmed(amount, reread),
    {
        match reread {
            Some(found) => if found == amount {
                Ok(())
            } else {
                Err(Error::ContractNotUpdated)
            },
            None => Err(Error::ContractNotUpdated),
        }
    }
}

} // verus!
