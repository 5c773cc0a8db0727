use vstd::prelude::*;
use crate::identity::{AccountId, ContractId};

verus! {

/// The fields of the authorization record, as keys of the persisted store.
#[derive(Clone, Copy, Debug, PartialEq, Eq, Structural)]
pub enum StorageKey {
    Sender,
    Receiver,
    TokenId,
    StartEpoch,
    Amount,
    Step,
    Latest,
}

impl StorageKey {
    /// The number under which the field is kept in the ledger: the keys are
    /// numbered from zero, in declaration order.
    pub open spec fn spec_index(self) -> u32 {
        match self {
            StorageKey::Sender => 0,
            StorageKey::Receiver => 1,
            StorageKey::TokenId => 2,
            StorageKey::StartEpoch => 3,
            StorageKey::Amount => 4,
            StorageKey::Step => 5,
            StorageKey::Latest => 6,
        }
    }

    #[verifier::when_used_as_spec(spec_index)]
    pub fn index(self) -> (n: u32)
        ensures
            n == self.spec_index(),
            n < 7,
    {
        match self {
            StorageKey::Sender => 0,
            StorageKey::Receiver => 1,
            StorageKey::TokenId => 2,
            StorageKey::StartEpoch => 3,
            StorageKey::Amount => 4,
            StorageKey::Step => 5,
            StorageKey::Latest => 6,
        }
    }
}

/// One payment: `amount` of the asset `token_id`, out of `from` and into `to`.
#[derive(Clone, Copy, Debug, PartialEq, Eq)]
pub struct Transfer {
    pub token_id: ContractId,
    pub from: AccountId,
    pub to: AccountId,
    pub amount: i128,
}

/// The authorization record: one funding relationship.
///
/// `latest` is the schedule cursor. It is no reading of the clock: it starts
/// one step before `start_epoch` and moves by one step with every payment, so
/// it can lie before the epoch and is held as a signed integer.
#[derive(Clone, Copy, Debug, PartialEq, Eq)]
pub struct Record {
    pub sender: AccountId,
    pub receiver: AccountId,
    pub token_id: ContractId,
    pub start_epoch: u64,
    pub amount: i128,
    pub step: u64,
    pub latest: i128,
}

impl Record {
    /// The earliest instant at which the next payment is permitted.
    pub open spec fn next_due(self) -> int {
        self.latest + self.step
    }

    /// How many payments the cursor has gone through, where the record is
    /// on schedule.
    pub open spec fn periods_paid(self) -> int {
        (self.next_due() - self.start_epoch) / (self.step as int)
    }

    /// What the operations keep true of a record: a positive step, an amount
    /// other than zero, and a cursor that stands a whole number of steps, at
    /// least none, after its first position.
    pub open spec fn on_schedule(self) -> bool {
        &&& self.step > 0
        &&& self.amount != 0
        &&& self.next_due() >= self.start_epoch
        &&& (self.next_due() - self.start_epoch) % (self.step as int) == 0
    }

    /// The payment that the record permits once it is due.
    pub open spec fn payment(self) -> Transfer {
        Transfer {
            token_id: self.token_id,
            from: self.sender,
            to: self.receiver,
            amount: self.amount,
        }
    }

    /// The record as `init` writes it: the cursor one step before the start.
    pub open spec fn opened(
        sender: AccountId,
        receiver: AccountId,
        token_id: ContractId,
        start_epoch: u64,
        amount: i128,
        step: u64,
    ) -> Record {
        Record {
            sender,
            receiver,
            token_id,
            start_epoch,
            amount,
            step,
            latest: (start_epoch - step) as i128,
        }
    }

    /// The record after one payment: the cursor one step further, counted
    /// from the cursor and not from the clock.
    pub open spec fn advanced(self) -> Record {
        Record { latest: (self.latest + self.step) as i128, ..self }
    }

    /// The record with another amount, and nothing else changed.
    pub open spec fn with_amount(self, amount: i128) -> Record {
        Record { amount, ..self }
    }
}

} // verus!
