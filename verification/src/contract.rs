use vstd::prelude::*;
use crate::error::Error;
use crate::identity::{to_account, AccountId, ContractId, Invoker};
use crate::record::{Record, Transfer};
use crate::store::Store;

verus! {

/// The engine: the three operations on the state of one instance.
pub struct RecurringRevenueContract;

/// The three operations. Each takes the state of the instance, and what the
/// invocation envelope and the ledger's clock gave, as plain values. None
/// reads a ledger or moves value: `withdraw` hands back the payment to make.
pub trait RecurringRevenueTrait {
    /// Sets the funding relationship up, once: the caller becomes the
    /// sender, and the cursor is seeded one step before `start_epoch`.
    fn init(
        store: &mut Store,
        invoker: Invoker,
        receiver: AccountId,
        token_id: ContractId,
        start_epoch: u64,
        amount: i128,
        step: u64,
    ) -> (r: Result<(), Error>)
        ensures
            r == old(store).init_result(invoker, amount, step),
            *final(store) == old(store).after_init(
                invoker,
                receiver,
                token_id,
                start_epoch,
                amount,
                step,
            ),
            old(store).on_schedule() ==> final(store).on_schedule(),
    ;

    /// Decides whether a payment is permitted at `now`. If it is, moves the
    /// cursor one step on and returns the payment to make; if not, leaves the
    /// state as it was. Whether the moved cursor is kept is for
    /// `Store::settle` to say, once the payment was tried.
    fn withdraw(store: &mut Store, invoker: Invoker, now: u64) -> (r: Result<Transfer, Error>)
        ensures
            r == old(store).withdraw_result(invoker, now),
            *final(store) == old(store).after_withdraw(invoker, now),
            old(store).on_schedule() ==> final(store).on_schedule(),
    ;

    /// Replaces the amount of every later payment. The schedule is not
    /// touched.
    fn fix_amount(store: &mut Store, amount: i128) -> (r: Result<(), Error>)
        ensures
            r == old(store).fix_amount_result(amount),
            *final(store) == old(store).after_fix_amount(amount),
            old(store).on_schedule() ==> final(store).on_schedule(),
    ;
}

impl RecurringRevenueTrait for RecurringRevenueContract {
    fn init(
        store: &mut Store,
        invoker: Invoker,
        receiver: AccountId,
        token_id: ContractId,
        start_epoch: u64,
        amount: i128,
        step: u64,
    ) -> (r: Result<(), Error>) {
        if store.record.is_some() {
            return Err(Error::ContractAlreadyInitialized);
        }
        if step == 0 {
            return Err(Error::InvalidArguments);
        }
        if amount == 0 {
            return Err(Error::InvalidArguments);
        }
        proof {
            assert(amount * step != 0) by (nonlinear_arith)
                requires
                    amount != 0,
                    step != 0,
            ;
        }
        let sender = match to_account(invoker) {
            Ok(id) => id,
            Err(refusal) => {
                return Err(refusal);
            },
        };
        let latest: i128 = start_epoch as i128 - step as i128;
        store.record = Some(
            Record { sender, receiver, token_id, start_epoch, amount, step, latest },
        );
        proof {
            crate::laws::lemma_opened_on_schedule(
                sender,
                receiver,
                token_id,
                start_epoch,
                amount,
                step,
            );
        }
        Ok(())
    }

    fn withdraw(store: &mut Store, invoker: Invoker, now: u64) -> (r: Result<Transfer, Error>) {
        let rec = match store.record {
            None => {
                return Err(Error::ContractNotInitialized);
            },
            Some(rec) => rec,
        };
        match to_account(invoker) {
            Ok(_) => {},
            Err(refusal) => {
                return Err(refusal);
            },
        }
        if rec.start_epoch > now {
            return Err(Error::PrematureFirstWithdraw);
        }
        let slack: i128 = now as i128 - rec.step as i128;
        if rec.latest > slack {
            return Err(Error::ReceiverAlreadyWithdrawn);
        }
        let latest: i128 = rec.latest + rec.step as i128;
        let order = Transfer {
            token_id: rec.token_id,
            from: rec.sender,
            to: rec.receiver,
            amount: rec.amount,
        };
        store.record = Some(
            Record {
                sender: rec.sender,
                receiver: rec.receiver,
                token_id: rec.token_id,
                start_epoch: rec.start_epoch,
                amount: rec.amount,
                step: rec.step,
                latest,
            },
        );
        proof {
            if rec.on_schedule() {
                crate::laws::lemma_advanced_on_schedule(rec);
            }
        }
        Ok(order)
    }

    fn fix_amount(store: &mut Store, amount: i128) -> (r: Result<(), Error>) {
        match Store::nonzero_amount(amount) {
            Ok(()) => {},
            Err(refusal) => {
                return Err(refusal);
            },
        }
        let rec = match store.record {
            None => {
                return Err(Error::ContractNotInitialized);
            },
            Some(rec) => rec,
        };
        if rec.amount == amount {
            return Err(Error::InvalidArguments);
        }
        store.record = Some(
            Record {
                sender: rec.sender,
                receiver: rec.receiver,
                token_id: rec.token_id,
                start_epoch: rec.start_epoch,
                amount,
                step: rec.step,
                latest: rec.latest,
            },
        );
        Ok(())
    }
}

} // verus!
