use vstd::prelude::*;
use crate::error::Error;
use crate::identity::{AccountId, ContractId, Invoker};
use crate::record::{Record, Transfer};
use crate::store::Store;

verus! {

/// A record as `init` writes it, with a positive step and an amount other
/// than zero, is on schedule: its first payment is due at `start_epoch`, and
/// none has been made.
pub proof fn lemma_opened_on_schedule(
    sender: AccountId,
    receiver: AccountId,
    token_id: ContractId,
    start_epoch: u64,
    amount: i128,
    step: u64,
)
    requires
        step > 0,
        amount != 0,
    ensures
        Record::opened(sender, receiver, token_id, start_epoch, amount, step).on_schedule(),
        Record::opened(sender, receiver, token_id, start_epoch, amount, step).next_due()
            == start_epoch,
        Record::opened(sender, receiver, token_id, start_epoch, amount, step).periods_paid() == 0,
{
    let s = step as int;
    vstd::arithmetic::div_mod::lemma_small_mod(0, s as nat);
    vstd::arithmetic::div_mod::lemma_div_basics(s);
}

/// A record that is on schedule and moves its cursor one step on, without
/// leaving the range of the cursor, is on schedule again, one period further.
pub proof fn lemma_advanced_on_schedule(rec: Record)
    requires
        rec.on_schedule(),
        rec.next_due() <= i128::MAX,
    ensures
        rec.advanced().on_schedule(),
        rec.advanced().latest == rec.latest + rec.step,
        rec.advanced().periods_paid() == rec.periods_paid() + 1,
{
    let d = rec.next_due() - rec.start_epoch;
    let s = rec.step as int;
    vstd::arithmetic::div_mod::lemma_fundamental_div_mod(d, s);
    vstd::arithmetic::div_mod::lemma_fundamental_div_mod(d + s, s);
    vstd::arithmetic::div_mod::lemma_mod_add_multiples_vanish(d, s);
    vstd::arithmetic::div_mod::lemma_div_plus_one(d, s);
}

/// One call of `withdraw`: who calls, and what the clock reads.
pub struct Call {
    pub invoker: Invoker,
    pub now: u64,
}

/// The state after the calls of `withdraw` in `calls`, made in order.
pub open spec fn after_withdrawals(start: Store, calls: Seq<Call>) -> Store
    decreases calls.len(),
{
    if calls.len() == 0 {
        start
    } else {
        after_withdrawals(start, calls.drop_last()).after_withdraw(
            calls.last().invoker,
            calls.last().now,
        )
    }
}

/// True when every call of `withdraw` in `calls`, made in order, is granted.
pub open spec fn all_granted(start: Store, calls: Seq<Call>) -> bool
    decreases calls.len(),
{
    calls.len() == 0 || (all_granted(start, calls.drop_last()) && after_withdrawals(
        start,
        calls.drop_last(),
    ).withdraw_result(calls.last().invoker, calls.last().now) is Ok)
}

/// A granted withdrawal moves the cursor by exactly one step, orders the
/// record's payment, and changes no other field. On a record that is on
/// schedule the cursor strictly increases.
pub proof fn law_withdrawal_moves_cursor_one_step(before: Store, invoker: Invoker, now: u64)
    requires
        before.withdraw_result(invoker, now) is Ok,
    ensures
        before.record is Some,
        before.after_withdraw(invoker, now).record is Some,
        before.after_withdraw(invoker, now).record->Some_0.latest == before.record->Some_0.latest
            + before.record->Some_0.step,
        before.after_withdraw(invoker, now).record->Some_0 == (Record {
            latest: before.after_withdraw(invoker, now).record->Some_0.latest,
            ..before.record->Some_0
        }),
        before.withdraw_result(invoker, now) == Ok::<Transfer, Error>(
            before.record->Some_0.payment(),
        ),
        before.on_schedule() ==> before.after_withdraw(invoker, now).record->Some_0.latest
            > before.record->Some_0.latest,
{
}

/// After any sequence of granted withdrawals the cursor stands as many steps
/// further as there were withdrawals, and nothing else in the record has
/// changed.
pub proof fn law_withdrawals_move_cursor_by_steps(start: Store, calls: Seq<Call>)
    requires
        start.record is Some,
        all_granted(start, calls),
    ensures
        after_withdrawals(start, calls).record is Some,
        after_withdrawals(start, calls).record->Some_0.latest == start.record->Some_0.latest
            + calls.len() * start.record->Some_0.step,
        after_withdrawals(start, calls).record->Some_0 == (Record {
            latest: after_withdrawals(start, calls).record->Some_0.latest,
            ..start.record->Some_0
        }),
    decreases calls.len(),
{
    if calls.len() > 0 {
        let earlier = calls.drop_last();
        law_withdrawals_move_cursor_by_steps(start, earlier);
        let mid = after_withdrawals(start, earlier);
        law_withdrawal_moves_cursor_one_step(mid, calls.last().invoker, calls.last().now);
        let step = start.record->Some_0.step as int;
        assert(earlier.len() * step + step == calls.len() * step) by (nonlinear_arith)
            requires
                earlier.len() + 1 == calls.len(),
        ;
    }
}

/// A failed operation changes nothing: whenever `init`, `withdraw` or
/// `fix_amount` reports an error, the state is the one before the call.
pub proof fn law_failure_changes_nothing(
    before: Store,
    invoker: Invoker,
    receiver: AccountId,
    token_id: ContractId,
    start_epoch: u64,
    amount: i128,
    step: u64,
    now: u64,
)
    ensures
        before.init_result(invoker, amount, step) is Err ==> before.after_init(
            invoker,
            receiver,
            token_id,
            start_epoch,
            amount,
            step,
        ) == before,
        before.withdraw_result(invoker, now) is Err ==> before.after_withdraw(invoker, now)
            == before,
        before.fix_amount_result(amount) is Err ==> before.after_fix_amount(amount) == before,
{
}

/// Once per period. On a fresh instance set up by an account with a positive
/// step and an amount other than zero, a withdrawal at or after the start is
/// granted, and one that follows it before a full step has passed since the
/// start is refused with `ReceiverAlreadyWithdrawn`.
///
/// The second clock reading is bounded by the start plus one step, not by the
/// first reading plus one step: a first withdrawal that came a full step late
/// leaves the next period open at once.
pub proof fn law_once_per_period(
    sender: AccountId,
    receiver: AccountId,
    token_id: ContractId,
    start_epoch: u64,
    amount: i128,
    step: u64,
    first: Call,
    second: Call,
)
    requires
        step > 0,
        amount != 0,
        first.invoker is Account,
        second.invoker is Account,
        start_epoch <= first.now <= second.now,
        second.now < start_epoch + step,
    ensures
        ({
            let fresh = Store { record: None };
            let set_up = fresh.after_init(
                Invoker::Account(sender),
                receiver,
                token_id,
                start_epoch,
                amount,
                step,
            );
            let paid = set_up.after_withdraw(first.invoker, first.now);
            &&& fresh.init_result(Invoker::Account(sender), amount, step) is Ok
            &&& set_up.withdraw_result(first.invoker, first.now) is Ok
            &&& paid.withdraw_result(second.invoker, second.now) == Err::<Transfer, Error>(
                Error::ReceiverAlreadyWithdrawn,
            )
            &&& paid.after_withdraw(second.invoker, second.now) == paid
        }),
{
    assert(amount * step != 0) by (nonlinear_arith)
        requires
            amount != 0,
            step != 0,
    ;
}

/// Catch-up. When two full periods have passed since the cursor, two
/// withdrawals in succession are both granted, and together they order twice
/// the record's amount.
pub proof fn law_catch_up(before: Store, first: Call, second: Call)
    requires
        before.record is Some,
        first.invoker is Account,
        second.invoker is Account,
        before.record->Some_0.start_epoch <= first.now,
        before.record->Some_0.next_due() + before.record->Some_0.step <= first.now,
        first.now <= second.now,
    ensures
        ({
            let paid = before.after_withdraw(first.invoker, first.now);
            &&& before.withdraw_result(first.invoker, first.now) is Ok
            &&& paid.withdraw_result(second.invoker, second.now) is Ok
            &&& before.withdraw_result(first.invoker, first.now)->Ok_0.amount
                + paid.withdraw_result(second.invoker, second.now)->Ok_0.amount == 2
                * before.record->Some_0.amount
            &&& paid.after_withdraw(second.invoker, second.now).record->Some_0.latest
                == before.record->Some_0.latest + 2 * before.record->Some_0.step
        }),
{
}

/// Premature rejection. Before the start of the schedule every withdrawal
/// that an account asks for is refused with `PrematureFirstWithdraw`, and
/// the state stays as it was: no payment is ordered, whatever the balances
/// are.
pub proof fn law_premature_withdrawal_refused(before: Store, invoker: Invoker, now: u64)
    requires
        before.record is Some,
        invoker is Account,
        now < before.record->Some_0.start_epoch,
    ensures
        before.withdraw_result(invoker, now) == Err::<Transfer, Error>(
            Error::PrematureFirstWithdraw,
        ),
        before.after_withdraw(invoker, now) == before,
{
}

/// `init` works once. After a successful `init`, every further `init`,
/// whatever its arguments, fails with `ContractAlreadyInitialized` and
/// changes no field.
pub proof fn law_init_only_once(
    before: Store,
    invoker: Invoker,
    receiver: AccountId,
    token_id: ContractId,
    start_epoch: u64,
    amount: i128,
    step: u64,
    invoker2: Invoker,
    receiver2: AccountId,
    token_id2: ContractId,
    start_epoch2: u64,
    amount2: i128,
    step2: u64,
)
    requires
        before.init_result(invoker, amount, step) is Ok,
    ensures
        ({
            let set_up = before.after_init(invoker, receiver, token_id, start_epoch, amount, step);
            &&& set_up.record == Some(
                Record::opened(invoker->Account_0, receiver, token_id, start_epoch, amount, step),
            )
            &&& set_up.init_result(invoker2, amount2, step2) == Err::<(), Error>(
                Error::ContractAlreadyInitialized,
            )
            &&& set_up.after_init(invoker2, receiver2, token_id2, start_epoch2, amount2, step2)
                == set_up
        }),
{
}

/// A new amount counts from the next withdrawal on, and the schedule does
/// not move: after a successful `fix_amount` the cursor, the step and every
/// other field but the amount are as before, a withdrawal is granted at
/// exactly the clock readings at which it was granted before, and a granted
/// one orders the new amount.
pub proof fn law_new_amount_counts_from_next_withdrawal(
    before: Store,
    amount: i128,
    invoker: Invoker,
    now: u64,
)
    requires
        before.fix_amount_result(amount) is Ok,
    ensures
        ({
            let fixed = before.after_fix_amount(amount);
            &&& fixed.record == Some(Record { amount, ..before.record->Some_0 })
            &&& fixed.withdraw_result(invoker, now) is Ok <==> before.withdraw_result(
                invoker,
                now,
            ) is Ok
            &&& fixed.withdraw_result(invoker, now) is Err ==> fixed.withdraw_result(invoker, now)
                == before.withdraw_result(invoker, now)
            &&& fixed.withdraw_result(invoker, now) is Ok ==> fixed.withdraw_result(
                invoker,
                now,
            )->Ok_0 == (Transfer { amount, ..before.record->Some_0.payment() })
        }),
{
}

/// Zero guard. On an instance without a record, `init` with a step of zero
/// or an amount of zero fails with `InvalidArguments`. `fix_amount` with an
/// amount of zero fails with `InvalidArguments` on every state, and so does
/// `fix_amount` with the amount that the record already holds. None of them
/// changes the state.
pub proof fn law_zero_guard(
    state: Store,
    invoker: Invoker,
    receiver: AccountId,
    token_id: ContractId,
    start_epoch: u64,
    amount: i128,
    step: u64,
)
    ensures
        state.record is None && (step == 0 || amount == 0) ==> {
            &&& state.init_result(invoker, amount, step) == Err::<(), Error>(
                Error::InvalidArguments,
            )
            &&& state.after_init(invoker, receiver, token_id, start_epoch, amount, step) == state
        },
        state.fix_amount_result(0) == Err::<(), Error>(Error::InvalidArguments),
        state.after_fix_amount(0) == state,
        state.record matches Some(rec) ==> {
            &&& state.fix_amount_result(rec.amount) == Err::<(), Error>(Error::InvalidArguments)
            &&& state.after_fix_amount(rec.amount) == state
        },
{
    assert(amount == 0 ==> amount * step == 0) by (nonlinear_arith);
}

/// The operations keep a record on schedule: from a state that holds no
/// record, or one that is on schedule, each of them leads to such a state.
pub proof fn law_operations_keep_schedule(
    before: Store,
    invoker: Invoker,
    receiver: AccountId,
    token_id: ContractId,
    start_epoch: u64,
    amount: i128,
    step: u64,
    now: u64,
)
    requires
        before.on_schedule(),
    ensures
        before.after_init(invoker, receiver, token_id, start_epoch, amount, step).on_schedule(),
        before.after_withdraw(invoker, now).on_schedule(),
        before.after_fix_amount(amount).on_schedule(),
{
    if before.init_result(invoker, amount, step) is Ok {
        assert(amount != 0) by (nonlinear_arith)
            requires
                amount * step != 0,
        ;
        lemma_opened_on_schedule(
            invoker->Account_0,
            receiver,
            token_id,
            start_epoch,
            amount,
            step,
        );
    }
    if before.withdraw_result(invoker, now) is Ok {
        lemma_advanced_on_schedule(before.record->Some_0);
    }
}

/// The cursor moves only for a payment that was made. Whatever the token
/// service answers, a withdrawal reports success exactly when the schedule
/// granted the payment and the token service made it, and only then is the
/// state with the moved cursor the one to keep. A payment that was granted
/// and not made is reported as `InvalidAuth` and keeps the state from before,
/// so the same period can still be claimed; a withdrawal that the schedule
/// refused reports that refusal and keeps the state from before as well.
pub proof fn law_cursor_moves_only_with_payment(
    before: Store,
    invoker: Invoker,
    now: u64,
    moved: bool,
)
    ensures
        ({
            let granted = before.withdraw_result(invoker, now);
            let after = before.after_withdraw(invoker, now);
            let result = Store::settled(granted, moved);
            let kept = Store::kept(before, after, granted, moved);
            &&& result is Ok <==> granted is Ok && moved
            &&& granted is Ok && moved ==> kept == after && kept.record->Some_0.latest
                == before.record->Some_0.latest + before.record->Some_0.step
            &&& granted is Ok && !moved ==> result == Err::<(), Error>(Error::InvalidAuth) && kept
                == before && kept.withdraw_result(invoker, now) == granted
            &&& granted is Err ==> result == Err::<(), Error>(granted->Err_0) && kept == before
        }),
{
}

/// The amount that was written counts only once it was read back. After a
/// successful `fix_amount` the check of the value read again reports
/// success for exactly the new amount, and `ContractNotUpdated` for every
/// other value and for none.
pub proof fn law_written_amount_is_confirmed(amount: i128, reread: Option<i128>)
    ensures
        Store::confirmed(amount, reread) is Ok <==> reread == Some(amount),
        Store::confirmed(amount, reread) is Err ==> Store::confirmed(amount, reread) == Err::<
            (),
            Error,
        >(Error::ContractNotUpdated),
{
}

} // verus!
