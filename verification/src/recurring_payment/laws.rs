//! What holds of the recurring payments as a whole, over any run of calls.

use crate::address::Address;
use crate::host::HostCall;
use crate::recurring_payment::model;
use crate::recurring_payment::model::Ledger;
use crate::recurring_payment::{
    Call, DataKey, Outward, RecurringError, RecurringPayment, RecurringStatus, Value,
};
use vstd::prelude::*;

verus! {

/// A call that can change the ledger. A handover is what the shared admin
/// library makes of the administrator.
pub enum Action {
    Initialize { admin: Address },
    Create {
        now: u64,
        payer: Address,
        recipient: Address,
        token: Address,
        amount: i128,
        interval_secs: u64,
        max_payments: Option<u32>,
    },
    Execute { now: u64, caller: Address, payment_id: u64 },
    Pause { payer: Address, payment_id: u64 },
    Resume { now: u64, payer: Address, payment_id: u64 },
    Cancel { payer: Address, payment_id: u64 },
    Handover { admin: Address, pending_admin: Option<Address> },
}

/// The ledger after an action.
pub open spec fn after(s: Ledger, action: Action) -> Ledger {
    match action {
        Action::Initialize { admin } => model::initialize(s, admin).state,
        Action::Create {
            now,
            payer,
            recipient,
            token,
            amount,
            interval_secs,
            max_payments,
        } => model::create(
            s,
            now,
            payer,
            recipient,
            token,
            amount,
            interval_secs,
            max_payments,
        ).state,
        Action::Execute { now, caller, payment_id } => model::execute(
            s,
            now,
            caller,
            payment_id,
        ).state,
        Action::Pause { payer, payment_id } => model::pause(s, payer, payment_id).state,
        Action::Resume { now, payer, payment_id } => model::resume(s, now, payer, payment_id).state,
        Action::Cancel { payer, payment_id } => model::cancel(s, payer, payment_id).state,
        Action::Handover { admin, pending_admin } => Ledger {
            admin: Some(admin),
            pending_admin,
            ..s
        },
    }
}

/// The ledger after a run of actions.
pub open spec fn run(s: Ledger, actions: Seq<Action>) -> Ledger
    decreases actions.len(),
{
    if actions.len() == 0 {
        s
    } else {
        after(run(s, actions.drop_last()), actions.last())
    }
}

/// Whether a payment is as the rules have it.
pub open spec fn sound(payment: RecurringPayment) -> bool {
    &&& payment.amount > 0
    &&& 0 < payment.interval_secs <= 31_536_000
    &&& payment.max_payments matches Some(max) ==> payment.total_payments <= max
    &&& payment.status != RecurringStatus::Failed
}

/// Whether a ledger is consistent: every id up to the latest is on file and no
/// other, each payment is filed under its own and is as the rules have it.
pub open spec fn consistent(s: Ledger) -> bool {
    &&& forall|id: u64| #[trigger]
        s.payments.contains_key(id) <==> 1 <= id <= s.last_payment_id()
    &&& forall|id: u64| #[trigger]
        s.payments.contains_key(id) ==> {
            &&& s.payments[id].payment_id == id
            &&& sound(s.payments[id])
        }
}

/// Whether the contract is not set up in the course of a run. Payments can be
/// made before it is, but setting it up starts the ids anew.
pub open spec fn no_fresh_start(s: Ledger, actions: Seq<Action>) -> bool {
    ||| s.admin is Some
    ||| forall|i: int| 0 <= i < actions.len() ==> #[trigger] actions[i] !is Initialize
}

/// A contract without payments is consistent before it has given out an id, and
/// once it is set up.
pub proof fn law_setup_is_consistent(s: Ledger, admin: Address)
    requires
        s.admin is None,
        s.payments =~= Map::empty(),
    ensures
        s.last_payment_id() == 0 ==> consistent(s),
        model::initialize(s, admin).value is Ok,
        consistent(model::initialize(s, admin).state),
{
}

proof fn lemma_no_fresh_start_before(s: Ledger, actions: Seq<Action>)
    requires
        actions.len() > 0,
        no_fresh_start(s, actions),
    ensures
        no_fresh_start(s, actions.drop_last()),
        s.admin is Some || actions.last() !is Initialize,
{
    if s.admin is None {
        let before = actions.drop_last();
        assert forall|i: int| 0 <= i < before.len() implies #[trigger] before[i] !is Initialize by {
            assert(before[i] == actions[i]);
        }
        assert(actions[actions.len() - 1] !is Initialize);
    }
}

proof fn lemma_stays_set_up(s: Ledger, actions: Seq<Action>)
    requires
        s.admin is Some,
    ensures
        run(s, actions).admin is Some,
    decreases actions.len(),
{
    if actions.len() > 0 {
        lemma_stays_set_up(s, actions.drop_last());
    }
}

proof fn lemma_action_keeps_consistency(s: Ledger, action: Action)
    requires
        consistent(s),
        s.admin is Some || action !is Initialize,
    ensures
        consistent(after(s, action)),
{
    let t = after(s, action);
    assert forall|id: u64| #[trigger]
        t.payments.contains_key(id) <==> 1 <= id <= t.last_payment_id() by {
        assert(s.payments.contains_key(id) <==> 1 <= id <= s.last_payment_id());
    }
    assert forall|id: u64| #[trigger] t.payments.contains_key(id) implies {
        &&& t.payments[id].payment_id == id
        &&& sound(t.payments[id])
    } by {
        if s.payments.contains_key(id) {
            assert(sound(s.payments[id]));
        }
    }
}

/// Every run of calls keeps a ledger consistent.
pub proof fn law_consistency_is_kept(s: Ledger, actions: Seq<Action>)
    requires
        consistent(s),
        no_fresh_start(s, actions),
    ensures
        consistent(run(s, actions)),
    decreases actions.len(),
{
    if actions.len() > 0 {
        lemma_no_fresh_start_before(s, actions);
        law_consistency_is_kept(s, actions.drop_last());
        if s.admin is Some {
            lemma_stays_set_up(s, actions.drop_last());
        }
        lemma_action_keeps_consistency(run(s, actions.drop_last()), actions.last());
    }
}

/// A contract that is set up cannot be set up again, whatever has been called
/// in between.
pub proof fn law_set_up_once(s: Ledger, actions: Seq<Action>, admin: Address)
    requires
        s.admin is Some,
    ensures
        model::initialize(run(s, actions), admin).value == Err::<(), RecurringError>(
            RecurringError::AlreadyInitialized,
        ),
    decreases actions.len(),
{
    if actions.len() > 0 {
        law_set_up_once(s, actions.drop_last(), admin);
    }
}

/// A new payment gets the next id, under which nothing stood.
pub proof fn law_new_payment_takes_nothing_over(
    s: Ledger,
    now: u64,
    payer: Address,
    recipient: Address,
    token: Address,
    amount: i128,
    interval_secs: u64,
    max_payments: Option<u32>,
)
    requires
        consistent(s),
    ensures
        model::create(
            s,
            now,
            payer,
            recipient,
            token,
            amount,
            interval_secs,
            max_payments,
        ).value matches Ok(id) ==> id == s.last_payment_id() + 1 && !s.payments.contains_key(id),
{
}

/// Whether two payments have the same terms.
pub open spec fn same_terms(a: RecurringPayment, b: RecurringPayment) -> bool {
    &&& a.payment_id == b.payment_id
    &&& a.payer == b.payer
    &&& a.recipient == b.recipient
    &&& a.token == b.token
    &&& a.amount == b.amount
    &&& a.interval_secs == b.interval_secs
    &&& a.max_payments == b.max_payments
    &&& a.created_at == b.created_at
}

/// No call removes a payment or alters its terms: who pays whom, in what, how
/// much, how often and how many times.
pub proof fn law_terms_are_fixed(s: Ledger, actions: Seq<Action>, id: u64)
    requires
        consistent(s),
        no_fresh_start(s, actions),
        s.payments.contains_key(id),
    ensures
        run(s, actions).payments.contains_key(id),
        same_terms(s.payments[id], run(s, actions).payments[id]),
    decreases actions.len(),
{
    if actions.len() > 0 {
        lemma_no_fresh_start_before(s, actions);
        law_terms_are_fixed(s, actions.drop_last(), id);
        law_consistency_is_kept(s, actions.drop_last());
    }
}

/// Whether `caller` may ask for a payment to be made: the payer, the recipient
/// and the administrator may.
pub open spec fn entitled(s: Ledger, caller: Address, id: u64) -> bool {
    ||| caller == s.payments[id].payer
    ||| caller == s.payments[id].recipient
    ||| s.admin == Some(caller)
}

/// A cancelled payment stays as it is, and is never made again: who could ask for
/// it is told that it is not active. Nor can it be paused or resumed.
pub proof fn law_cancelled_for_good(
    s: Ledger,
    actions: Seq<Action>,
    id: u64,
    now: u64,
    caller: Address,
)
    requires
        consistent(s),
        no_fresh_start(s, actions),
        s.payments.contains_key(id),
        s.payments[id].status == RecurringStatus::Cancelled,
    ensures
        run(s, actions).payments.contains_key(id),
        run(s, actions).payments[id] == s.payments[id],
        model::execute(run(s, actions), now, caller, id).value is Err,
        entitled(run(s, actions), caller, id) ==> model::execute(
            run(s, actions),
            now,
            caller,
            id,
        ).value == Err::<(), RecurringError>(RecurringError::NotActive),
        model::pause(run(s, actions), caller, id).value == Err::<(), RecurringError>(
            if caller == s.payments[id].payer {
                RecurringError::CannotPause
            } else {
                RecurringError::Unauthorized
            },
        ),
        model::resume(run(s, actions), now, caller, id).value == Err::<(), RecurringError>(
            if caller == s.payments[id].payer {
                RecurringError::NotPaused
            } else {
                RecurringError::Unauthorized
            },
        ),
    decreases actions.len(),
{
    if actions.len() > 0 {
        lemma_no_fresh_start_before(s, actions);
        law_cancelled_for_good(s, actions.drop_last(), id, now, caller);
        law_consistency_is_kept(s, actions.drop_last());
    }
}

/// The time at which an action takes place, where it looks at the clock.
pub open spec fn time_of(action: Action) -> Option<u64> {
    match action {
        Action::Create { now, .. } => Some(now),
        Action::Execute { now, .. } => Some(now),
        Action::Resume { now, .. } => Some(now),
        _ => None,
    }
}

/// Whether no action takes place before `start`.
pub open spec fn not_before(actions: Seq<Action>, start: u64) -> bool {
    forall|i: int|
        0 <= i < actions.len() ==> (time_of(#[trigger] actions[i]) matches Some(now) ==> start
            <= now)
}

proof fn lemma_due_no_earlier(s: Ledger, actions: Seq<Action>, id: u64, start: u64)
    requires
        consistent(s),
        no_fresh_start(s, actions),
        s.payments.contains_key(id),
        s.payments[id].next_payment >= start + s.payments[id].interval_secs,
        not_before(actions, start),
    ensures
        run(s, actions).payments.contains_key(id),
        run(s, actions).payments[id].interval_secs == s.payments[id].interval_secs,
        run(s, actions).payments[id].next_payment >= start + s.payments[id].interval_secs,
    decreases actions.len(),
{
    if actions.len() > 0 {
        lemma_no_fresh_start_before(s, actions);
        let before = actions.drop_last();
        assert forall|i: int| 0 <= i < before.len() implies (time_of(
            #[trigger] before[i],
        ) matches Some(now) ==> start <= now) by {
            assert(before[i] == actions[i]);
        }
        lemma_due_no_earlier(s, before, id, start);
        law_consistency_is_kept(s, before);
        let last = actions[actions.len() - 1];
        assert(time_of(last) matches Some(now) ==> start <= now);
    }
}

/// A payment is made at most once in an interval: where it was made at `now`,
/// and the clock does not run backwards, it is not made again before an
/// interval has passed.
pub proof fn law_an_interval_between_payments(
    s: Ledger,
    now: u64,
    caller: Address,
    id: u64,
    actions: Seq<Action>,
    then: u64,
    other_caller: Address,
)
    requires
        consistent(s),
        no_fresh_start(s, actions),
        model::execute(s, now, caller, id).value is Ok,
        not_before(actions, now),
        model::execute(
            run(model::execute(s, now, caller, id).state, actions),
            then,
            other_caller,
            id,
        ).value is Ok,
    ensures
        then >= now + s.payments[id].interval_secs,
{
    let paid = model::execute(s, now, caller, id).state;
    assert(paid == after(s, Action::Execute { now, caller, payment_id: id }));
    lemma_action_keeps_consistency(s, Action::Execute { now, caller, payment_id: id });
    lemma_due_no_earlier(paid, actions, id, now);
}

/// The first payment is not made before an interval has passed since it was set
/// up, where the clock does not run backwards.
pub proof fn law_an_interval_before_the_first_payment(
    s: Ledger,
    now: u64,
    payer: Address,
    recipient: Address,
    token: Address,
    amount: i128,
    interval_secs: u64,
    max_payments: Option<u32>,
    actions: Seq<Action>,
    then: u64,
    caller: Address,
)
    requires
        consistent(s),
        no_fresh_start(s, actions),
        not_before(actions, now),
    ensures
        ({
            let step = model::create(
                s,
                now,
                payer,
                recipient,
                token,
                amount,
                interval_secs,
                max_payments,
            );
            step.value matches Ok(id) ==> {
                &&& step.state.payments[id].created_at == now
                &&& model::execute(run(step.state, actions), then, caller, id).value is Ok ==> then
                    >= now + interval_secs
            }
        }),
{
    let create = Action::Create {
        now,
        payer,
        recipient,
        token,
        amount,
        interval_secs,
        max_payments,
    };
    let step = model::create(
        s,
        now,
        payer,
        recipient,
        token,
        amount,
        interval_secs,
        max_payments,
    );
    if step.value is Ok {
        assert(step.state == after(s, create));
        lemma_action_keeps_consistency(s, create);
        lemma_due_no_earlier(step.state, actions, step.value->Ok_0, now);
    }
}

/// What the clock showed last, in a run of calls that began when it showed
/// `start`.
pub open spec fn clock_after(start: u64, actions: Seq<Action>) -> u64
    decreases actions.len(),
{
    if actions.len() == 0 {
        start
    } else {
        match time_of(actions.last()) {
            Some(now) => now,
            None => clock_after(start, actions.drop_last()),
        }
    }
}

/// Whether the clock does not run backwards in a run of calls.
pub open spec fn clock_runs_forward(start: u64, actions: Seq<Action>) -> bool
    decreases actions.len(),
{
    actions.len() > 0 ==> {
        &&& clock_runs_forward(start, actions.drop_last())
        &&& time_of(actions.last()) matches Some(now) ==> clock_after(start, actions.drop_last())
            <= now
    }
}

/// Whether a payment is on schedule when the clock shows `clock`: it is due an
/// interval or more after it was last made, which was not before it was set up,
/// and an interval or less from now.
pub open spec fn on_schedule(payment: RecurringPayment, clock: u64) -> bool {
    &&& payment.created_at <= payment.last_payment
    &&& payment.last_payment + payment.interval_secs <= payment.next_payment
    &&& payment.next_payment <= clock + payment.interval_secs
}

/// Whether all payments are on schedule.
pub open spec fn all_on_schedule(s: Ledger, clock: u64) -> bool {
    forall|id: u64| #[trigger] s.payments.contains_key(id) ==> on_schedule(s.payments[id], clock)
}

/// Every run of calls keeps all payments on schedule, where the clock does not
/// run backwards.
pub proof fn law_schedule_is_kept(s: Ledger, start: u64, actions: Seq<Action>)
    requires
        all_on_schedule(s, start),
        clock_runs_forward(start, actions),
    ensures
        all_on_schedule(run(s, actions), clock_after(start, actions)),
    decreases actions.len(),
{
    if actions.len() > 0 {
        let before = run(s, actions.drop_last());
        let t = run(s, actions);
        let clock = clock_after(start, actions);
        law_schedule_is_kept(s, start, actions.drop_last());
        assert forall|id: u64| #[trigger] t.payments.contains_key(id) implies on_schedule(
            t.payments[id],
            clock,
        ) by {
            if before.payments.contains_key(id) {
                assert(on_schedule(
                    before.payments[id],
                    clock_after(start, actions.drop_last()),
                ));
            }
        }
    }
}

/// How often a payment is made in a run of calls.
pub open spec fn times_paid(s: Ledger, actions: Seq<Action>, id: u64) -> nat
    decreases actions.len(),
{
    if actions.len() == 0 {
        0
    } else {
        let before = run(s, actions.drop_last());
        let so_far = times_paid(s, actions.drop_last(), id);
        match actions.last() {
            Action::Execute { now, caller, payment_id } => if payment_id == id && model::execute(
                before,
                now,
                caller,
                payment_id,
            ).value is Ok {
                so_far + 1
            } else {
                so_far
            },
            _ => so_far,
        }
    }
}

/// The number of payments on file is how often the payment has been made.
pub proof fn law_payments_are_counted(s: Ledger, actions: Seq<Action>, id: u64)
    requires
        consistent(s),
        no_fresh_start(s, actions),
        s.payments.contains_key(id),
    ensures
        run(s, actions).payments.contains_key(id),
        run(s, actions).payments[id].total_payments == s.payments[id].total_payments + times_paid(
            s,
            actions,
            id,
        ),
    decreases actions.len(),
{
    if actions.len() > 0 {
        lemma_no_fresh_start_before(s, actions);
        law_payments_are_counted(s, actions.drop_last(), id);
        law_consistency_is_kept(s, actions.drop_last());
    }
}

/// A payment with a limit is made no more often than that.
pub proof fn law_limit_is_kept(s: Ledger, actions: Seq<Action>, id: u64)
    requires
        consistent(s),
        no_fresh_start(s, actions),
        s.payments.contains_key(id),
    ensures
        s.payments[id].max_payments matches Some(max) ==> s.payments[id].total_payments
            + times_paid(s, actions, id) <= max,
{
    law_payments_are_counted(s, actions, id);
    law_terms_are_fixed(s, actions, id);
    law_consistency_is_kept(s, actions);
    assert(sound(run(s, actions).payments[id]));
}

/// No schedule runs past the end of the clock: with a year to go, neither a new
/// payment nor one that is made or resumed has a due date that overflows.
pub proof fn law_schedules_do_not_overflow(
    s: Ledger,
    now: u64,
    caller: Address,
    id: u64,
    recipient: Address,
    token: Address,
    amount: i128,
    interval_secs: u64,
    max_payments: Option<u32>,
)
    requires
        consistent(s),
        now <= u64::MAX - 31_536_000,
    ensures
        model::create(
            s,
            now,
            caller,
            recipient,
            token,
            amount,
            interval_secs,
            max_payments,
        ).value != Err::<u64, RecurringError>(RecurringError::NextPaymentOverflow),
        model::execute(s, now, caller, id).value != Err::<(), RecurringError>(
            RecurringError::NextPaymentOverflow,
        ),
        model::resume(s, now, caller, id).value != Err::<(), RecurringError>(
            RecurringError::NextPaymentOverflow,
        ),
{
    if s.payments.contains_key(id) {
        assert(sound(s.payments[id]));
    }
}

/// Whether a request moves money.
pub open spec fn moves_money(call: Call) -> bool {
    call matches HostCall::Outward { request: Outward::TransferFrom { .. } }
}

/// A payment that is made moves the agreed amount of the agreed token from the
/// payer to the recipient, once; and it is one that is active and due, asked
/// for by the payer, the recipient or the administrator.
pub proof fn law_payment_moves_what_was_agreed(s: Ledger, now: u64, caller: Address, id: u64)
    requires
        model::execute(s, now, caller, id).value is Ok,
    ensures
        s.payments.contains_key(id),
        s.payments[id].status == RecurringStatus::Active,
        s.payments[id].next_payment <= now,
        caller == s.payments[id].payer || caller == s.payments[id].recipient || Some(caller)
            == s.admin,
        ({
            let calls = model::execute(s, now, caller, id).calls;
            &&& calls[2] matches HostCall::Outward {
                request: Outward::TransferFrom { token, from, to, amount },
            } && {
                &&& token == s.payments[id].token
                &&& from == s.payments[id].payer
                &&& to == s.payments[id].recipient
                &&& amount == s.payments[id].amount
            }
            &&& forall|i: int|
                0 <= i < calls.len() && i != 2 ==> !moves_money(#[trigger] calls[i])
        }),
{
}

/// A sum of money, and what a request moves on top of it.
pub open spec fn tally() -> spec_fn(int, Call) -> int {
    |sum: int, call: Call|
        match call {
            HostCall::Outward { request: Outward::TransferFrom { amount, .. } } => sum + amount,
            _ => sum,
        }
}

/// How much money some requests move.
pub open spec fn money_moved(calls: Seq<Call>) -> int {
    calls.fold_left(0, tally())
}

proof fn lemma_payment_moves_its_amount(s: Ledger, now: u64, caller: Address, id: u64)
    requires
        model::execute(s, now, caller, id).value is Ok,
    ensures
        money_moved(model::execute(s, now, caller, id).calls) == s.payments[id].amount,
{
    let calls = model::execute(s, now, caller, id).calls;
    let c0 = Seq::<Call>::empty();
    let c1 = c0.push(calls[0]);
    let c2 = c1.push(calls[1]);
    let c3 = c2.push(calls[2]);
    let c4 = c3.push(calls[3]);
    let c5 = c4.push(calls[4]);
    crate::host::lemma_replay_one(0, tally(), c0, calls[0]);
    crate::host::lemma_replay_one(0, tally(), c1, calls[1]);
    crate::host::lemma_replay_one(0, tally(), c2, calls[2]);
    crate::host::lemma_replay_one(0, tally(), c3, calls[3]);
    crate::host::lemma_replay_one(0, tally(), c4, calls[4]);
    crate::host::lemma_replay_one(0, tally(), c5, calls[5]);
    assert(calls =~= c5.push(calls[5]));
}

/// How much money a run of calls moves for a payment.
pub open spec fn charged(s: Ledger, actions: Seq<Action>, id: u64) -> int
    decreases actions.len(),
{
    if actions.len() == 0 {
        0
    } else {
        let before = run(s, actions.drop_last());
        let so_far = charged(s, actions.drop_last(), id);
        match actions.last() {
            Action::Execute { now, caller, payment_id } => {
                let step = model::execute(before, now, caller, payment_id);
                if payment_id == id && step.value is Ok {
                    so_far + money_moved(step.calls)
                } else {
                    so_far
                }
            },
            _ => so_far,
        }
    }
}

/// A run of calls charges the agreed amount for each time that the payment is
/// made, and no more.
pub proof fn law_the_agreed_amount_is_charged(s: Ledger, actions: Seq<Action>, id: u64)
    requires
        consistent(s),
        no_fresh_start(s, actions),
        s.payments.contains_key(id),
    ensures
        charged(s, actions, id) == times_paid(s, actions, id) * s.payments[id].amount,
    decreases actions.len(),
{
    let amount = s.payments[id].amount as int;
    if actions.len() == 0 {
        assert(0 * amount == 0);
    } else {
        let earlier = actions.drop_last();
        lemma_no_fresh_start_before(s, actions);
        law_the_agreed_amount_is_charged(s, earlier, id);
        law_terms_are_fixed(s, earlier, id);
        let n = times_paid(s, earlier, id) as int;
        assert((n + 1) * amount == n * amount + amount) by (nonlinear_arith);
        if let Action::Execute { now, caller, payment_id } = actions.last() {
            if payment_id == id && model::execute(run(s, earlier), now, caller, id).value is Ok {
                lemma_payment_moves_its_amount(run(s, earlier), now, caller, id);
            }
        }
    }
}

/// No call but the making of a payment moves money.
pub proof fn law_only_payments_move_money(
    s: Ledger,
    now: u64,
    caller: Address,
    id: u64,
    recipient: Address,
    token: Address,
    amount: i128,
    interval_secs: u64,
    max_payments: Option<u32>,
)
    ensures
        forall|i: int|
            0 <= i < model::initialize(s, caller).calls.len() ==> !moves_money(
                #[trigger] model::initialize(s, caller).calls[i],
            ),
        ({
            let calls = model::create(
                s,
                now,
                caller,
                recipient,
                token,
                amount,
                interval_secs,
                max_payments,
            ).calls;
            forall|i: int| 0 <= i < calls.len() ==> !moves_money(#[trigger] calls[i])
        }),
        forall|i: int|
            0 <= i < model::pause(s, caller, id).calls.len() ==> !moves_money(
                #[trigger] model::pause(s, caller, id).calls[i],
            ),
        forall|i: int|
            0 <= i < model::resume(s, now, caller, id).calls.len() ==> !moves_money(
                #[trigger] model::resume(s, now, caller, id).calls[i],
            ),
        forall|i: int|
            0 <= i < model::cancel(s, caller, id).calls.len() ==> !moves_money(
                #[trigger] model::cancel(s, caller, id).calls[i],
            ),
{
}

/// Whether a run of calls does not resume a payment.
pub open spec fn not_resumed(actions: Seq<Action>, id: u64) -> bool {
    forall|i: int|
        0 <= i < actions.len() ==> (#[trigger] actions[i] matches Action::Resume { payment_id, .. }
            ==> payment_id != id)
}

/// A paused payment is not made until it is resumed, whatever else is called:
/// who could ask for it is told that it is not active.
pub proof fn law_paused_until_resumed(
    s: Ledger,
    actions: Seq<Action>,
    id: u64,
    now: u64,
    caller: Address,
)
    requires
        consistent(s),
        no_fresh_start(s, actions),
        s.payments.contains_key(id),
        s.payments[id].status == RecurringStatus::Paused,
        not_resumed(actions, id),
    ensures
        run(s, actions).payments.contains_key(id),
        run(s, actions).payments[id].status == RecurringStatus::Paused || run(
            s,
            actions,
        ).payments[id].status == RecurringStatus::Cancelled,
        times_paid(s, actions, id) == 0,
        model::execute(run(s, actions), now, caller, id).value is Err,
        entitled(run(s, actions), caller, id) ==> model::execute(
            run(s, actions),
            now,
            caller,
            id,
        ).value == Err::<(), RecurringError>(RecurringError::NotActive),
    decreases actions.len(),
{
    if actions.len() > 0 {
        let before = actions.drop_last();
        lemma_no_fresh_start_before(s, actions);
        assert forall|i: int| 0 <= i < before.len() implies (
        #[trigger] before[i] matches Action::Resume { payment_id, .. } ==> payment_id != id) by {
            assert(before[i] == actions[i]);
        }
        law_paused_until_resumed(s, before, id, now, caller);
        law_consistency_is_kept(s, before);
        let last = actions[actions.len() - 1];
        assert(last matches Action::Resume { payment_id, .. } ==> payment_id != id);
    }
}

/// A paused payment is not made. Once it is resumed it is as before, but due a
/// full interval from then.
pub proof fn law_pause_and_resume(
    s: Ledger,
    payer: Address,
    id: u64,
    now: u64,
    caller: Address,
)
    requires
        model::pause(s, payer, id).value is Ok,
    ensures
        ({
            let paused = model::pause(s, payer, id).state;
            let resumed = model::resume(paused, now, payer, id);
            &&& model::execute(paused, now, caller, id).value is Err
            &&& entitled(s, caller, id) ==> model::execute(paused, now, caller, id).value == Err::<
                (),
                RecurringError,
            >(RecurringError::NotActive)
            &&& resumed.value is Ok <==> now + s.payments[id].interval_secs <= u64::MAX
            &&& resumed.value is Ok ==> resumed.state =~= s.with_payment(
                id,
                RecurringPayment {
                    next_payment: (now + s.payments[id].interval_secs) as u64,
                    ..s.payments[id]
                },
            )
        }),
{
}

/// A call for one payment leaves every other as it is.
pub proof fn law_other_payments_are_untouched(
    s: Ledger,
    now: u64,
    caller: Address,
    id: u64,
    other: u64,
)
    requires
        other != id,
    ensures
        model::payment(model::execute(s, now, caller, id).state, other) == model::payment(s, other),
        model::payment(model::pause(s, caller, id).state, other) == model::payment(s, other),
        model::payment(model::resume(s, now, caller, id).state, other) == model::payment(s, other),
        model::payment(model::cancel(s, caller, id).state, other) == model::payment(s, other),
{
}

/// A call that fails leaves the ledger as it was.
pub proof fn law_failure_changes_nothing(
    s: Ledger,
    now: u64,
    caller: Address,
    id: u64,
    recipient: Address,
    token: Address,
    amount: i128,
    interval_secs: u64,
    max_payments: Option<u32>,
)
    ensures
        model::initialize(s, caller).value is Err ==> model::initialize(s, caller).state == s,
        ({
            let step = model::create(
                s,
                now,
                caller,
                recipient,
                token,
                amount,
                interval_secs,
                max_payments,
            );
            step.value is Err ==> step.state == s
        }),
        model::execute(s, now, caller, id).value is Err ==> model::execute(
            s,
            now,
            caller,
            id,
        ).state == s,
        model::pause(s, caller, id).value is Err ==> model::pause(s, caller, id).state == s,
        model::resume(s, now, caller, id).value is Err ==> model::resume(
            s,
            now,
            caller,
            id,
        ).state == s,
        model::cancel(s, caller, id).value is Err ==> model::cancel(s, caller, id).state == s,
{
}

/// The ledger once the host has carried out a request.
pub open spec fn carried_out(s: Ledger, call: Call) -> Ledger {
    match call {
        HostCall::SetInstance { key: DataKey::Admin, value: Value::Address(admin) } => Ledger {
            admin: Some(admin),
            ..s
        },
        HostCall::SetInstance { key: DataKey::PaymentCounter, value: Value::Counter(counter) } =>
            Ledger { payment_counter: Some(counter), ..s },
        HostCall::SetPersistent { key: DataKey::Payment(id), value: Value::Payment(payment) } =>
            s.with_payment(id, payment),
        _ => s,
    }
}

/// What a request makes of a ledger.
pub open spec fn carrier() -> spec_fn(Ledger, Call) -> Ledger {
    |s: Ledger, call: Call| carried_out(s, call)
}

/// The ledger once the host has carried out some requests, one by one.
pub open spec fn replay(s: Ledger, calls: Seq<Call>) -> Ledger {
    crate::host::replay(s, carrier(), calls)
}

proof fn lemma_replay_filing(s: Ledger, calls: Seq<Call>, id: u64, payment: RecurringPayment)
    ensures
        replay(s, calls + model::filing(id, payment)) == replay(s, calls).with_payment(id, payment),
{
    crate::host::lemma_replay_filing(
        s,
        carrier(),
        calls,
        DataKey::Payment(id),
        Value::Payment(payment),
    );
}

/// What a call that succeeds asks the host to file is what the ledger then
/// holds.
pub proof fn law_requests_make_the_ledger(
    s: Ledger,
    now: u64,
    caller: Address,
    id: u64,
    recipient: Address,
    token: Address,
    amount: i128,
    interval_secs: u64,
    max_payments: Option<u32>,
)
    ensures
        model::initialize(s, caller).value is Ok ==> replay(s, model::initialize(s, caller).calls)
            == model::initialize(s, caller).state,
        ({
            let step = model::create(
                s,
                now,
                caller,
                recipient,
                token,
                amount,
                interval_secs,
                max_payments,
            );
            step.value is Ok ==> replay(s, step.calls) == step.state
        }),
        model::execute(s, now, caller, id).value is Ok ==> replay(
            s,
            model::execute(s, now, caller, id).calls,
        ) == model::execute(s, now, caller, id).state,
        model::pause(s, caller, id).value is Ok ==> replay(s, model::pause(s, caller, id).calls)
            == model::pause(s, caller, id).state,
        model::resume(s, now, caller, id).value is Ok ==> replay(
            s,
            model::resume(s, now, caller, id).calls,
        ) == model::resume(s, now, caller, id).state,
        model::cancel(s, caller, id).value is Ok ==> replay(s, model::cancel(s, caller, id).calls)
            == model::cancel(s, caller, id).state,
        replay(s, model::reading()) == s,
{
    let opened = crate::host::opening::<DataKey, Value, Outward>(caller);
    crate::host::lemma_replay_opening(s, carrier(), caller);
    let set_admin = HostCall::SetInstance {
        key: DataKey::Admin,
        value: Value::Address(caller),
    };
    let set_counter = HostCall::SetInstance {
        key: DataKey::PaymentCounter,
        value: Value::Counter(0),
    };
    crate::host::lemma_replay_one(s, carrier(), opened, set_admin);
    crate::host::lemma_replay_one(s, carrier(), opened.push(set_admin), set_counter);
    assert(opened + seq![set_admin, set_counter] =~= opened.push(set_admin).push(set_counter));
    let created = model::create(
        s,
        now,
        caller,
        recipient,
        token,
        amount,
        interval_secs,
        max_payments,
    );
    if created.value is Ok {
        let new_id = created.value->Ok_0;
        let payment = created.state.payments[new_id];
        lemma_replay_filing(s, opened, new_id, payment);
        crate::host::lemma_replay_one(
            s,
            carrier(),
            opened + model::filing(new_id, payment),
            HostCall::SetInstance {
                key: DataKey::PaymentCounter,
                value: Value::Counter(new_id),
            },
        );
    }
    let executed = model::execute(s, now, caller, id);
    if executed.value is Ok {
        let payment = s.payments[id];
        let paid = executed.state.payments[id];
        let transfer = executed.calls[2];
        crate::host::lemma_replay_one(s, carrier(), opened, transfer);
        lemma_replay_filing(s, opened.push(transfer), id, paid);
        crate::host::lemma_replay_one(
            s,
            carrier(),
            opened.push(transfer) + model::filing(id, paid),
            executed.calls.last(),
        );
        assert(executed.calls =~= (opened.push(transfer) + model::filing(id, paid)).push(
            executed.calls.last(),
        ));
    }
    let payment = s.payments[id];
    lemma_replay_filing(
        s,
        opened,
        id,
        RecurringPayment { status: RecurringStatus::Paused, ..payment },
    );
    lemma_replay_filing(
        s,
        opened,
        id,
        RecurringPayment {
            status: RecurringStatus::Active,
            next_payment: (now + payment.interval_secs) as u64,
            ..payment
        },
    );
    lemma_replay_filing(
        s,
        opened,
        id,
        RecurringPayment { status: RecurringStatus::Cancelled, ..payment },
    );
}

} // verus!
