//! What holds of the escrow over every sequence of calls.
//!
//! A history is a list of calls, each with the facts the host supplied for
//! it. The laws below are proved for every history from every sound
//! escrow, so they hold of whatever parties and hosts do.

use vstd::prelude::*;
use crate::consultation::{CallContext, Consultation, ConsultationStatus, Error, FeeConfig};
use crate::escrow::{EscrowModel, TransferOutcome};
use crate::identity::AccountId;
use crate::settlement::{
    cancellation_payout, cancellation_refund, fee_of, lemma_total_one, lemma_total_two,
    release_payout, release_shares, total, Transfer,
};
use crate::timing::{notice_given, remaining, CANCELLATION_NOTICE};
use crate::transitions::{
    edge, entitled, lemma_payout_is_the_locked_amount, lemma_terminal_rejects,
    lemma_transition_follows_the_table, lemma_transition_moves_forward, Action,
};

verus! {

/// One call to the escrow.
pub enum Call {
    /// A booking.
    Book { doctor: AccountId, scheduled_time: u64 },
    /// A booking that asks for a verified doctor.
    BookVerified { doctor: AccountId, scheduled_time: u64, doctor_verified: bool },
    /// An action on a consultation, with what the host reports of its
    /// transfers.
    Perform { id: u64, action: Action, outcome: TransferOutcome },
    /// A change of the fee.
    UpdateFee { new_fee_percent: u8 },
    /// The host takes the notifications.
    TakeEvents,
}

/// A call together with the facts of the call.
pub struct Request {
    pub ctx: CallContext,
    pub call: Call,
}

/// The escrow after one call.
pub open spec fn step(s: EscrowModel, request: Request) -> EscrowModel {
    match request.call {
        Call::Book { doctor, scheduled_time } => s.booked(request.ctx, doctor, scheduled_time),
        Call::BookVerified { doctor, scheduled_time, doctor_verified } => if doctor_verified {
            s.booked(request.ctx, doctor, scheduled_time)
        } else {
            s
        },
        Call::Perform { id, action, outcome } => s.after(request.ctx, id, action, outcome),
        Call::UpdateFee { new_fee_percent } => s.with_fee(request.ctx, new_fee_percent),
        Call::TakeEvents => EscrowModel { events: Seq::empty(), ..s },
    }
}

/// The escrow after a history of calls.
pub open spec fn run(s: EscrowModel, history: Seq<Request>) -> EscrowModel
    decreases history.len(),
{
    if history.len() == 0 {
        s
    } else {
        step(run(s, history.drop_last()), history.last())
    }
}

/// What was paid out for consultation `id` by one call.
pub open spec fn paid_by(s: EscrowModel, request: Request, id: u64) -> int {
    match request.call {
        Call::Perform { id: target, action, outcome } => if target == id {
            match s.settled(request.ctx, id, action, outcome) {
                Ok(effect) => total(effect.transfers),
                Err(_) => 0,
            }
        } else {
            0
        },
        _ => 0,
    }
}

/// What was paid out for consultation `id` over a history.
pub open spec fn paid_out(s: EscrowModel, history: Seq<Request>, id: u64) -> int
    decreases history.len(),
{
    if history.len() == 0 {
        0
    } else {
        paid_out(s, history.drop_last(), id) + paid_by(
            run(s, history.drop_last()),
            history.last(),
            id,
        )
    }
}

/// One record follows another in the lifecycle of the same consultation.
pub open spec fn succeeds(later: Consultation, earlier: Consultation) -> bool {
    &&& later.id == earlier.id
    &&& later.patient == earlier.patient
    &&& later.doctor == earlier.doctor
    &&& later.amount == earlier.amount
    &&& later.scheduled_time == earlier.scheduled_time
    &&& later.created_at == earlier.created_at
    &&& later.status.rank() >= earlier.status.rank()
    &&& earlier.completed_at.is_some() ==> later.completed_at == earlier.completed_at
        && later.notes_ipfs_hash == earlier.notes_ipfs_hash
    &&& earlier.status.is_terminal() ==> later == earlier
}

/// One call keeps the escrow sound, never lowers the identifier counter,
/// and keeps every consultation, moved forward at most.
pub proof fn lemma_step(s: EscrowModel, request: Request)
    requires
        s.wf(),
    ensures
        step(s, request).wf(),
        step(s, request).next_id >= s.next_id,
        forall|id: u64|
            s.record(id).is_some() ==> step(s, request).record(id).is_some() && succeeds(
                #[trigger] step(s, request).record(id).unwrap(),
                s.record(id).unwrap(),
            ),
{
    match request.call {
        Call::Perform { id, action, outcome } => {
            if s.settled(request.ctx, id, action, outcome).is_ok() {
                let record = s.record(id).unwrap();
                lemma_transition_moves_forward(
                    record,
                    action,
                    request.ctx.caller,
                    request.ctx.block_timestamp,
                    s.fees,
                );
                if record.status.is_terminal() {
                    lemma_terminal_rejects(
                        record,
                        action,
                        request.ctx.caller,
                        request.ctx.block_timestamp,
                        s.fees,
                    );
                }
            }
        },
        _ => {},
    }
}

/// Every history keeps the escrow sound, never lowers the identifier
/// counter, and keeps every consultation, moved forward at most.
pub proof fn lemma_run(s: EscrowModel, history: Seq<Request>)
    requires
        s.wf(),
    ensures
        run(s, history).wf(),
        run(s, history).next_id >= s.next_id,
        forall|id: u64|
            s.record(id).is_some() ==> run(s, history).record(id).is_some() && succeeds(
                #[trigger] run(s, history).record(id).unwrap(),
                s.record(id).unwrap(),
            ),
    decreases history.len(),
{
    if history.len() > 0 {
        let before = run(s, history.drop_last());
        lemma_run(s, history.drop_last());
        lemma_step(before, history.last());
        assert forall|id: u64| s.record(id).is_some() implies run(s, history).record(
            id,
        ).is_some() && succeeds(
            #[trigger] run(s, history).record(id).unwrap(),
            s.record(id).unwrap(),
        ) by {
            assert(succeeds(
                step(before, history.last()).record(id).unwrap(),
                before.record(id).unwrap(),
            ));
        }
    }
}

/// A booking answers with an identifier that no consultation has, larger
/// than every identifier in use, and creates under it a pending record
/// whose amount is the attached payment, which is positive. No other
/// record changes.
pub proof fn law_booking_assigns_fresh_id(
    s: EscrowModel,
    ctx: CallContext,
    doctor: AccountId,
    scheduled_time: u64,
)
    requires
        s.wf(),
        s.booking(ctx).is_ok(),
    ensures
        ({
            let id = s.booking(ctx).unwrap();
            let next = s.booked(ctx, doctor, scheduled_time);
            &&& s.record(id).is_none()
            &&& forall|other: u64| #[trigger] s.record(other).is_some() ==> other < id
            &&& next.record(id) == Some(s.new_record(ctx, doctor, scheduled_time))
            &&& next.record(id).unwrap().amount == ctx.transferred_value
            &&& next.record(id).unwrap().status == ConsultationStatus::Pending
            &&& ctx.transferred_value > 0
            &&& next.next_id == id + 1
            &&& forall|other: u64| other != id ==> #[trigger] next.record(other) == s.record(other)
        }),
{
}

/// Identifiers strictly increase: whatever happens between two bookings,
/// the later one gets the larger identifier.
pub proof fn law_ids_strictly_increase(
    s: EscrowModel,
    first: CallContext,
    first_doctor: AccountId,
    first_time: u64,
    between: Seq<Request>,
    second: CallContext,
)
    requires
        s.wf(),
        s.booking(first).is_ok(),
        run(s.booked(first, first_doctor, first_time), between).booking(second).is_ok(),
    ensures
        run(s.booked(first, first_doctor, first_time), between).booking(second).unwrap()
            > s.booking(first).unwrap(),
{
    let booked = s.booked(first, first_doctor, first_time);
    lemma_step(
        s,
        Request {
            ctx: first,
            call: Call::Book { doctor: first_doctor, scheduled_time: first_time },
        },
    );
    lemma_run(booked, between);
}

/// The locked amount and the parties of a consultation never change, and
/// its status only moves forward.
pub proof fn law_record_only_moves_forward(s: EscrowModel, history: Seq<Request>, id: u64)
    requires
        s.wf(),
        s.record(id).is_some(),
    ensures
        run(s, history).record(id).is_some(),
        succeeds(run(s, history).record(id).unwrap(), s.record(id).unwrap()),
        run(s, history).record(id).unwrap().amount > 0,
{
    lemma_run(s, history);
}

/// Terminality: once a consultation is released, refunded, cancelled or a
/// no-show, every action on it is rejected, and its record stays as it is
/// through every history.
pub proof fn law_terminal_is_final(
    s: EscrowModel,
    history: Seq<Request>,
    id: u64,
    ctx: CallContext,
    action: Action,
    outcome: TransferOutcome,
)
    requires
        s.wf(),
        s.record(id).is_some(),
        s.record(id).unwrap().status.is_terminal(),
    ensures
        s.answer(ctx, id, action, outcome).is_err(),
        run(s, history).record(id) == s.record(id),
{
    lemma_terminal_rejects(s.record(id).unwrap(), action, ctx.caller, ctx.block_timestamp, s.fees);
    lemma_run(s, history);
}

/// Atomicity: an operation that is rejected, for whatever reason, leaves
/// the escrow exactly as it was; and an operation whose staged transfers
/// the host could not make is rejected.
pub proof fn law_rejected_changes_nothing(
    s: EscrowModel,
    ctx: CallContext,
    id: u64,
    action: Action,
    outcome: TransferOutcome,
)
    ensures
        s.answer(ctx, id, action, outcome).is_err() ==> s.after(ctx, id, action, outcome) == s,
        s.plan(ctx, id, action).is_ok() && s.plan(ctx, id, action).unwrap().transfers.len() > 0
            && outcome == TransferOutcome::Failed ==> s.answer(ctx, id, action, outcome) == Err::<
            (),
            Error,
        >(Error::TransferFailed) && s.after(ctx, id, action, outcome) == s,
{
}

/// The transition table is all there is: an operation that goes through
/// moved its consultation along an edge of the lifecycle, at the request of
/// a caller entitled to it, and touched no other consultation.
pub proof fn law_operations_follow_the_table(
    s: EscrowModel,
    ctx: CallContext,
    id: u64,
    action: Action,
    outcome: TransferOutcome,
)
    requires
        s.wf(),
        s.answer(ctx, id, action, outcome).is_ok(),
    ensures
        s.record(id).is_some(),
        s.after(ctx, id, action, outcome).record(id).is_some(),
        edge(
            s.record(id).unwrap().status,
            action,
            s.after(ctx, id, action, outcome).record(id).unwrap().status,
        ),
        entitled(s.record(id).unwrap(), action, ctx.caller, ctx.block_timestamp, s.fees),
        forall|other: u64|
            other != id ==> #[trigger] s.after(ctx, id, action, outcome).record(other)
                == s.record(other),
{
    lemma_transition_follows_the_table(
        s.record(id).unwrap(),
        action,
        ctx.caller,
        ctx.block_timestamp,
        s.fees,
    );
}

/// One notification per commit: an operation that goes through leaves
/// exactly one notification, except the start of a consultation, which
/// leaves none; whatever it leaves comes after those already there.
pub proof fn law_one_notification_per_commit(
    s: EscrowModel,
    ctx: CallContext,
    id: u64,
    action: Action,
    outcome: TransferOutcome,
)
    requires
        s.answer(ctx, id, action, outcome).is_ok(),
    ensures
        action == Action::Start ==> s.after(ctx, id, action, outcome).events == s.events,
        action != Action::Start ==> s.after(ctx, id, action, outcome).events.len()
            == s.events.len() + 1 && s.after(ctx, id, action, outcome).events.drop_last()
            == s.events,
{
}

/// A change of the fee touches no consultation, settled or not.
pub proof fn law_fee_update_touches_no_record(
    s: EscrowModel,
    ctx: CallContext,
    new_fee_percent: u8,
)
    ensures
        s.with_fee(ctx, new_fee_percent).records == s.records,
        s.with_fee(ctx, new_fee_percent).next_id == s.next_id,
        s.fee_update(ctx).is_err() ==> s.with_fee(ctx, new_fee_percent) == s,
{
}

/// The dispute window parts the two: at no time can the patient contest a
/// consultation that someone other than the administrator can release.
pub proof fn law_dispute_excludes_free_release(
    record: Consultation,
    patient: AccountId,
    releaser: AccountId,
    now: u64,
    fees: FeeConfig,
)
    requires
        releaser != fees.owner,
    ensures
        !(record.disputed(patient, now).is_ok() && record.released(releaser, now, fees).is_ok()),
{
}

/// A rejected booking leaves the escrow exactly as it was.
pub proof fn law_rejected_booking_changes_nothing(
    s: EscrowModel,
    ctx: CallContext,
    doctor: AccountId,
    scheduled_time: u64,
)
    ensures
        s.booking(ctx).is_err() ==> s.booked(ctx, doctor, scheduled_time) == s,
{
}

/// A release splits the amount exactly: for a fee of at most 100 percent
/// whose product with the amount can be computed, the release is staged,
/// the fee is the percentage rounded down, and the two shares add up to
/// the amount.
pub proof fn law_release_splits_exactly(amount: u128, fee_percent: u8)
    requires
        fee_percent <= 100,
        amount * fee_percent <= u128::MAX,
    ensures
        release_shares(amount, fee_percent).is_ok(),
        release_shares(amount, fee_percent).unwrap().1 == fee_of(amount, fee_percent),
        release_shares(amount, fee_percent).unwrap().0 + release_shares(
            amount,
            fee_percent,
        ).unwrap().1 == amount,
{
    assert(amount * fee_percent <= amount * 100) by (nonlinear_arith)
        requires
            fee_percent <= 100,
            amount >= 0,
    ;
    assert((amount * fee_percent) / 100 <= amount) by (nonlinear_arith)
        requires
            amount * fee_percent <= amount * 100,
            amount * fee_percent >= 0,
    ;
    assert(amount * fee_percent >= 0) by (nonlinear_arith)
        requires
            amount >= 0,
            fee_percent >= 0,
    ;
}

/// Whenever a release is staged, its shares add up to the amount, and so
/// do the transfers it asks for.
pub proof fn law_release_pays_the_amount(
    amount: u128,
    fee_percent: u8,
    doctor: AccountId,
    platform_wallet: AccountId,
)
    requires
        release_shares(amount, fee_percent).is_ok(),
    ensures
        ({
            let shares = release_shares(amount, fee_percent).unwrap();
            &&& shares.0 + shares.1 == amount
            &&& total(release_payout(doctor, platform_wallet, shares.0, shares.1)) == amount
        }),
{
    let shares = release_shares(amount, fee_percent).unwrap();
    lemma_total_one(Transfer { to: doctor, amount: shares.0 });
    lemma_total_two(
        Transfer { to: doctor, amount: shares.0 },
        Transfer { to: platform_wallet, amount: shares.1 },
    );
}

/// A cancellation splits the amount exactly: the patient gets everything
/// when more than 24 hours remain, else half, rounded down; the doctor
/// gets the rest; the transfers add up to the amount.
pub proof fn law_cancellation_splits_exactly(
    amount: u128,
    scheduled_time: u64,
    now: u64,
    patient: AccountId,
    doctor: AccountId,
)
    ensures
        ({
            let refund = cancellation_refund(amount, scheduled_time, now);
            let payout = cancellation_payout(patient, doctor, amount, refund);
            &&& remaining(scheduled_time, now) > CANCELLATION_NOTICE ==> refund == amount
            &&& remaining(scheduled_time, now) <= CANCELLATION_NOTICE ==> refund == amount / 2
            &&& notice_given(scheduled_time, now) == (remaining(scheduled_time, now)
                > CANCELLATION_NOTICE)
            &&& payout[0] == Transfer { to: patient, amount: refund }
            &&& refund < amount ==> payout.len() == 2 && payout[1] == Transfer {
                to: doctor,
                amount: (amount - refund) as u128,
            }
            &&& refund == amount ==> payout.len() == 1
            &&& total(payout) == amount
        }),
{
    let refund = cancellation_refund(amount, scheduled_time, now);
    lemma_total_one(Transfer { to: patient, amount: refund });
    lemma_total_two(
        Transfer { to: patient, amount: refund },
        Transfer { to: doctor, amount: (amount - refund) as u128 },
    );
}

/// One settlement per consultation: over every history, what was paid
/// out for a consultation that had not ended at the start is its whole
/// locked amount if it has ended since, and nothing if it has not.
pub proof fn law_paid_out_exactly_once(s: EscrowModel, history: Seq<Request>, id: u64)
    requires
        s.wf(),
        s.record(id).is_some(),
        !s.record(id).unwrap().status.is_terminal(),
    ensures
        run(s, history).record(id).is_some(),
        paid_out(s, history, id) == if run(s, history).record(id).unwrap().status.is_terminal() {
            s.record(id).unwrap().amount as int
        } else {
            0
        },
    decreases history.len(),
{
    lemma_run(s, history);
    if history.len() > 0 {
        let earlier = history.drop_last();
        let before = run(s, earlier);
        let request = history.last();
        law_paid_out_exactly_once(s, earlier, id);
        lemma_run(s, earlier);
        lemma_step(before, request);
        let record = before.record(id).unwrap();
        assert(succeeds(record, s.record(id).unwrap()));
        assert(succeeds(step(before, request).record(id).unwrap(), record));
        match request.call {
            Call::Perform { id: target, action, outcome } => {
                if target == id {
                    if record.status.is_terminal() {
                        lemma_terminal_rejects(
                            record,
                            action,
                            request.ctx.caller,
                            request.ctx.block_timestamp,
                            before.fees,
                        );
                    } else if before.settled(request.ctx, id, action, outcome).is_ok() {
                        lemma_payout_is_the_locked_amount(
                            record,
                            action,
                            request.ctx.caller,
                            request.ctx.block_timestamp,
                            before.fees,
                        );
                    }
                }
            },
            _ => {},
        }
    }
}

} // verus!
