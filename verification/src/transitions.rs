//! The state machine of one consultation: for each action, who may take it,
//! from which status, under which timing guard, and what it stages.
//!
//! A rule never touches the record it reads. It answers with the record as
//! it would stand, the transfers the host has to make, and the notification
//! to leave; the escrow commits that only once the transfers went through.

use vstd::prelude::*;
use crate::consultation::{
    CallContext, Consultation, ConsultationCancelled, ConsultationCompleted,
    ConsultationDisputed, ConsultationRefunded, ConsultationStatus, Error, Event, FeeConfig,
    NoShowReported, PaymentReleased,
};
use crate::identity::AccountId;
use crate::settlement::{
    cancellation_payout, cancellation_refund, full_payout, plan_cancellation_payout,
    plan_full_payout, plan_release_payout, refund_on_cancel, release_payout, release_shares,
    lemma_total_one, lemma_total_two, split_release, total, Transfer,
};
use crate::timing::{dispute_window_elapsed, dispute_window_open, window_elapsed, window_open};

verus! {

/// What a party asks of a booked consultation.
#[derive(Debug, PartialEq, Eq)]
pub enum Action {
    /// The doctor begins the consultation.
    Start,
    /// The doctor marks it as complete and leaves a reference to the notes.
    Complete { notes_ipfs_hash: String },
    /// The payment goes to the doctor, less the platform fee.
    Release,
    /// The patient contests the outcome.
    Dispute,
    /// The administrator returns the payment of a disputed consultation.
    Refund,
    /// The patient or the doctor calls the consultation off.
    Cancel,
    /// The patient reports that the doctor did not show up.
    ReportNoShow,
}

/// The staged effect of one transition, as a mathematical value.
pub struct Effect {
    /// The record as it stands once the transition is committed.
    pub record: Consultation,
    /// The transfers that the host makes, in order.
    pub transfers: Seq<Transfer>,
    /// The notification that the transition leaves, if any.
    pub event: Option<Event>,
}

/// The staged effect of one transition.
#[derive(Debug)]
pub struct Settlement {
    /// The record as it stands once the transition is committed.
    pub record: Consultation,
    /// The transfers that the host makes, in order.
    pub transfers: Vec<Transfer>,
    /// The notification that the transition leaves, if any.
    pub event: Option<Event>,
}

impl View for Settlement {
    type V = Effect;

    open spec fn view(&self) -> Effect {
        Effect { record: self.record, transfers: self.transfers@, event: self.event }
    }
}

/// The mathematical value of a staged result.
pub open spec fn staged(result: Result<Settlement, Error>) -> Result<Effect, Error> {
    match result {
        Ok(settlement) => Ok(settlement@),
        Err(e) => Err(e),
    }
}

impl Consultation {
    /// The record with another status and nothing else changed.
    pub open spec fn moved_to(self, status: ConsultationStatus) -> Consultation {
        Consultation { status, ..self }
    }

    /// Start: by the doctor, from `Pending`.
    pub open spec fn started(self, caller: AccountId) -> Result<Effect, Error> {
        if self.doctor != caller {
            Err(Error::Unauthorized)
        } else if self.status != ConsultationStatus::Pending {
            Err(Error::InvalidStatus)
        } else {
            Ok(
                Effect {
                    record: self.moved_to(ConsultationStatus::InProgress),
                    transfers: Seq::empty(),
                    event: None,
                },
            )
        }
    }

    /// Complete: by the doctor, from `InProgress`; records the time and the
    /// reference to the notes.
    pub open spec fn completed(self, caller: AccountId, now: u64, notes: String) -> Result<
        Effect,
        Error,
    > {
        if self.doctor != caller {
            Err(Error::Unauthorized)
        } else if self.status != ConsultationStatus::InProgress {
            Err(Error::InvalidStatus)
        } else {
            Ok(
                Effect {
                    record: Consultation {
                        status: ConsultationStatus::Completed,
                        completed_at: Some(now),
                        notes_ipfs_hash: Some(notes),
                        ..self
                    },
                    transfers: Seq::empty(),
                    event: Some(
                        Event::Completed(ConsultationCompleted { consultation_id: self.id }),
                    ),
                },
            )
        }
    }

    /// Release: from `Completed`, by anyone once the dispute window is over,
    /// by the administrator before; never while the clock reads earlier
    /// than the completion. Pays the doctor and the platform.
    pub open spec fn released(self, caller: AccountId, now: u64, fees: FeeConfig) -> Result<
        Effect,
        Error,
    > {
        if self.status != ConsultationStatus::Completed || self.completed_at.is_none() {
            Err(Error::InvalidStatus)
        } else if now < self.completed_at.unwrap() {
            Err(Error::TooEarlyToRelease)
        } else if !window_elapsed(now, self.completed_at.unwrap()) && caller != fees.owner {
            Err(Error::TooEarlyToRelease)
        } else {
            match release_shares(self.amount, fees.fee_percent) {
                Err(e) => Err(e),
                Ok(shares) => Ok(
                    Effect {
                        record: self.moved_to(ConsultationStatus::Released),
                        transfers: release_payout(
                            self.doctor,
                            fees.platform_wallet,
                            shares.0,
                            shares.1,
                        ),
                        event: Some(
                            Event::Released(
                                PaymentReleased {
                                    consultation_id: self.id,
                                    doctor: self.doctor,
                                    amount: shares.0,
                                },
                            ),
                        ),
                    },
                ),
            }
        }
    }

    /// Dispute: by the patient, from `Completed`, while the dispute window
    /// is running.
    pub open spec fn disputed(self, caller: AccountId, now: u64) -> Result<Effect, Error> {
        if self.patient != caller {
            Err(Error::Unauthorized)
        } else if self.status != ConsultationStatus::Completed || self.completed_at.is_none() {
            Err(Error::InvalidStatus)
        } else if !window_open(now, self.completed_at.unwrap()) {
            Err(Error::DisputeWindowExpired)
        } else {
            Ok(
                Effect {
                    record: self.moved_to(ConsultationStatus::Disputed),
                    transfers: Seq::empty(),
                    event: Some(
                        Event::Disputed(ConsultationDisputed { consultation_id: self.id }),
                    ),
                },
            )
        }
    }

    /// Refund: by the administrator, from `Disputed`; everything goes back
    /// to the patient.
    pub open spec fn refunded(self, caller: AccountId, fees: FeeConfig) -> Result<Effect, Error> {
        if caller != fees.owner {
            Err(Error::Unauthorized)
        } else if self.status != ConsultationStatus::Disputed {
            Err(Error::InvalidStatus)
        } else {
            Ok(
                Effect {
                    record: self.moved_to(ConsultationStatus::Refunded),
                    transfers: full_payout(self.patient, self.amount),
                    event: Some(
                        Event::Refunded(
                            ConsultationRefunded {
                                consultation_id: self.id,
                                patient: self.patient,
                                amount: self.amount,
                            },
                        ),
                    ),
                },
            )
        }
    }

    /// Cancel: by the patient or the doctor, from `Pending`; the refund
    /// depends on the notice given.
    pub open spec fn cancelled(self, caller: AccountId, now: u64) -> Result<Effect, Error> {
        if self.patient != caller && self.doctor != caller {
            Err(Error::Unauthorized)
        } else if self.status != ConsultationStatus::Pending {
            Err(Error::CancellationNotAllowed)
        } else {
            Ok(
                Effect {
                    record: self.moved_to(ConsultationStatus::Cancelled),
                    transfers: cancellation_payout(
                        self.patient,
                        self.doctor,
                        self.amount,
                        cancellation_refund(self.amount, self.scheduled_time, now),
                    ),
                    event: Some(
                        Event::Cancelled(
                            ConsultationCancelled {
                                consultation_id: self.id,
                                cancelled_by: caller,
                                refund_amount: cancellation_refund(
                                    self.amount,
                                    self.scheduled_time,
                                    now,
                                ),
                            },
                        ),
                    ),
                },
            )
        }
    }

    /// No-show: by the patient, from `Pending` or `InProgress`, not before
    /// the scheduled time; everything goes back to the patient.
    pub open spec fn no_show(self, caller: AccountId, now: u64) -> Result<Effect, Error> {
        if self.patient != caller {
            Err(Error::Unauthorized)
        } else if self.status != ConsultationStatus::Pending && self.status
            != ConsultationStatus::InProgress {
            Err(Error::InvalidStatus)
        } else if now < self.scheduled_time {
            Err(Error::TooEarlyToRelease)
        } else {
            Ok(
                Effect {
                    record: self.moved_to(ConsultationStatus::NoShow),
                    transfers: full_payout(self.patient, self.amount),
                    event: Some(
                        Event::NoShow(
                            NoShowReported { consultation_id: self.id, doctor: self.doctor },
                        ),
                    ),
                },
            )
        }
    }

    /// The whole transition table: what `action` stages on this record when
    /// `caller` asks for it at `now` under `fees`.
    pub open spec fn transition(
        self,
        action: Action,
        caller: AccountId,
        now: u64,
        fees: FeeConfig,
    ) -> Result<Effect, Error> {
        match action {
            Action::Start => self.started(caller),
            Action::Complete { notes_ipfs_hash } => self.completed(caller, now, notes_ipfs_hash),
            Action::Release => self.released(caller, now, fees),
            Action::Dispute => self.disputed(caller, now),
            Action::Refund => self.refunded(caller, fees),
            Action::Cancel => self.cancelled(caller, now),
            Action::ReportNoShow => self.no_show(caller, now),
        }
    }

    /// A copy of the record with another status.
    pub fn with_status(&self, status: ConsultationStatus) -> (record: Consultation)
        ensures
            record == self.moved_to(status),
    {
        let mut record = self.clone();
        record.status = status;
        record
    }

    /// Stages the start of the consultation.
    pub fn start(&self, caller: AccountId) -> (result: Result<Settlement, Error>)
        ensures
            staged(result) == self.started(caller),
    {
        if self.doctor != caller {
            return Err(Error::Unauthorized);
        }
        if self.status != ConsultationStatus::Pending {
            return Err(Error::InvalidStatus);
        }
        Ok(
            Settlement {
                record: self.with_status(ConsultationStatus::InProgress),
                transfers: Vec::new(),
                event: None,
            },
        )
    }

    /// Stages the completion of the consultation at `now`.
    pub fn complete(&self, caller: AccountId, now: u64, notes_ipfs_hash: String) -> (result:
        Result<Settlement, Error>)
        ensures
            staged(result) == self.completed(caller, now, notes_ipfs_hash),
    {
        if self.doctor != caller {
            return Err(Error::Unauthorized);
        }
        if self.status != ConsultationStatus::InProgress {
            return Err(Error::InvalidStatus);
        }
        let mut record = self.with_status(ConsultationStatus::Completed);
        record.completed_at = Some(now);
        record.notes_ipfs_hash = Some(notes_ipfs_hash);
        Ok(
            Settlement {
                record,
                transfers: Vec::new(),
                event: Some(Event::Completed(ConsultationCompleted { consultation_id: self.id })),
            },
        )
    }

    /// Stages the release of the payment at `now`.
    pub fn release(&self, caller: AccountId, now: u64, fees: &FeeConfig) -> (result: Result<
        Settlement,
        Error,
    >)
        ensures
            staged(result) == self.released(caller, now, *fees),
    {
        if self.status != ConsultationStatus::Completed {
            return Err(Error::InvalidStatus);
        }
        let completed_at = match self.completed_at {
            Some(at) => at,
            None => {
                return Err(Error::InvalidStatus);
            },
        };
        if now < completed_at {
            return Err(Error::TooEarlyToRelease);
        }
        if !dispute_window_elapsed(now, completed_at) && caller != fees.owner {
            return Err(Error::TooEarlyToRelease);
        }
        let (doctor_amount, fee) = match split_release(self.amount, fees.fee_percent) {
            Ok(shares) => shares,
            Err(e) => {
                return Err(e);
            },
        };
        Ok(
            Settlement {
                record: self.with_status(ConsultationStatus::Released),
                transfers: plan_release_payout(
                    self.doctor,
                    fees.platform_wallet,
                    doctor_amount,
                    fee,
                ),
                event: Some(
                    Event::Released(
                        PaymentReleased {
                            consultation_id: self.id,
                            doctor: self.doctor,
                            amount: doctor_amount,
                        },
                    ),
                ),
            },
        )
    }

    /// Stages the patient's dispute at `now`.
    pub fn dispute(&self, caller: AccountId, now: u64) -> (result: Result<Settlement, Error>)
        ensures
            staged(result) == self.disputed(caller, now),
    {
        if self.patient != caller {
            return Err(Error::Unauthorized);
        }
        if self.status != ConsultationStatus::Completed {
            return Err(Error::InvalidStatus);
        }
        let completed_at = match self.completed_at {
            Some(at) => at,
            None => {
                return Err(Error::InvalidStatus);
            },
        };
        if !dispute_window_open(now, completed_at) {
            return Err(Error::DisputeWindowExpired);
        }
        Ok(
            Settlement {
                record: self.with_status(ConsultationStatus::Disputed),
                transfers: Vec::new(),
                event: Some(Event::Disputed(ConsultationDisputed { consultation_id: self.id })),
            },
        )
    }

    /// Stages the refund of a disputed consultation.
    pub fn refund(&self, caller: AccountId, fees: &FeeConfig) -> (result: Result<
        Settlement,
        Error,
    >)
        ensures
            staged(result) == self.refunded(caller, *fees),
    {
        if caller != fees.owner {
            return Err(Error::Unauthorized);
        }
        if self.status != ConsultationStatus::Disputed {
            return Err(Error::InvalidStatus);
        }
        Ok(
            Settlement {
                record: self.with_status(ConsultationStatus::Refunded),
                transfers: plan_full_payout(self.patient, self.amount),
                event: Some(
                    Event::Refunded(
                        ConsultationRefunded {
                            consultation_id: self.id,
                            patient: self.patient,
                            amount: self.amount,
                        },
                    ),
                ),
            },
        )
    }

    /// Stages the cancellation at `now`.
    pub fn cancel(&self, caller: AccountId, now: u64) -> (result: Result<Settlement, Error>)
        ensures
            staged(result) == self.cancelled(caller, now),
    {
        if self.patient != caller && self.doctor != caller {
            return Err(Error::Unauthorized);
        }
        if self.status != ConsultationStatus::Pending {
            return Err(Error::CancellationNotAllowed);
        }
        let refund_amount = refund_on_cancel(self.amount, self.scheduled_time, now);
        Ok(
            Settlement {
                record: self.with_status(ConsultationStatus::Cancelled),
                transfers: plan_cancellation_payout(
                    self.patient,
                    self.doctor,
                    self.amount,
                    refund_amount,
                ),
                event: Some(
                    Event::Cancelled(
                        ConsultationCancelled {
                            consultation_id: self.id,
                            cancelled_by: caller,
                            refund_amount,
                        },
                    ),
                ),
            },
        )
    }

    /// Stages the report of a no-show at `now`.
    pub fn report_no_show(&self, caller: AccountId, now: u64) -> (result: Result<
        Settlement,
        Error,
    >)
        ensures
            staged(result) == self.no_show(caller, now),
    {
        if self.patient != caller {
            return Err(Error::Unauthorized);
        }
        if self.status != ConsultationStatus::Pending && self.status
            != ConsultationStatus::InProgress {
            return Err(Error::InvalidStatus);
        }
        if now < self.scheduled_time {
            return Err(Error::TooEarlyToRelease);
        }
        Ok(
            Settlement {
                record: self.with_status(ConsultationStatus::NoShow),
                transfers: plan_full_payout(self.patient, self.amount),
                event: Some(
                    Event::NoShow(NoShowReported { consultation_id: self.id, doctor: self.doctor }),
                ),
            },
        )
    }

    /// Stages `action` on this record: the one entry to the transition
    /// table.
    pub fn apply(&self, action: &Action, ctx: &CallContext, fees: &FeeConfig) -> (result: Result<
        Settlement,
        Error,
    >)
        ensures
            staged(result) == self.transition(*action, ctx.caller, ctx.block_timestamp, *fees),
    {
        match action {
            Action::Start => self.start(ctx.caller),
            Action::Complete { notes_ipfs_hash } => self.complete(
                ctx.caller,
                ctx.block_timestamp,
                notes_ipfs_hash.clone(),
            ),
            Action::Release => self.release(ctx.caller, ctx.block_timestamp, fees),
            Action::Dispute => self.dispute(ctx.caller, ctx.block_timestamp),
            Action::Refund => self.refund(ctx.caller, fees),
            Action::Cancel => self.cancel(ctx.caller, ctx.block_timestamp),
            Action::ReportNoShow => self.report_no_show(ctx.caller, ctx.block_timestamp),
        }
    }
}

/// Every transition keeps what identifies the record and what was locked
/// for it, keeps the record sound, and moves it strictly forward.
pub proof fn lemma_transition_moves_forward(
    record: Consultation,
    action: Action,
    caller: AccountId,
    now: u64,
    fees: FeeConfig,
)
    requires
        record.wf(),
        record.transition(action, caller, now, fees).is_ok(),
    ensures
        ({
            let next = record.transition(action, caller, now, fees).unwrap().record;
            &&& next.wf()
            &&& next.id == record.id
            &&& next.patient == record.patient
            &&& next.doctor == record.doctor
            &&& next.amount == record.amount
            &&& next.scheduled_time == record.scheduled_time
            &&& next.created_at == record.created_at
            &&& next.status.rank() > record.status.rank()
            &&& record.completed_at.is_some() ==> next.completed_at == record.completed_at
                && next.notes_ipfs_hash == record.notes_ipfs_hash
        }),
{
}

/// The edges of the lifecycle: from which status an action leads to which.
pub open spec fn edge(from: ConsultationStatus, action: Action, to: ConsultationStatus) -> bool {
    match action {
        Action::Start => from == ConsultationStatus::Pending && to
            == ConsultationStatus::InProgress,
        Action::Complete { .. } => from == ConsultationStatus::InProgress && to
            == ConsultationStatus::Completed,
        Action::Release => from == ConsultationStatus::Completed && to
            == ConsultationStatus::Released,
        Action::Dispute => from == ConsultationStatus::Completed && to
            == ConsultationStatus::Disputed,
        Action::Refund => from == ConsultationStatus::Disputed && to
            == ConsultationStatus::Refunded,
        Action::Cancel => from == ConsultationStatus::Pending && to
            == ConsultationStatus::Cancelled,
        Action::ReportNoShow => (from == ConsultationStatus::Pending || from
            == ConsultationStatus::InProgress) && to == ConsultationStatus::NoShow,
    }
}

/// Who may take an action on a record at `now`.
pub open spec fn entitled(
    record: Consultation,
    action: Action,
    caller: AccountId,
    now: u64,
    fees: FeeConfig,
) -> bool {
    match action {
        Action::Start => caller == record.doctor,
        Action::Complete { .. } => caller == record.doctor,
        Action::Release => caller == fees.owner || (record.completed_at matches Some(at)
            && window_elapsed(now, at)),
        Action::Dispute => caller == record.patient,
        Action::Refund => caller == fees.owner,
        Action::Cancel => caller == record.patient || caller == record.doctor,
        Action::ReportNoShow => caller == record.patient,
    }
}

/// A transition is staged only along an edge of the lifecycle, and only
/// for a caller entitled to it.
pub proof fn lemma_transition_follows_the_table(
    record: Consultation,
    action: Action,
    caller: AccountId,
    now: u64,
    fees: FeeConfig,
)
    requires
        record.transition(action, caller, now, fees).is_ok(),
    ensures
        edge(
            record.status,
            action,
            record.transition(action, caller, now, fees).unwrap().record.status,
        ),
        entitled(record, action, caller, now, fees),
{
}

/// No transition is staged on a record whose status is terminal.
pub proof fn lemma_terminal_rejects(
    record: Consultation,
    action: Action,
    caller: AccountId,
    now: u64,
    fees: FeeConfig,
)
    requires
        record.status.is_terminal(),
    ensures
        record.transition(action, caller, now, fees).is_err(),
{
}

/// A transition asks for transfers exactly when it ends the consultation,
/// and then they add up to the locked amount.
pub proof fn lemma_payout_is_the_locked_amount(
    record: Consultation,
    action: Action,
    caller: AccountId,
    now: u64,
    fees: FeeConfig,
)
    requires
        record.transition(action, caller, now, fees).is_ok(),
    ensures
        ({
            let effect = record.transition(action, caller, now, fees).unwrap();
            if effect.record.status.is_terminal() {
                effect.transfers.len() > 0 && total(effect.transfers) == record.amount
            } else {
                effect.transfers.len() == 0
            }
        }),
{
    let effect = record.transition(action, caller, now, fees).unwrap();
    match action {
        Action::Release => {
            let shares = release_shares(record.amount, fees.fee_percent).unwrap();
            lemma_total_one(Transfer { to: record.doctor, amount: shares.0 });
            lemma_total_two(
                Transfer { to: record.doctor, amount: shares.0 },
                Transfer { to: fees.platform_wallet, amount: shares.1 },
            );
        },
        Action::Refund => {
            lemma_total_one(Transfer { to: record.patient, amount: record.amount });
        },
        Action::ReportNoShow => {
            lemma_total_one(Transfer { to: record.patient, amount: record.amount });
        },
        Action::Cancel => {
            let refund = cancellation_refund(record.amount, record.scheduled_time, now);
            lemma_total_one(Transfer { to: record.patient, amount: refund });
            lemma_total_two(
                Transfer { to: record.patient, amount: refund },
                Transfer { to: record.doctor, amount: (record.amount - refund) as u128 },
            );
        },
        _ => {},
    }
}

} // verus!
