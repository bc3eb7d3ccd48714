//! The escrow: the ledger of consultations, the fee configuration, and the
//! operations that parties call.
//!
//! The escrow owns its state. An operation reads it, checks every guard,
//! and stages its effect; the effect is committed only when the host
//! reports that the staged transfers went through. On any error the escrow
//! is as it was before the call.

use vstd::prelude::*;
use crate::consultation::{
    CallContext, Consultation, ConsultationBooked, ConsultationStatus, Error, Event, FeeConfig,
};
use crate::identity::AccountId;
use crate::transitions::{lemma_transition_moves_forward, staged, Action, Effect, Settlement};

verus! {

/// What the host reports of the transfers that a transition staged.
#[derive(Clone, Copy, Debug, PartialEq, Eq, Structural)]
pub enum TransferOutcome {
    /// Every staged transfer went through.
    Completed,
    /// A transfer could not be made, and none of them stands.
    Failed,
}

/// The escrow as a mathematical value.
pub struct EscrowModel {
    /// The identifier that the next booking gets.
    pub next_id: u64,
    /// The consultations in the order of their booking; the one with
    /// identifier `id` stands at `id - 1`.
    pub records: Seq<Consultation>,
    /// The fee configuration.
    pub fees: FeeConfig,
    /// Where the registry of doctors lives.
    pub health_registry_address: AccountId,
    /// The notifications that the host has not taken yet.
    pub events: Seq<Event>,
}

/// The records of a ledger: each sound, and numbered in order from 1.
pub open spec fn ledger_sound(records: Seq<Consultation>) -> bool {
    forall|i: int|
        0 <= i < records.len() ==> (#[trigger] records[i]).id == i + 1 && records[i].wf()
}

impl EscrowModel {
    /// Identifiers are handed out in order from 1, and every record is
    /// sound.
    pub open spec fn wf(self) -> bool {
        &&& self.next_id == self.records.len() + 1
        &&& ledger_sound(self.records)
    }

    /// The consultation booked under `id`, if there is one.
    pub open spec fn record(self, id: u64) -> Option<Consultation> {
        if 1 <= id && id <= self.records.len() {
            Some(self.records[id - 1])
        } else {
            None
        }
    }

    /// The record that a booking creates.
    pub open spec fn new_record(self, ctx: CallContext, doctor: AccountId, scheduled_time: u64)
        -> Consultation {
        Consultation {
            id: self.next_id,
            patient: ctx.caller,
            doctor,
            amount: ctx.transferred_value,
            status: ConsultationStatus::Pending,
            scheduled_time,
            created_at: ctx.block_timestamp,
            completed_at: None,
            notes_ipfs_hash: None,
        }
    }

    /// What a booking answers: the new identifier, unless no payment came
    /// with the call or the identifiers are used up.
    pub open spec fn booking(self, ctx: CallContext) -> Result<u64, Error> {
        if ctx.transferred_value == 0 {
            Err(Error::InsufficientPayment)
        } else if self.next_id == u64::MAX {
            Err(Error::OverflowError)
        } else {
            Ok(self.next_id)
        }
    }

    /// The escrow after a booking.
    pub open spec fn booked(self, ctx: CallContext, doctor: AccountId, scheduled_time: u64)
        -> EscrowModel {
        if self.booking(ctx).is_ok() {
            EscrowModel {
                next_id: (self.next_id + 1) as u64,
                records: self.records.push(self.new_record(ctx, doctor, scheduled_time)),
                events: self.events.push(
                    Event::Booked(
                        ConsultationBooked {
                            consultation_id: self.next_id,
                            patient: ctx.caller,
                            doctor,
                            amount: ctx.transferred_value,
                        },
                    ),
                ),
                ..self
            }
        } else {
            self
        }
    }

    /// What `action` on consultation `id` stages. A refund is refused to
    /// anyone but the administrator before the consultation is looked up.
    pub open spec fn plan(self, ctx: CallContext, id: u64, action: Action) -> Result<
        Effect,
        Error,
    > {
        if action == Action::Refund && ctx.caller != self.fees.owner {
            Err(Error::Unauthorized)
        } else {
            match self.record(id) {
                None => Err(Error::ConsultationNotFound),
                Some(record) => record.transition(
                    action,
                    ctx.caller,
                    ctx.block_timestamp,
                    self.fees,
                ),
            }
        }
    }

    /// What is committed: the staged effect, unless it holds transfers and
    /// the host could not make them.
    pub open spec fn settled(
        self,
        ctx: CallContext,
        id: u64,
        action: Action,
        outcome: TransferOutcome,
    ) -> Result<Effect, Error> {
        match self.plan(ctx, id, action) {
            Err(e) => Err(e),
            Ok(effect) => if effect.transfers.len() > 0 && outcome == TransferOutcome::Failed {
                Err(Error::TransferFailed)
            } else {
                Ok(effect)
            },
        }
    }

    /// What an operation answers.
    pub open spec fn answer(
        self,
        ctx: CallContext,
        id: u64,
        action: Action,
        outcome: TransferOutcome,
    ) -> Result<(), Error> {
        match self.settled(ctx, id, action, outcome) {
            Err(e) => Err(e),
            Ok(_) => Ok(()),
        }
    }

    /// The escrow after an operation: with the effect committed, or
    /// unchanged.
    pub open spec fn after(
        self,
        ctx: CallContext,
        id: u64,
        action: Action,
        outcome: TransferOutcome,
    ) -> EscrowModel {
        match self.settled(ctx, id, action, outcome) {
            Err(_) => self,
            Ok(effect) => EscrowModel {
                records: self.records.update(id - 1, effect.record),
                events: match effect.event {
                    Some(event) => self.events.push(event),
                    None => self.events,
                },
                ..self
            },
        }
    }

    /// What a change of the fee answers: only the administrator may.
    pub open spec fn fee_update(self, ctx: CallContext) -> Result<(), Error> {
        if ctx.caller != self.fees.owner {
            Err(Error::Unauthorized)
        } else {
            Ok(())
        }
    }

    /// The escrow after a change of the fee.
    pub open spec fn with_fee(self, ctx: CallContext, new_fee_percent: u8) -> EscrowModel {
        if ctx.caller != self.fees.owner {
            self
        } else {
            EscrowModel {
                fees: FeeConfig { fee_percent: new_fee_percent, ..self.fees },
                ..self
            }
        }
    }
}

/// The escrow: every consultation ever booked, the identifier counter and
/// the fee configuration.
pub struct ConsultationEscrow {
    next_id: u64,
    consultations: Vec<Consultation>,
    fees: FeeConfig,
    health_registry_address: AccountId,
    events: Vec<Event>,
}

impl View for ConsultationEscrow {
    type V = EscrowModel;

    closed spec fn view(&self) -> EscrowModel {
        EscrowModel {
            next_id: self.next_id,
            records: self.consultations@,
            fees: self.fees,
            health_registry_address: self.health_registry_address,
            events: self.events@,
        }
    }
}

impl ConsultationEscrow {
    /// The invariant of the escrow.
    pub open spec fn wf(&self) -> bool {
        self@.wf()
    }

    /// An empty escrow that the caller administers.
    pub fn new(
        ctx: &CallContext,
        platform_wallet: AccountId,
        platform_fee_percent: u8,
        health_registry_address: AccountId,
    ) -> (escrow: ConsultationEscrow)
        ensures
            escrow.wf(),
            escrow@ == (EscrowModel {
                next_id: 1,
                records: Seq::empty(),
                fees: FeeConfig {
                    fee_percent: platform_fee_percent,
                    platform_wallet,
                    owner: ctx.caller,
                },
                health_registry_address,
                events: Seq::empty(),
            }),
    {
        ConsultationEscrow {
            next_id: 1,
            consultations: Vec::new(),
            fees: FeeConfig {
                fee_percent: platform_fee_percent,
                platform_wallet,
                owner: ctx.caller,
            },
            health_registry_address,
            events: Vec::new(),
        }
    }

    /// Puts an escrow together again from the records it held, in the
    /// order of their booking. Answers `None` where the records are not
    /// those of a ledger.
    pub fn from_parts(
        consultations: Vec<Consultation>,
        fees: FeeConfig,
        health_registry_address: AccountId,
    ) -> (restored: Option<ConsultationEscrow>)
        ensures
            match restored {
                Some(escrow) => escrow.wf() && escrow@.records == consultations@ && escrow@.fees
                    == fees && escrow@.health_registry_address == health_registry_address
                    && escrow@.events == Seq::<Event>::empty(),
                None => !ledger_sound(consultations@) || consultations@.len() >= u64::MAX,
            },
    {
        let count = consultations.len();
        if count as u64 >= u64::MAX {
            return None;
        }
        let mut i: usize = 0;
        while i < count
            invariant
                count == consultations@.len(),
                i <= count,
                count < u64::MAX,
                forall|j: int|
                    0 <= j < i ==> (#[trigger] consultations@[j]).id == j + 1
                        && consultations@[j].wf(),
            decreases count - i,
        {
            if consultations[i].id != i as u64 + 1 || !consultations[i].is_sound() {
                return None;
            }
            i += 1;
        }
        Some(
            ConsultationEscrow {
                next_id: count as u64 + 1,
                consultations,
                fees,
                health_registry_address,
                events: Vec::new(),
            },
        )
    }

    /// Takes the escrow apart: its records in the order of their booking,
    /// the fee configuration, and where the registry lives.
    pub fn into_parts(self) -> (parts: (Vec<Consultation>, FeeConfig, AccountId))
        ensures
            parts.0@ == self@.records,
            parts.1 == self@.fees,
            parts.2 == self@.health_registry_address,
    {
        (self.consultations, self.fees, self.health_registry_address)
    }

    /// Books a consultation with `doctor` for the caller and locks the
    /// payment that came with the call.
    pub fn book_consultation(
        &mut self,
        ctx: &CallContext,
        doctor: AccountId,
        scheduled_time: u64,
    ) -> (result: Result<u64, Error>)
        requires
            old(self).wf(),
        ensures
            final(self).wf(),
            result == old(self)@.booking(*ctx),
            final(self)@ == old(self)@.booked(*ctx, doctor, scheduled_time),
    {
        if ctx.transferred_value == 0 {
            return Err(Error::InsufficientPayment);
        }
        let consultation_id = self.next_id;
        let following = match consultation_id.checked_add(1) {
            Some(following) => following,
            None => {
                return Err(Error::OverflowError);
            },
        };
        let consultation = Consultation {
            id: consultation_id,
            patient: ctx.caller,
            doctor,
            amount: ctx.transferred_value,
            status: ConsultationStatus::Pending,
            scheduled_time,
            created_at: ctx.block_timestamp,
            completed_at: None,
            notes_ipfs_hash: None,
        };
        self.consultations.push(consultation);
        self.next_id = following;
        self.events.push(
            Event::Booked(
                ConsultationBooked {
                    consultation_id,
                    patient: ctx.caller,
                    doctor,
                    amount: ctx.transferred_value,
                },
            ),
        );
        Ok(consultation_id)
    }

    /// Books a consultation only if the registry has verified the doctor.
    /// The host asks the registry and hands the answer in.
    pub fn book_verified_consultation(
        &mut self,
        ctx: &CallContext,
        doctor: AccountId,
        scheduled_time: u64,
        doctor_verified: bool,
    ) -> (result: Result<u64, Error>)
        requires
            old(self).wf(),
        ensures
            final(self).wf(),
            !doctor_verified ==> result == Err::<u64, Error>(Error::DoctorNotVerified)
                && final(self)@ == old(self)@,
            doctor_verified ==> result == old(self)@.booking(*ctx) && final(self)@ == old(
                self,
            )@.booked(*ctx, doctor, scheduled_time),
    {
        if !doctor_verified {
            return Err(Error::DoctorNotVerified);
        }
        self.book_consultation(ctx, doctor, scheduled_time)
    }

    /// Where the consultation `id` stands in the ledger.
    fn slot(&self, id: u64) -> (index: Option<usize>)
        ensures
            index.is_some() == self@.record(id).is_some(),
            index matches Some(i) ==> i == id - 1 && i < self.consultations@.len(),
    {
        if id == 0 || id - 1 >= self.consultations.len() as u64 {
            None
        } else {
            Some((id - 1) as usize)
        }
    }

    /// Stages `action` on consultation `id` and says where the record
    /// stands in the ledger.
    fn stage(&self, ctx: &CallContext, id: u64, action: &Action) -> (result: Result<
        (usize, Settlement),
        Error,
    >)
        ensures
            match result {
                Ok(found) => self@.plan(*ctx, id, *action) == Ok::<Effect, Error>(found.1@)
                    && self@.record(id).is_some() && found.0 == id - 1
                    && found.0 < self.consultations@.len(),
                Err(e) => self@.plan(*ctx, id, *action) == Err::<Effect, Error>(e),
            },
    {
        if let Action::Refund = action {
            if ctx.caller != self.fees.owner {
                return Err(Error::Unauthorized);
            }
        }
        match self.slot(id) {
            None => Err(Error::ConsultationNotFound),
            Some(index) => match self.consultations[index].apply(action, ctx, &self.fees) {
                Ok(settlement) => Ok((index, settlement)),
                Err(e) => Err(e),
            },
        }
    }

    /// Stages `action` on consultation `id` without changing anything: the
    /// record as it would stand, the transfers to make, the notification.
    pub fn plan(&self, ctx: &CallContext, id: u64, action: &Action) -> (result: Result<
        Settlement,
        Error,
    >)
        ensures
            staged(result) == self@.plan(*ctx, id, *action),
    {
        match self.stage(ctx, id, action) {
            Ok(found) => Ok(found.1),
            Err(e) => Err(e),
        }
    }

    /// Carries out `action` on consultation `id`: stages it, and commits
    /// the staged effect unless it holds transfers that the host reports as
    /// failed. On any error the escrow stays as it was.
    pub fn perform(
        &mut self,
        ctx: &CallContext,
        id: u64,
        action: &Action,
        outcome: TransferOutcome,
    ) -> (result: Result<(), Error>)
        requires
            old(self).wf(),
        ensures
            final(self).wf(),
            result == old(self)@.answer(*ctx, id, *action, outcome),
            final(self)@ == old(self)@.after(*ctx, id, *action, outcome),
    {
        let (index, settlement) = match self.stage(ctx, id, action) {
            Ok(found) => found,
            Err(e) => {
                return Err(e);
            },
        };
        if settlement.transfers.len() > 0 && outcome == TransferOutcome::Failed {
            return Err(Error::TransferFailed);
        }
        proof {
            lemma_transition_moves_forward(
                self@.record(id).unwrap(),
                *action,
                ctx.caller,
                ctx.block_timestamp,
                self.fees,
            );
        }
        self.consultations[index] = settlement.record;
        if let Some(event) = settlement.event {
            self.events.push(event);
        }
        Ok(())
    }

    /// The doctor begins consultation `id`.
    pub fn start_consultation(&mut self, ctx: &CallContext, id: u64) -> (result: Result<
        (),
        Error,
    >)
        requires
            old(self).wf(),
        ensures
            final(self).wf(),
            result == old(self)@.answer(*ctx, id, Action::Start, TransferOutcome::Completed),
            final(self)@ == old(self)@.after(*ctx, id, Action::Start, TransferOutcome::Completed),
    {
        self.perform(ctx, id, &Action::Start, TransferOutcome::Completed)
    }

    /// The doctor marks consultation `id` as complete and leaves a
    /// reference to the notes.
    pub fn mark_completed(
        &mut self,
        ctx: &CallContext,
        id: u64,
        notes_ipfs_hash: String,
    ) -> (result: Result<(), Error>)
        requires
            old(self).wf(),
        ensures
            final(self).wf(),
            result == old(self)@.answer(
                *ctx,
                id,
                Action::Complete { notes_ipfs_hash },
                TransferOutcome::Completed,
            ),
            final(self)@ == old(self)@.after(
                *ctx,
                id,
                Action::Complete { notes_ipfs_hash },
                TransferOutcome::Completed,
            ),
    {
        let action = Action::Complete { notes_ipfs_hash };
        self.perform(ctx, id, &action, TransferOutcome::Completed)
    }

    /// Releases the payment of consultation `id` to the doctor, less the
    /// platform fee, once the host has made the staged transfers.
    pub fn release_payment(
        &mut self,
        ctx: &CallContext,
        id: u64,
        outcome: TransferOutcome,
    ) -> (result: Result<(), Error>)
        requires
            old(self).wf(),
        ensures
            final(self).wf(),
            result == old(self)@.answer(*ctx, id, Action::Release, outcome),
            final(self)@ == old(self)@.after(*ctx, id, Action::Release, outcome),
    {
        self.perform(ctx, id, &Action::Release, outcome)
    }

    /// The patient contests consultation `id`.
    pub fn dispute_consultation(&mut self, ctx: &CallContext, id: u64) -> (result: Result<
        (),
        Error,
    >)
        requires
            old(self).wf(),
        ensures
            final(self).wf(),
            result == old(self)@.answer(*ctx, id, Action::Dispute, TransferOutcome::Completed),
            final(self)@ == old(self)@.after(
                *ctx,
                id,
                Action::Dispute,
                TransferOutcome::Completed,
            ),
    {
        self.perform(ctx, id, &Action::Dispute, TransferOutcome::Completed)
    }

    /// The administrator returns the payment of the disputed consultation
    /// `id` to the patient, once the host has made the staged transfer.
    pub fn refund_consultation(
        &mut self,
        ctx: &CallContext,
        id: u64,
        outcome: TransferOutcome,
    ) -> (result: Result<(), Error>)
        requires
            old(self).wf(),
        ensures
            final(self).wf(),
            result == old(self)@.answer(*ctx, id, Action::Refund, outcome),
            final(self)@ == old(self)@.after(*ctx, id, Action::Refund, outcome),
    {
        self.perform(ctx, id, &Action::Refund, outcome)
    }

    /// The patient or the doctor calls consultation `id` off, once the host
    /// has made the staged transfers.
    pub fn cancel_consultation(
        &mut self,
        ctx: &CallContext,
        id: u64,
        outcome: TransferOutcome,
    ) -> (result: Result<(), Error>)
        requires
            old(self).wf(),
        ensures
            final(self).wf(),
            result == old(self)@.answer(*ctx, id, Action::Cancel, outcome),
            final(self)@ == old(self)@.after(*ctx, id, Action::Cancel, outcome),
    {
        self.perform(ctx, id, &Action::Cancel, outcome)
    }

    /// The patient reports that the doctor did not show up for
    /// consultation `id`, once the host has made the staged transfer.
    pub fn report_no_show(
        &mut self,
        ctx: &CallContext,
        id: u64,
        outcome: TransferOutcome,
    ) -> (result: Result<(), Error>)
        requires
            old(self).wf(),
        ensures
            final(self).wf(),
            result == old(self)@.answer(*ctx, id, Action::ReportNoShow, outcome),
            final(self)@ == old(self)@.after(*ctx, id, Action::ReportNoShow, outcome),
    {
        self.perform(ctx, id, &Action::ReportNoShow, outcome)
    }

    /// The consultation booked under `id`, if there is one.
    pub fn get_consultation(&self, id: u64) -> (found: Option<Consultation>)
        ensures
            found == self@.record(id),
    {
        match self.slot(id) {
            None => None,
            Some(index) => Some(self.consultations[index].clone()),
        }
    }

    /// The fee, in percent, that a release takes for the platform.
    pub fn get_platform_fee_percent(&self) -> (percent: u8)
        ensures
            percent == self@.fees.fee_percent,
    {
        self.fees.fee_percent
    }

    /// The fee configuration.
    pub fn fee_config(&self) -> (fees: FeeConfig)
        ensures
            fees == self@.fees,
    {
        self.fees
    }

    /// The identifier that the next booking gets.
    pub fn next_consultation_id(&self) -> (id: u64)
        ensures
            id == self@.next_id,
    {
        self.next_id
    }

    /// Where the registry of doctors lives.
    pub fn health_registry(&self) -> (address: AccountId)
        ensures
            address == self@.health_registry_address,
    {
        self.health_registry_address
    }

    /// The administrator sets the fee for the releases to come.
    pub fn update_platform_fee(&mut self, ctx: &CallContext, new_fee_percent: u8) -> (result:
        Result<(), Error>)
        ensures
            old(self).wf() ==> final(self).wf(),
            result == old(self)@.fee_update(*ctx),
            final(self)@ == old(self)@.with_fee(*ctx, new_fee_percent),
    {
        if ctx.caller != self.fees.owner {
            return Err(Error::Unauthorized);
        }
        self.fees.fee_percent = new_fee_percent;
        Ok(())
    }

    /// Hands the notifications of the transitions since the last call to
    /// the host, oldest first, and forgets them.
    pub fn take_events(&mut self) -> (events: Vec<Event>)
        ensures
            old(self).wf() ==> final(self).wf(),
            events@ == old(self)@.events,
            final(self)@ == (EscrowModel { events: Seq::empty(), ..old(self)@ }),
    {
        let mut events: Vec<Event> = Vec::new();
        std::mem::swap(&mut self.events, &mut events);
        events
    }
}

} // verus!
