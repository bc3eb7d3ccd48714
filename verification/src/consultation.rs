//! The consultation record, its statuses, the errors of the escrow and the
//! notifications that successful transitions leave behind.

use vstd::prelude::*;
use crate::identity::AccountId;

verus! {

/// Where a consultation stands in its lifecycle.
#[derive(Clone, Copy, Debug, PartialEq, Eq, Structural)]
pub enum ConsultationStatus {
    /// Payment locked, waiting for the scheduled time.
    Pending,
    /// The consultation is happening.
    InProgress,
    /// The doctor marked it as complete.
    Completed,
    /// The patient contested the outcome.
    Disputed,
    /// The payment went back to the patient.
    Refunded,
    /// The payment went to the doctor.
    Released,
    /// Called off before it started.
    Cancelled,
    /// The doctor did not show up.
    NoShow,
}

impl ConsultationStatus {
    /// A status that no transition leaves.
    pub open spec fn is_terminal(self) -> bool {
        self == ConsultationStatus::Refunded || self == ConsultationStatus::Released
            || self == ConsultationStatus::Cancelled || self == ConsultationStatus::NoShow
    }

    /// A status that lies at or behind the completion of the consultation.
    pub open spec fn is_past_completion(self) -> bool {
        self == ConsultationStatus::Completed || self == ConsultationStatus::Disputed
            || self == ConsultationStatus::Refunded || self == ConsultationStatus::Released
    }

    /// How far along the lifecycle a status lies. Every transition moves to
    /// a strictly higher rank, so no status is ever entered twice.
    pub open spec fn rank(self) -> nat {
        match self {
            ConsultationStatus::Pending => 0,
            ConsultationStatus::InProgress => 1,
            ConsultationStatus::Completed => 2,
            ConsultationStatus::Disputed => 3,
            ConsultationStatus::Refunded => 4,
            ConsultationStatus::Released => 4,
            ConsultationStatus::Cancelled => 4,
            ConsultationStatus::NoShow => 4,
        }
    }

    /// Whether the status lies at or behind the completion.
    pub fn past_completion(&self) -> (yes: bool)
        ensures
            yes == self.is_past_completion(),
    {
        match self {
            ConsultationStatus::Completed => true,
            ConsultationStatus::Disputed => true,
            ConsultationStatus::Refunded => true,
            ConsultationStatus::Released => true,
            _ => false,
        }
    }

    /// Whether no transition leaves this status.
    pub fn terminal(&self) -> (yes: bool)
        ensures
            yes == self.is_terminal(),
    {
        match self {
            ConsultationStatus::Refunded => true,
            ConsultationStatus::Released => true,
            ConsultationStatus::Cancelled => true,
            ConsultationStatus::NoShow => true,
            _ => false,
        }
    }
}

/// Why an operation of the escrow was rejected.
#[derive(Clone, Copy, Debug, PartialEq, Eq, Structural)]
pub enum Error {
    /// The caller may not take this action.
    Unauthorized,
    /// No consultation has this identifier.
    ConsultationNotFound,
    /// The action is not valid from the consultation's status.
    InvalidStatus,
    /// A booking came without payment.
    InsufficientPayment,
    /// The host could not move the funds.
    TransferFailed,
    /// The patient contested too late.
    DisputeWindowExpired,
    /// The action came before its time.
    TooEarlyToRelease,
    /// A counter or an amount would leave its range.
    OverflowError,
    /// The doctor is not verified in the registry.
    DoctorNotVerified,
    /// The requested slot is taken.
    SlotNotAvailable,
    /// Only a pending consultation can be cancelled.
    CancellationNotAllowed,
}

/// One booked consultation and the payment locked for it.
#[derive(Debug, PartialEq, Eq)]
pub struct Consultation {
    pub id: u64,
    pub patient: AccountId,
    pub doctor: AccountId,
    pub amount: u128,
    pub status: ConsultationStatus,
    pub scheduled_time: u64,
    pub created_at: u64,
    pub completed_at: Option<u64>,
    pub notes_ipfs_hash: Option<String>,
}

impl Consultation {
    /// What holds of every record the escrow keeps: a payment is locked,
    /// and the completion time and the notes are present exactly from the
    /// completion on.
    pub open spec fn wf(&self) -> bool {
        &&& self.amount > 0
        &&& self.completed_at.is_some() == self.status.is_past_completion()
        &&& self.notes_ipfs_hash.is_some() == self.status.is_past_completion()
    }
}

impl Consultation {
    /// Whether the record is one that the escrow could hold.
    pub fn is_sound(&self) -> (sound: bool)
        ensures
            sound == self.wf(),
    {
        let past = self.status.past_completion();
        self.amount > 0 && self.completed_at.is_some() == past
            && self.notes_ipfs_hash.is_some() == past
    }
}

impl Clone for Consultation {
    fn clone(&self) -> (copy: Consultation)
        ensures
            copy == *self,
    {
        let notes = match &self.notes_ipfs_hash {
            Some(reference) => Some(reference.clone()),
            None => None,
        };
        Consultation {
            id: self.id,
            patient: self.patient,
            doctor: self.doctor,
            amount: self.amount,
            status: self.status,
            scheduled_time: self.scheduled_time,
            created_at: self.created_at,
            completed_at: self.completed_at,
            notes_ipfs_hash: notes,
        }
    }
}

/// The facts of one call that only the host knows.
#[derive(Clone, Copy, Debug, PartialEq, Eq)]
pub struct CallContext {
    /// Who makes the call.
    pub caller: AccountId,
    /// The payment attached to the call.
    pub transferred_value: u128,
    /// The host's clock, in milliseconds.
    pub block_timestamp: u64,
}

/// The fee taken on release, who receives it, and who administers it.
#[derive(Clone, Copy, Debug, PartialEq, Eq)]
pub struct FeeConfig {
    pub fee_percent: u8,
    pub platform_wallet: AccountId,
    pub owner: AccountId,
}

/// A consultation was booked and its payment locked.
#[derive(Clone, Copy, Debug, PartialEq, Eq)]
pub struct ConsultationBooked {
    pub consultation_id: u64,
    pub patient: AccountId,
    pub doctor: AccountId,
    pub amount: u128,
}

/// The doctor marked a consultation as complete.
#[derive(Clone, Copy, Debug, PartialEq, Eq)]
pub struct ConsultationCompleted {
    pub consultation_id: u64,
}

/// The payment was released; `amount` is the doctor's share.
#[derive(Clone, Copy, Debug, PartialEq, Eq)]
pub struct PaymentReleased {
    pub consultation_id: u64,
    pub doctor: AccountId,
    pub amount: u128,
}

/// The patient contested a completed consultation.
#[derive(Clone, Copy, Debug, PartialEq, Eq)]
pub struct ConsultationDisputed {
    pub consultation_id: u64,
}

/// A disputed consultation was refunded in full.
#[derive(Clone, Copy, Debug, PartialEq, Eq)]
pub struct ConsultationRefunded {
    pub consultation_id: u64,
    pub patient: AccountId,
    pub amount: u128,
}

/// A pending consultation was called off.
#[derive(Clone, Copy, Debug, PartialEq, Eq)]
pub struct ConsultationCancelled {
    pub consultation_id: u64,
    pub cancelled_by: AccountId,
    pub refund_amount: u128,
}

/// The patient reported that the doctor did not show up.
#[derive(Clone, Copy, Debug, PartialEq, Eq)]
pub struct NoShowReported {
    pub consultation_id: u64,
    pub doctor: AccountId,
}

/// A notification that a successful transition leaves for the host to emit.
#[derive(Clone, Copy, Debug, PartialEq, Eq)]
pub enum Event {
    Booked(ConsultationBooked),
    Completed(ConsultationCompleted),
    Released(PaymentReleased),
    Disputed(ConsultationDisputed),
    Refunded(ConsultationRefunded),
    Cancelled(ConsultationCancelled),
    NoShow(NoShowReported),
}

} // verus!
