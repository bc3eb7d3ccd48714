//! What the registry keeps of doctors and patients, its errors and its
//! notifications.

use vstd::prelude::*;
use crate::identity::AccountId;

verus! {

/// What a doctor registered, and the counts kept of their consultations.
#[derive(Debug, PartialEq, Eq)]
pub struct DoctorProfile {
    pub name: String,
    pub specialty: String,
    pub license_number: String,
    pub license_ipfs_hash: String,
    pub consultation_fee: u128,
    pub verified: bool,
    pub rating: u8,
    pub total_consultations: u32,
    pub completed_consultations: u32,
    pub cancelled_consultations: u32,
    pub no_show_count: u32,
}

impl Clone for DoctorProfile {
    fn clone(&self) -> (copy: DoctorProfile)
        ensures
            copy == *self,
    {
        DoctorProfile {
            name: self.name.clone(),
            specialty: self.specialty.clone(),
            license_number: self.license_number.clone(),
            license_ipfs_hash: self.license_ipfs_hash.clone(),
            consultation_fee: self.consultation_fee,
            verified: self.verified,
            rating: self.rating,
            total_consultations: self.total_consultations,
            completed_consultations: self.completed_consultations,
            cancelled_consultations: self.cancelled_consultations,
            no_show_count: self.no_show_count,
        }
    }
}

/// What a patient registered. Names and contacts are kept as hashes only.
#[derive(Debug, PartialEq, Eq)]
pub struct PatientProfile {
    pub name_hash: [u8; 32],
    pub medical_records_ipfs: String,
    pub emergency_contact_hash: [u8; 32],
    pub created_at: u64,
}

impl Clone for PatientProfile {
    fn clone(&self) -> (copy: PatientProfile)
        ensures
            copy == *self,
    {
        PatientProfile {
            name_hash: self.name_hash,
            medical_records_ipfs: self.medical_records_ipfs.clone(),
            emergency_contact_hash: self.emergency_contact_hash,
            created_at: self.created_at,
        }
    }
}

/// A span of time in which a doctor takes a consultation.
#[derive(Clone, Copy, Debug, PartialEq, Eq)]
pub struct TimeSlot {
    pub start_time: u64,
    pub end_time: u64,
    pub is_booked: bool,
}

/// The slots that a doctor offers, at most 20.
#[derive(Debug, PartialEq, Eq)]
pub struct AvailabilitySchedule {
    pub slots: Vec<TimeSlot>,
}

impl View for AvailabilitySchedule {
    type V = Seq<TimeSlot>;

    open spec fn view(&self) -> Seq<TimeSlot> {
        self.slots@
    }
}

impl Default for AvailabilitySchedule {
    fn default() -> (schedule: AvailabilitySchedule)
        ensures
            schedule@ == Seq::<TimeSlot>::empty(),
    {
        AvailabilitySchedule { slots: Vec::new() }
    }
}

/// The counts kept of a doctor, with the share of consultations completed.
#[derive(Clone, Copy, Debug, PartialEq, Eq)]
pub struct DoctorStats {
    pub total_consultations: u32,
    pub completed_consultations: u32,
    pub cancelled_consultations: u32,
    pub no_show_count: u32,
    pub rating: u8,
    /// In percent.
    pub completion_rate: u8,
    pub verified: bool,
}

/// A doctor registered.
#[derive(Debug, PartialEq, Eq)]
pub struct DoctorRegistered {
    pub doctor: AccountId,
    pub specialty: String,
}

/// A patient registered.
#[derive(Clone, Copy, Debug, PartialEq, Eq)]
pub struct PatientRegistered {
    pub patient: AccountId,
}

/// The administrator verified a doctor.
#[derive(Clone, Copy, Debug, PartialEq, Eq)]
pub struct DoctorVerified {
    pub doctor: AccountId,
}

/// A doctor replaced their schedule.
#[derive(Clone, Copy, Debug, PartialEq, Eq)]
pub struct AvailabilityUpdated {
    pub doctor: AccountId,
    pub slots_count: u32,
}

/// A notification that the registry leaves for the host to emit.
#[derive(Debug, PartialEq, Eq)]
pub enum RegistryEvent {
    DoctorRegistered(DoctorRegistered),
    PatientRegistered(PatientRegistered),
    DoctorVerified(DoctorVerified),
    AvailabilityUpdated(AvailabilityUpdated),
}

/// Why an operation of the registry was rejected.
#[derive(Clone, Copy, Debug, PartialEq, Eq, Structural)]
pub enum Error {
    /// Only the administrator may do this.
    NotOwner,
    /// The caller is a doctor already.
    DoctorAlreadyRegistered,
    /// The caller is a patient already.
    PatientAlreadyRegistered,
    /// No such doctor, or no schedule for them.
    DoctorNotFound,
    /// No such patient.
    PatientNotFound,
    /// A counter would leave its range.
    Overflow,
    /// More than 20 slots.
    TooManySlots,
    /// A slot that ends before it starts, or no free slot at that time.
    InvalidTimeSlot,
    /// The caller may not take this action.
    Unauthorized,
}

} // verus!
