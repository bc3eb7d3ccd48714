//! The registry of doctors and patients: who registered, which doctors the
//! administrator verified, the schedules they offer and the counts kept of
//! their consultations.

use vstd::prelude::*;
use crate::consultation::CallContext;
use crate::identity::AccountId;
use crate::registry_types::{
    AvailabilitySchedule, AvailabilityUpdated, DoctorProfile, DoctorRegistered, DoctorStats,
    DoctorVerified, Error, PatientProfile, PatientRegistered, RegistryEvent, TimeSlot,
};
use crate::schedule::{
    blend_rating, blended_rating, book_slot, check_slots, completion_rate,
    completion_rate_of, copy_slots, first_at, first_bookable, free_slot, marked, slots_valid,
    MAX_SLOTS,
};
use crate::table::Table;

verus! {

/// The registry as a mathematical value.
pub struct RegistryModel {
    /// The administrator.
    pub owner: AccountId,
    /// The profile of each registered doctor.
    pub doctors: Map<AccountId, DoctorProfile>,
    /// The profile of each registered patient.
    pub patients: Map<AccountId, PatientProfile>,
    /// The doctors that the administrator verified.
    pub verified_doctors: Map<AccountId, bool>,
    /// The slots that each doctor offers.
    pub availability: Map<AccountId, Seq<TimeSlot>>,
    /// How many doctors registered.
    pub total_doctors: u32,
    /// How many patients registered.
    pub total_patients: u32,
    /// The notifications that the host has not taken yet.
    pub events: Seq<RegistryEvent>,
}

impl RegistryModel {
    /// The profile that a registration creates.
    pub open spec fn new_doctor(
        name: String,
        specialty: String,
        license_number: String,
        license_ipfs_hash: String,
        consultation_fee: u128,
    ) -> DoctorProfile {
        DoctorProfile {
            name,
            specialty,
            license_number,
            license_ipfs_hash,
            consultation_fee,
            verified: false,
            rating: 0,
            total_consultations: 0,
            completed_consultations: 0,
            cancelled_consultations: 0,
            no_show_count: 0,
        }
    }

    /// The figures of a doctor as the registry reports them.
    pub open spec fn stats_of(profile: DoctorProfile) -> DoctorStats {
        DoctorStats {
            total_consultations: profile.total_consultations,
            completed_consultations: profile.completed_consultations,
            cancelled_consultations: profile.cancelled_consultations,
            no_show_count: profile.no_show_count,
            rating: profile.rating,
            completion_rate: completion_rate_of(
                profile.completed_consultations,
                profile.total_consultations,
            ),
            verified: profile.verified,
        }
    }

    /// The registry with another profile for `doctor`.
    pub open spec fn with_doctor(self, doctor: AccountId, profile: DoctorProfile)
        -> RegistryModel {
        RegistryModel { doctors: self.doctors.insert(doctor, profile), ..self }
    }

    /// The registry with another schedule for `doctor`.
    pub open spec fn with_slots(self, doctor: AccountId, slots: Seq<TimeSlot>) -> RegistryModel {
        RegistryModel { availability: self.availability.insert(doctor, slots), ..self }
    }
}

/// The registry of doctors and patients.
pub struct HealthRegistry {
    owner: AccountId,
    doctors: Table<AccountId, DoctorProfile>,
    patients: Table<AccountId, PatientProfile>,
    verified_doctors: Table<AccountId, bool>,
    doctor_availability: Table<AccountId, AvailabilitySchedule>,
    total_doctors: u32,
    total_patients: u32,
    events: Vec<RegistryEvent>,
}

impl View for HealthRegistry {
    type V = RegistryModel;

    closed spec fn view(&self) -> RegistryModel {
        RegistryModel {
            owner: self.owner,
            doctors: self.doctors@,
            patients: self.patients@,
            verified_doctors: self.verified_doctors@,
            availability: Map::new(
                |doctor: AccountId| self.doctor_availability@.contains_key(doctor),
                |doctor: AccountId| self.doctor_availability@[doctor]@,
            ),
            total_doctors: self.total_doctors,
            total_patients: self.total_patients,
            events: self.events@,
        }
    }
}

impl HealthRegistry {
    /// The invariant of the registry.
    pub closed spec fn wf(&self) -> bool {
        &&& self.doctors.wf()
        &&& self.patients.wf()
        &&& self.verified_doctors.wf()
        &&& self.doctor_availability.wf()
    }

    /// An empty registry that the caller administers.
    pub fn new(ctx: &CallContext) -> (registry: HealthRegistry)
        ensures
            registry.wf(),
            registry@ == (RegistryModel {
                owner: ctx.caller,
                doctors: Map::empty(),
                patients: Map::empty(),
                verified_doctors: Map::empty(),
                availability: Map::empty(),
                total_doctors: 0,
                total_patients: 0,
                events: Seq::empty(),
            }),
    {
        let registry = HealthRegistry {
            owner: ctx.caller,
            doctors: Table::new(),
            patients: Table::new(),
            verified_doctors: Table::new(),
            doctor_availability: Table::new(),
            total_doctors: 0,
            total_patients: 0,
            events: Vec::new(),
        };
        assert(registry@.availability =~= Map::empty());
        registry
    }

    /// Puts a registry together again from what it held.
    pub fn from_parts(
        owner: AccountId,
        doctors: Table<AccountId, DoctorProfile>,
        patients: Table<AccountId, PatientProfile>,
        verified_doctors: Table<AccountId, bool>,
        doctor_availability: Table<AccountId, AvailabilitySchedule>,
        total_doctors: u32,
        total_patients: u32,
    ) -> (registry: HealthRegistry)
        requires
            doctors.wf(),
            patients.wf(),
            verified_doctors.wf(),
            doctor_availability.wf(),
        ensures
            registry.wf(),
            registry@.owner == owner,
            registry@.doctors == doctors@,
            registry@.patients == patients@,
            registry@.verified_doctors == verified_doctors@,
            registry@.availability.dom() == doctor_availability@.dom(),
            forall|doctor: AccountId| #[trigger]
                doctor_availability@.contains_key(doctor) ==> registry@.availability[doctor]
                    == doctor_availability@[doctor]@,
            registry@.total_doctors == total_doctors,
            registry@.total_patients == total_patients,
            registry@.events == Seq::<RegistryEvent>::empty(),
    {
        let registry = HealthRegistry {
            owner,
            doctors,
            patients,
            verified_doctors,
            doctor_availability,
            total_doctors,
            total_patients,
            events: Vec::new(),
        };
        registry
    }

    /// The doctors and their profiles.
    pub fn doctors(&self) -> (table: &Table<AccountId, DoctorProfile>)
        requires
            self.wf(),
        ensures
            table.wf(),
            table@ == self@.doctors,
    {
        &self.doctors
    }

    /// The patients and their profiles.
    pub fn patients(&self) -> (table: &Table<AccountId, PatientProfile>)
        requires
            self.wf(),
        ensures
            table.wf(),
            table@ == self@.patients,
    {
        &self.patients
    }

    /// The doctors that the administrator verified.
    pub fn verified_doctors(&self) -> (table: &Table<AccountId, bool>)
        requires
            self.wf(),
        ensures
            table.wf(),
            table@ == self@.verified_doctors,
    {
        &self.verified_doctors
    }

    /// The doctors and their schedules.
    pub fn schedules(&self) -> (table: &Table<AccountId, AvailabilitySchedule>)
        requires
            self.wf(),
        ensures
            table.wf(),
            table@.dom() == self@.availability.dom(),
            forall|doctor: AccountId| #[trigger]
                table@.contains_key(doctor) ==> table@[doctor]@ == self@.availability[doctor],
    {
        &self.doctor_availability
    }

    /// Registers the caller as a doctor, unverified and without counts.
    pub fn register_doctor(
        &mut self,
        ctx: &CallContext,
        name: String,
        specialty: String,
        license_number: String,
        license_ipfs_hash: String,
        consultation_fee: u128,
    ) -> (result: Result<(), Error>)
        requires
            old(self).wf(),
        ensures
            final(self).wf(),
            result == (if old(self)@.doctors.contains_key(ctx.caller) {
                Err::<(), Error>(Error::DoctorAlreadyRegistered)
            } else if old(self)@.total_doctors == u32::MAX {
                Err(Error::Overflow)
            } else {
                Ok(())
            }),
            result.is_err() ==> final(self)@ == old(self)@,
            result.is_ok() ==> final(self)@ == (RegistryModel {
                doctors: old(self)@.doctors.insert(
                    ctx.caller,
                    RegistryModel::new_doctor(
                        name,
                        specialty,
                        license_number,
                        license_ipfs_hash,
                        consultation_fee,
                    ),
                ),
                total_doctors: (old(self)@.total_doctors + 1) as u32,
                events: old(self)@.events.push(
                    RegistryEvent::DoctorRegistered(
                        DoctorRegistered { doctor: ctx.caller, specialty },
                    ),
                ),
                ..old(self)@
            }),
    {
        if self.doctors.contains(&ctx.caller) {
            return Err(Error::DoctorAlreadyRegistered);
        }
        let total = match self.total_doctors.checked_add(1) {
            Some(total) => total,
            None => {
                return Err(Error::Overflow);
            },
        };
        let announced = specialty.clone();
        let profile = DoctorProfile {
            name,
            specialty,
            license_number,
            license_ipfs_hash,
            consultation_fee,
            verified: false,
            rating: 0,
            total_consultations: 0,
            completed_consultations: 0,
            cancelled_consultations: 0,
            no_show_count: 0,
        };
        self.doctors.insert(ctx.caller, profile);
        self.total_doctors = total;
        self.events.push(
            RegistryEvent::DoctorRegistered(
                DoctorRegistered { doctor: ctx.caller, specialty: announced },
            ),
        );
        Ok(())
    }

    /// Registers the caller as a patient at the time of the call.
    pub fn register_patient(
        &mut self,
        ctx: &CallContext,
        name_hash: [u8; 32],
        medical_records_ipfs: String,
        emergency_contact_hash: [u8; 32],
    ) -> (result: Result<(), Error>)
        requires
            old(self).wf(),
        ensures
            final(self).wf(),
            result == (if old(self)@.patients.contains_key(ctx.caller) {
                Err::<(), Error>(Error::PatientAlreadyRegistered)
            } else if old(self)@.total_patients == u32::MAX {
                Err(Error::Overflow)
            } else {
                Ok(())
            }),
            result.is_err() ==> final(self)@ == old(self)@,
            result.is_ok() ==> final(self)@ == (RegistryModel {
                patients: old(self)@.patients.insert(
                    ctx.caller,
                    PatientProfile {
                        name_hash,
                        medical_records_ipfs,
                        emergency_contact_hash,
                        created_at: ctx.block_timestamp,
                    },
                ),
                total_patients: (old(self)@.total_patients + 1) as u32,
                events: old(self)@.events.push(
                    RegistryEvent::PatientRegistered(PatientRegistered { patient: ctx.caller }),
                ),
                ..old(self)@
            }),
    {
        if self.patients.contains(&ctx.caller) {
            return Err(Error::PatientAlreadyRegistered);
        }
        let total = match self.total_patients.checked_add(1) {
            Some(total) => total,
            None => {
                return Err(Error::Overflow);
            },
        };
        let profile = PatientProfile {
            name_hash,
            medical_records_ipfs,
            emergency_contact_hash,
            created_at: ctx.block_timestamp,
        };
        self.patients.insert(ctx.caller, profile);
        self.total_patients = total;
        self.events.push(
            RegistryEvent::PatientRegistered(PatientRegistered { patient: ctx.caller }),
        );
        Ok(())
    }

    /// The administrator verifies `doctor`.
    pub fn verify_doctor(&mut self, ctx: &CallContext, doctor: AccountId) -> (result: Result<
        (),
        Error,
    >)
        requires
            old(self).wf(),
        ensures
            final(self).wf(),
            result == (if ctx.caller != old(self)@.owner {
                Err::<(), Error>(Error::NotOwner)
            } else if !old(self)@.doctors.contains_key(doctor) {
                Err(Error::DoctorNotFound)
            } else {
                Ok(())
            }),
            result.is_err() ==> final(self)@ == old(self)@,
            result.is_ok() ==> final(self)@ == (RegistryModel {
                doctors: old(self)@.doctors.insert(
                    doctor,
                    DoctorProfile { verified: true, ..old(self)@.doctors[doctor] },
                ),
                verified_doctors: old(self)@.verified_doctors.insert(doctor, true),
                events: old(self)@.events.push(
                    RegistryEvent::DoctorVerified(DoctorVerified { doctor }),
                ),
                ..old(self)@
            }),
    {
        if ctx.caller != self.owner {
            return Err(Error::NotOwner);
        }
        let mut profile = match self.doctors.get(&doctor) {
            Some(profile) => profile.clone(),
            None => {
                return Err(Error::DoctorNotFound);
            },
        };
        profile.verified = true;
        self.doctors.insert(doctor, profile);
        self.verified_doctors.insert(doctor, true);
        self.events.push(RegistryEvent::DoctorVerified(DoctorVerified { doctor }));
        Ok(())
    }

    /// The calling doctor replaces their schedule.
    pub fn set_availability(&mut self, ctx: &CallContext, time_slots: Vec<TimeSlot>) -> (result:
        Result<(), Error>)
        requires
            old(self).wf(),
        ensures
            final(self).wf(),
            result == (if !old(self)@.doctors.contains_key(ctx.caller) {
                Err::<(), Error>(Error::DoctorNotFound)
            } else if time_slots@.len() > MAX_SLOTS {
                Err(Error::TooManySlots)
            } else if !slots_valid(time_slots@) {
                Err(Error::InvalidTimeSlot)
            } else {
                Ok(())
            }),
            result.is_err() ==> final(self)@ == old(self)@,
            result.is_ok() ==> final(self)@ == (RegistryModel {
                availability: old(self)@.availability.insert(ctx.caller, time_slots@),
                events: old(self)@.events.push(
                    RegistryEvent::AvailabilityUpdated(
                        AvailabilityUpdated {
                            doctor: ctx.caller,
                            slots_count: time_slots@.len() as u32,
                        },
                    ),
                ),
                ..old(self)@
            }),
    {
        if !self.doctors.contains(&ctx.caller) {
            return Err(Error::DoctorNotFound);
        }
        if time_slots.len() > MAX_SLOTS {
            return Err(Error::TooManySlots);
        }
        if !check_slots(&time_slots) {
            return Err(Error::InvalidTimeSlot);
        }
        let slots_count: u32 = time_slots.len() as u32;
        self.doctor_availability.insert(ctx.caller, AvailabilitySchedule { slots: time_slots });
        self.events.push(
            RegistryEvent::AvailabilityUpdated(
                AvailabilityUpdated { doctor: ctx.caller, slots_count },
            ),
        );
        assert(self@.availability =~= old(self)@.availability.insert(ctx.caller, time_slots@));
        Ok(())
    }

    /// The slots that `doctor` offers; none where no schedule was set.
    pub fn get_available_slots(&self, doctor: AccountId) -> (slots: Vec<TimeSlot>)
        requires
            self.wf(),
        ensures
            slots@ == (if self@.availability.contains_key(doctor) {
                self@.availability[doctor]
            } else {
                Seq::empty()
            }),
    {
        match self.doctor_availability.get(&doctor) {
            Some(schedule) => copy_slots(&schedule.slots),
            None => Vec::new(),
        }
    }

    /// Marks the first free slot of `doctor` that starts at `start_time` as
    /// booked.
    pub fn mark_slot_booked(&mut self, doctor: AccountId, start_time: u64) -> (result: Result<
        (),
        Error,
    >)
        requires
            old(self).wf(),
        ensures
            final(self).wf(),
            !old(self)@.availability.contains_key(doctor) ==> result == Err::<(), Error>(
                Error::DoctorNotFound,
            ),
            old(self)@.availability.contains_key(doctor) ==> (result == Ok::<(), Error>(())
                <==> exists|i: int| first_bookable(old(self)@.availability[doctor], start_time, i)),
            old(self)@.availability.contains_key(doctor) && result.is_err() ==> result == Err::<
                (),
                Error,
            >(Error::InvalidTimeSlot),
            result.is_err() ==> final(self)@ == old(self)@,
            result.is_ok() ==> exists|i: int|
                first_bookable(old(self)@.availability[doctor], start_time, i) && final(self)@
                    == old(self)@.with_slots(
                    doctor,
                    old(self)@.availability[doctor].update(
                        i,
                        marked(old(self)@.availability[doctor][i], true),
                    ),
                ),
    {
        let mut slots = match self.doctor_availability.get(&doctor) {
            Some(schedule) => copy_slots(&schedule.slots),
            None => {
                return Err(Error::DoctorNotFound);
            },
        };
        let ghost before = slots@;
        if !book_slot(&mut slots, start_time) {
            assert forall|i: int| !first_bookable(before, start_time, i) by {}
            return Err(Error::InvalidTimeSlot);
        }
        let ghost after = slots@;
        self.doctor_availability.insert(doctor, AvailabilitySchedule { slots });
        proof {
            let i = choose|i: int|
                first_bookable(before, start_time, i) && after == before.update(
                    i,
                    marked(before[i], true),
                );
            assert(self@.availability =~= old(self)@.availability.insert(doctor, after));
            assert(self@ == old(self)@.with_slots(
                doctor,
                old(self)@.availability[doctor].update(
                    i,
                    marked(old(self)@.availability[doctor][i], true),
                ),
            ));
        }
        Ok(())
    }

    /// Marks the first slot of `doctor` that starts at `start_time` as free
    /// again; where none starts then, nothing changes.
    pub fn mark_slot_available(&mut self, doctor: AccountId, start_time: u64) -> (result: Result<
        (),
        Error,
    >)
        requires
            old(self).wf(),
        ensures
            final(self).wf(),
            result == (if old(self)@.availability.contains_key(doctor) {
                Ok::<(), Error>(())
            } else {
                Err(Error::DoctorNotFound)
            }),
            result.is_err() ==> final(self)@ == old(self)@,
            result.is_ok() && (exists|i: int|
                first_at(old(self)@.availability[doctor], start_time, i)) ==> exists|i: int|
                first_at(old(self)@.availability[doctor], start_time, i) && final(self)@ == old(
                    self,
                )@.with_slots(
                    doctor,
                    old(self)@.availability[doctor].update(
                        i,
                        marked(old(self)@.availability[doctor][i], false),
                    ),
                ),
            result.is_ok() && (forall|i: int|
                0 <= i < old(self)@.availability[doctor].len() ==> (
                #[trigger] old(self)@.availability[doctor][i]).start_time != start_time)
                ==> final(self)@ == old(self)@,
    {
        let mut slots = match self.doctor_availability.get(&doctor) {
            Some(schedule) => copy_slots(&schedule.slots),
            None => {
                return Err(Error::DoctorNotFound);
            },
        };
        free_slot(&mut slots, start_time);
        let ghost after = slots@;
        self.doctor_availability.insert(doctor, AvailabilitySchedule { slots });
        assert(self@.availability =~= old(self)@.availability.insert(doctor, after));
        assert(old(self)@.availability.insert(doctor, old(self)@.availability[doctor])
            =~= old(self)@.availability);
        Ok(())
    }

    /// The figures of `doctor`, if they registered.
    pub fn get_doctor_stats(&self, doctor: AccountId) -> (stats: Option<DoctorStats>)
        requires
            self.wf(),
        ensures
            stats == (if self@.doctors.contains_key(doctor) {
                Some(RegistryModel::stats_of(self@.doctors[doctor]))
            } else {
                None
            }),
    {
        match self.doctors.get(&doctor) {
            None => None,
            Some(profile) => Some(
                DoctorStats {
                    total_consultations: profile.total_consultations,
                    completed_consultations: profile.completed_consultations,
                    cancelled_consultations: profile.cancelled_consultations,
                    no_show_count: profile.no_show_count,
                    rating: profile.rating,
                    completion_rate: completion_rate(
                        profile.completed_consultations,
                        profile.total_consultations,
                    ),
                    verified: profile.verified,
                },
            ),
        }
    }

    /// Counts one more consultation of `doctor`, completed.
    pub fn increment_completed(&mut self, doctor: AccountId) -> (result: Result<(), Error>)
        requires
            old(self).wf(),
        ensures
            final(self).wf(),
            result == (if !old(self)@.doctors.contains_key(doctor) {
                Err::<(), Error>(Error::DoctorNotFound)
            } else if old(self)@.doctors[doctor].total_consultations == u32::MAX || old(
                self,
            )@.doctors[doctor].completed_consultations == u32::MAX {
                Err(Error::Overflow)
            } else {
                Ok(())
            }),
            result.is_err() ==> final(self)@ == old(self)@,
            result.is_ok() ==> final(self)@ == old(self)@.with_doctor(
                doctor,
                DoctorProfile {
                    total_consultations: (old(self)@.doctors[doctor].total_consultations
                        + 1) as u32,
                    completed_consultations: (old(self)@.doctors[doctor].completed_consultations
                        + 1) as u32,
                    ..old(self)@.doctors[doctor]
                },
            ),
    {
        let mut profile = match self.doctors.get(&doctor) {
            Some(profile) => profile.clone(),
            None => {
                return Err(Error::DoctorNotFound);
            },
        };
        profile.total_consultations = match profile.total_consultations.checked_add(1) {
            Some(count) => count,
            None => {
                return Err(Error::Overflow);
            },
        };
        profile.completed_consultations = match profile.completed_consultations.checked_add(1) {
            Some(count) => count,
            None => {
                return Err(Error::Overflow);
            },
        };
        self.doctors.insert(doctor, profile);
        Ok(())
    }

    /// Counts one more cancelled consultation of `doctor`.
    pub fn increment_cancelled(&mut self, doctor: AccountId) -> (result: Result<(), Error>)
        requires
            old(self).wf(),
        ensures
            final(self).wf(),
            result == (if !old(self)@.doctors.contains_key(doctor) {
                Err::<(), Error>(Error::DoctorNotFound)
            } else if old(self)@.doctors[doctor].cancelled_consultations == u32::MAX {
                Err(Error::Overflow)
            } else {
                Ok(())
            }),
            result.is_err() ==> final(self)@ == old(self)@,
            result.is_ok() ==> final(self)@ == old(self)@.with_doctor(
                doctor,
                DoctorProfile {
                    cancelled_consultations: (old(self)@.doctors[doctor].cancelled_consultations
                        + 1) as u32,
                    ..old(self)@.doctors[doctor]
                },
            ),
    {
        let mut profile = match self.doctors.get(&doctor) {
            Some(profile) => profile.clone(),
            None => {
                return Err(Error::DoctorNotFound);
            },
        };
        profile.cancelled_consultations = match profile.cancelled_consultations.checked_add(1) {
            Some(count) => count,
            None => {
                return Err(Error::Overflow);
            },
        };
        self.doctors.insert(doctor, profile);
        Ok(())
    }

    /// Counts one more no-show of `doctor`.
    pub fn increment_no_show(&mut self, doctor: AccountId) -> (result: Result<(), Error>)
        requires
            old(self).wf(),
        ensures
            final(self).wf(),
            result == (if !old(self)@.doctors.contains_key(doctor) {
                Err::<(), Error>(Error::DoctorNotFound)
            } else if old(self)@.doctors[doctor].no_show_count == u32::MAX {
                Err(Error::Overflow)
            } else {
                Ok(())
            }),
            result.is_err() ==> final(self)@ == old(self)@,
            result.is_ok() ==> final(self)@ == old(self)@.with_doctor(
                doctor,
                DoctorProfile {
                    no_show_count: (old(self)@.doctors[doctor].no_show_count + 1) as u32,
                    ..old(self)@.doctors[doctor]
                },
            ),
    {
        let mut profile = match self.doctors.get(&doctor) {
            Some(profile) => profile.clone(),
            None => {
                return Err(Error::DoctorNotFound);
            },
        };
        profile.no_show_count = match profile.no_show_count.checked_add(1) {
            Some(count) => count,
            None => {
                return Err(Error::Overflow);
            },
        };
        self.doctors.insert(doctor, profile);
        Ok(())
    }

    /// The profile of `doctor`, if they registered.
    pub fn get_doctor(&self, doctor: AccountId) -> (profile: Option<DoctorProfile>)
        requires
            self.wf(),
        ensures
            profile == (if self@.doctors.contains_key(doctor) {
                Some(self@.doctors[doctor])
            } else {
                None
            }),
    {
        match self.doctors.get(&doctor) {
            Some(profile) => Some(profile.clone()),
            None => None,
        }
    }

    /// The profile of `patient`, if they registered.
    pub fn get_patient(&self, patient: AccountId) -> (profile: Option<PatientProfile>)
        requires
            self.wf(),
        ensures
            profile == (if self@.patients.contains_key(patient) {
                Some(self@.patients[patient])
            } else {
                None
            }),
    {
        match self.patients.get(&patient) {
            Some(profile) => Some(profile.clone()),
            None => None,
        }
    }

    /// Whether the administrator verified `doctor`.
    pub fn is_doctor_verified(&self, doctor: AccountId) -> (verified: bool)
        requires
            self.wf(),
        ensures
            verified == (self@.verified_doctors.contains_key(doctor)
                && self@.verified_doctors[doctor]),
    {
        match self.verified_doctors.get(&doctor) {
            Some(verified) => *verified,
            None => false,
        }
    }

    /// How many doctors registered.
    pub fn get_total_doctors(&self) -> (total: u32)
        ensures
            total == self@.total_doctors,
    {
        self.total_doctors
    }

    /// How many patients registered.
    pub fn get_total_patients(&self) -> (total: u32)
        ensures
            total == self@.total_patients,
    {
        self.total_patients
    }

    /// The administrator.
    pub fn get_owner(&self) -> (owner: AccountId)
        ensures
            owner == self@.owner,
    {
        self.owner
    }

    /// Takes a new rating of `doctor` into account.
    pub fn update_doctor_rating(&mut self, doctor: AccountId, new_rating: u8) -> (result: Result<
        (),
        Error,
    >)
        requires
            old(self).wf(),
        ensures
            final(self).wf(),
            result == (if old(self)@.doctors.contains_key(doctor) {
                Ok::<(), Error>(())
            } else {
                Err(Error::DoctorNotFound)
            }),
            result.is_err() ==> final(self)@ == old(self)@,
            result.is_ok() ==> final(self)@ == old(self)@.with_doctor(
                doctor,
                DoctorProfile {
                    rating: blended_rating(old(self)@.doctors[doctor].rating, new_rating),
                    ..old(self)@.doctors[doctor]
                },
            ),
    {
        let mut profile = match self.doctors.get(&doctor) {
            Some(profile) => profile.clone(),
            None => {
                return Err(Error::DoctorNotFound);
            },
        };
        profile.rating = blend_rating(profile.rating, new_rating);
        self.doctors.insert(doctor, profile);
        Ok(())
    }

    /// Hands the notifications since the last call to the host, oldest
    /// first, and forgets them.
    pub fn take_events(&mut self) -> (events: Vec<RegistryEvent>)
        ensures
            old(self).wf() ==> final(self).wf(),
            events@ == old(self)@.events,
            final(self)@ == (RegistryModel { events: Seq::empty(), ..old(self)@ }),
    {
        let mut events: Vec<RegistryEvent> = Vec::new();
        std::mem::swap(&mut self.events, &mut events);
        events
    }
}

} // verus!
