use consultation_escrow::consultation::CallContext;
use consultation_escrow::identity::AccountId;
use consultation_escrow::registry::HealthRegistry;
use consultation_escrow::registry_types::{
    AvailabilityUpdated, DoctorProfile, DoctorRegistered, DoctorVerified, Error,
    PatientRegistered, RegistryEvent, TimeSlot,
};
use consultation_escrow::schedule::{blend_rating, completion_rate};
use consultation_escrow::table::Table;

fn alice() -> AccountId {
    AccountId::new([0x01; 32])
}

fn bob() -> AccountId {
    AccountId::new([0x02; 32])
}

fn charlie() -> AccountId {
    AccountId::new([0x03; 32])
}

fn by(caller: AccountId) -> CallContext {
    CallContext { caller, transferred_value: 0, block_timestamp: 1000 }
}

fn slot(start_time: u64, end_time: u64) -> TimeSlot {
    TimeSlot { start_time, end_time, is_booked: false }
}

fn register(contract: &mut HealthRegistry, caller: AccountId) -> Result<(), Error> {
    contract.register_doctor(
        &by(caller),
        "Dr. Test".to_string(),
        "Cardiology".to_string(),
        "LIC999".to_string(),
        "QmHash".to_string(),
        500000000000,
    )
}

#[test]
fn lib_new_works() {
    let contract = HealthRegistry::new(&by(alice()));
    assert_eq!(contract.get_total_doctors(), 0);
    assert_eq!(contract.get_total_patients(), 0);
    assert_eq!(contract.get_owner(), alice());
}

#[test]
fn register_doctor_works() {
    let mut contract = HealthRegistry::new(&by(alice()));
    let result = contract.register_doctor(
        &by(alice()),
        "Dr. John Doe".to_string(),
        "Rheumatology".to_string(),
        "LIC12345".to_string(),
        "QmHash123".to_string(),
        1000000000000,
    );
    assert!(result.is_ok());
    assert_eq!(contract.get_total_doctors(), 1);
}

#[test]
fn set_availability_works() {
    let mut contract = HealthRegistry::new(&by(alice()));

    contract
        .register_doctor(
            &by(alice()),
            "Dr. Test".to_string(),
            "Cardiology".to_string(),
            "LIC999".to_string(),
            "QmHash".to_string(),
            500000000000,
        )
        .unwrap();

    let slots = vec![
        TimeSlot { start_time: 1000000, end_time: 1003600, is_booked: false },
        TimeSlot { start_time: 1010000, end_time: 1013600, is_booked: false },
    ];

    let result = contract.set_availability(&by(alice()), slots.clone());
    assert!(result.is_ok());

    let saved_slots = contract.get_available_slots(alice());
    assert_eq!(saved_slots.len(), 2);
    assert_eq!(saved_slots, slots);
}

#[test]
fn get_doctor_stats_works() {
    let mut contract = HealthRegistry::new(&by(alice()));

    contract
        .register_doctor(
            &by(alice()),
            "Dr. Stats".to_string(),
            "Oncology".to_string(),
            "LIC888".to_string(),
            "QmHash888".to_string(),
            750000000000,
        )
        .unwrap();

    contract.increment_completed(alice()).unwrap();
    contract.increment_completed(alice()).unwrap();
    contract.increment_cancelled(alice()).unwrap();

    let stats = contract.get_doctor_stats(alice());
    assert!(stats.is_some());

    let stats = stats.unwrap();
    assert_eq!(stats.completed_consultations, 2);
    assert_eq!(stats.cancelled_consultations, 1);
    assert_eq!(stats.completion_rate, 100);
}

#[test]
fn mark_slot_booked_works() {
    let mut contract = HealthRegistry::new(&by(alice()));

    contract
        .register_doctor(
            &by(alice()),
            "Dr. Busy".to_string(),
            "Pediatrics".to_string(),
            "LIC777".to_string(),
            "QmHash777".to_string(),
            600000000000,
        )
        .unwrap();

    let slots = vec![TimeSlot { start_time: 2000000, end_time: 2003600, is_booked: false }];
    contract.set_availability(&by(alice()), slots).unwrap();

    let result = contract.mark_slot_booked(alice(), 2000000);
    assert!(result.is_ok());

    let updated_slots = contract.get_available_slots(alice());
    assert_eq!(updated_slots[0].is_booked, true);
}

#[test]
fn doctor_registers_once() {
    let mut contract = HealthRegistry::new(&by(alice()));
    assert_eq!(register(&mut contract, bob()), Ok(()));
    assert_eq!(register(&mut contract, bob()), Err(Error::DoctorAlreadyRegistered));
    assert_eq!(register(&mut contract, charlie()), Ok(()));
    assert_eq!(contract.get_total_doctors(), 2);
    let profile = contract.get_doctor(bob()).unwrap();
    assert_eq!(profile.name, "Dr. Test");
    assert_eq!(profile.specialty, "Cardiology");
    assert_eq!(profile.license_number, "LIC999");
    assert_eq!(profile.license_ipfs_hash, "QmHash");
    assert_eq!(profile.consultation_fee, 500000000000);
    assert!(!profile.verified);
    assert_eq!(profile.rating, 0);
    assert_eq!(profile.total_consultations, 0);
    assert_eq!(contract.get_doctor(alice()), None);
    assert_eq!(
        contract.take_events(),
        vec![
            RegistryEvent::DoctorRegistered(DoctorRegistered {
                doctor: bob(),
                specialty: "Cardiology".to_string(),
            }),
            RegistryEvent::DoctorRegistered(DoctorRegistered {
                doctor: charlie(),
                specialty: "Cardiology".to_string(),
            }),
        ]
    );
}

#[test]
fn patient_registers_once() {
    let mut contract = HealthRegistry::new(&by(alice()));
    let result = contract.register_patient(&by(bob()), [7; 32], "QmRecords".to_string(), [9; 32]);
    assert_eq!(result, Ok(()));
    assert_eq!(
        contract.register_patient(&by(bob()), [7; 32], "QmRecords".to_string(), [9; 32]),
        Err(Error::PatientAlreadyRegistered)
    );
    assert_eq!(contract.get_total_patients(), 1);
    let profile = contract.get_patient(bob()).unwrap();
    assert_eq!(profile.name_hash, [7; 32]);
    assert_eq!(profile.medical_records_ipfs, "QmRecords");
    assert_eq!(profile.emergency_contact_hash, [9; 32]);
    assert_eq!(profile.created_at, 1000);
    assert_eq!(contract.get_patient(alice()), None);
    assert_eq!(
        contract.take_events(),
        vec![RegistryEvent::PatientRegistered(PatientRegistered { patient: bob() })]
    );
}

#[test]
fn only_the_administrator_verifies() {
    let mut contract = HealthRegistry::new(&by(alice()));
    register(&mut contract, bob()).unwrap();
    contract.take_events();
    assert!(!contract.is_doctor_verified(bob()));
    assert_eq!(contract.verify_doctor(&by(bob()), bob()), Err(Error::NotOwner));
    assert_eq!(contract.verify_doctor(&by(alice()), charlie()), Err(Error::DoctorNotFound));
    assert!(!contract.is_doctor_verified(bob()));
    assert_eq!(contract.verify_doctor(&by(alice()), bob()), Ok(()));
    assert!(contract.is_doctor_verified(bob()));
    assert!(contract.get_doctor(bob()).unwrap().verified);
    assert!(contract.get_doctor_stats(bob()).unwrap().verified);
    assert!(!contract.is_doctor_verified(charlie()));
    assert_eq!(
        contract.take_events(),
        vec![RegistryEvent::DoctorVerified(DoctorVerified { doctor: bob() })]
    );
}

#[test]
fn schedules_are_checked() {
    let mut contract = HealthRegistry::new(&by(alice()));
    assert_eq!(contract.set_availability(&by(bob()), vec![]), Err(Error::DoctorNotFound));
    register(&mut contract, bob()).unwrap();
    contract.take_events();
    let too_many: Vec<TimeSlot> = (0..21).map(|i| slot(i * 10, i * 10 + 5)).collect();
    assert_eq!(contract.set_availability(&by(bob()), too_many), Err(Error::TooManySlots));
    assert_eq!(
        contract.set_availability(&by(bob()), vec![slot(0, 5), slot(7, 7)]),
        Err(Error::InvalidTimeSlot)
    );
    assert!(contract.get_available_slots(bob()).is_empty());
    let full: Vec<TimeSlot> = (0..20).map(|i| slot(i * 10, i * 10 + 5)).collect();
    assert_eq!(contract.set_availability(&by(bob()), full.clone()), Ok(()));
    assert_eq!(contract.get_available_slots(bob()), full);
    assert_eq!(
        contract.take_events(),
        vec![RegistryEvent::AvailabilityUpdated(AvailabilityUpdated {
            doctor: bob(),
            slots_count: 20,
        })]
    );
    assert_eq!(contract.set_availability(&by(bob()), vec![]), Ok(()));
    assert!(contract.get_available_slots(bob()).is_empty());
}

#[test]
fn slots_are_booked_and_freed_in_order() {
    let mut contract = HealthRegistry::new(&by(alice()));
    assert_eq!(contract.mark_slot_booked(bob(), 10), Err(Error::DoctorNotFound));
    assert_eq!(contract.mark_slot_available(bob(), 10), Err(Error::DoctorNotFound));
    register(&mut contract, bob()).unwrap();
    contract
        .set_availability(&by(bob()), vec![slot(10, 20), slot(30, 40), slot(10, 25)])
        .unwrap();
    assert_eq!(contract.mark_slot_booked(bob(), 11), Err(Error::InvalidTimeSlot));
    assert_eq!(contract.mark_slot_booked(bob(), 10), Ok(()));
    let slots = contract.get_available_slots(bob());
    assert_eq!(
        (slots[0].is_booked, slots[1].is_booked, slots[2].is_booked),
        (true, false, false)
    );
    assert_eq!(contract.mark_slot_booked(bob(), 10), Ok(()));
    let slots = contract.get_available_slots(bob());
    assert_eq!(
        (slots[0].is_booked, slots[1].is_booked, slots[2].is_booked),
        (true, false, true)
    );
    assert_eq!(contract.mark_slot_booked(bob(), 10), Err(Error::InvalidTimeSlot));
    assert_eq!(contract.mark_slot_available(bob(), 10), Ok(()));
    let slots = contract.get_available_slots(bob());
    assert_eq!(
        (slots[0].is_booked, slots[1].is_booked, slots[2].is_booked),
        (false, false, true)
    );
    assert_eq!(contract.mark_slot_available(bob(), 99), Ok(()));
    assert_eq!(contract.get_available_slots(bob()), slots);
}

#[test]
fn counts_need_a_registered_doctor() {
    let mut contract = HealthRegistry::new(&by(alice()));
    assert_eq!(contract.increment_completed(bob()), Err(Error::DoctorNotFound));
    assert_eq!(contract.increment_cancelled(bob()), Err(Error::DoctorNotFound));
    assert_eq!(contract.increment_no_show(bob()), Err(Error::DoctorNotFound));
    assert_eq!(contract.update_doctor_rating(bob(), 50), Err(Error::DoctorNotFound));
    assert_eq!(contract.get_doctor_stats(bob()), None);
    register(&mut contract, bob()).unwrap();
    assert_eq!(contract.get_doctor_stats(bob()).unwrap().completion_rate, 0);
    contract.increment_no_show(bob()).unwrap();
    contract.increment_completed(bob()).unwrap();
    let stats = contract.get_doctor_stats(bob()).unwrap();
    assert_eq!(stats.total_consultations, 1);
    assert_eq!(stats.completed_consultations, 1);
    assert_eq!(stats.cancelled_consultations, 0);
    assert_eq!(stats.no_show_count, 1);
}

#[test]
fn ratings_are_blended() {
    let mut contract = HealthRegistry::new(&by(alice()));
    register(&mut contract, bob()).unwrap();
    contract.update_doctor_rating(bob(), 80).unwrap();
    assert_eq!(contract.get_doctor(bob()).unwrap().rating, 80);
    contract.update_doctor_rating(bob(), 51).unwrap();
    assert_eq!(contract.get_doctor(bob()).unwrap().rating, 65);
    assert_eq!(blend_rating(0, 255), 255);
    assert_eq!(blend_rating(100, 255), 100);
    assert_eq!(blend_rating(1, 0), 0);
    assert_eq!(blend_rating(255, 255), 100);
}

#[test]
fn completion_rate_is_capped() {
    assert_eq!(completion_rate(0, 0), 0);
    assert_eq!(completion_rate(5, 0), 0);
    assert_eq!(completion_rate(1, 3), 33);
    assert_eq!(completion_rate(2, 3), 66);
    assert_eq!(completion_rate(3, 3), 100);
    assert_eq!(completion_rate(9, 3), 100);
    assert_eq!(completion_rate(u32::MAX, u32::MAX), 0);
    assert_eq!(completion_rate(u32::MAX / 100, u32::MAX), 0);
}

#[test]
fn counters_fail_closed() {
    let full = HealthRegistry::from_parts(
        alice(),
        Table::new(),
        Table::new(),
        Table::new(),
        Table::new(),
        u32::MAX,
        u32::MAX,
    );
    let mut contract = full;
    assert_eq!(register(&mut contract, bob()), Err(Error::Overflow));
    assert_eq!(contract.get_doctor(bob()), None);
    assert_eq!(contract.get_total_doctors(), u32::MAX);
    assert_eq!(
        contract.register_patient(&by(bob()), [0; 32], "Qm".to_string(), [0; 32]),
        Err(Error::Overflow)
    );
    assert_eq!(contract.get_patient(bob()), None);
    assert!(contract.take_events().is_empty());

    let mut doctors: Table<AccountId, DoctorProfile> = Table::new();
    doctors.insert(
        bob(),
        DoctorProfile {
            name: "Dr. Test".to_string(),
            specialty: "Cardiology".to_string(),
            license_number: "LIC999".to_string(),
            license_ipfs_hash: "QmHash".to_string(),
            consultation_fee: 1,
            verified: true,
            rating: 40,
            total_consultations: u32::MAX,
            completed_consultations: 3,
            cancelled_consultations: u32::MAX,
            no_show_count: u32::MAX,
        },
    );
    let mut contract = HealthRegistry::from_parts(
        alice(),
        doctors,
        Table::new(),
        Table::new(),
        Table::new(),
        1,
        0,
    );
    assert_eq!(contract.increment_completed(bob()), Err(Error::Overflow));
    assert_eq!(contract.increment_cancelled(bob()), Err(Error::Overflow));
    assert_eq!(contract.increment_no_show(bob()), Err(Error::Overflow));
    let profile = contract.get_doctor(bob()).unwrap();
    assert_eq!(profile.total_consultations, u32::MAX);
    assert_eq!(profile.completed_consultations, 3);
    assert_eq!(contract.get_doctor_stats(bob()).unwrap().completion_rate, 0);
    assert_eq!(contract.doctors().len(), 1);
    assert_eq!(contract.doctors().entry(0).0, bob());
    assert_eq!(contract.patients().len(), 0);
    assert_eq!(contract.verified_doctors().len(), 0);
    assert_eq!(contract.schedules().len(), 0);
}

#[test]
fn table_keeps_one_value_for_each_key() {
    let mut table: Table<AccountId, u32> = Table::new();
    assert_eq!(table.len(), 0);
    assert!(!table.contains(&alice()));
    assert_eq!(table.get(&alice()), None);
    table.insert(alice(), 1);
    table.insert(bob(), 2);
    table.insert(alice(), 3);
    assert_eq!(table.len(), 2);
    assert!(table.contains(&alice()));
    assert_eq!(table.get(&alice()), Some(&3));
    assert_eq!(table.get(&bob()), Some(&2));
    assert_eq!(table.get(&charlie()), None);
    assert_eq!(table.entry(0), (alice(), &3));
    assert_eq!(table.entry(1), (bob(), &2));
}
