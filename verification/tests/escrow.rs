use consultation_escrow::consultation::{
    CallContext, ConsultationBooked, ConsultationCancelled, ConsultationCompleted,
    ConsultationDisputed, ConsultationRefunded, ConsultationStatus, Error, Event, NoShowReported,
    PaymentReleased,
};
use consultation_escrow::escrow::{ConsultationEscrow, TransferOutcome};
use consultation_escrow::identity::AccountId;
use consultation_escrow::settlement::{calculate_fee, refund_on_cancel, split_release, Transfer};
use consultation_escrow::timing::{
    dispute_window_elapsed, dispute_window_open, full_refund_due, time_since, time_until,
    CANCELLATION_NOTICE, DISPUTE_WINDOW,
};
use consultation_escrow::transitions::Action;

const HOUR: u64 = 60 * 60 * 1000;

fn alice() -> AccountId {
    AccountId::new([0x01; 32])
}

fn bob() -> AccountId {
    AccountId::new([0x02; 32])
}

fn charlie() -> AccountId {
    AccountId::new([0x03; 32])
}

fn django() -> AccountId {
    AccountId::new([0x04; 32])
}

fn call(caller: AccountId, value: u128, now: u64) -> CallContext {
    CallContext { caller, transferred_value: value, block_timestamp: now }
}

/// An escrow administered by alice, paying fees of 3% to bob.
fn escrow() -> ConsultationEscrow {
    ConsultationEscrow::new(&call(alice(), 0, 0), bob(), 3, alice())
}

/// Patient django books doctor charlie for `scheduled_time` with a payment of 1000 at `now`.
fn booked(scheduled_time: u64, now: u64) -> (ConsultationEscrow, u64) {
    let mut contract = escrow();
    let id = contract
        .book_consultation(&call(django(), 1000, now), charlie(), scheduled_time)
        .unwrap();
    (contract, id)
}

/// As `booked`, then started and completed by the doctor at `t0`.
fn completed(t0: u64) -> (ConsultationEscrow, u64) {
    let (mut contract, id) = booked(t0, 0);
    contract.start_consultation(&call(charlie(), 0, t0), id).unwrap();
    contract
        .mark_completed(&call(charlie(), 0, t0), id, "ref".to_string())
        .unwrap();
    (contract, id)
}

#[test]
fn new_works() {
    let contract = ConsultationEscrow::new(&call(alice(), 0, 0), bob(), 3, alice());
    assert_eq!(contract.get_platform_fee_percent(), 3);
    assert_eq!(contract.fee_config().owner, alice());
    assert_eq!(contract.fee_config().platform_wallet, bob());
    assert_eq!(contract.health_registry(), alice());
    assert_eq!(contract.next_consultation_id(), 1);
}

#[test]
fn book_consultation_works() {
    let mut contract = ConsultationEscrow::new(&call(alice(), 0, 0), bob(), 3, alice());

    let result =
        contract.book_consultation(&call(alice(), 1000000000000, 0), charlie(), 1234567890);
    assert!(result.is_ok());

    let consultation_id = result.unwrap();
    assert_eq!(consultation_id, 1);

    let consultation = contract.get_consultation(consultation_id);
    assert!(consultation.is_some());
    assert_eq!(consultation.unwrap().status, ConsultationStatus::Pending);
}

#[test]
fn complete_flow_works() {
    let mut contract = ConsultationEscrow::new(&call(alice(), 0, 0), bob(), 3, alice());

    let consultation_id = contract
        .book_consultation(&call(alice(), 1000000000000, 0), charlie(), 1234567890)
        .unwrap();

    assert!(contract.start_consultation(&call(charlie(), 0, 0), consultation_id).is_ok());

    assert!(contract
        .mark_completed(&call(charlie(), 0, 0), consultation_id, "QmNotes123".to_string())
        .is_ok());

    let consultation = contract.get_consultation(consultation_id).unwrap();
    assert_eq!(consultation.status, ConsultationStatus::Completed);
}

#[test]
fn unauthorized_access_fails() {
    let mut contract = ConsultationEscrow::new(&call(alice(), 0, 0), bob(), 3, alice());

    let consultation_id = contract
        .book_consultation(&call(alice(), 1000000000000, 0), charlie(), 1234567890)
        .unwrap();

    let result = contract.start_consultation(&call(alice(), 0, 0), consultation_id);
    assert_eq!(result, Err(Error::Unauthorized));
}

#[test]
fn booking_records_the_call() {
    let mut contract = escrow();
    let id = contract.book_consultation(&call(django(), 1000, 77), charlie(), 5000).unwrap();
    let record = contract.get_consultation(id).unwrap();
    assert_eq!(record.id, 1);
    assert_eq!(record.patient, django());
    assert_eq!(record.doctor, charlie());
    assert_eq!(record.amount, 1000);
    assert_eq!(record.scheduled_time, 5000);
    assert_eq!(record.created_at, 77);
    assert_eq!(record.completed_at, None);
    assert_eq!(record.notes_ipfs_hash, None);
    assert_eq!(
        contract.take_events(),
        vec![Event::Booked(ConsultationBooked {
            consultation_id: 1,
            patient: django(),
            doctor: charlie(),
            amount: 1000,
        })]
    );
    assert!(contract.take_events().is_empty());
}

#[test]
fn booking_ids_strictly_increase() {
    let mut contract = escrow();
    let first = contract.book_consultation(&call(django(), 10, 0), charlie(), 5).unwrap();
    contract.start_consultation(&call(charlie(), 0, 1), first).unwrap();
    let second = contract.book_consultation(&call(alice(), 20, 2), charlie(), 6).unwrap();
    contract.cancel_consultation(&call(alice(), 0, 3), second, TransferOutcome::Completed).unwrap();
    let third = contract.book_consultation(&call(bob(), 30, 4), charlie(), 7).unwrap();
    assert_eq!((first, second, third), (1, 2, 3));
    assert_eq!(contract.next_consultation_id(), 4);
    assert_eq!(contract.get_consultation(1).unwrap().amount, 10);
    assert_eq!(contract.get_consultation(2).unwrap().amount, 20);
    assert_eq!(contract.get_consultation(3).unwrap().amount, 30);
}

#[test]
fn booking_without_payment_is_rejected() {
    let mut contract = escrow();
    let result = contract.book_consultation(&call(django(), 0, 0), charlie(), 5);
    assert_eq!(result, Err(Error::InsufficientPayment));
    assert_eq!(contract.next_consultation_id(), 1);
    assert_eq!(contract.get_consultation(1), None);
    assert!(contract.take_events().is_empty());
}

#[test]
fn verified_booking_needs_a_verified_doctor() {
    let mut contract = escrow();
    let ctx = call(django(), 1000, 0);
    assert_eq!(
        contract.book_verified_consultation(&ctx, charlie(), 5, false),
        Err(Error::DoctorNotVerified)
    );
    assert_eq!(contract.get_consultation(1), None);
    assert_eq!(contract.book_verified_consultation(&ctx, charlie(), 5, true), Ok(1));
    assert_eq!(contract.get_consultation(1).unwrap().status, ConsultationStatus::Pending);
}

#[test]
fn unknown_consultation_is_not_found() {
    let mut contract = escrow();
    let ctx = call(django(), 0, 0);
    assert_eq!(contract.get_consultation(0), None);
    assert_eq!(contract.get_consultation(1), None);
    assert_eq!(contract.start_consultation(&ctx, 1), Err(Error::ConsultationNotFound));
    assert_eq!(contract.start_consultation(&ctx, 0), Err(Error::ConsultationNotFound));
    assert_eq!(
        contract.mark_completed(&ctx, 1, "ref".to_string()),
        Err(Error::ConsultationNotFound)
    );
    assert_eq!(
        contract.release_payment(&ctx, 1, TransferOutcome::Completed),
        Err(Error::ConsultationNotFound)
    );
    assert_eq!(contract.dispute_consultation(&ctx, 1), Err(Error::ConsultationNotFound));
    assert_eq!(
        contract.cancel_consultation(&ctx, 1, TransferOutcome::Completed),
        Err(Error::ConsultationNotFound)
    );
    assert_eq!(
        contract.report_no_show(&ctx, 1, TransferOutcome::Completed),
        Err(Error::ConsultationNotFound)
    );
    // A refund is refused to anyone but the administrator before the lookup.
    assert_eq!(
        contract.refund_consultation(&ctx, 1, TransferOutcome::Completed),
        Err(Error::Unauthorized)
    );
    assert_eq!(
        contract.refund_consultation(&call(alice(), 0, 0), 1, TransferOutcome::Completed),
        Err(Error::ConsultationNotFound)
    );
}

#[test]
fn start_and_complete_follow_the_table() {
    let (mut contract, id) = booked(100, 0);
    assert_eq!(
        contract.mark_completed(&call(charlie(), 0, 1), id, "ref".to_string()),
        Err(Error::InvalidStatus)
    );
    assert_eq!(contract.start_consultation(&call(charlie(), 0, 1), id), Ok(()));
    assert_eq!(contract.get_consultation(id).unwrap().status, ConsultationStatus::InProgress);
    assert_eq!(contract.start_consultation(&call(charlie(), 0, 1), id), Err(Error::InvalidStatus));
    assert_eq!(
        contract.mark_completed(&call(django(), 0, 1), id, "ref".to_string()),
        Err(Error::Unauthorized)
    );
    assert_eq!(contract.mark_completed(&call(charlie(), 0, 9), id, "ref".to_string()), Ok(()));
    let record = contract.get_consultation(id).unwrap();
    assert_eq!(record.status, ConsultationStatus::Completed);
    assert_eq!(record.completed_at, Some(9));
    assert_eq!(record.notes_ipfs_hash, Some("ref".to_string()));
    contract.take_events();
    assert_eq!(contract.dispute_consultation(&call(django(), 0, 10), id), Ok(()));
    assert_eq!(
        contract.take_events(),
        vec![Event::Disputed(ConsultationDisputed { consultation_id: id })]
    );
}

#[test]
fn early_release_is_for_the_administrator() {
    let t0 = 1_000_000;
    let (mut contract, id) = completed(t0);
    assert_eq!(id, 1);
    assert_eq!(contract.get_consultation(id).unwrap().completed_at, Some(t0));
    contract.take_events();

    let early = call(charlie(), 0, t0 + DISPUTE_WINDOW - 1);
    assert_eq!(
        contract.release_payment(&early, id, TransferOutcome::Completed),
        Err(Error::TooEarlyToRelease)
    );
    assert_eq!(contract.get_consultation(id).unwrap().status, ConsultationStatus::Completed);

    let admin = call(alice(), 0, t0 + DISPUTE_WINDOW - 1);
    let plan = contract.plan(&admin, id, &Action::Release).unwrap();
    assert_eq!(
        plan.transfers,
        vec![Transfer { to: charlie(), amount: 970 }, Transfer { to: bob(), amount: 30 }]
    );
    assert_eq!(contract.release_payment(&admin, id, TransferOutcome::Completed), Ok(()));
    assert_eq!(contract.get_consultation(id).unwrap().status, ConsultationStatus::Released);
    assert_eq!(
        contract.take_events(),
        vec![Event::Released(PaymentReleased {
            consultation_id: id,
            doctor: charlie(),
            amount: 970,
        })]
    );
}

#[test]
fn anyone_releases_once_the_window_is_over() {
    let t0 = 1_000_000;
    let (mut contract, id) = completed(t0);
    let at_the_end = call(bob(), 0, t0 + DISPUTE_WINDOW);
    assert_eq!(contract.release_payment(&at_the_end, id, TransferOutcome::Completed), Ok(()));
    assert_eq!(contract.get_consultation(id).unwrap().status, ConsultationStatus::Released);
}

#[test]
fn release_is_rejected_when_the_clock_ran_backwards() {
    let t0 = 1_000_000;
    let (mut contract, id) = completed(t0);
    assert_eq!(
        contract.release_payment(&call(alice(), 0, t0 - 1), id, TransferOutcome::Completed),
        Err(Error::TooEarlyToRelease)
    );
    assert_eq!(
        contract.dispute_consultation(&call(django(), 0, t0 - 1), id),
        Err(Error::DisputeWindowExpired)
    );
    assert_eq!(contract.get_consultation(id).unwrap().status, ConsultationStatus::Completed);
}

#[test]
fn release_needs_a_completed_consultation() {
    let (mut contract, id) = booked(100, 0);
    assert_eq!(
        contract.release_payment(&call(alice(), 0, 1), id, TransferOutcome::Completed),
        Err(Error::InvalidStatus)
    );
}

#[test]
fn release_without_fee_makes_one_transfer() {
    let t0 = 1_000_000;
    let (mut contract, id) = completed(t0);
    assert_eq!(contract.update_platform_fee(&call(alice(), 0, t0), 0), Ok(()));
    let plan = contract.plan(&call(alice(), 0, t0), id, &Action::Release).unwrap();
    assert_eq!(plan.transfers, vec![Transfer { to: charlie(), amount: 1000 }]);
    assert_eq!(plan.record.status, ConsultationStatus::Released);
    // Staging changes nothing.
    assert_eq!(contract.get_consultation(id).unwrap().status, ConsultationStatus::Completed);
}

#[test]
fn release_fails_where_the_fee_exceeds_the_amount() {
    let t0 = 1_000_000;
    let (mut contract, id) = completed(t0);
    assert_eq!(contract.update_platform_fee(&call(alice(), 0, t0), 200), Ok(()));
    assert_eq!(
        contract.release_payment(&call(alice(), 0, t0), id, TransferOutcome::Completed),
        Err(Error::OverflowError)
    );
    assert_eq!(contract.get_consultation(id).unwrap().status, ConsultationStatus::Completed);
}

#[test]
fn dispute_then_refund() {
    let t0 = 1_000_000;
    let (mut contract, id) = completed(t0);
    contract.take_events();

    assert_eq!(
        contract.dispute_consultation(&call(charlie(), 0, t0 + HOUR), id),
        Err(Error::Unauthorized)
    );
    assert_eq!(contract.dispute_consultation(&call(django(), 0, t0 + HOUR), id), Ok(()));
    assert_eq!(contract.get_consultation(id).unwrap().status, ConsultationStatus::Disputed);
    assert_eq!(contract.get_consultation(id).unwrap().completed_at, Some(t0));

    let admin = call(alice(), 0, t0 + 2 * HOUR);
    assert_eq!(
        contract.refund_consultation(&call(django(), 0, t0 + 2 * HOUR), id, TransferOutcome::Completed),
        Err(Error::Unauthorized)
    );
    let plan = contract.plan(&admin, id, &Action::Refund).unwrap();
    assert_eq!(plan.transfers, vec![Transfer { to: django(), amount: 1000 }]);
    assert_eq!(contract.refund_consultation(&admin, id, TransferOutcome::Completed), Ok(()));
    assert_eq!(contract.get_consultation(id).unwrap().status, ConsultationStatus::Refunded);
    assert_eq!(
        contract.take_events(),
        vec![
            Event::Disputed(ConsultationDisputed { consultation_id: id }),
            Event::Refunded(ConsultationRefunded {
                consultation_id: id,
                patient: django(),
                amount: 1000,
            }),
        ]
    );

    assert_eq!(
        contract.refund_consultation(&admin, id, TransferOutcome::Completed),
        Err(Error::InvalidStatus)
    );
}

#[test]
fn dispute_ends_with_the_window() {
    let t0 = 1_000_000;
    let (mut contract, id) = completed(t0);
    assert_eq!(
        contract.dispute_consultation(&call(django(), 0, t0 + DISPUTE_WINDOW), id),
        Err(Error::DisputeWindowExpired)
    );
    assert_eq!(
        contract.dispute_consultation(&call(django(), 0, t0 + DISPUTE_WINDOW - 1), id),
        Ok(())
    );
    // A disputed consultation cannot be released.
    assert_eq!(
        contract.release_payment(&call(alice(), 0, t0 + 2 * DISPUTE_WINDOW), id, TransferOutcome::Completed),
        Err(Error::InvalidStatus)
    );
}

#[test]
fn cancellation_refund_depends_on_the_notice() {
    let now = 10_000;
    let (mut contract, id) = booked(now + 48 * HOUR, now);
    contract.take_events();
    let ctx = call(django(), 0, now);
    let plan = contract.plan(&ctx, id, &Action::Cancel).unwrap();
    assert_eq!(plan.transfers, vec![Transfer { to: django(), amount: 1000 }]);
    assert_eq!(contract.cancel_consultation(&ctx, id, TransferOutcome::Completed), Ok(()));
    assert_eq!(contract.get_consultation(id).unwrap().status, ConsultationStatus::Cancelled);
    assert_eq!(
        contract.take_events(),
        vec![Event::Cancelled(ConsultationCancelled {
            consultation_id: id,
            cancelled_by: django(),
            refund_amount: 1000,
        })]
    );

    let second = contract
        .book_consultation(&call(django(), 1000, now), charlie(), now + HOUR)
        .unwrap();
    assert_eq!(second, 2);
    let plan = contract.plan(&ctx, second, &Action::Cancel).unwrap();
    assert_eq!(
        plan.transfers,
        vec![Transfer { to: django(), amount: 500 }, Transfer { to: charlie(), amount: 500 }]
    );
    assert_eq!(contract.cancel_consultation(&ctx, second, TransferOutcome::Completed), Ok(()));
    assert_eq!(contract.get_consultation(second).unwrap().status, ConsultationStatus::Cancelled);
}

#[test]
fn cancellation_by_the_doctor_and_by_strangers() {
    let (mut contract, id) = booked(5, 10);
    assert_eq!(
        contract.cancel_consultation(&call(bob(), 0, 10), id, TransferOutcome::Completed),
        Err(Error::Unauthorized)
    );
    // Past the scheduled time no notice is left: half goes to the doctor.
    let plan = contract.plan(&call(charlie(), 0, 10), id, &Action::Cancel).unwrap();
    assert_eq!(
        plan.transfers,
        vec![Transfer { to: django(), amount: 500 }, Transfer { to: charlie(), amount: 500 }]
    );
    assert_eq!(
        plan.event,
        Some(Event::Cancelled(ConsultationCancelled {
            consultation_id: id,
            cancelled_by: charlie(),
            refund_amount: 500,
        }))
    );
    assert_eq!(
        contract.cancel_consultation(&call(charlie(), 0, 10), id, TransferOutcome::Completed),
        Ok(())
    );
}

#[test]
fn cancellation_is_for_pending_consultations() {
    let (mut contract, id) = booked(100, 0);
    contract.start_consultation(&call(charlie(), 0, 1), id).unwrap();
    assert_eq!(
        contract.cancel_consultation(&call(django(), 0, 2), id, TransferOutcome::Completed),
        Err(Error::CancellationNotAllowed)
    );
    assert_eq!(contract.get_consultation(id).unwrap().status, ConsultationStatus::InProgress);
}

#[test]
fn cancellation_of_the_smallest_payment() {
    let mut contract = escrow();
    let id = contract.book_consultation(&call(django(), 1, 0), charlie(), 5).unwrap();
    let plan = contract.plan(&call(django(), 0, 0), id, &Action::Cancel).unwrap();
    assert_eq!(
        plan.transfers,
        vec![Transfer { to: django(), amount: 0 }, Transfer { to: charlie(), amount: 1 }]
    );
    let odd = contract.book_consultation(&call(django(), 1001, 0), charlie(), 5).unwrap();
    let plan = contract.plan(&call(django(), 0, 0), odd, &Action::Cancel).unwrap();
    assert_eq!(
        plan.transfers,
        vec![Transfer { to: django(), amount: 500 }, Transfer { to: charlie(), amount: 501 }]
    );
}

#[test]
fn no_show_waits_for_the_scheduled_time() {
    let (mut contract, id) = booked(5000, 0);
    contract.take_events();
    assert_eq!(
        contract.report_no_show(&call(django(), 0, 4999), id, TransferOutcome::Completed),
        Err(Error::TooEarlyToRelease)
    );
    assert_eq!(
        contract.report_no_show(&call(charlie(), 0, 5000), id, TransferOutcome::Completed),
        Err(Error::Unauthorized)
    );
    let ctx = call(django(), 0, 5000);
    let plan = contract.plan(&ctx, id, &Action::ReportNoShow).unwrap();
    assert_eq!(plan.transfers, vec![Transfer { to: django(), amount: 1000 }]);
    assert_eq!(contract.report_no_show(&ctx, id, TransferOutcome::Completed), Ok(()));
    assert_eq!(contract.get_consultation(id).unwrap().status, ConsultationStatus::NoShow);
    assert_eq!(contract.get_consultation(id).unwrap().completed_at, None);
    assert_eq!(
        contract.take_events(),
        vec![Event::NoShow(NoShowReported { consultation_id: id, doctor: charlie() })]
    );
}

#[test]
fn no_show_checks_the_status_before_the_clock() {
    let (mut contract, id) = completed(5000);
    assert_eq!(
        contract.report_no_show(&call(django(), 0, 1), id, TransferOutcome::Completed),
        Err(Error::InvalidStatus)
    );
    let (mut contract, id) = booked(5000, 0);
    contract.start_consultation(&call(charlie(), 0, 1), id).unwrap();
    assert_eq!(
        contract.report_no_show(&call(django(), 0, 6000), id, TransferOutcome::Completed),
        Ok(())
    );
}

#[test]
fn failed_transfer_changes_nothing() {
    let t0 = 1_000_000;
    let (mut contract, id) = completed(t0);
    let before = contract.get_consultation(id).unwrap();
    contract.take_events();
    let admin = call(alice(), 0, t0 + DISPUTE_WINDOW);
    assert_eq!(
        contract.release_payment(&admin, id, TransferOutcome::Failed),
        Err(Error::TransferFailed)
    );
    assert_eq!(contract.get_consultation(id).unwrap(), before);
    assert!(contract.take_events().is_empty());
    assert_eq!(contract.next_consultation_id(), 2);
    // The same call goes through once the host can make the transfers.
    assert_eq!(contract.release_payment(&admin, id, TransferOutcome::Completed), Ok(()));

    let (mut contract, id) = booked(100, 0);
    let before = contract.get_consultation(id).unwrap();
    assert_eq!(
        contract.cancel_consultation(&call(django(), 0, 1), id, TransferOutcome::Failed),
        Err(Error::TransferFailed)
    );
    assert_eq!(
        contract.report_no_show(&call(django(), 0, 100), id, TransferOutcome::Failed),
        Err(Error::TransferFailed)
    );
    assert_eq!(contract.get_consultation(id).unwrap(), before);

    let (mut contract, id) = completed(t0);
    contract.dispute_consultation(&call(django(), 0, t0), id).unwrap();
    let before = contract.get_consultation(id).unwrap();
    assert_eq!(
        contract.refund_consultation(&call(alice(), 0, t0), id, TransferOutcome::Failed),
        Err(Error::TransferFailed)
    );
    assert_eq!(contract.get_consultation(id).unwrap(), before);
}

#[test]
fn guards_come_before_the_transfers() {
    let (mut contract, id) = booked(100, 0);
    assert_eq!(
        contract.cancel_consultation(&call(bob(), 0, 1), id, TransferOutcome::Failed),
        Err(Error::Unauthorized)
    );
    assert_eq!(
        contract.release_payment(&call(alice(), 0, 1), id, TransferOutcome::Failed),
        Err(Error::InvalidStatus)
    );
}

#[test]
fn terminal_consultations_stay_as_they_are() {
    let t0 = 1_000_000;
    let (mut contract, id) = completed(t0);
    let late = t0 + 2 * DISPUTE_WINDOW;
    contract.release_payment(&call(bob(), 0, late), id, TransferOutcome::Completed).unwrap();
    let settled = contract.get_consultation(id).unwrap();
    assert!(settled.status.terminal());
    contract.take_events();

    assert_eq!(contract.start_consultation(&call(charlie(), 0, late), id), Err(Error::InvalidStatus));
    assert_eq!(
        contract.mark_completed(&call(charlie(), 0, late), id, "again".to_string()),
        Err(Error::InvalidStatus)
    );
    assert_eq!(
        contract.release_payment(&call(alice(), 0, late), id, TransferOutcome::Completed),
        Err(Error::InvalidStatus)
    );
    assert_eq!(contract.dispute_consultation(&call(django(), 0, t0), id), Err(Error::InvalidStatus));
    assert_eq!(
        contract.refund_consultation(&call(alice(), 0, late), id, TransferOutcome::Completed),
        Err(Error::InvalidStatus)
    );
    assert_eq!(
        contract.cancel_consultation(&call(django(), 0, late), id, TransferOutcome::Completed),
        Err(Error::CancellationNotAllowed)
    );
    assert_eq!(
        contract.report_no_show(&call(django(), 0, late), id, TransferOutcome::Completed),
        Err(Error::InvalidStatus)
    );
    assert_eq!(contract.get_consultation(id).unwrap(), settled);
    assert!(contract.take_events().is_empty());
    assert!(!ConsultationStatus::Pending.terminal());
    assert!(!ConsultationStatus::Disputed.terminal());
    assert!(ConsultationStatus::Cancelled.terminal());
}

#[test]
fn only_the_administrator_sets_the_fee() {
    let mut contract = escrow();
    assert_eq!(contract.update_platform_fee(&call(bob(), 0, 0), 10), Err(Error::Unauthorized));
    assert_eq!(contract.get_platform_fee_percent(), 3);
    assert_eq!(contract.update_platform_fee(&call(alice(), 0, 0), 10), Ok(()));
    assert_eq!(contract.get_platform_fee_percent(), 10);
}

#[test]
fn a_new_fee_leaves_settled_consultations_alone() {
    let t0 = 1_000_000;
    let (mut contract, id) = completed(t0);
    contract.release_payment(&call(alice(), 0, t0), id, TransferOutcome::Completed).unwrap();
    let settled = contract.get_consultation(id).unwrap();
    contract.update_platform_fee(&call(alice(), 0, t0), 50).unwrap();
    assert_eq!(contract.get_consultation(id).unwrap(), settled);
}

#[test]
fn completion_leaves_its_notification() {
    let (mut contract, id) = booked(100, 0);
    contract.take_events();
    contract.start_consultation(&call(charlie(), 0, 1), id).unwrap();
    assert!(contract.take_events().is_empty());
    contract.mark_completed(&call(charlie(), 0, 2), id, "ref".to_string()).unwrap();
    assert_eq!(
        contract.take_events(),
        vec![Event::Completed(ConsultationCompleted { consultation_id: id })]
    );
}

#[test]
fn fee_is_the_percentage_rounded_down() {
    assert_eq!(calculate_fee(1000, 3), Ok(30));
    assert_eq!(calculate_fee(1000, 0), Ok(0));
    assert_eq!(calculate_fee(1000, 100), Ok(1000));
    assert_eq!(calculate_fee(99, 3), Ok(2));
    assert_eq!(calculate_fee(33, 3), Ok(0));
    assert_eq!(calculate_fee(u128::MAX, 3), Err(Error::OverflowError));
    assert_eq!(calculate_fee(u128::MAX / 3, 3), Ok(u128::MAX / 3 * 3 / 100));
}

#[test]
fn release_shares_add_up() {
    assert_eq!(split_release(1000, 3), Ok((970, 30)));
    assert_eq!(split_release(1000, 0), Ok((1000, 0)));
    assert_eq!(split_release(1000, 100), Ok((0, 1000)));
    assert_eq!(split_release(1000, 101), Err(Error::OverflowError));
    assert_eq!(split_release(u128::MAX, 2), Err(Error::OverflowError));
    for percent in 0..=100u8 {
        for amount in [1u128, 7, 99, 1000, 123_456_789] {
            let (doctor_amount, fee) = split_release(amount, percent).unwrap();
            assert_eq!(doctor_amount + fee, amount);
            assert_eq!(fee, amount * percent as u128 / 100);
        }
    }
}

#[test]
fn refund_on_cancel_is_all_or_half() {
    let day = CANCELLATION_NOTICE;
    assert_eq!(refund_on_cancel(1000, day + 1, 0), 1000);
    assert_eq!(refund_on_cancel(1000, day, 0), 500);
    assert_eq!(refund_on_cancel(1001, day, 0), 500);
    assert_eq!(refund_on_cancel(1000, 0, day), 500);
    assert_eq!(refund_on_cancel(1, 0, 0), 0);
}

#[test]
fn timing_policy_at_the_edges() {
    assert_eq!(DISPUTE_WINDOW, 24 * HOUR);
    assert_eq!(CANCELLATION_NOTICE, 24 * HOUR);
    assert_eq!(time_since(10, 4), Some(6));
    assert_eq!(time_since(4, 10), None);
    assert_eq!(time_until(10, 4), 6);
    assert_eq!(time_until(4, 10), 0);
    assert!(!dispute_window_elapsed(DISPUTE_WINDOW + 4, 5));
    assert!(dispute_window_elapsed(DISPUTE_WINDOW + 5, 5));
    assert!(!dispute_window_elapsed(4, 5));
    assert!(dispute_window_open(DISPUTE_WINDOW + 4, 5));
    assert!(!dispute_window_open(DISPUTE_WINDOW + 5, 5));
    assert!(!dispute_window_open(4, 5));
    assert!(full_refund_due(CANCELLATION_NOTICE + 1, 0));
    assert!(!full_refund_due(CANCELLATION_NOTICE, 0));
    assert!(!full_refund_due(0, u64::MAX));
}

#[test]
fn perform_is_the_one_entry_to_the_table() {
    let (mut contract, id) = booked(100, 0);
    assert_eq!(
        contract.perform(&call(charlie(), 0, 1), id, &Action::Start, TransferOutcome::Failed),
        Ok(())
    );
    let complete = Action::Complete { notes_ipfs_hash: "ref".to_string() };
    assert_eq!(
        contract.perform(&call(charlie(), 0, 2), id, &complete, TransferOutcome::Failed),
        Ok(())
    );
    let record = contract.get_consultation(id).unwrap();
    assert_eq!(record.notes_ipfs_hash, Some("ref".to_string()));
    let staged = record.apply(&Action::Dispute, &call(django(), 0, 3), &contract.fee_config()).unwrap();
    assert_eq!(staged.record.status, ConsultationStatus::Disputed);
    assert!(staged.transfers.is_empty());
    assert_eq!(
        record.apply(&Action::Dispute, &call(bob(), 0, 3), &contract.fee_config()).unwrap_err(),
        Error::Unauthorized
    );
}

#[test]
fn ledger_is_taken_apart_and_put_together() {
    let t0 = 1_000_000;
    let (mut contract, id) = completed(t0);
    contract.book_consultation(&call(django(), 5, t0), charlie(), t0 + 1).unwrap();
    let first = contract.get_consultation(id).unwrap();
    let second = contract.get_consultation(2).unwrap();
    let fees = contract.fee_config();
    let (records, kept_fees, registry) = contract.into_parts();
    assert_eq!(records, vec![first.clone(), second.clone()]);
    assert_eq!(kept_fees, fees);
    assert_eq!(registry, alice());

    let mut restored = ConsultationEscrow::from_parts(records, fees, registry).unwrap();
    assert_eq!(restored.next_consultation_id(), 3);
    assert_eq!(restored.get_consultation(1), Some(first));
    assert_eq!(restored.get_consultation(2), Some(second));
    assert!(restored.take_events().is_empty());
    assert_eq!(
        restored.release_payment(&call(alice(), 0, t0), 1, TransferOutcome::Completed),
        Ok(())
    );
    assert_eq!(restored.book_consultation(&call(bob(), 9, t0), charlie(), t0), Ok(3));
}

#[test]
fn records_that_are_no_ledger_are_refused() {
    let (contract, _) = booked(100, 0);
    let fees = contract.fee_config();
    let record = contract.get_consultation(1).unwrap();

    let mut misnumbered = record.clone();
    misnumbered.id = 2;
    assert!(ConsultationEscrow::from_parts(vec![misnumbered], fees, alice()).is_none());

    let mut unpaid = record.clone();
    unpaid.amount = 0;
    assert!(ConsultationEscrow::from_parts(vec![unpaid], fees, alice()).is_none());

    let mut undated = record.clone();
    undated.status = ConsultationStatus::Completed;
    assert!(!undated.is_sound());
    assert!(ConsultationEscrow::from_parts(vec![undated], fees, alice()).is_none());

    let mut dated = record.clone();
    dated.completed_at = Some(7);
    assert!(ConsultationEscrow::from_parts(vec![dated], fees, alice()).is_none());

    assert!(record.is_sound());
    assert!(ConsultationEscrow::from_parts(vec![record.clone(), record.clone()], fees, alice())
        .is_none());
    assert!(ConsultationEscrow::from_parts(vec![record], fees, alice()).is_some());
    assert!(ConsultationEscrow::from_parts(vec![], fees, alice()).is_some());
}
