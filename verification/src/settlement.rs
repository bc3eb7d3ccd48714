//! The settlement engine: how a locked payment is split, and which
//! transfers a transition asks the host to make.

use vstd::prelude::*;
use crate::consultation::Error;
use crate::identity::AccountId;
use crate::timing::{full_refund_due, notice_given};

verus! {

/// One movement of funds out of the escrow.
#[derive(Clone, Copy, Debug, PartialEq, Eq)]
pub struct Transfer {
    pub to: AccountId,
    pub amount: u128,
}

/// The sum of the amounts of a list of transfers.
pub open spec fn total(transfers: Seq<Transfer>) -> int
    decreases transfers.len(),
{
    if transfers.len() == 0 {
        0
    } else {
        total(transfers.drop_last()) + transfers.last().amount
    }
}

/// The platform's share of `amount` at `fee_percent`, rounded down.
pub open spec fn fee_of(amount: u128, fee_percent: u8) -> int {
    (amount * fee_percent) / 100
}

/// The fee as the escrow computes it: rejected where the product leaves
/// the range of the amounts.
pub open spec fn checked_fee(amount: u128, fee_percent: u8) -> Result<u128, Error> {
    if amount * fee_percent > u128::MAX {
        Err(Error::OverflowError)
    } else {
        Ok(fee_of(amount, fee_percent) as u128)
    }
}

/// The two shares of a release, the doctor's first: rejected where the fee
/// cannot be computed or exceeds the amount.
pub open spec fn release_shares(amount: u128, fee_percent: u8) -> Result<(u128, u128), Error> {
    match checked_fee(amount, fee_percent) {
        Err(e) => Err(e),
        Ok(fee) => if fee > amount {
            Err(Error::OverflowError)
        } else {
            Ok(((amount - fee) as u128, fee))
        },
    }
}

/// The transfers of a release: the doctor's share, then the fee unless it
/// is zero.
pub open spec fn release_payout(
    doctor: AccountId,
    platform_wallet: AccountId,
    doctor_amount: u128,
    fee: u128,
) -> Seq<Transfer> {
    if fee > 0 {
        seq![
            Transfer { to: doctor, amount: doctor_amount },
            Transfer { to: platform_wallet, amount: fee },
        ]
    } else {
        seq![Transfer { to: doctor, amount: doctor_amount }]
    }
}

/// What the patient gets back on cancelling at `now`: everything with
/// enough notice, else half, rounded down.
pub open spec fn cancellation_refund(amount: u128, scheduled_time: u64, now: u64) -> u128 {
    if notice_given(scheduled_time, now) {
        amount
    } else {
        amount / 2
    }
}

/// The transfers of a cancellation: the refund, then the rest to the doctor
/// unless the refund is the whole amount.
pub open spec fn cancellation_payout(
    patient: AccountId,
    doctor: AccountId,
    amount: u128,
    refund: u128,
) -> Seq<Transfer> {
    if refund < amount {
        seq![
            Transfer { to: patient, amount: refund },
            Transfer { to: doctor, amount: (amount - refund) as u128 },
        ]
    } else {
        seq![Transfer { to: patient, amount: refund }]
    }
}

/// The single transfer of a refund or a no-show: everything to the patient.
pub open spec fn full_payout(patient: AccountId, amount: u128) -> Seq<Transfer> {
    seq![Transfer { to: patient, amount }]
}

/// The sum of one transfer is its amount.
pub proof fn lemma_total_one(a: Transfer)
    ensures
        total(seq![a]) == a.amount,
{
    reveal_with_fuel(total, 2);
}

/// The sum of two transfers is the sum of their amounts.
pub proof fn lemma_total_two(a: Transfer, b: Transfer)
    ensures
        total(seq![a, b]) == a.amount + b.amount,
{
    assert(seq![a, b].drop_last() =~= seq![a]);
    lemma_total_one(a);
}

/// Computes the platform fee on `amount` with checked arithmetic.
pub fn calculate_fee(amount: u128, fee_percent: u8) -> (fee: Result<u128, Error>)
    ensures
        fee == checked_fee(amount, fee_percent),
{
    let percent: u128 = fee_percent as u128;
    match amount.checked_mul(percent) {
        Some(product) => Ok(product / 100),
        None => Err(Error::OverflowError),
    }
}

/// Splits `amount` into the doctor's share and the platform fee.
pub fn split_release(amount: u128, fee_percent: u8) -> (shares: Result<(u128, u128), Error>)
    ensures
        shares == release_shares(amount, fee_percent),
        shares matches Ok(s) ==> s.0 + s.1 == amount,
{
    match calculate_fee(amount, fee_percent) {
        Err(e) => Err(e),
        Ok(fee) => match amount.checked_sub(fee) {
            Some(doctor_amount) => Ok((doctor_amount, fee)),
            None => Err(Error::OverflowError),
        },
    }
}

/// Lists the transfers of a release.
pub fn plan_release_payout(
    doctor: AccountId,
    platform_wallet: AccountId,
    doctor_amount: u128,
    fee: u128,
) -> (transfers: Vec<Transfer>)
    ensures
        transfers@ == release_payout(doctor, platform_wallet, doctor_amount, fee),
{
    let mut transfers: Vec<Transfer> = Vec::new();
    transfers.push(Transfer { to: doctor, amount: doctor_amount });
    if fee > 0 {
        transfers.push(Transfer { to: platform_wallet, amount: fee });
    }
    transfers
}

/// Computes what the patient gets back on cancelling at `now`.
pub fn refund_on_cancel(amount: u128, scheduled_time: u64, now: u64) -> (refund: u128)
    ensures
        refund == cancellation_refund(amount, scheduled_time, now),
        refund <= amount,
{
    if full_refund_due(scheduled_time, now) {
        amount
    } else {
        amount / 2
    }
}

/// Lists the transfers of a cancellation that refunds `refund`.
pub fn plan_cancellation_payout(
    patient: AccountId,
    doctor: AccountId,
    amount: u128,
    refund: u128,
) -> (transfers: Vec<Transfer>)
    ensures
        transfers@ == cancellation_payout(patient, doctor, amount, refund),
{
    let mut transfers: Vec<Transfer> = Vec::new();
    transfers.push(Transfer { to: patient, amount: refund });
    if refund < amount {
        transfers.push(Transfer { to: doctor, amount: amount - refund });
    }
    transfers
}

/// Lists the single transfer that returns everything to the patient.
pub fn plan_full_payout(patient: AccountId, amount: u128) -> (transfers: Vec<Transfer>)
    ensures
        transfers@ == full_payout(patient, amount),
{
    let mut transfers: Vec<Transfer> = Vec::new();
    transfers.push(Transfer { to: patient, amount });
    transfers
}

} // verus!
