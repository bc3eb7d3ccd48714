//! The rules of a doctor's schedule and of the figures derived from the
//! counts.

use vstd::prelude::*;
use crate::registry_types::TimeSlot;

verus! {

/// The most slots a schedule may hold.
pub const MAX_SLOTS: usize = 20;

/// Every slot ends after it starts.
pub open spec fn slots_valid(slots: Seq<TimeSlot>) -> bool {
    forall|i: int| 0 <= i < slots.len() ==> (#[trigger] slots[i]).start_time < slots[i].end_time
}

/// A free slot that starts at `start_time`.
pub open spec fn bookable(slot: TimeSlot, start_time: u64) -> bool {
    slot.start_time == start_time && !slot.is_booked
}

/// `i` is the first slot that can be booked for `start_time`.
pub open spec fn first_bookable(slots: Seq<TimeSlot>, start_time: u64, i: int) -> bool {
    &&& 0 <= i < slots.len()
    &&& bookable(slots[i], start_time)
    &&& forall|j: int| 0 <= j < i ==> !bookable(#[trigger] slots[j], start_time)
}

/// `i` is the first slot that starts at `start_time`.
pub open spec fn first_at(slots: Seq<TimeSlot>, start_time: u64, i: int) -> bool {
    &&& 0 <= i < slots.len()
    &&& slots[i].start_time == start_time
    &&& forall|j: int| 0 <= j < i ==> (#[trigger] slots[j]).start_time != start_time
}

/// The slot with its booking mark set to `booked`.
pub open spec fn marked(slot: TimeSlot, booked: bool) -> TimeSlot {
    TimeSlot { is_booked: booked, ..slot }
}

/// The share of completed consultations in percent, rounded down and
/// capped at 100; zero where nothing was counted or the product leaves the
/// range of the counters.
pub open spec fn completion_rate_of(completed: u32, total: u32) -> u8 {
    if total == 0 || completed * 100 > u32::MAX {
        0
    } else if completed * 100 / (total as int) >= 100 {
        100
    } else {
        (completed * 100 / (total as int)) as u8
    }
}

/// A rating after a new one came in: the new one if there was none, else
/// the mean of the two, rounded down and capped at 100.
pub open spec fn blended_rating(current: u8, new_rating: u8) -> u8 {
    if current == 0 {
        new_rating
    } else if (current + new_rating) / 2 > 100 {
        100
    } else {
        ((current + new_rating) / 2) as u8
    }
}

/// Whether every slot ends after it starts.
pub fn check_slots(slots: &Vec<TimeSlot>) -> (valid: bool)
    ensures
        valid == slots_valid(slots@),
{
    let mut i: usize = 0;
    while i < slots.len()
        invariant
            i <= slots@.len(),
            forall|j: int| 0 <= j < i ==> (#[trigger] slots@[j]).start_time < slots@[j].end_time,
        decreases slots@.len() - i,
    {
        if slots[i].start_time >= slots[i].end_time {
            return false;
        }
        i += 1;
    }
    true
}

/// A copy of the slots.
pub fn copy_slots(slots: &Vec<TimeSlot>) -> (copy: Vec<TimeSlot>)
    ensures
        copy@ == slots@,
{
    let mut copy: Vec<TimeSlot> = Vec::new();
    let mut i: usize = 0;
    while i < slots.len()
        invariant
            i <= slots@.len(),
            copy@ == slots@.take(i as int),
        decreases slots@.len() - i,
    {
        copy.push(slots[i]);
        i += 1;
    }
    copy
}

/// Books the first free slot that starts at `start_time`, and says whether
/// there was one.
pub fn book_slot(slots: &mut Vec<TimeSlot>, start_time: u64) -> (found: bool)
    ensures
        found ==> exists|i: int|
            first_bookable(old(slots)@, start_time, i) && final(slots)@ == old(slots)@.update(
                i,
                marked(old(slots)@[i], true),
            ),
        !found ==> final(slots)@ == old(slots)@ && forall|i: int|
            0 <= i < old(slots)@.len() ==> !bookable(#[trigger] old(slots)@[i], start_time),
{
    let mut i: usize = 0;
    while i < slots.len()
        invariant
            i <= slots@.len(),
            slots@ == old(slots)@,
            forall|j: int| 0 <= j < i ==> !bookable(#[trigger] slots@[j], start_time),
        decreases slots@.len() - i,
    {
        let slot = slots[i];
        if slot.start_time == start_time && !slot.is_booked {
            slots[i] = TimeSlot {
                start_time: slot.start_time,
                end_time: slot.end_time,
                is_booked: true,
            };
            assert(first_bookable(old(slots)@, start_time, i as int));
            return true;
        }
        i += 1;
    }
    false
}

/// Frees the first slot that starts at `start_time`, if there is one.
pub fn free_slot(slots: &mut Vec<TimeSlot>, start_time: u64)
    ensures
        (exists|i: int| first_at(old(slots)@, start_time, i)) ==> exists|i: int|
            first_at(old(slots)@, start_time, i) && final(slots)@ == old(slots)@.update(
                i,
                marked(old(slots)@[i], false),
            ),
        (forall|i: int|
            0 <= i < old(slots)@.len() ==> (#[trigger] old(slots)@[i]).start_time != start_time)
            ==> final(slots)@ == old(slots)@,
{
    let mut i: usize = 0;
    while i < slots.len()
        invariant
            i <= slots@.len(),
            slots@ == old(slots)@,
            forall|j: int| 0 <= j < i ==> (#[trigger] slots@[j]).start_time != start_time,
        decreases slots@.len() - i,
    {
        let slot = slots[i];
        if slot.start_time == start_time {
            slots[i] = TimeSlot {
                start_time: slot.start_time,
                end_time: slot.end_time,
                is_booked: false,
            };
            return;
        }
        i += 1;
    }
    assert forall|k: int| !first_at(old(slots)@, start_time, k) by {}
}

/// Computes the share of completed consultations in percent.
pub fn completion_rate(completed: u32, total: u32) -> (rate: u8)
    ensures
        rate == completion_rate_of(completed, total),
{
    if total == 0 {
        return 0;
    }
    match completed.checked_mul(100) {
        None => 0,
        Some(product) => {
            let share: u32 = product / total;
            if share >= 100 {
                100
            } else {
                share as u8
            }
        },
    }
}

/// Computes the rating after `new_rating` came in.
pub fn blend_rating(current: u8, new_rating: u8) -> (rating: u8)
    ensures
        rating == blended_rating(current, new_rating),
{
    if current == 0 {
        return new_rating;
    }
    let sum: u16 = current as u16 + new_rating as u16;
    let mean: u16 = sum / 2;
    if mean > 100 {
        100
    } else {
        mean as u8
    }
}

} // verus!
