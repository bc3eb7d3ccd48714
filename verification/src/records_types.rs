//! What the access list keeps of medical records: grants, emergency
//! contacts, its errors and its notifications.

use vstd::prelude::*;
use crate::identity::{AccountId, RecordHash};
use crate::table::Key;

verus! {

/// What a grant allows.
#[derive(Clone, Copy, Debug, PartialEq, Eq, Structural)]
pub enum AccessLevel {
    /// Can only view.
    View,
    /// Can view and add notes.
    ViewAndComment,
    /// Emergency contact override.
    Emergency,
}

/// A grant of access to one record for one account.
#[derive(Clone, Copy, Debug, PartialEq, Eq)]
pub struct AccessGrant {
    pub record_hash: RecordHash,
    pub granted_to: AccountId,
    pub granted_by: AccountId,
    pub access_level: AccessLevel,
    pub granted_at: u64,
    pub expires_at: Option<u64>,
    pub revoked: bool,
}

impl AccessGrant {
    /// The grant lets its holder in at `now`: it is neither revoked nor
    /// past its expiry.
    pub open spec fn in_force(self, now: u64) -> bool {
        !self.revoked && (self.expires_at matches Some(expiry) ==> now <= expiry)
    }

    /// Whether the grant lets its holder in at `now`.
    pub fn is_in_force(&self, now: u64) -> (yes: bool)
        ensures
            yes == self.in_force(now),
    {
        if self.revoked {
            return false;
        }
        match self.expires_at {
            Some(expiry) => now <= expiry,
            None => true,
        }
    }
}

/// What names a grant: the record and the account it is for.
#[derive(Clone, Copy, Debug, PartialEq, Eq)]
pub struct GrantKey {
    pub record_hash: RecordHash,
    pub accessor: AccountId,
}

impl Key for GrantKey {
    fn same(&self, other: &GrantKey) -> (equal: bool) {
        self.record_hash == other.record_hash && self.accessor == other.accessor
    }
}

/// How many emergency contacts a patient may name.
pub const MAX_CONTACTS: usize = 3;

/// The emergency contacts of a patient: three places, each empty or taken.
#[derive(Clone, Copy, Debug, PartialEq, Eq)]
pub struct EmergencyContactList {
    pub contacts: [Option<AccountId>; 3],
}

/// The list without contacts.
pub open spec fn no_contacts() -> Seq<Option<AccountId>> {
    seq![None, None, None]
}

/// `i` is the first empty place.
pub open spec fn first_empty(contacts: Seq<Option<AccountId>>, i: int) -> bool {
    &&& 0 <= i < contacts.len()
    &&& contacts[i].is_none()
    &&& forall|j: int| 0 <= j < i ==> (#[trigger] contacts[j]).is_some()
}

/// `i` is the first place that holds `contact`.
pub open spec fn first_holding(contacts: Seq<Option<AccountId>>, contact: AccountId, i: int)
    -> bool {
    &&& 0 <= i < contacts.len()
    &&& contacts[i] == Some(contact)
    &&& forall|j: int| 0 <= j < i ==> #[trigger] contacts[j] != Some(contact)
}

impl View for EmergencyContactList {
    type V = Seq<Option<AccountId>>;

    open spec fn view(&self) -> Seq<Option<AccountId>> {
        self.contacts@
    }
}

impl Default for EmergencyContactList {
    fn default() -> (list: EmergencyContactList)
        ensures
            list@ == no_contacts(),
    {
        let list = EmergencyContactList { contacts: [None, None, None] };
        list
    }
}

impl EmergencyContactList {
    /// Whether `contact` stands in the list.
    pub fn includes(&self, contact: AccountId) -> (found: bool)
        ensures
            found == self@.contains(Some(contact)),
    {
        let mut i: usize = 0;
        while i < 3
            invariant
                i <= 3,
                self@.len() == 3,
                forall|j: int| 0 <= j < i ==> self@[j] != Some(contact),
            decreases 3 - i,
        {
            match self.contacts[i] {
                Some(known) => {
                    if known == contact {
                        return true;
                    }
                },
                None => {},
            }
            i += 1;
        }
        false
    }

    /// Puts `contact` into the first empty place, and says whether there
    /// was one.
    pub fn add(&mut self, contact: AccountId) -> (added: bool)
        ensures
            added ==> exists|i: int|
                first_empty(old(self)@, i) && final(self)@ == old(self)@.update(i, Some(contact)),
            !added ==> *final(self) == *old(self) && forall|i: int|
                0 <= i < 3 ==> (#[trigger] old(self)@[i]).is_some(),
    {
        let mut i: usize = 0;
        while i < 3
            invariant
                i <= 3,
                *self == *old(self),
                self@.len() == 3,
                forall|j: int| 0 <= j < i ==> (#[trigger] self@[j]).is_some(),
            decreases 3 - i,
        {
            if self.contacts[i].is_none() {
                self.contacts[i] = Some(contact);
                assert(first_empty(old(self)@, i as int));
                return true;
            }
            i += 1;
        }
        false
    }

    /// Empties the first place that holds `contact`, and says whether there
    /// was one.
    pub fn remove(&mut self, contact: AccountId) -> (removed: bool)
        ensures
            removed ==> exists|i: int|
                first_holding(old(self)@, contact, i) && final(self)@ == old(self)@.update(i, None),
            !removed ==> *final(self) == *old(self) && !old(self)@.contains(Some(contact)),
    {
        let mut i: usize = 0;
        while i < 3
            invariant
                i <= 3,
                *self == *old(self),
                self@.len() == 3,
                forall|j: int| 0 <= j < i ==> #[trigger] self@[j] != Some(contact),
            decreases 3 - i,
        {
            let holds = match self.contacts[i] {
                Some(known) => known == contact,
                None => false,
            };
            if holds {
                self.contacts[i] = None;
                return true;
            }
            i += 1;
        }
        false
    }
}

/// A record was registered to its owner.
#[derive(Clone, Copy, Debug, PartialEq, Eq)]
pub struct RecordRegistered {
    pub record_hash: RecordHash,
    pub owner: AccountId,
}

/// The owner of a record granted access to it.
#[derive(Clone, Copy, Debug, PartialEq, Eq)]
pub struct AccessGranted {
    pub record_hash: RecordHash,
    pub granted_to: AccountId,
    pub access_level: AccessLevel,
}

/// The owner of a record revoked a grant.
#[derive(Clone, Copy, Debug, PartialEq, Eq)]
pub struct AccessRevoked {
    pub record_hash: RecordHash,
    pub revoked_from: AccountId,
}

/// An emergency contact let themselves in.
#[derive(Clone, Copy, Debug, PartialEq, Eq)]
pub struct EmergencyAccessUsed {
    pub record_hash: RecordHash,
    pub emergency_contact: AccountId,
    pub patient: AccountId,
}

/// A notification that the access list leaves for the host to emit.
#[derive(Clone, Copy, Debug, PartialEq, Eq)]
pub enum AccessEvent {
    RecordRegistered(RecordRegistered),
    AccessGranted(AccessGranted),
    AccessRevoked(AccessRevoked),
    EmergencyAccessUsed(EmergencyAccessUsed),
}

/// Why an operation of the access list was rejected.
#[derive(Clone, Copy, Debug, PartialEq, Eq, Structural)]
pub enum Error {
    /// The caller does not own the record.
    Unauthorized,
    /// No such record.
    RecordNotFound,
    /// The grant is past its expiry.
    AccessExpired,
    /// The grant was revoked.
    AccessRevoked,
    /// There is no grant to revoke.
    NoAccess,
    /// The record has an owner already.
    RecordAlreadyRegistered,
    /// The caller is no emergency contact of the patient.
    NotEmergencyContact,
    /// All three places are taken.
    EmergencyContactListFull,
    /// A time would leave its range.
    OverflowError,
}

} // verus!
