//! The access list for medical records: who owns a record, whom the owner
//! let in and until when, and which emergency contacts may let themselves
//! in.

use vstd::prelude::*;
use crate::consultation::CallContext;
use crate::identity::{AccountId, RecordHash};
use crate::records_types::{
    first_empty, first_holding, no_contacts, AccessEvent, AccessGrant, AccessGranted,
    AccessLevel, AccessRevoked, EmergencyAccessUsed, EmergencyContactList, Error, GrantKey,
    RecordRegistered,
};
use crate::table::Table;

verus! {

/// How long an emergency contact stays let in: 24 hours, in milliseconds.
pub const EMERGENCY_ACCESS_PERIOD: u64 = 86_400_000;

/// The access list as a mathematical value.
pub struct AccessModel {
    /// The owner of each registered record.
    pub record_owners: Map<RecordHash, AccountId>,
    /// The latest grant for each record and account.
    pub access_grants: Map<GrantKey, AccessGrant>,
    /// The emergency contacts that each patient named.
    pub emergency_contacts: Map<AccountId, Seq<Option<AccountId>>>,
    /// The administrator.
    pub owner: AccountId,
    /// The notifications that the host has not taken yet.
    pub events: Seq<AccessEvent>,
}

impl AccessModel {
    /// The emergency contacts of `patient`; three empty places where none
    /// was ever named.
    pub open spec fn contacts_of(self, patient: AccountId) -> Seq<Option<AccountId>> {
        if self.emergency_contacts.contains_key(patient) {
            self.emergency_contacts[patient]
        } else {
            no_contacts()
        }
    }

    /// Whether `accessor` may read the record at `now`: as its owner, or
    /// under a grant in force.
    pub open spec fn may_access(self, record_hash: RecordHash, accessor: AccountId, now: u64)
        -> bool {
        let key = GrantKey { record_hash, accessor };
        ||| self.record_owners.contains_key(record_hash) && self.record_owners[record_hash]
            == accessor
        ||| self.access_grants.contains_key(key) && self.access_grants[key].in_force(now)
    }

    /// What the owner of a record answers to a request to change its
    /// grants.
    pub open spec fn owner_check(self, record_hash: RecordHash, caller: AccountId) -> Result<
        (),
        Error,
    > {
        if !self.record_owners.contains_key(record_hash) {
            Err(Error::RecordNotFound)
        } else if self.record_owners[record_hash] != caller {
            Err(Error::Unauthorized)
        } else {
            Ok(())
        }
    }

    /// The access list with one more grant and its notification.
    pub open spec fn with_grant(self, grant: AccessGrant, event: AccessEvent) -> AccessModel {
        AccessModel {
            access_grants: self.access_grants.insert(
                GrantKey { record_hash: grant.record_hash, accessor: grant.granted_to },
                grant,
            ),
            events: self.events.push(event),
            ..self
        }
    }

    /// What an emergency contact is answered on letting themselves in.
    pub open spec fn emergency_check(
        self,
        ctx: CallContext,
        patient: AccountId,
        record_hash: RecordHash,
    ) -> Result<bool, Error> {
        if !self.record_owners.contains_key(record_hash) {
            Err(Error::RecordNotFound)
        } else if self.record_owners[record_hash] != patient {
            Err(Error::Unauthorized)
        } else if !self.contacts_of(patient).contains(Some(ctx.caller)) {
            Err(Error::NotEmergencyContact)
        } else if ctx.block_timestamp + EMERGENCY_ACCESS_PERIOD > u64::MAX {
            Err(Error::OverflowError)
        } else {
            Ok(true)
        }
    }
}

/// The access list for medical records.
pub struct MedicalRecordsAccess {
    record_owners: Table<RecordHash, AccountId>,
    access_grants: Table<GrantKey, AccessGrant>,
    emergency_contacts: Table<AccountId, EmergencyContactList>,
    owner: AccountId,
    events: Vec<AccessEvent>,
}

impl View for MedicalRecordsAccess {
    type V = AccessModel;

    closed spec fn view(&self) -> AccessModel {
        AccessModel {
            record_owners: self.record_owners@,
            access_grants: self.access_grants@,
            emergency_contacts: Map::new(
                |patient: AccountId| self.emergency_contacts@.contains_key(patient),
                |patient: AccountId| self.emergency_contacts@[patient]@,
            ),
            owner: self.owner,
            events: self.events@,
        }
    }
}

impl MedicalRecordsAccess {
    /// The invariant of the access list.
    pub closed spec fn wf(&self) -> bool {
        &&& self.record_owners.wf()
        &&& self.access_grants.wf()
        &&& self.emergency_contacts.wf()
        &&& forall|patient: AccountId| #[trigger]
            self.emergency_contacts@.contains_key(patient)
                ==> self.emergency_contacts@[patient]@.len() == 3
    }

    /// An empty access list that the caller administers.
    pub fn new(ctx: &CallContext) -> (access: MedicalRecordsAccess)
        ensures
            access.wf(),
            access@ == (AccessModel {
                record_owners: Map::empty(),
                access_grants: Map::empty(),
                emergency_contacts: Map::empty(),
                owner: ctx.caller,
                events: Seq::empty(),
            }),
    {
        let access = MedicalRecordsAccess {
            record_owners: Table::new(),
            access_grants: Table::new(),
            emergency_contacts: Table::new(),
            owner: ctx.caller,
            events: Vec::new(),
        };
        assert(access@.emergency_contacts =~= Map::empty());
        access
    }

    /// Puts an access list together again from what it held.
    pub fn from_parts(
        record_owners: Table<RecordHash, AccountId>,
        access_grants: Table<GrantKey, AccessGrant>,
        emergency_contacts: Table<AccountId, EmergencyContactList>,
        owner: AccountId,
    ) -> (access: MedicalRecordsAccess)
        requires
            record_owners.wf(),
            access_grants.wf(),
            emergency_contacts.wf(),
        ensures
            access.wf(),
            access@.record_owners == record_owners@,
            access@.access_grants == access_grants@,
            access@.emergency_contacts.dom() == emergency_contacts@.dom(),
            forall|patient: AccountId| #[trigger]
                emergency_contacts@.contains_key(patient) ==> access@.emergency_contacts[patient]
                    == emergency_contacts@[patient]@,
            access@.owner == owner,
            access@.events == Seq::<AccessEvent>::empty(),
    {
        let access = MedicalRecordsAccess {
            record_owners,
            access_grants,
            emergency_contacts,
            owner,
            events: Vec::new(),
        };
        access
    }

    /// The records and their owners.
    pub fn record_owners(&self) -> (table: &Table<RecordHash, AccountId>)
        requires
            self.wf(),
        ensures
            table.wf(),
            table@ == self@.record_owners,
    {
        &self.record_owners
    }

    /// The grants, each under its record and account.
    pub fn grants(&self) -> (table: &Table<GrantKey, AccessGrant>)
        requires
            self.wf(),
        ensures
            table.wf(),
            table@ == self@.access_grants,
    {
        &self.access_grants
    }

    /// The patients and their emergency contacts.
    pub fn contact_lists(&self) -> (table: &Table<AccountId, EmergencyContactList>)
        requires
            self.wf(),
        ensures
            table.wf(),
            table@.dom() == self@.emergency_contacts.dom(),
            forall|patient: AccountId| #[trigger]
                table@.contains_key(patient) ==> table@[patient]@
                    == self@.emergency_contacts[patient],
    {
        &self.emergency_contacts
    }

    /// The administrator.
    pub fn get_owner(&self) -> (owner: AccountId)
        ensures
            owner == self@.owner,
    {
        self.owner
    }

    /// Registers a record to the caller.
    pub fn register_record(&mut self, ctx: &CallContext, record_hash: RecordHash) -> (result:
        Result<(), Error>)
        requires
            old(self).wf(),
        ensures
            final(self).wf(),
            result == (if old(self)@.record_owners.contains_key(record_hash) {
                Err::<(), Error>(Error::RecordAlreadyRegistered)
            } else {
                Ok(())
            }),
            result.is_err() ==> final(self)@ == old(self)@,
            result.is_ok() ==> final(self)@ == (AccessModel {
                record_owners: old(self)@.record_owners.insert(record_hash, ctx.caller),
                events: old(self)@.events.push(
                    AccessEvent::RecordRegistered(
                        RecordRegistered { record_hash, owner: ctx.caller },
                    ),
                ),
                ..old(self)@
            }),
    {
        if self.record_owners.contains(&record_hash) {
            return Err(Error::RecordAlreadyRegistered);
        }
        self.record_owners.insert(record_hash, ctx.caller);
        self.events.push(
            AccessEvent::RecordRegistered(RecordRegistered { record_hash, owner: ctx.caller }),
        );
        Ok(())
    }

    /// Checks that the caller owns the record.
    fn check_owner(&self, record_hash: &RecordHash, caller: &AccountId) -> (result: Result<
        (),
        Error,
    >)
        requires
            self.wf(),
        ensures
            result == self@.owner_check(*record_hash, *caller),
    {
        match self.record_owners.get(record_hash) {
            None => Err(Error::RecordNotFound),
            Some(owner) => if *owner != *caller {
                Err(Error::Unauthorized)
            } else {
                Ok(())
            },
        }
    }

    /// The owner of a record lets `granted_to` in, replacing any earlier
    /// grant for that account.
    pub fn grant_access(
        &mut self,
        ctx: &CallContext,
        record_hash: RecordHash,
        granted_to: AccountId,
        access_level: AccessLevel,
        expires_at: Option<u64>,
    ) -> (result: Result<(), Error>)
        requires
            old(self).wf(),
        ensures
            final(self).wf(),
            result == old(self)@.owner_check(record_hash, ctx.caller),
            result.is_err() ==> final(self)@ == old(self)@,
            result.is_ok() ==> final(self)@ == old(self)@.with_grant(
                AccessGrant {
                    record_hash,
                    granted_to,
                    granted_by: ctx.caller,
                    access_level,
                    granted_at: ctx.block_timestamp,
                    expires_at,
                    revoked: false,
                },
                AccessEvent::AccessGranted(AccessGranted { record_hash, granted_to, access_level }),
            ),
    {
        match self.check_owner(&record_hash, &ctx.caller) {
            Err(e) => {
                return Err(e);
            },
            Ok(_) => {},
        }
        let grant = AccessGrant {
            record_hash,
            granted_to,
            granted_by: ctx.caller,
            access_level,
            granted_at: ctx.block_timestamp,
            expires_at,
            revoked: false,
        };
        self.access_grants.insert(GrantKey { record_hash, accessor: granted_to }, grant);
        self.events.push(
            AccessEvent::AccessGranted(AccessGranted { record_hash, granted_to, access_level }),
        );
        Ok(())
    }

    /// The owner of a record revokes the grant of `revoke_from`.
    pub fn revoke_access(
        &mut self,
        ctx: &CallContext,
        record_hash: RecordHash,
        revoke_from: AccountId,
    ) -> (result: Result<(), Error>)
        requires
            old(self).wf(),
        ensures
            final(self).wf(),
            result == (match old(self)@.owner_check(record_hash, ctx.caller) {
                Err(e) => Err::<(), Error>(e),
                Ok(_) => if old(self)@.access_grants.contains_key(
                    GrantKey { record_hash, accessor: revoke_from },
                ) {
                    Ok(())
                } else {
                    Err(Error::NoAccess)
                },
            }),
            result.is_err() ==> final(self)@ == old(self)@,
            result.is_ok() ==> final(self)@ == (AccessModel {
                access_grants: old(self)@.access_grants.insert(
                    GrantKey { record_hash, accessor: revoke_from },
                    AccessGrant {
                        revoked: true,
                        ..old(self)@.access_grants[GrantKey { record_hash, accessor: revoke_from }]
                    },
                ),
                events: old(self)@.events.push(
                    AccessEvent::AccessRevoked(
                        AccessRevoked { record_hash, revoked_from: revoke_from },
                    ),
                ),
                ..old(self)@
            }),
    {
        match self.check_owner(&record_hash, &ctx.caller) {
            Err(e) => {
                return Err(e);
            },
            Ok(_) => {},
        }
        let key = GrantKey { record_hash, accessor: revoke_from };
        let mut grant = match self.access_grants.get(&key) {
            Some(grant) => *grant,
            None => {
                return Err(Error::NoAccess);
            },
        };
        grant.revoked = true;
        self.access_grants.insert(key, grant);
        self.events.push(
            AccessEvent::AccessRevoked(AccessRevoked { record_hash, revoked_from: revoke_from }),
        );
        Ok(())
    }

    /// Whether `accessor` may read the record at the time of the call.
    pub fn check_access(&self, ctx: &CallContext, record_hash: RecordHash, accessor: AccountId)
        -> (allowed: bool)
        requires
            self.wf(),
        ensures
            allowed == self@.may_access(record_hash, accessor, ctx.block_timestamp),
    {
        match self.record_owners.get(&record_hash) {
            Some(owner) => {
                if *owner == accessor {
                    return true;
                }
            },
            None => {},
        }
        match self.access_grants.get(&GrantKey { record_hash, accessor }) {
            Some(grant) => grant.is_in_force(ctx.block_timestamp),
            None => false,
        }
    }

    /// The latest grant on the record for `accessor`, if there is one.
    pub fn get_access_grant(&self, record_hash: RecordHash, accessor: AccountId) -> (grant:
        Option<AccessGrant>)
        requires
            self.wf(),
        ensures
            grant == (if self@.access_grants.contains_key(GrantKey { record_hash, accessor }) {
                Some(self@.access_grants[GrantKey { record_hash, accessor }])
            } else {
                None
            }),
    {
        match self.access_grants.get(&GrantKey { record_hash, accessor }) {
            Some(grant) => Some(*grant),
            None => None,
        }
    }

    /// The emergency contacts of `patient`.
    pub fn get_emergency_contacts(&self, patient: AccountId) -> (list: EmergencyContactList)
        requires
            self.wf(),
        ensures
            list@ == self@.contacts_of(patient),
    {
        match self.emergency_contacts.get(&patient) {
            Some(list) => *list,
            None => EmergencyContactList::default(),
        }
    }

    /// The caller names `contact` as an emergency contact, in the first
    /// empty place.
    pub fn add_emergency_contact(&mut self, ctx: &CallContext, contact: AccountId) -> (result:
        Result<(), Error>)
        requires
            old(self).wf(),
        ensures
            final(self).wf(),
            result == (if exists|i: int| first_empty(old(self)@.contacts_of(ctx.caller), i) {
                Ok::<(), Error>(())
            } else {
                Err(Error::EmergencyContactListFull)
            }),
            result.is_err() ==> final(self)@ == old(self)@,
            result.is_ok() ==> exists|i: int|
                first_empty(old(self)@.contacts_of(ctx.caller), i) && final(self)@
                    == (AccessModel {
                    emergency_contacts: old(self)@.emergency_contacts.insert(
                        ctx.caller,
                        old(self)@.contacts_of(ctx.caller).update(i, Some(contact)),
                    ),
                    ..old(self)@
                }),
    {
        let mut list = self.get_emergency_contacts(ctx.caller);
        let ghost before = list@;
        if !list.add(contact) {
            assert forall|i: int| !first_empty(before, i) by {}
            return Err(Error::EmergencyContactListFull);
        }
        let ghost after = list@;
        self.emergency_contacts.insert(ctx.caller, list);
        proof {
            let i = choose|i: int|
                first_empty(before, i) && after == before.update(i, Some(contact));
            assert(self@.emergency_contacts =~= old(self)@.emergency_contacts.insert(
                ctx.caller,
                before.update(i, Some(contact)),
            ));
        }
        Ok(())
    }

    /// The caller takes `contact` off their emergency contacts; where it is
    /// not among them, nothing changes.
    pub fn remove_emergency_contact(&mut self, ctx: &CallContext, contact: AccountId) -> (result:
        Result<(), Error>)
        requires
            old(self).wf(),
        ensures
            final(self).wf(),
            result == Ok::<(), Error>(()),
            !old(self)@.contacts_of(ctx.caller).contains(Some(contact)) ==> final(self)@ == old(
                self,
            )@,
            old(self)@.contacts_of(ctx.caller).contains(Some(contact)) ==> exists|i: int|
                first_holding(old(self)@.contacts_of(ctx.caller), contact, i) && final(self)@
                    == (AccessModel {
                    emergency_contacts: old(self)@.emergency_contacts.insert(
                        ctx.caller,
                        old(self)@.contacts_of(ctx.caller).update(i, None),
                    ),
                    ..old(self)@
                }),
    {
        let mut list = self.get_emergency_contacts(ctx.caller);
        let ghost before = list@;
        if list.remove(contact) {
            let ghost after = list@;
            self.emergency_contacts.insert(ctx.caller, list);
            proof {
                let i = choose|i: int|
                    first_holding(before, contact, i) && after == before.update(i, None);
                assert(self@.emergency_contacts =~= old(self)@.emergency_contacts.insert(
                    ctx.caller,
                    before.update(i, None),
                ));
            }
        }
        Ok(())
    }

    /// Whether `contact` is an emergency contact of `patient`.
    pub fn is_emergency_contact(&self, patient: AccountId, contact: AccountId) -> (yes: bool)
        requires
            self.wf(),
        ensures
            yes == self@.contacts_of(patient).contains(Some(contact)),
    {
        self.get_emergency_contacts(patient).includes(contact)
    }

    /// An emergency contact of `patient` lets themselves in to a record of
    /// the patient for 24 hours.
    pub fn emergency_access(
        &mut self,
        ctx: &CallContext,
        patient: AccountId,
        record_hash: RecordHash,
    ) -> (result: Result<bool, Error>)
        requires
            old(self).wf(),
        ensures
            final(self).wf(),
            result == old(self)@.emergency_check(*ctx, patient, record_hash),
            result.is_err() ==> final(self)@ == old(self)@,
            result.is_ok() ==> final(self)@ == old(self)@.with_grant(
                AccessGrant {
                    record_hash,
                    granted_to: ctx.caller,
                    granted_by: patient,
                    access_level: AccessLevel::Emergency,
                    granted_at: ctx.block_timestamp,
                    expires_at: Some((ctx.block_timestamp + EMERGENCY_ACCESS_PERIOD) as u64),
                    revoked: false,
                },
                AccessEvent::EmergencyAccessUsed(
                    EmergencyAccessUsed { record_hash, emergency_contact: ctx.caller, patient },
                ),
            ),
    {
        match self.check_owner(&record_hash, &patient) {
            Err(e) => {
                return Err(e);
            },
            Ok(_) => {},
        }
        if !self.is_emergency_contact(patient, ctx.caller) {
            return Err(Error::NotEmergencyContact);
        }
        let expiry = match ctx.block_timestamp.checked_add(EMERGENCY_ACCESS_PERIOD) {
            Some(expiry) => expiry,
            None => {
                return Err(Error::OverflowError);
            },
        };
        let grant = AccessGrant {
            record_hash,
            granted_to: ctx.caller,
            granted_by: patient,
            access_level: AccessLevel::Emergency,
            granted_at: ctx.block_timestamp,
            expires_at: Some(expiry),
            revoked: false,
        };
        self.access_grants.insert(GrantKey { record_hash, accessor: ctx.caller }, grant);
        self.events.push(
            AccessEvent::EmergencyAccessUsed(
                EmergencyAccessUsed { record_hash, emergency_contact: ctx.caller, patient },
            ),
        );
        Ok(true)
    }

    /// The owner of the record, if it is registered.
    pub fn get_record_owner(&self, record_hash: RecordHash) -> (owner: Option<AccountId>)
        requires
            self.wf(),
        ensures
            owner == (if self@.record_owners.contains_key(record_hash) {
                Some(self@.record_owners[record_hash])
            } else {
                None
            }),
    {
        match self.record_owners.get(&record_hash) {
            Some(owner) => Some(*owner),
            None => None,
        }
    }

    /// Hands the notifications since the last call to the host, oldest
    /// first, and forgets them.
    pub fn take_events(&mut self) -> (events: Vec<AccessEvent>)
        ensures
            old(self).wf() ==> final(self).wf(),
            events@ == old(self)@.events,
            final(self)@ == (AccessModel { events: Seq::empty(), ..old(self)@ }),
    {
        let mut events: Vec<AccessEvent> = Vec::new();
        std::mem::swap(&mut self.events, &mut events);
        events
    }
}

} // verus!
