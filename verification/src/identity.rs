//! Opaque 32-byte identities: accounts and record hashes.

use vstd::prelude::*;

verus! {

/// Whether two 32-byte strings hold the same bytes.
pub fn bytes_equal(a: &[u8; 32], b: &[u8; 32]) -> (same: bool)
    ensures
        same == (*a == *b),
{
    let mut i: usize = 0;
    while i < 32
        invariant
            i <= 32,
            forall|j: int| 0 <= j < i ==> a[j] == b[j],
        decreases 32 - i,
    {
        if a[i] != b[i] {
            return false;
        }
        i += 1;
    }
    assert(*a =~= *b);
    true
}

/// The identity of a party: a patient, a doctor, the platform or its
/// administrator. Compared, never interpreted.
#[derive(Clone, Copy, Debug, Eq, Hash)]
pub struct AccountId {
    pub bytes: [u8; 32],
}

impl PartialEq for AccountId {
    fn eq(&self, other: &AccountId) -> (same: bool) {
        bytes_equal(&self.bytes, &other.bytes)
    }
}

impl vstd::std_specs::cmp::PartialEqSpecImpl for AccountId {
    open spec fn obeys_eq_spec() -> bool {
        true
    }

    open spec fn eq_spec(&self, other: &AccountId) -> bool {
        *self == *other
    }
}

impl AccountId {
    /// The account whose identity is the given bytes.
    pub fn new(bytes: [u8; 32]) -> (account: AccountId)
        ensures
            account.bytes == bytes,
    {
        AccountId { bytes }
    }
}

/// The content hash that names a medical record.
#[derive(Clone, Copy, Debug, Eq, Hash)]
pub struct RecordHash {
    pub bytes: [u8; 32],
}

impl PartialEq for RecordHash {
    fn eq(&self, other: &RecordHash) -> (same: bool) {
        bytes_equal(&self.bytes, &other.bytes)
    }
}

impl vstd::std_specs::cmp::PartialEqSpecImpl for RecordHash {
    open spec fn obeys_eq_spec() -> bool {
        true
    }

    open spec fn eq_spec(&self, other: &RecordHash) -> bool {
        *self == *other
    }
}

impl RecordHash {
    /// The hash made of the given bytes.
    pub fn new(bytes: [u8; 32]) -> (hash: RecordHash)
        ensures
            hash.bytes == bytes,
    {
        RecordHash { bytes }
    }
}


} // verus!
