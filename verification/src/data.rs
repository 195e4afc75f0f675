//! Plain data carried by the registry: errors, principal identities,
//! credential records, and the aggregate counters.

use vstd::prelude::*;

verus! {

/// Why an operation was refused. Every failure leaves the registry unchanged.
#[derive(Clone, Copy, Debug, PartialEq, Eq, Structural)]
pub enum Error {
    /// `initialize` was called on a registry that already has an admin.
    AlreadyInitialized,
    /// `issue_student_id` was called before any admin was set.
    NotInitialized,
    /// The caller of `issue_student_id` is not the stored admin.
    Unauthorized,
    /// `get_student_info` was asked for an id that was never issued.
    NotFound,
}

/// A principal identity, as the host's authentication layer names it.
/// The registry only ever compares identities for equality.
pub struct Identity {
    pub key: String,
}

impl View for Identity {
    type V = Seq<char>;

    open spec fn view(&self) -> Seq<char> {
        self.key@
    }
}

impl Identity {
    pub fn new(key: String) -> (r: Identity)
        ensures
            r@ == key@,
    {
        Identity { key }
    }

    /// Equality of principals, the only question the registry asks of them.
    pub fn same_as(&self, other: &Identity) -> (r: bool)
        ensures
            r == (self@ == other@),
    {
        self.key == other.key
    }
}

impl Clone for Identity {
    fn clone(&self) -> (r: Self)
        ensures
            r == *self,
    {
        Identity { key: self.key.clone() }
    }
}

/// Ghost image of one issued credential record.
#[verifier::ext_equal]
pub ghost struct RecordView {
    pub id: u64,
    pub name: Seq<char>,
    pub program: Seq<char>,
    pub enrollment_year: u64,
    pub expiration_date: u64,
    pub is_active: bool,
}

/// One issued student identity. `expiration_date` is the absolute timestamp
/// past which the record no longer verifies; `is_active` is a soft-revocation
/// flag that issuance fixes to `true`.
pub struct StudentID {
    pub student_id: u64,
    pub name: String,
    pub program: String,
    pub enrollment_year: u64,
    pub expiration_date: u64,
    pub is_active: bool,
}

impl View for StudentID {
    type V = RecordView;

    open spec fn view(&self) -> RecordView {
        RecordView {
            id: self.student_id,
            name: self.name@,
            program: self.program@,
            enrollment_year: self.enrollment_year,
            expiration_date: self.expiration_date,
            is_active: self.is_active,
        }
    }
}

impl Clone for StudentID {
    fn clone(&self) -> (r: Self)
        ensures
            r == *self,
    {
        StudentID {
            student_id: self.student_id,
            name: self.name.clone(),
            program: self.program.clone(),
            enrollment_year: self.enrollment_year,
            expiration_date: self.expiration_date,
            is_active: self.is_active,
        }
    }
}

/// Aggregate counters over all records ever issued.
#[derive(Clone, Copy, Debug, PartialEq, Eq, Structural)]
pub struct Registry {
    pub total_ids: u64,
    pub active_ids: u64,
    pub expired_ids: u64,
}

/// Logical address of a stored value, as the host's key-value store names it.
#[derive(Clone, Copy, Debug, PartialEq, Eq, Structural)]
pub enum DataKey {
    /// The record issued under the given id.
    StudentRecord(u64),
}

} // verus!
