//! The registry state machine: admin-gated issuance of densely numbered
//! credential records, aggregate bookkeeping, and clock-bounded validity
//! checks. The host reads its clock and passes the timestamp in; every
//! failure returns an error and leaves the state untouched.

use vstd::prelude::*;

use crate::data::{DataKey, Error, Identity, Registry, StudentID};
use crate::state::{init_result, issue_result, issued_record, StateView};

verus! {

/// A credential registry. At most one admin is ever set; records are keyed
/// by dense ids starting at 1, so the collection is kept in issuance order.
pub struct StudentIDContract {
    admin: Option<Identity>,
    id_counter: u64,
    registry: Registry,
    records: Vec<StudentID>,
}

impl View for StudentIDContract {
    type V = StateView;

    closed spec fn view(&self) -> StateView {
        StateView {
            admin: match self.admin {
                Some(a) => Some(a@),
                None => None,
            },
            id_counter: self.id_counter,
            total_ids: self.registry.total_ids,
            active_ids: self.registry.active_ids,
            expired_ids: self.registry.expired_ids,
            records: self.records@.map_values(|r: StudentID| r@),
        }
    }
}

impl StudentIDContract {
    /// The invariant every operation preserves.
    pub open spec fn wf(&self) -> bool {
        self@.wf()
    }

    /// A fresh, uninitialized registry.
    pub fn new() -> (r: StudentIDContract)
        ensures
            r.wf(),
            r@ == StateView::initial(),
    {
        let r = StudentIDContract {
            admin: None,
            id_counter: 0,
            registry: Registry { total_ids: 0, active_ids: 0, expired_ids: 0 },
            records: Vec::new(),
        };
        proof {
            assert(r@ =~= StateView::initial());
        }
        r
    }

    /// Record the admin identity and zero the counters. Fails with
    /// `AlreadyInitialized`, mutating nothing, if an admin is already set.
    pub fn initialize(&mut self, admin: Identity) -> (r: Result<(), Error>)
        requires
            old(self).wf(),
        ensures
            final(self).wf(),
            init_result(old(self)@, admin@, final(self)@, r),
    {
        if self.admin.is_some() {
            return Err(Error::AlreadyInitialized);
        }
        self.admin = Some(admin);
        self.registry = Registry { total_ids: 0, active_ids: 0, expired_ids: 0 };
        self.id_counter = 0;
        proof {
            assert(self@ =~= (StateView { admin: Some(admin@), ..StateView::initial() }));
        }
        Ok(())
    }

    /// Issue a new credential record: admin only. On success the new id is
    /// the previous counter plus one, the record expires at `now +
    /// validity_period` (saturating), and the aggregates grow by one. On any
    /// failure nothing is mutated.
    pub fn issue_student_id(
        &mut self,
        admin: &Identity,
        name: String,
        program: String,
        enrollment_year: u64,
        validity_period: u64,
        now: u64,
    ) -> (r: Result<u64, Error>)
        requires
            old(self).wf(),
            old(self)@.admin == Some(admin@) ==> old(self)@.id_counter < u64::MAX,
        ensures
            final(self).wf(),
            issue_result(
                old(self)@,
                admin@,
                name@,
                program@,
                enrollment_year,
                validity_period,
                now,
                final(self)@,
                r,
            ),
    {
        match &self.admin {
            None => {
                return Err(Error::NotInitialized);
            },
            Some(stored) => {
                if !stored.same_as(admin) {
                    return Err(Error::Unauthorized);
                }
            },
        }
        let id = self.id_counter + 1;
        let expiration_date = now.saturating_add(validity_period);
        let record = StudentID {
            student_id: id,
            name: name,
            program: program,
            enrollment_year: enrollment_year,
            expiration_date: expiration_date,
            is_active: true,
        };
        self.records.push(record);
        self.registry.total_ids = self.registry.total_ids + 1;
        self.registry.active_ids = self.registry.active_ids + 1;
        self.id_counter = id;
        proof {
            let pre = old(self)@;
            assert(self@.records =~= pre.records.push(
                issued_record(pre, name@, program@, enrollment_year, validity_period, now),
            ));
            assert(self@ =~= (StateView {
                admin: pre.admin,
                id_counter: (pre.id_counter + 1) as u64,
                total_ids: (pre.total_ids + 1) as u64,
                active_ids: (pre.active_ids + 1) as u64,
                expired_ids: pre.expired_ids,
                records: pre.records.push(
                    issued_record(pre, name@, program@, enrollment_year, validity_period, now),
                ),
            }));
        }
        Ok(id)
    }

    /// Whether the registry holds a value under the given key.
    pub fn has_record(&self, key: &DataKey) -> (r: bool)
        requires
            self.wf(),
        ensures
            r == self@.contains(*key),
    {
        match key {
            DataKey::StudentRecord(id) => 1 <= *id && *id <= self.id_counter,
        }
    }

    /// Public validity check: `true` exactly when `student_id` was issued,
    /// the record is still flagged active, and it expires strictly after
    /// `now`. Never fails, whatever the id.
    pub fn verify_student_id(&self, student_id: u64, now: u64) -> (r: bool)
        requires
            self.wf(),
        ensures
            r == self@.valid_at(student_id, now),
    {
        let key = DataKey::StudentRecord(student_id);
        if !self.has_record(&key) {
            return false;
        }
        let n: usize = self.records.len();
        assert(student_id - 1 < n);
        let idx: usize = (student_id - 1) as usize;
        let record = &self.records[idx];
        record.is_active && record.expiration_date > now
    }

    /// Public lookup: the record issued under `student_id`, verbatim, or
    /// `NotFound` if that id was never issued.
    pub fn get_student_info(&self, student_id: u64) -> (r: Result<StudentID, Error>)
        requires
            self.wf(),
        ensures
            self@.issued(student_id) ==> (r matches Ok(rec) && rec@ == self@.record_of(
                student_id,
            )),
            !self@.issued(student_id) ==> r == Err::<StudentID, Error>(Error::NotFound),
    {
        let key = DataKey::StudentRecord(student_id);
        if !self.has_record(&key) {
            return Err(Error::NotFound);
        }
        let n: usize = self.records.len();
        assert(student_id - 1 < n);
        let idx: usize = (student_id - 1) as usize;
        Ok(self.records[idx].clone())
    }

    /// The aggregate counters, as currently stored.
    pub fn registry(&self) -> (r: Registry)
        ensures
            r.total_ids == self@.total_ids,
            r.active_ids == self@.active_ids,
            r.expired_ids == self@.expired_ids,
    {
        self.registry
    }

    /// The last id handed out; zero before any issuance.
    pub fn id_counter(&self) -> (r: u64)
        ensures
            r == self@.id_counter,
    {
        self.id_counter
    }

    /// The stored admin identity, if the registry has been initialized.
    pub fn admin(&self) -> (r: Option<&Identity>)
        ensures
            self@.admin is None ==> r is None,
            self@.admin matches Some(a) ==> (r matches Some(i) && i@ == a),
    {
        self.admin.as_ref()
    }

    /// All issued records, in issuance order.
    pub fn records(&self) -> (r: &Vec<StudentID>)
        ensures
            r@.map_values(|x: StudentID| x@) == self@.records,
    {
        &self.records
    }

    /// Rebuild a registry from externally persisted parts, for hosts that
    /// keep the records in durable storage between calls. Succeeds exactly
    /// when the parts form a well-formed registry: record ids dense from 1
    /// in order, and no records without an admin.
    pub fn from_parts(admin: Option<Identity>, records: Vec<StudentID>) -> (r: Option<
        StudentIDContract,
    >)
        ensures
            r is Some <==> {
                &&& forall|i: int|
                    0 <= i < records@.len() ==> (#[trigger] records@[i])@.id == i + 1
                &&& admin is None ==> records@.len() == 0
            },
            r matches Some(c) ==> {
                &&& c.wf()
                &&& c@.admin == (match admin {
                    Some(a) => Some(a@),
                    None => None::<Seq<char>>,
                })
                &&& c@.id_counter == records@.len()
                &&& c@.records == records@.map_values(|x: StudentID| x@)
            },
    {
        if admin.is_none() && records.len() > 0 {
            return None;
        }
        let n: usize = records.len();
        let mut i: usize = 0;
        while i < n
            invariant
                0 <= i <= n,
                n == records@.len(),
                forall|k: int| 0 <= k < i ==> (#[trigger] records@[k])@.id == k + 1,
            decreases n - i,
        {
            if records[i].student_id != (i as u64) + 1 {
                return None;
            }
            i = i + 1;
        }
        let count: u64 = n as u64;
        let c = StudentIDContract {
            admin: admin,
            id_counter: count,
            registry: Registry { total_ids: count, active_ids: count, expired_ids: 0 },
            records: records,
        };
        Some(c)
    }
}

} // verus!
