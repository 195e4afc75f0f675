//! The mathematical model of the registry: its ghost state, its
//! well-formedness invariant, and the transition relations that the
//! executable operations are proved to follow.

use vstd::prelude::*;

use crate::data::{DataKey, Error, RecordView};

verus! {

/// Ghost image of the whole registry.
#[verifier::ext_equal]
pub ghost struct StateView {
    /// The stored admin identity, if the registry has been initialized.
    pub admin: Option<Seq<char>>,
    /// Last id handed out; ids are dense, so this is also the record count.
    pub id_counter: u64,
    /// Aggregate counter: records ever issued.
    pub total_ids: u64,
    /// Aggregate counter: records issued with the active flag set.
    pub active_ids: u64,
    /// Aggregate counter: never incremented by any operation of this core.
    pub expired_ids: u64,
    /// All issued records, in issuance order; the record with id `i` sits at
    /// index `i - 1`.
    pub records: Seq<RecordView>,
}

impl StateView {
    /// The state of a freshly constructed, never-initialized registry.
    pub open spec fn initial() -> StateView {
        StateView {
            admin: None,
            id_counter: 0,
            total_ids: 0,
            active_ids: 0,
            expired_ids: 0,
            records: Seq::empty(),
        }
    }

    /// Everything the registry keeps true of itself between operations.
    pub open spec fn wf(self) -> bool {
        &&& self.id_counter == self.records.len()
        &&& self.total_ids == self.id_counter
        &&& self.active_ids == self.id_counter
        &&& self.expired_ids == 0
        &&& forall|i: int|
            0 <= i < self.records.len() ==> (#[trigger] self.records[i]).id == i + 1
        &&& self.admin is None ==> self.id_counter == 0
    }

    /// A record was issued under this id.
    pub open spec fn issued(self, id: u64) -> bool {
        1 <= id <= self.records.len()
    }

    /// The record issued under `id`; meaningful only when `issued(id)`.
    pub open spec fn record_of(self, id: u64) -> RecordView {
        self.records[id - 1]
    }

    /// Whether the store holds a value under the given key.
    pub open spec fn contains(self, key: DataKey) -> bool {
        match key {
            DataKey::StudentRecord(id) => self.issued(id),
        }
    }

    /// The validity predicate that `verify_student_id` computes: the id was
    /// issued, the record is still flagged active, and it expires strictly
    /// after the queried time.
    pub open spec fn valid_at(self, id: u64, now: u64) -> bool {
        &&& self.issued(id)
        &&& self.record_of(id).is_active
        &&& self.record_of(id).expiration_date > now
    }
}

/// The expiration timestamp written at issuance: creation time plus validity
/// period, saturating at the top of the timestamp range.
pub open spec fn expiration_of(now: u64, validity_period: u64) -> u64 {
    if now + validity_period > u64::MAX {
        u64::MAX
    } else {
        (now + validity_period) as u64
    }
}

/// What `initialize(admin)` does to the state and returns.
pub open spec fn init_result(
    pre: StateView,
    admin: Seq<char>,
    post: StateView,
    r: Result<(), Error>,
) -> bool {
    if pre.admin is Some {
        &&& r == Err::<(), Error>(Error::AlreadyInitialized)
        &&& post == pre
    } else {
        &&& r == Ok::<(), Error>(())
        &&& post == (StateView { admin: Some(admin), ..StateView::initial() })
    }
}

/// The record that a successful issuance at time `now` appends.
pub open spec fn issued_record(
    pre: StateView,
    name: Seq<char>,
    program: Seq<char>,
    enrollment_year: u64,
    validity_period: u64,
    now: u64,
) -> RecordView {
    RecordView {
        id: (pre.id_counter + 1) as u64,
        name: name,
        program: program,
        enrollment_year: enrollment_year,
        expiration_date: expiration_of(now, validity_period),
        is_active: true,
    }
}

/// What `issue_student_id` does to the state and returns, for every caller.
pub open spec fn issue_result(
    pre: StateView,
    caller: Seq<char>,
    name: Seq<char>,
    program: Seq<char>,
    enrollment_year: u64,
    validity_period: u64,
    now: u64,
    post: StateView,
    r: Result<u64, Error>,
) -> bool {
    if pre.admin is None {
        &&& r == Err::<u64, Error>(Error::NotInitialized)
        &&& post == pre
    } else if pre.admin != Some(caller) {
        &&& r == Err::<u64, Error>(Error::Unauthorized)
        &&& post == pre
    } else {
        &&& r == Ok::<u64, Error>((pre.id_counter + 1) as u64)
        &&& post == (StateView {
            admin: pre.admin,
            id_counter: (pre.id_counter + 1) as u64,
            total_ids: (pre.total_ids + 1) as u64,
            active_ids: (pre.active_ids + 1) as u64,
            expired_ids: pre.expired_ids,
            records: pre.records.push(
                issued_record(pre, name, program, enrollment_year, validity_period, now),
            ),
        })
    }
}

} // verus!
