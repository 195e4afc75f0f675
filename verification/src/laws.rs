//! The registry's laws, stated over the ghost model and proved once and for
//! all. Each speaks about the transition relations that the executable
//! operations are proved to follow, so it applies to every run.

use vstd::prelude::*;

use crate::data::Error;
use crate::state::{expiration_of, init_result, issue_result, StateView};

verus! {

/// Ids are dense and sequential: in any well-formed registry the record at
/// position `i` carries id `i + 1`, so the ids ever returned are exactly
/// `1, 2, 3, ...` in issuance order, with no gaps or repeats.
pub proof fn lemma_ids_sequential(s: StateView)
    requires
        s.wf(),
    ensures
        forall|i: int| 0 <= i < s.records.len() ==> (#[trigger] s.records[i]).id == i + 1,
        forall|i: int, j: int|
            0 <= i < j < s.records.len() ==> s.records[i].id != s.records[j].id,
{
}

/// A successful issuance returns the next id in sequence: one past the
/// previous counter, which equals one past the number of records so far.
pub proof fn lemma_issue_assigns_next_id(
    pre: StateView,
    caller: Seq<char>,
    name: Seq<char>,
    program: Seq<char>,
    enrollment_year: u64,
    validity_period: u64,
    now: u64,
    post: StateView,
    id: u64,
)
    requires
        pre.wf(),
        pre.id_counter < u64::MAX,
        issue_result(
            pre,
            caller,
            name,
            program,
            enrollment_year,
            validity_period,
            now,
            post,
            Ok(id),
        ),
    ensures
        id == pre.id_counter + 1,
        id == pre.records.len() + 1,
        post.id_counter == id,
        post.records.len() == pre.records.len() + 1,
        post.issued(id),
        post.wf(),
{
}

/// Initializing twice fails: whatever the first call did, the second fails
/// with `AlreadyInitialized` and changes nothing — the admin identity and
/// the aggregate survive the failed call untouched. On a fresh registry the
/// first call succeeds and stores its admin.
pub proof fn lemma_second_initialize_fails(
    s0: StateView,
    admin1: Seq<char>,
    s1: StateView,
    r1: Result<(), Error>,
    admin2: Seq<char>,
    s2: StateView,
    r2: Result<(), Error>,
)
    requires
        init_result(s0, admin1, s1, r1),
        init_result(s1, admin2, s2, r2),
    ensures
        r2 == Err::<(), Error>(Error::AlreadyInitialized),
        s2 == s1,
        s0.admin is None ==> r1 == Ok::<(), Error>(()) && s1.admin == Some(admin1),
{
}

/// Issuance by anyone but the stored admin fails with `Unauthorized` and
/// mutates nothing: counter, aggregates and record collection are unchanged.
pub proof fn lemma_unauthorized_issue_unchanged(
    pre: StateView,
    caller: Seq<char>,
    name: Seq<char>,
    program: Seq<char>,
    enrollment_year: u64,
    validity_period: u64,
    now: u64,
    post: StateView,
    r: Result<u64, Error>,
)
    requires
        pre.admin is Some,
        pre.admin != Some(caller),
        issue_result(pre, caller, name, program, enrollment_year, validity_period, now, post, r),
    ensures
        r == Err::<u64, Error>(Error::Unauthorized),
        post == pre,
{
}

/// The validity window of a fresh record: after a successful issuance at
/// clock time `now` with validity period `validity_period`, the new id
/// verifies at exactly the times strictly before `now + validity_period`
/// (saturating at the top of the timestamp range). In particular, when the
/// sum does not overflow, `verify` answers `true` for every queried time
/// strictly below it and `false` from it onward.
pub proof fn lemma_validity_window(
    pre: StateView,
    caller: Seq<char>,
    name: Seq<char>,
    program: Seq<char>,
    enrollment_year: u64,
    validity_period: u64,
    now: u64,
    post: StateView,
    id: u64,
    t: u64,
)
    requires
        pre.wf(),
        pre.id_counter < u64::MAX,
        issue_result(
            pre,
            caller,
            name,
            program,
            enrollment_year,
            validity_period,
            now,
            post,
            Ok(id),
        ),
    ensures
        post.valid_at(id, t) == (t < expiration_of(now, validity_period)),
        now + validity_period <= u64::MAX ==> (post.valid_at(id, t) <==> t < now
            + validity_period),
{
    assert(post.record_of(id) == post.records[post.records.len() - 1]);
}

/// An id that was never issued never verifies, at any queried time.
pub proof fn lemma_unissued_never_valid(s: StateView, id: u64, t: u64)
    requires
        !s.issued(id),
    ensures
        !s.valid_at(id, t),
{
}

/// The record a successful issuance stores carries the caller-supplied
/// name, program and enrollment year verbatim, is flagged active, and is
/// exactly what lookups under the new id return thereafter.
pub proof fn lemma_issued_record_matches(
    pre: StateView,
    caller: Seq<char>,
    name: Seq<char>,
    program: Seq<char>,
    enrollment_year: u64,
    validity_period: u64,
    now: u64,
    post: StateView,
    id: u64,
)
    requires
        pre.wf(),
        pre.id_counter < u64::MAX,
        issue_result(
            pre,
            caller,
            name,
            program,
            enrollment_year,
            validity_period,
            now,
            post,
            Ok(id),
        ),
    ensures
        post.issued(id),
        post.record_of(id).id == id,
        post.record_of(id).name == name,
        post.record_of(id).program == program,
        post.record_of(id).enrollment_year == enrollment_year,
        post.record_of(id).expiration_date == expiration_of(now, validity_period),
        post.record_of(id).is_active,
{
    assert(post.record_of(id) == post.records[post.records.len() - 1]);
}

} // verus!
