//! Laws of the store, stated and proved over the state views and the
//! transition relations that the operations' contracts are written in.

use vstd::prelude::*;

use crate::records::{FileMetadataView, StorageError};
use crate::store::{
    access_query, create_transition, created_record, grant_outcome, grant_transition,
    metadata_query, CreateRequest, StoreView,
};

verus! {

/// An initial state is well formed, and so is every state a creation or a
/// successful authorization reaches from a well-formed state.
pub proof fn lemma_operations_preserve_inv(
    pre: StoreView,
    post: StoreView,
    req: CreateRequest,
    file_id: u64,
    user: Seq<char>,
    permission: bool,
)
    requires
        pre.inv(),
        create_transition(pre, post, req, file_id) || grant_transition(
            pre,
            post,
            file_id,
            user,
            permission,
        ),
    ensures
        post.inv(),
{
}

/// A sequence of creation calls, as a chain of states linked by
/// [`create_transition`]: state `i` steps to state `i + 1` by the call that
/// took request `i` and returned id `i`.
pub open spec fn create_run(
    states: Seq<StoreView>,
    requests: Seq<CreateRequest>,
    ids: Seq<u64>,
) -> bool {
    &&& states.len() == ids.len() + 1
    &&& requests.len() == ids.len()
    &&& forall|i: int|
        0 <= i < ids.len() ==> create_transition(states[i], states[i + 1], requests[i], ids[i])
}

proof fn lemma_counter_counts_creations(
    states: Seq<StoreView>,
    requests: Seq<CreateRequest>,
    ids: Seq<u64>,
    i: int,
)
    requires
        create_run(states, requests, ids),
        states[0].count_files == 0,
        0 <= i < states.len(),
    ensures
        states[i].count_files == i,
    decreases i,
{
    if i > 0 {
        lemma_counter_counts_creations(states, requests, ids, i - 1);
        assert(create_transition(states[i - 1], states[i], requests[i - 1], ids[i - 1]));
    }
}

/// Across any sequence of creation calls starting from an initial state, the
/// returned ids are strictly increasing, starting at 1: the call at position
/// `i` returns `i + 1`, so no id is ever reused and none is zero.
pub proof fn lemma_ids_strictly_increasing(
    states: Seq<StoreView>,
    requests: Seq<CreateRequest>,
    ids: Seq<u64>,
)
    requires
        create_run(states, requests, ids),
        states.len() > 0,
        states[0].is_initial(),
    ensures
        forall|i: int| 0 <= i < ids.len() ==> ids[i] == i + 1,
        forall|i: int, j: int| 0 <= i < j < ids.len() ==> ids[i] < ids[j],
{
    assert forall|i: int| 0 <= i < ids.len() implies ids[i] == i + 1 by {
        lemma_counter_counts_creations(states, requests, ids, i);
        assert(create_transition(states[i], states[i + 1], requests[i], ids[i]));
    }
}

/// Immediately after a creation, the metadata lookup yields a record whose
/// fields equal the request's fields, whose creation time is the ledger-clock
/// value stamped at call time, and whose id and access-control reference both
/// equal the id the call returned.
pub proof fn lemma_lookup_after_create(
    pre: StoreView,
    post: StoreView,
    req: CreateRequest,
    file_id: u64,
)
    requires
        create_transition(pre, post, req, file_id),
    ensures
        metadata_query(post) matches Ok(m) && {
            &&& m.file_name == req.file_name
            &&& m.file_hash == req.file_hash
            &&& m.owner == req.owner
            &&& m.created_at == req.created_at
            &&& m.encrypted == req.encrypted
            &&& m.file_id == file_id
            &&& m.access_control == file_id
        },
{
}

/// Fixed-slot persistence: after two creations, a metadata lookup yields the
/// second record, whichever id is asked for — in particular, asking for the
/// first id returns the second record, whose id differs from it.
pub proof fn lemma_second_create_overwrites_first(
    s0: StoreView,
    s1: StoreView,
    s2: StoreView,
    req1: CreateRequest,
    req2: CreateRequest,
    id1: u64,
    id2: u64,
)
    requires
        create_transition(s0, s1, req1, id1),
        create_transition(s1, s2, req2, id2),
    ensures
        metadata_query(s2) == Ok::<FileMetadataView, StorageError>(created_record(req2, id2)),
        metadata_query(s2) matches Ok(m) && m.file_id != id1,
{
}

/// An authorization call succeeds exactly when the supplied id equals the id
/// of the currently stored metadata record; on a mismatch it is unauthorized,
/// and before any record exists it finds nothing.
pub proof fn lemma_grant_authorization(s: StoreView, file_id: u64)
    ensures
        grant_outcome(s, file_id) is Ok <==> (s.file_metadata matches Some(m) && m.file_id
            == file_id),
        (s.file_metadata matches Some(m) && m.file_id != file_id) ==> grant_outcome(s, file_id)
            == Err::<(), StorageError>(StorageError::Unauthorized),
        s.file_metadata is None ==> grant_outcome(s, file_id) == Err::<(), StorageError>(
            StorageError::NotFound,
        ),
{
}

/// After a successful authorization call for `(file_id, user, permission)`,
/// an access check for exactly that file and user returns `permission`, and a
/// check for any other user or any other file id returns a denial.
pub proof fn lemma_check_after_grant(
    pre: StoreView,
    post: StoreView,
    file_id: u64,
    user: Seq<char>,
    permission: bool,
)
    requires
        grant_transition(pre, post, file_id, user, permission),
    ensures
        access_query(post, file_id, user) == Ok::<bool, StorageError>(permission),
        forall|other: Seq<char>|
            other != user ==> access_query(post, file_id, other) == Ok::<bool, StorageError>(false),
        forall|other_id: u64, u: Seq<char>|
            other_id != file_id ==> access_query(post, other_id, u) == Ok::<bool, StorageError>(
                false,
            ),
{
}

/// A query on a slot that was never written fails by finding nothing: the
/// metadata lookup before any record has been created, and the access check
/// before any entry has been persisted — however many records exist by then.
pub proof fn lemma_queries_fail_before_first_write(s: StoreView, file_id: u64, user: Seq<char>)
    ensures
        s.file_metadata is None ==> metadata_query(s) == Err::<FileMetadataView, StorageError>(
            StorageError::NotFound,
        ),
        s.access_control is None ==> access_query(s, file_id, user) == Err::<bool, StorageError>(
            StorageError::NotFound,
        ),
{
}

} // verus!
