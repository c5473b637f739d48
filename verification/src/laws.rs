//! Laws the service obeys across calls, stated over the same spec functions
//! the operations' contracts use and proved once and for all.

use vstd::prelude::*;

use crate::dispatch::{commit_step, MlsClientImpl};
use crate::vectors::{spec_canonical_vector, spec_vector_ok, TestVectorType};

verus! {

/// Test-vector generation is deterministic: any two generated vectors for
/// the same kind are byte-identical, because `generate` pins its result to
/// the canonical encoding of that kind.
pub proof fn lemma_generate_deterministic(kind: TestVectorType, first: Seq<u8>, second: Seq<u8>)
    requires
        first == spec_canonical_vector(kind),
        second == spec_canonical_vector(kind),
    ensures
        first == second,
{
}

/// Round trip: a generated vector is accepted by verification for its kind.
pub proof fn lemma_generate_verify_round_trip(kind: TestVectorType, bytes: Seq<u8>)
    requires
        bytes == spec_canonical_vector(kind),
    ensures
        spec_vector_ok(kind, bytes),
{
}

/// Sensitivity: every byte sequence that differs from the generated vector
/// in at least one byte is rejected by verification for that kind.
pub proof fn lemma_verify_sensitivity(kind: TestVectorType, bytes: Seq<u8>, other: Seq<u8>)
    requires
        bytes == spec_canonical_vector(kind),
        other != bytes,
    ensures
        !spec_vector_ok(kind, other),
{
}

/// A StateID never returned by any prior successful allocating call does
/// not resolve, so every action that requires it is rejected as an unknown
/// handle: allocating calls only return ids below the bound.
pub proof fn lemma_unissued_state_unknown(client: MlsClientImpl, id: u32)
    requires
        client.wf(),
        id >= client.state_bound(),
    ensures
        !client.state_known(id),
{
    if client.state_known(id) {
        client.registry.lemma_state_known_below_bound(id);
    }
}

/// A TransactionID never returned by any prior successful allocating call
/// does not resolve either.
pub proof fn lemma_unissued_transaction_unknown(client: MlsClientImpl, id: u32)
    requires
        client.wf(),
        id >= client.txn_bound(),
    ensures
        !client.txn_known(id),
{
    if client.txn_known(id) {
        client.registry.lemma_txn_known_below_bound(id);
    }
}

/// A TransactionID consumed by a successful join is retired: it was issued
/// below the bound and no longer resolves, so a second join with the same
/// id is rejected as an unknown handle.
pub proof fn lemma_join_retires_transaction(pre: MlsClientImpl, post: MlsClientImpl, t: u32)
    requires
        pre.wf(),
        pre.txn_known(t),
        !post.txn_known(t),
        post.txn_bound() == pre.txn_bound(),
    ensures
        post.txn_retired(t),
{
    pre.registry.lemma_txn_known_below_bound(t);
}

/// Retirement survives every operation that leaves pending artifacts
/// untouched (every handler whose contract includes transaction agreement).
pub proof fn lemma_retired_preserved_by_agreement(pre: MlsClientImpl, post: MlsClientImpl, t: u32)
    requires
        pre.txn_retired(t),
        post.txns_agree(pre),
    ensures
        post.txn_retired(t),
{
    assert(post.txn_known(t) == pre.txn_known(t));
}

/// Retirement survives the allocation of a new pending artifact: a fresh
/// id is taken at the bound, strictly above every retired id.
pub proof fn lemma_retired_preserved_by_allocation(
    pre: MlsClientImpl,
    post: MlsClientImpl,
    t: u32,
    id: u32,
)
    requires
        pre.txn_retired(t),
        id == pre.txn_bound(),
        post.txn_bound() == id + 1,
        forall|j: u32| j != id ==> #[trigger] post.txn_known(j) == pre.txn_known(j),
    ensures
        post.txn_retired(t),
{
    assert(t != id);
    assert(post.txn_known(t) == pre.txn_known(t));
}

/// Retirement survives the consumption of any other TransactionID.
pub proof fn lemma_retired_preserved_by_consumption(
    pre: MlsClientImpl,
    post: MlsClientImpl,
    t: u32,
    other: u32,
)
    requires
        pre.txn_retired(t),
        post.txn_bound() == pre.txn_bound(),
        !post.txn_known(other),
        forall|j: u32| j != other ==> #[trigger] post.txn_known(j) == pre.txn_known(j),
    ensures
        post.txn_retired(t),
{
    if t != other {
        assert(post.txn_known(t) == pre.txn_known(t));
    }
}

/// Commit-class operations against the same StateID linearize: applied one
/// after the other — the order exclusive access to the service enforces —
/// the second observes exactly the epoch the first produced, the session
/// advances by exactly two epochs along one history, and no other session
/// or pending artifact moves.  Two concurrent commits can therefore never
/// both succeed into diverging states.
pub proof fn lemma_commits_linearize(
    c0: MlsClientImpl,
    c1: MlsClientImpl,
    c2: MlsClientImpl,
    state_id: u32,
)
    requires
        commit_step(c0, c1, state_id),
        commit_step(c1, c2, state_id),
    ensures
        c2.state_known(state_id),
        c1.epoch_of(state_id) == c0.epoch_of(state_id) + 1,
        c2.epoch_of(state_id) == c0.epoch_of(state_id) + 2,
        forall|j: u32| #[trigger] c2.state_known(j) == c0.state_known(j),
        forall|j: u32|
            j != state_id && #[trigger] c0.state_known(j) ==> c2.epoch_of(j) == c0.epoch_of(j),
        c2.txns_agree(c0),
{
    assert forall|j: u32| #[trigger] c2.state_known(j) == c0.state_known(j) by {
        assert(c1.state_known(j) == c0.state_known(j));
        assert(c2.state_known(j) == c1.state_known(j));
    }
    assert forall|j: u32|
        j != state_id && #[trigger] c0.state_known(j) implies c2.epoch_of(j) == c0.epoch_of(
        j,
    ) by {
        assert(c1.state_known(j) == c0.state_known(j));
        assert(c1.epoch_of(j) == c0.epoch_of(j));
        assert(c2.epoch_of(j) == c1.epoch_of(j));
    }
    assert(c2.txns_agree(c0)) by {
        assert forall|j: u32| #[trigger] c2.txn_known(j) == c0.txn_known(j) by {
            assert(c1.txn_known(j) == c0.txn_known(j));
            assert(c2.txn_known(j) == c1.txn_known(j));
        }
        assert forall|j: u32| #[trigger] c2.txn_known(j) implies c2.txn_key_package(j) == c0
            .txn_key_package(j) by {
            assert(c1.txn_known(j));
            assert(c2.txn_key_package(j) == c1.txn_key_package(j));
            assert(c1.txn_key_package(j) == c0.txn_key_package(j));
        }
    }
}

} // verus!
