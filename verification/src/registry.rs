//! Session registry: the single owner of all pending artifacts and
//! established group sessions.
//!
//! Callers hold only opaque `u32` handles.  A handle is issued exactly once
//! over the life of the process: each allocation takes the next value of a
//! monotone counter, so an identifier that was consumed is never reissued.
//! Entries are retained until process end, except that a consumed pending
//! artifact is removed and can never be resolved a second time.

use vstd::prelude::*;

verus! {

/// The payload associated with a pending TransactionID: the generated key
/// package together with what the engine later needs to complete a join.
/// The mock engine keeps no private material, so the key package is the
/// whole artifact.
pub struct PendingArtifact {
    /// The key-package bytes handed to the orchestrator.
    pub key_package: Vec<u8>,
}

/// The payload associated with a StateID: an established group session.
/// The mock engine's whole session state is its epoch.
#[derive(Clone, Copy, Debug, PartialEq, Eq, Structural)]
pub struct GroupState {
    /// How many committed changes have been applied since the group was
    /// created or joined; advances by one on each successful commit.
    pub epoch: u64,
}

/// No two entries share a key.
pub open spec fn distinct_keys<T>(s: Seq<(u32, T)>) -> bool {
    forall|i: int, j: int|
        0 <= i < j < s.len() ==> (#[trigger] s[i]).0 != (#[trigger] s[j]).0
}

/// Every key lies below `bound`.
pub open spec fn keys_below<T>(s: Seq<(u32, T)>, bound: u32) -> bool {
    forall|i: int| 0 <= i < s.len() ==> (#[trigger] s[i]).0 < bound
}

/// Some entry carries the key `id`.
pub open spec fn has_key<T>(s: Seq<(u32, T)>, id: u32) -> bool {
    exists|i: int| 0 <= i < s.len() && (#[trigger] s[i]).0 == id
}

/// The index of the entry carrying the key `id` (meaningful only when
/// `has_key(s, id)` holds; with `distinct_keys` it is unique).
pub open spec fn key_index<T>(s: Seq<(u32, T)>, id: u32) -> int {
    choose|i: int| 0 <= i < s.len() && (#[trigger] s[i]).0 == id
}

/// With distinct keys, any two indices carrying the same key coincide.
proof fn lemma_key_index_unique<T>(s: Seq<(u32, T)>, i: int, j: int)
    requires
        distinct_keys(s),
        0 <= i < s.len(),
        0 <= j < s.len(),
        s[i].0 == s[j].0,
    ensures
        i == j,
{
    if i < j {
        assert(s[i].0 != s[j].0);
    } else if j < i {
        assert(s[j].0 != s[i].0);
    }
}

/// The store mapping opaque handles to pending artifacts and established
/// group sessions.  Allocation is serialized through `&mut` access, so two
/// allocations never receive the same identifier; resolution observes the
/// most recently completed write for an identifier.
pub struct SessionRegistry {
    next_transaction_id: u32,
    next_state_id: u32,
    transactions: Vec<(u32, PendingArtifact)>,
    states: Vec<(u32, GroupState)>,
}

impl SessionRegistry {
    /// Internal invariant: keys are unique and below the counters, so a
    /// fresh allocation can never collide with a live or consumed entry.
    pub closed spec fn wf(self) -> bool {
        &&& distinct_keys(self.transactions@)
        &&& keys_below(self.transactions@, self.next_transaction_id)
        &&& distinct_keys(self.states@)
        &&& keys_below(self.states@, self.next_state_id)
    }

    /// The next TransactionID to be issued; every id at or above it has
    /// never been returned by an allocating call.
    pub closed spec fn txn_bound(self) -> u32 {
        self.next_transaction_id
    }

    /// The next StateID to be issued.
    pub closed spec fn state_bound(self) -> u32 {
        self.next_state_id
    }

    /// Whether `id` currently resolves to a pending artifact.
    pub closed spec fn txn_known(self, id: u32) -> bool {
        has_key(self.transactions@, id)
    }

    /// The key-package bytes of the pending artifact under `id`
    /// (meaningful only when `txn_known(id)`).
    pub closed spec fn txn_key_package(self, id: u32) -> Seq<u8> {
        self.transactions@[key_index(self.transactions@, id)].1.key_package@
    }

    /// Whether `id` currently resolves to an established group session.
    pub closed spec fn state_known(self, id: u32) -> bool {
        has_key(self.states@, id)
    }

    /// The epoch of the session under `id` (meaningful only when
    /// `state_known(id)`).
    pub closed spec fn epoch_of(self, id: u32) -> u64 {
        self.states@[key_index(self.states@, id)].1.epoch
    }

    /// A TransactionID that was issued and has been consumed: it can never
    /// resolve again, because reallocation only issues ids at or above the
    /// bound.
    pub open spec fn txn_retired(self, id: u32) -> bool {
        id < self.txn_bound() && !self.txn_known(id)
    }

    /// The two registries hold the same pending artifacts and have issued
    /// the same TransactionIDs.
    pub open spec fn txns_agree(self, other: Self) -> bool {
        &&& self.txn_bound() == other.txn_bound()
        &&& forall|id: u32| #[trigger] self.txn_known(id) == other.txn_known(id)
        &&& forall|id: u32|
            #[trigger] self.txn_known(id) ==> self.txn_key_package(id) == other.txn_key_package(
                id,
            )
    }

    /// The two registries hold the same sessions at the same epochs and
    /// have issued the same StateIDs.
    pub open spec fn states_agree(self, other: Self) -> bool {
        &&& self.state_bound() == other.state_bound()
        &&& forall|id: u32| #[trigger] self.state_known(id) == other.state_known(id)
        &&& forall|id: u32|
            #[trigger] self.state_known(id) ==> self.epoch_of(id) == other.epoch_of(id)
    }

    /// An empty registry: no handle resolves, nothing has been issued.
    pub fn new() -> (r: SessionRegistry)
        ensures
            r.wf(),
            r.txn_bound() == 0,
            r.state_bound() == 0,
            forall|id: u32| !(#[trigger] r.txn_known(id)),
            forall|id: u32| !(#[trigger] r.state_known(id)),
    {
        SessionRegistry {
            next_transaction_id: 0,
            next_state_id: 0,
            transactions: Vec::new(),
            states: Vec::new(),
        }
    }

    /// The next TransactionID that allocation would issue; `u32::MAX`
    /// means the identifier space is exhausted.
    pub fn transaction_id_bound(&self) -> (r: u32)
        ensures
            r == self.txn_bound(),
    {
        self.next_transaction_id
    }

    /// The next StateID that allocation would issue.
    pub fn state_id_bound(&self) -> (r: u32)
        ensures
            r == self.state_bound(),
    {
        self.next_state_id
    }

    /// The index of the entry for a pending `id`, if any.
    fn transaction_index(&self, id: u32) -> (r: Option<usize>)
        ensures
            r is Some <==> self.txn_known(id),
            r is Some ==> 0 <= r->0 < self.transactions@.len()
                && self.transactions@[r->0 as int].0 == id,
    {
        let n: usize = self.transactions.len();
        let mut i: usize = 0;
        while i < n
            invariant
                n == self.transactions@.len(),
                0 <= i <= n,
                forall|j: int| 0 <= j < i ==> (#[trigger] self.transactions@[j]).0 != id,
            decreases n - i,
        {
            if self.transactions[i].0 == id {
                return Some(i);
            }
            i += 1;
        }
        None
    }

    /// The index of the entry for an established `id`, if any.
    fn state_index(&self, id: u32) -> (r: Option<usize>)
        ensures
            r is Some <==> self.state_known(id),
            r is Some ==> 0 <= r->0 < self.states@.len() && self.states@[r->0 as int].0 == id,
    {
        let n: usize = self.states.len();
        let mut i: usize = 0;
        while i < n
            invariant
                n == self.states@.len(),
                0 <= i <= n,
                forall|j: int| 0 <= j < i ==> (#[trigger] self.states@[j]).0 != id,
            decreases n - i,
        {
            if self.states[i].0 == id {
                return Some(i);
            }
            i += 1;
        }
        None
    }

    /// Registers a pending artifact and issues its fresh TransactionID.
    pub fn allocate_transaction(&mut self, artifact: PendingArtifact) -> (id: u32)
        requires
            old(self).wf(),
            old(self).txn_bound() < u32::MAX,
        ensures
            final(self).wf(),
            id == old(self).txn_bound(),
            !old(self).txn_known(id),
            final(self).txn_bound() == id + 1,
            final(self).txn_known(id),
            final(self).txn_key_package(id) == artifact.key_package@,
            forall|j: u32|
                j != id ==> #[trigger] final(self).txn_known(j) == old(self).txn_known(j),
            forall|j: u32|
                j != id && #[trigger] old(self).txn_known(j) ==> final(self).txn_key_package(j)
                    == old(self).txn_key_package(j),
            final(self).states_agree(*old(self)),
    {
        let id = self.next_transaction_id;
        let ghost pre = self.transactions@;
        self.transactions.push((id, artifact));
        self.next_transaction_id = self.next_transaction_id + 1;
        proof {
            let post = self.transactions@;
            let ghost bound = old(self).next_transaction_id;
            assert(post == pre.push((id, artifact)));
            assert(post[pre.len() as int] == (id, artifact));
            assert(forall|k: int| 0 <= k < pre.len() ==> post[k] == pre[k]);
            assert(distinct_keys(post)) by {
                assert forall|k1: int, k2: int| 0 <= k1 < k2 < post.len() implies (
                #[trigger] post[k1]).0 != (#[trigger] post[k2]).0 by {
                    if k2 == pre.len() {
                        assert(pre[k1].0 < bound);
                    } else {
                        assert(pre[k1].0 != pre[k2].0);
                    }
                }
            }
            assert(has_key(post, id));
            let w = key_index(post, id as u32);
            assert(post[w].0 == id);
            lemma_key_index_unique(post, w, pre.len() as int);
            assert(self.txn_key_package(id) == artifact.key_package@);
            assert forall|j: u32| j != id implies #[trigger] self.txn_known(j) == old(
                self,
            ).txn_known(j) by {
                if has_key(pre, j) {
                    let wo = key_index(pre, j);
                    assert(post[wo].0 == j);
                }
                if has_key(post, j) {
                    let wp = choose|i: int| 0 <= i < post.len() && (#[trigger] post[i]).0 == j;
                    assert(wp != pre.len());
                    assert(pre[wp].0 == j);
                }
            }
            assert forall|j: u32| j != id && #[trigger] old(self).txn_known(j) implies self
                .txn_key_package(j) == old(self).txn_key_package(j) by {
                let wo = key_index(pre, j);
                assert(pre[wo].0 == j);
                assert(post[wo].0 == j);
                assert(has_key(post, j));
                let wp = key_index(post, j);
                assert(post[wp].0 == j);
                lemma_key_index_unique(post, wp, wo);
            }
        }
        id
    }

    /// Registers an established session and issues its fresh StateID.
    pub fn allocate_state(&mut self, state: GroupState) -> (id: u32)
        requires
            old(self).wf(),
            old(self).state_bound() < u32::MAX,
        ensures
            final(self).wf(),
            id == old(self).state_bound(),
            !old(self).state_known(id),
            final(self).state_bound() == id + 1,
            final(self).state_known(id),
            final(self).epoch_of(id) == state.epoch,
            forall|j: u32|
                j != id ==> #[trigger] final(self).state_known(j) == old(self).state_known(j),
            forall|j: u32|
                j != id && #[trigger] old(self).state_known(j) ==> final(self).epoch_of(j) == old(
                    self,
                ).epoch_of(j),
            final(self).txns_agree(*old(self)),
    {
        let id = self.next_state_id;
        let ghost pre = self.states@;
        self.states.push((id, state));
        self.next_state_id = self.next_state_id + 1;
        proof {
            let post = self.states@;
            let ghost bound = old(self).next_state_id;
            assert(post == pre.push((id, state)));
            assert(post[pre.len() as int] == (id, state));
            assert(forall|k: int| 0 <= k < pre.len() ==> post[k] == pre[k]);
            assert(distinct_keys(post)) by {
                assert forall|k1: int, k2: int| 0 <= k1 < k2 < post.len() implies (
                #[trigger] post[k1]).0 != (#[trigger] post[k2]).0 by {
                    if k2 == pre.len() {
                        assert(pre[k1].0 < bound);
                    } else {
                        assert(pre[k1].0 != pre[k2].0);
                    }
                }
            }
            assert(has_key(post, id));
            let w = key_index(post, id as u32);
            assert(post[w].0 == id);
            lemma_key_index_unique(post, w, pre.len() as int);
            assert(self.epoch_of(id) == state.epoch);
            assert forall|j: u32| j != id implies #[trigger] self.state_known(j) == old(
                self,
            ).state_known(j) by {
                if has_key(pre, j) {
                    let wo = key_index(pre, j);
                    assert(post[wo].0 == j);
                }
                if has_key(post, j) {
                    let wp = choose|i: int| 0 <= i < post.len() && (#[trigger] post[i]).0 == j;
                    assert(wp != pre.len());
                    assert(pre[wp].0 == j);
                }
            }
            assert forall|j: u32| j != id && #[trigger] old(self).state_known(j) implies self
                .epoch_of(j) == old(self).epoch_of(j) by {
                let wo = key_index(pre, j);
                assert(pre[wo].0 == j);
                assert(post[wo].0 == j);
                assert(has_key(post, j));
                let wp = key_index(post, j);
                assert(post[wp].0 == j);
                lemma_key_index_unique(post, wp, wo);
            }
        }
        id
    }

    /// Whether `id` resolves to a pending artifact.
    pub fn contains_transaction(&self, id: u32) -> (r: bool)
        ensures
            r == self.txn_known(id),
    {
        self.transaction_index(id).is_some()
    }

    /// Whether `id` resolves to an established session.
    pub fn contains_state(&self, id: u32) -> (r: bool)
        ensures
            r == self.state_known(id),
    {
        self.state_index(id).is_some()
    }

    /// Resolves an established session, observing its current epoch.
    pub fn resolve_state(&self, id: u32) -> (r: Option<GroupState>)
        requires
            self.wf(),
        ensures
            r is Some <==> self.state_known(id),
            r is Some ==> r->0.epoch == self.epoch_of(id),
    {
        match self.state_index(id) {
            Some(i) => {
                let entry = self.states[i];
                proof {
                    if self.state_known(id) {
                        lemma_key_index_unique(self.states@, key_index(self.states@, id), i as int);
                    }
                }
                Some(entry.1)
            },
            None => None,
        }
    }

    /// Resolves the pending artifact under `id` without consuming it.
    pub fn resolve_transaction(&self, id: u32) -> (r: Option<&PendingArtifact>)
        requires
            self.wf(),
        ensures
            r is Some <==> self.txn_known(id),
            r is Some ==> r->0.key_package@ == self.txn_key_package(id),
    {
        match self.transaction_index(id) {
            Some(i) => {
                proof {
                    if self.txn_known(id) {
                        lemma_key_index_unique(
                            self.transactions@,
                            key_index(self.transactions@, id),
                            i as int,
                        );
                    }
                }
                Some(&self.transactions[i].1)
            },
            None => None,
        }
    }

    /// Removes and returns the pending artifact under `id`.  After a
    /// successful call the id never resolves again; on failure the registry
    /// is unchanged.
    pub fn consume_transaction(&mut self, id: u32) -> (r: Option<PendingArtifact>)
        requires
            old(self).wf(),
        ensures
            final(self).wf(),
            r is Some <==> old(self).txn_known(id),
            r is Some ==> r->0.key_package@ == old(self).txn_key_package(id),
            !final(self).txn_known(id),
            final(self).txn_bound() == old(self).txn_bound(),
            forall|j: u32|
                j != id ==> #[trigger] final(self).txn_known(j) == old(self).txn_known(j),
            forall|j: u32|
                j != id && #[trigger] old(self).txn_known(j) ==> final(self).txn_key_package(j)
                    == old(self).txn_key_package(j),
            final(self).states_agree(*old(self)),
    {
        match self.transaction_index(id) {
            Some(i) => {
                let ghost pre = self.transactions@;
                let entry = self.transactions.remove(i);
                proof {
                    let post = self.transactions@;
                    let ii = i as int;
                    pre.remove_ensures(ii);
                    assert(post == pre.remove(ii));
                    assert(post.len() == pre.len() - 1);
                    assert forall|k: int| 0 <= k < ii implies post[k] == pre[k] by {
                        assert(pre.remove(ii)[k] == pre[k]);
                    }
                    assert forall|k: int| ii <= k < post.len() implies post[k] == pre[k + 1] by {
                        assert(pre.remove(ii)[k] == pre[k + 1]);
                    }
                    assert(pre[ii].0 == id);
                    lemma_key_index_unique(pre, key_index(pre, id), ii);
                    assert(entry.1.key_package@ == old(self).txn_key_package(id));
                    assert(distinct_keys(post)) by {
                        assert forall|k1: int, k2: int| 0 <= k1 < k2 < post.len() implies (
                        #[trigger] post[k1]).0 != (#[trigger] post[k2]).0 by {
                            let p1: int = if k1 < ii {
                                k1
                            } else {
                                k1 + 1
                            };
                            let p2: int = if k2 < ii {
                                k2
                            } else {
                                k2 + 1
                            };
                            assert(post[k1] == pre[p1]);
                            assert(post[k2] == pre[p2]);
                            assert(pre[p1].0 != pre[p2].0);
                        }
                    }
                    assert(!has_key(post, id)) by {
                        assert forall|k: int| 0 <= k < post.len() implies (#[trigger] post[k]).0
                            != id by {
                            let p: int = if k < ii {
                                k
                            } else {
                                k + 1
                            };
                            assert(post[k] == pre[p]);
                            if p != ii {
                                assert(pre[p].0 != pre[ii].0);
                            }
                        }
                    }
                    assert forall|j: u32| j != id implies #[trigger] self.txn_known(j) == old(
                        self,
                    ).txn_known(j) by {
                        if has_key(pre, j) {
                            let wo = key_index(pre, j);
                            assert(pre[wo].0 == j);
                            assert(wo != ii);
                            if wo < ii {
                                assert(post[wo].0 == j);
                            } else {
                                assert(post[wo - 1] == pre[wo]);
                            }
                            assert(has_key(post, j));
                        }
                        if has_key(post, j) {
                            let wp = choose|k: int|
                                0 <= k < post.len() && (#[trigger] post[k]).0 == j;
                            if wp < ii {
                                assert(pre[wp].0 == j);
                            } else {
                                assert(pre[wp + 1].0 == j);
                            }
                            assert(has_key(pre, j));
                        }
                    }
                    assert forall|j: u32| j != id && #[trigger] old(self).txn_known(j) implies self
                        .txn_key_package(j) == old(self).txn_key_package(j) by {
                        let wo = key_index(pre, j);
                        assert(pre[wo].0 == j);
                        assert(wo != ii);
                        let wp: int = if wo < ii {
                            wo
                        } else {
                            wo - 1
                        };
                        assert(post[wp] == pre[wo]);
                        assert(has_key(post, j));
                        lemma_key_index_unique(post, key_index(post, j), wp);
                    }
                }
                Some(entry.1)
            },
            None => None,
        }
    }

    /// A TransactionID that resolves was issued by an allocating call: it
    /// lies below the allocation bound.
    pub proof fn lemma_txn_known_below_bound(self, id: u32)
        requires
            self.wf(),
            self.txn_known(id),
        ensures
            id < self.txn_bound(),
    {
        let w = choose|i: int|
            0 <= i < self.transactions@.len() && (#[trigger] self.transactions@[i]).0 == id;
        assert(self.transactions@[w].0 < self.next_transaction_id);
    }

    /// A StateID that resolves was issued by an allocating call: it lies
    /// below the allocation bound.
    pub proof fn lemma_state_known_below_bound(self, id: u32)
        requires
            self.wf(),
            self.state_known(id),
        ensures
            id < self.state_bound(),
    {
        let w = choose|i: int|
            0 <= i < self.states@.len() && (#[trigger] self.states@[i]).0 == id;
        assert(self.states@[w].0 < self.next_state_id);
    }

    /// Replaces the session under `id` with its post-operation state,
    /// leaving every other entry untouched.  Returns whether `id` resolved;
    /// on `false` the registry is unchanged.
    pub fn replace_state(&mut self, id: u32, state: GroupState) -> (r: bool)
        requires
            old(self).wf(),
        ensures
            final(self).wf(),
            r == old(self).state_known(id),
            final(self).state_bound() == old(self).state_bound(),
            forall|j: u32| #[trigger] final(self).state_known(j) == old(self).state_known(j),
            r ==> final(self).epoch_of(id) == state.epoch,
            forall|j: u32|
                j != id && #[trigger] old(self).state_known(j) ==> final(self).epoch_of(j) == old(
                    self,
                ).epoch_of(j),
            final(self).txns_agree(*old(self)),
            !r ==> final(self).states_agree(*old(self)),
    {
        match self.state_index(id) {
            Some(i) => {
                let ghost pre = self.states@;
                self.states[i] = (id, state);
                proof {
                    let post = self.states@;
                    let ii = i as int;
                    assert(post == pre.update(ii, (id, state)));
                    assert(post.len() == pre.len());
                    assert(pre[ii].0 == id);
                    assert(post[ii] == (id, state));
                    assert(forall|k: int| 0 <= k < post.len() && k != ii ==> post[k] == pre[k]);
                    assert forall|k: int| 0 <= k < post.len() implies (#[trigger] post[k]).0
                        == pre[k].0 by {
                        if k != ii {
                            assert(post[k] == pre[k]);
                        }
                    }
                    assert(distinct_keys(post)) by {
                        assert forall|k1: int, k2: int| 0 <= k1 < k2 < post.len() implies (
                        #[trigger] post[k1]).0 != (#[trigger] post[k2]).0 by {
                            assert(pre[k1].0 != pre[k2].0);
                        }
                    }
                    assert forall|j: u32| #[trigger] self.state_known(j) == old(
                        self,
                    ).state_known(j) by {
                        if has_key(pre, j) {
                            let w = key_index(pre, j);
                            assert(post[w].0 == j);
                        }
                        if has_key(post, j) {
                            let w = choose|k: int|
                                0 <= k < post.len() && (#[trigger] post[k]).0 == j;
                            assert(pre[w].0 == j);
                        }
                    }
                    assert(has_key(post, id));
                    lemma_key_index_unique(post, key_index(post, id), ii);
                    assert(self.epoch_of(id) == state.epoch);
                    assert forall|j: u32| j != id && #[trigger] old(self).state_known(j) implies
                        self.epoch_of(j) == old(self).epoch_of(j) by {
                        let wo = key_index(pre, j);
                        assert(pre[wo].0 == j);
                        assert(wo != ii);
                        assert(post[wo] == pre[wo]);
                        assert(has_key(post, j));
                        lemma_key_index_unique(post, key_index(post, j), wo);
                    }
                }
                true
            },
            None => false,
        }
    }
}

} // verus!
