//! Protocol action dispatcher: one handler per protocol action.
//!
//! Each handler validates every handle argument against the session
//! registry, validates any payload argument against what the referenced
//! artifact expects, invokes the built-in engine, registers the engine's
//! output under new handles and returns plain values referencing them.  A
//! rejected request leaves the whole service state exactly as it was:
//! no partial effect is ever observable.
//!
//! Handle policy (fixed for all callers): an epoch-advancing operation
//! updates the referenced session in place and keeps its StateID stable, so
//! `handle_commit` and `handle_external_commit` echo the id they were
//! given.  The RPC transport, which owns serialization of concurrent calls,
//! hands every call to this dispatcher one at a time through exclusive
//! access; per-entry ordering then follows from the registry contracts.

use vstd::prelude::*;
use vstd::string::StringExecFns;

use crate::bytes::bytes_eq;
use crate::caps;
use crate::engine;
use crate::errors::{ClientError, HandleRef, PayloadKind};
use crate::registry::{GroupState, PendingArtifact, SessionRegistry};
use crate::vectors;
use crate::vectors::TestVectorType;

verus! {

/// The service context handed to every request: implementation identity,
/// the test-vector subsystem and the session registry.  It is constructed
/// once at process start and owned for the process lifetime.
pub struct MlsClientImpl {
    /// The single owner of all pending artifacts and group sessions.
    pub registry: SessionRegistry,
}

/// What one successful commit-class operation does to the service state:
/// the referenced session advances by exactly one epoch, every other
/// session and every pending artifact is untouched, and no handle appears
/// or disappears.
pub open spec fn commit_step(pre: MlsClientImpl, post: MlsClientImpl, state_id: u32) -> bool {
    &&& pre.state_known(state_id)
    &&& post.state_known(state_id)
    &&& post.epoch_of(state_id) == pre.epoch_of(state_id) + 1
    &&& post.state_bound() == pre.state_bound()
    &&& forall|j: u32| #[trigger] post.state_known(j) == pre.state_known(j)
    &&& forall|j: u32|
        j != state_id && #[trigger] pre.state_known(j) ==> post.epoch_of(j) == pre.epoch_of(j)
    &&& post.txns_agree(pre)
}

impl MlsClientImpl {
    /// Internal invariant of the service state.
    pub open spec fn wf(self) -> bool {
        self.registry.wf()
    }

    /// Whether `id` resolves to a pending key package.
    pub open spec fn txn_known(self, id: u32) -> bool {
        self.registry.txn_known(id)
    }

    /// The pending key-package bytes under `id`.
    pub open spec fn txn_key_package(self, id: u32) -> Seq<u8> {
        self.registry.txn_key_package(id)
    }

    /// Whether `id` resolves to an established session.
    pub open spec fn state_known(self, id: u32) -> bool {
        self.registry.state_known(id)
    }

    /// The epoch of the session under `id`.
    pub open spec fn epoch_of(self, id: u32) -> u64 {
        self.registry.epoch_of(id)
    }

    /// The next TransactionID to be issued.
    pub open spec fn txn_bound(self) -> u32 {
        self.registry.txn_bound()
    }

    /// The next StateID to be issued.
    pub open spec fn state_bound(self) -> u32 {
        self.registry.state_bound()
    }

    /// A TransactionID that was issued and consumed; it never resolves
    /// again.
    pub open spec fn txn_retired(self, id: u32) -> bool {
        self.registry.txn_retired(id)
    }

    /// Pending artifacts and issued TransactionIDs agree with `other`.
    pub open spec fn txns_agree(self, other: Self) -> bool {
        self.registry.txns_agree(other.registry)
    }

    /// Sessions, their epochs and issued StateIDs agree with `other`.
    pub open spec fn states_agree(self, other: Self) -> bool {
        self.registry.states_agree(other.registry)
    }

    /// A fresh service context: no handle resolves, nothing issued yet.
    pub fn new() -> (r: Self)
        ensures
            r.wf(),
            r.txn_bound() == 0,
            r.state_bound() == 0,
            forall|id: u32| !(#[trigger] r.txn_known(id)),
            forall|id: u32| !(#[trigger] r.state_known(id)),
    {
        MlsClientImpl { registry: SessionRegistry::new() }
    }

    /// Issues a fresh TransactionID for a pending artifact.  Exclusive
    /// access serializes allocation, so two calls never return the same id.
    pub fn new_transaction_id(&mut self, artifact: PendingArtifact) -> (id: u32)
        requires
            old(self).wf(),
            old(self).txn_bound() < u32::MAX,
        ensures
            final(self).wf(),
            id == old(self).txn_bound(),
            !old(self).txn_known(id),
            final(self).txn_bound() == id + 1,
            final(self).txn_known(id),
            final(self).txn_key_package(id) == artifact.key_package@,
            forall|j: u32|
                j != id ==> #[trigger] final(self).txn_known(j) == old(self).txn_known(j),
            forall|j: u32|
                j != id && #[trigger] old(self).txn_known(j) ==> final(self).txn_key_package(j)
                    == old(self).txn_key_package(j),
            final(self).states_agree(*old(self)),
    {
        self.registry.allocate_transaction(artifact)
    }

    /// Issues a fresh StateID for an established session.
    pub fn new_state_id(&mut self, state: GroupState) -> (id: u32)
        requires
            old(self).wf(),
            old(self).state_bound() < u32::MAX,
        ensures
            final(self).wf(),
            id == old(self).state_bound(),
            !old(self).state_known(id),
            final(self).state_bound() == id + 1,
            final(self).state_known(id),
            final(self).epoch_of(id) == state.epoch,
            forall|j: u32|
                j != id ==> #[trigger] final(self).state_known(j) == old(self).state_known(j),
            forall|j: u32|
                j != id && #[trigger] old(self).state_known(j) ==> final(self).epoch_of(j) == old(
                    self,
                ).epoch_of(j),
            final(self).txns_agree(*old(self)),
    {
        self.registry.allocate_state(state)
    }

    /// Whether a TransactionID currently resolves.
    pub fn known_transaction_id(&self, id: u32) -> (r: bool)
        ensures
            r == self.txn_known(id),
    {
        self.registry.contains_transaction(id)
    }

    /// Whether a StateID currently resolves.
    pub fn known_state_id(&self, id: u32) -> (r: bool)
        ensures
            r == self.state_known(id),
    {
        self.registry.contains_state(id)
    }

    /// The current epoch of a session, if the id resolves.
    pub fn state_epoch(&self, id: u32) -> (r: Option<u64>)
        requires
            self.wf(),
        ensures
            r is Some <==> self.state_known(id),
            r is Some ==> r->0 == self.epoch_of(id),
    {
        match self.registry.resolve_state(id) {
            Some(state) => Some(state.epoch),
            None => None,
        }
    }

    /// The next TransactionID that allocation would issue; the transport
    /// layer checks it for headroom before an allocating call.
    pub fn transaction_id_bound(&self) -> (r: u32)
        ensures
            r == self.txn_bound(),
    {
        self.registry.transaction_id_bound()
    }

    /// The next StateID that allocation would issue.
    pub fn state_id_bound(&self) -> (r: u32)
        ensures
            r == self.state_bound(),
    {
        self.registry.state_id_bound()
    }

    /// The constant implementation name.
    pub fn name(&self) -> (r: String)
        ensures
            r@ == "Mock-Rust"@,
    {
        String::from_str(caps::implementation_name())
    }

    /// The supported ciphersuites in stable preference order.
    pub fn supported_ciphersuites(&self) -> (r: Vec<u32>)
        ensures
            r@ == caps::spec_supported_ciphersuites(),
    {
        caps::supported_ciphersuite_list()
    }

    /// Generates the canonical test vector for the wire-level kind tag.
    /// Succeeds exactly on the tags of the closed kind set; an out-of-range
    /// tag is rejected as a request-shape error.
    pub fn generate_test_vector(&self, test_vector_type: i32) -> (r: Result<Vec<u8>, ClientError>)
        ensures
            r is Ok <==> vectors::spec_kind_of(test_vector_type) is Some,
            r is Ok ==> r->Ok_0@ == vectors::spec_canonical_vector(
                vectors::spec_kind_of(test_vector_type)->0,
            ),
            r is Err ==> r->Err_0 == ClientError::UnsupportedVectorKind(test_vector_type),
    {
        match TestVectorType::try_from(test_vector_type) {
            Ok(kind) => Ok(vectors::generate(kind)),
            Err(()) => Err(ClientError::UnsupportedVectorKind(test_vector_type)),
        }
    }

    /// Verifies a test vector against the canonical encoding for the
    /// wire-level kind tag: accepts exactly what a compliant generator
    /// produces for that kind and rejects every other byte sequence.
    pub fn verify_test_vector(&self, test_vector_type: i32, test_vector: &[u8]) -> (r: Result<
        (),
        ClientError,
    >)
        ensures
            r is Ok <==> vectors::spec_kind_of(test_vector_type) is Some
                && vectors::spec_vector_ok(
                vectors::spec_kind_of(test_vector_type)->0,
                test_vector@,
            ),
            vectors::spec_kind_of(test_vector_type) is None ==> r == Err::<(), ClientError>(
                ClientError::UnsupportedVectorKind(test_vector_type),
            ),
            vectors::spec_kind_of(test_vector_type) is Some && !vectors::spec_vector_ok(
                vectors::spec_kind_of(test_vector_type)->0,
                test_vector@,
            ) ==> r == Err::<(), ClientError>(
                ClientError::MalformedPayload(PayloadKind::TestVector),
            ),
    {
        match TestVectorType::try_from(test_vector_type) {
            Ok(kind) => {
                if vectors::verify(kind, test_vector) {
                    Ok(())
                } else {
                    Err(ClientError::MalformedPayload(PayloadKind::TestVector))
                }
            },
            Err(()) => Err(ClientError::UnsupportedVectorKind(test_vector_type)),
        }
    }

    /// Creates a new group with this client as its sole member and returns
    /// the fresh StateID of the epoch-zero session.
    pub fn create_group(&mut self) -> (r: u32)
        requires
            old(self).wf(),
            old(self).state_bound() < u32::MAX,
        ensures
            final(self).wf(),
            r == old(self).state_bound(),
            !old(self).state_known(r),
            final(self).state_known(r),
            final(self).epoch_of(r) == 0,
            final(self).state_bound() == r + 1,
            forall|j: u32|
                j != r ==> #[trigger] final(self).state_known(j) == old(self).state_known(j),
            forall|j: u32|
                j != r && #[trigger] old(self).state_known(j) ==> final(self).epoch_of(j) == old(
                    self,
                ).epoch_of(j),
            final(self).txns_agree(*old(self)),
    {
        self.new_state_id(GroupState { epoch: 0 })
    }

    /// Generates a key package, registers it as a pending artifact and
    /// returns its fresh TransactionID together with the key-package bytes.
    pub fn create_key_package(&mut self) -> (r: (u32, Vec<u8>))
        requires
            old(self).wf(),
            old(self).txn_bound() < u32::MAX,
        ensures
            final(self).wf(),
            r.0 == old(self).txn_bound(),
            !old(self).txn_known(r.0),
            final(self).txn_known(r.0),
            final(self).txn_bound() == r.0 + 1,
            final(self).txn_key_package(r.0) == engine::spec_key_package(),
            r.1@ == engine::spec_key_package(),
            forall|j: u32|
                j != r.0 ==> #[trigger] final(self).txn_known(j) == old(self).txn_known(j),
            forall|j: u32|
                j != r.0 && #[trigger] old(self).txn_known(j) ==> final(self).txn_key_package(j)
                    == old(self).txn_key_package(j),
            final(self).states_agree(*old(self)),
    {
        let stored = engine::key_package_bytes();
        let returned = engine::key_package_bytes();
        let id = self.new_transaction_id(PendingArtifact { key_package: stored });
        (id, returned)
    }

    /// Completes a pending join: resolves the TransactionID, validates the
    /// welcome against what the pending artifact expects, consumes the
    /// artifact and registers the epoch-zero session under a fresh StateID.
    /// On any rejection the service state is left exactly as it was; in
    /// particular the pending artifact is consumed only on success.
    pub fn join_group(&mut self, transaction_id: u32, welcome: &[u8]) -> (r: Result<
        u32,
        ClientError,
    >)
        requires
            old(self).wf(),
            old(self).state_bound() < u32::MAX,
        ensures
            final(self).wf(),
            r is Ok <==> old(self).txn_known(transaction_id) && welcome@
                == engine::spec_welcome(),
            !old(self).txn_known(transaction_id) ==> r == Err::<u32, ClientError>(
                ClientError::UnknownHandle(HandleRef::Transaction(transaction_id)),
            ),
            old(self).txn_known(transaction_id) && welcome@ != engine::spec_welcome() ==> r
                == Err::<u32, ClientError>(ClientError::MalformedPayload(PayloadKind::Welcome)),
            r is Err ==> *final(self) == *old(self),
            r is Ok ==> {
                let state_id = r->Ok_0;
                &&& state_id == old(self).state_bound()
                &&& !old(self).state_known(state_id)
                &&& final(self).state_known(state_id)
                &&& final(self).epoch_of(state_id) == 0
                &&& final(self).state_bound() == state_id + 1
                &&& !final(self).txn_known(transaction_id)
                &&& final(self).txn_bound() == old(self).txn_bound()
                &&& forall|j: u32|
                    j != transaction_id ==> #[trigger] final(self).txn_known(j) == old(
                        self,
                    ).txn_known(j)
                &&& forall|j: u32|
                    j != transaction_id && #[trigger] old(self).txn_known(j)
                        ==> final(self).txn_key_package(j) == old(self).txn_key_package(j)
                &&& forall|j: u32|
                    j != state_id ==> #[trigger] final(self).state_known(j) == old(
                        self,
                    ).state_known(j)
                &&& forall|j: u32|
                    j != state_id && #[trigger] old(self).state_known(j) ==> final(self).epoch_of(
                        j,
                    ) == old(self).epoch_of(j)
            },
    {
        if !self.known_transaction_id(transaction_id) {
            return Err(ClientError::UnknownHandle(HandleRef::Transaction(transaction_id)));
        }
        let expected = engine::welcome_bytes();
        if !bytes_eq(welcome, expected.as_slice()) {
            return Err(ClientError::MalformedPayload(PayloadKind::Welcome));
        }
        let _artifact = self.registry.consume_transaction(transaction_id);
        let ghost mid = *self;
        let state_id = self.new_state_id(GroupState { epoch: 0 });
        proof {
            assert forall|j: u32| j != state_id && #[trigger] old(self).state_known(j) implies self
                .epoch_of(j) == old(self).epoch_of(j) by {
                assert(mid.state_known(j) == old(self).state_known(j));
                assert(mid.epoch_of(j) == old(self).epoch_of(j));
                assert(self.epoch_of(j) == mid.epoch_of(j));
            }
            assert forall|j: u32| j != transaction_id && #[trigger] old(self).txn_known(j) implies
                self.txn_key_package(j) == old(self).txn_key_package(j) by {
                assert(mid.txn_known(j));
                assert(mid.txn_key_package(j) == old(self).txn_key_package(j));
                assert(self.txn_known(j));
                assert(self.txn_key_package(j) == mid.txn_key_package(j));
            }
        }
        Ok(state_id)
    }

    /// Joins an existing group from its exported public state, registering
    /// the epoch-zero session and returning the generated commit that
    /// announces the join.  Rejects a malformed public group state without
    /// touching the service state.
    pub fn external_join(&mut self, public_group_state: &[u8]) -> (r: Result<
        (u32, Vec<u8>),
        ClientError,
    >)
        requires
            old(self).wf(),
            old(self).state_bound() < u32::MAX,
        ensures
            final(self).wf(),
            r is Ok <==> public_group_state@ == engine::spec_public_group_state(),
            r is Err ==> r == Err::<(u32, Vec<u8>), ClientError>(
                ClientError::MalformedPayload(PayloadKind::PublicGroupState),
            ) && *final(self) == *old(self),
            r is Ok ==> {
                let state_id = r->Ok_0.0;
                &&& r->Ok_0.1@ == engine::spec_commit()
                &&& state_id == old(self).state_bound()
                &&& !old(self).state_known(state_id)
                &&& final(self).state_known(state_id)
                &&& final(self).epoch_of(state_id) == 0
                &&& final(self).state_bound() == state_id + 1
                &&& forall|j: u32|
                    j != state_id ==> #[trigger] final(self).state_known(j) == old(
                        self,
                    ).state_known(j)
                &&& forall|j: u32|
                    j != state_id && #[trigger] old(self).state_known(j) ==> final(self).epoch_of(
                        j,
                    ) == old(self).epoch_of(j)
                &&& final(self).txns_agree(*old(self))
            },
    {
        let expected = engine::public_group_state_bytes();
        if !bytes_eq(public_group_state, expected.as_slice()) {
            return Err(ClientError::MalformedPayload(PayloadKind::PublicGroupState));
        }
        let state_id = self.new_state_id(GroupState { epoch: 0 });
        Ok((state_id, engine::commit_bytes()))
    }

    /// Exports the public group state of an established session.
    pub fn public_group_state(&self, state_id: u32) -> (r: Result<Vec<u8>, ClientError>)
        requires
            self.wf(),
        ensures
            r is Ok <==> self.state_known(state_id),
            r is Ok ==> r->Ok_0@ == engine::spec_public_group_state(),
            r is Err ==> r == Err::<Vec<u8>, ClientError>(
                ClientError::UnknownHandle(HandleRef::State(state_id)),
            ),
    {
        if !self.known_state_id(state_id) {
            return Err(ClientError::UnknownHandle(HandleRef::State(state_id)));
        }
        Ok(engine::public_group_state_bytes())
    }

    /// Returns the authentication secret of an established session; the
    /// unknown id is carried in the rejection so the transport can echo it.
    pub fn state_auth(&self, state_id: u32) -> (r: Result<Vec<u8>, ClientError>)
        requires
            self.wf(),
        ensures
            r is Ok <==> self.state_known(state_id),
            r is Ok ==> r->Ok_0@ == engine::spec_state_auth_secret(),
            r is Ok ==> r->Ok_0@.len() > 0,
            r is Err ==> r == Err::<Vec<u8>, ClientError>(
                ClientError::UnknownHandle(HandleRef::State(state_id)),
            ),
    {
        if !self.known_state_id(state_id) {
            return Err(ClientError::UnknownHandle(HandleRef::State(state_id)));
        }
        Ok(engine::state_auth_secret_bytes())
    }

    /// Derives an exported secret from an established session.  The mock
    /// engine's exported artifact is empty.
    pub fn export(&self, state_id: u32) -> (r: Result<Vec<u8>, ClientError>)
        requires
            self.wf(),
        ensures
            r is Ok <==> self.state_known(state_id),
            r is Ok ==> r->Ok_0@ == Seq::<u8>::empty(),
            r is Err ==> r == Err::<Vec<u8>, ClientError>(
                ClientError::UnknownHandle(HandleRef::State(state_id)),
            ),
    {
        if !self.known_state_id(state_id) {
            return Err(ClientError::UnknownHandle(HandleRef::State(state_id)));
        }
        Ok(Vec::new())
    }

    /// Protects application data under an established session's keys.  The
    /// mock engine's framed artifact is empty.
    pub fn protect(&self, state_id: u32, _plaintext: &[u8]) -> (r: Result<Vec<u8>, ClientError>)
        requires
            self.wf(),
        ensures
            r is Ok <==> self.state_known(state_id),
            r is Ok ==> r->Ok_0@ == Seq::<u8>::empty(),
            r is Err ==> r == Err::<Vec<u8>, ClientError>(
                ClientError::UnknownHandle(HandleRef::State(state_id)),
            ),
    {
        if !self.known_state_id(state_id) {
            return Err(ClientError::UnknownHandle(HandleRef::State(state_id)));
        }
        Ok(Vec::new())
    }

    /// Unprotects framed application data under an established session's
    /// keys.  The mock engine's recovered artifact is empty.
    pub fn unprotect(&self, state_id: u32, _ciphertext: &[u8]) -> (r: Result<Vec<u8>, ClientError>)
        requires
            self.wf(),
        ensures
            r is Ok <==> self.state_known(state_id),
            r is Ok ==> r->Ok_0@ == Seq::<u8>::empty(),
            r is Err ==> r == Err::<Vec<u8>, ClientError>(
                ClientError::UnknownHandle(HandleRef::State(state_id)),
            ),
    {
        if !self.known_state_id(state_id) {
            return Err(ClientError::UnknownHandle(HandleRef::State(state_id)));
        }
        Ok(Vec::new())
    }

    /// Stores a pre-shared key for an established session.  The mock
    /// engine accepts and discards it.
    pub fn store_psk(&self, state_id: u32, _psk: &[u8]) -> (r: Result<(), ClientError>)
        requires
            self.wf(),
        ensures
            r is Ok <==> self.state_known(state_id),
            r is Err ==> r == Err::<(), ClientError>(
                ClientError::UnknownHandle(HandleRef::State(state_id)),
            ),
    {
        if !self.known_state_id(state_id) {
            return Err(ClientError::UnknownHandle(HandleRef::State(state_id)));
        }
        Ok(())
    }

    /// Builds an add proposal for an established session.  The key package
    /// must be one this client issued; a proposal is unbound to any handle
    /// and mutates nothing.
    pub fn add_proposal(&self, state_id: u32, key_package: &[u8]) -> (r: Result<
        Vec<u8>,
        ClientError,
    >)
        requires
            self.wf(),
        ensures
            r is Ok <==> self.state_known(state_id) && key_package@ == engine::spec_key_package(),
            !self.state_known(state_id) ==> r == Err::<Vec<u8>, ClientError>(
                ClientError::UnknownHandle(HandleRef::State(state_id)),
            ),
            self.state_known(state_id) && key_package@ != engine::spec_key_package() ==> r
                == Err::<Vec<u8>, ClientError>(
                ClientError::MalformedPayload(PayloadKind::KeyPackage),
            ),
            r is Ok ==> r->Ok_0@ == engine::spec_add_proposal(),
    {
        if !self.known_state_id(state_id) {
            return Err(ClientError::UnknownHandle(HandleRef::State(state_id)));
        }
        let expected = engine::key_package_bytes();
        if !bytes_eq(key_package, expected.as_slice()) {
            return Err(ClientError::MalformedPayload(PayloadKind::KeyPackage));
        }
        Ok(engine::add_proposal_bytes())
    }

    /// Builds an update proposal for an established session.  The mock
    /// engine's proposal artifact is empty.
    pub fn update_proposal(&self, state_id: u32) -> (r: Result<Vec<u8>, ClientError>)
        requires
            self.wf(),
        ensures
            r is Ok <==> self.state_known(state_id),
            r is Ok ==> r->Ok_0@ == Seq::<u8>::empty(),
            r is Err ==> r == Err::<Vec<u8>, ClientError>(
                ClientError::UnknownHandle(HandleRef::State(state_id)),
            ),
    {
        if !self.known_state_id(state_id) {
            return Err(ClientError::UnknownHandle(HandleRef::State(state_id)));
        }
        Ok(Vec::new())
    }

    /// Builds a remove proposal for an established session.  The mock
    /// engine's proposal artifact is empty.
    pub fn remove_proposal(&self, state_id: u32) -> (r: Result<Vec<u8>, ClientError>)
        requires
            self.wf(),
        ensures
            r is Ok <==> self.state_known(state_id),
            r is Ok ==> r->Ok_0@ == Seq::<u8>::empty(),
            r is Err ==> r == Err::<Vec<u8>, ClientError>(
                ClientError::UnknownHandle(HandleRef::State(state_id)),
            ),
    {
        if !self.known_state_id(state_id) {
            return Err(ClientError::UnknownHandle(HandleRef::State(state_id)));
        }
        Ok(Vec::new())
    }

    /// Builds a pre-shared-key proposal for an established session.  The
    /// mock engine's proposal artifact is empty.
    pub fn psk_proposal(&self, state_id: u32) -> (r: Result<Vec<u8>, ClientError>)
        requires
            self.wf(),
        ensures
            r is Ok <==> self.state_known(state_id),
            r is Ok ==> r->Ok_0@ == Seq::<u8>::empty(),
            r is Err ==> r == Err::<Vec<u8>, ClientError>(
                ClientError::UnknownHandle(HandleRef::State(state_id)),
            ),
    {
        if !self.known_state_id(state_id) {
            return Err(ClientError::UnknownHandle(HandleRef::State(state_id)));
        }
        Ok(Vec::new())
    }

    /// Builds a reinitialization proposal for an established session.  The
    /// mock engine's proposal artifact is empty.
    pub fn re_init_proposal(&self, state_id: u32) -> (r: Result<Vec<u8>, ClientError>)
        requires
            self.wf(),
        ensures
            r is Ok <==> self.state_known(state_id),
            r is Ok ==> r->Ok_0@ == Seq::<u8>::empty(),
            r is Err ==> r == Err::<Vec<u8>, ClientError>(
                ClientError::UnknownHandle(HandleRef::State(state_id)),
            ),
    {
        if !self.known_state_id(state_id) {
            return Err(ClientError::UnknownHandle(HandleRef::State(state_id)));
        }
        Ok(Vec::new())
    }

    /// Builds an application-acknowledgement proposal for an established
    /// session.  The mock engine's proposal artifact is empty.
    pub fn app_ack_proposal(&self, state_id: u32) -> (r: Result<Vec<u8>, ClientError>)
        requires
            self.wf(),
        ensures
            r is Ok <==> self.state_known(state_id),
            r is Ok ==> r->Ok_0@ == Seq::<u8>::empty(),
            r is Err ==> r == Err::<Vec<u8>, ClientError>(
                ClientError::UnknownHandle(HandleRef::State(state_id)),
            ),
    {
        if !self.known_state_id(state_id) {
            return Err(ClientError::UnknownHandle(HandleRef::State(state_id)));
        }
        Ok(Vec::new())
    }

    /// Commits the given pending proposals: advances the referenced session
    /// by one epoch in place and returns the commit and welcome artifacts.
    /// The mock engine bundles no proposal content into its fixed commit.
    pub fn commit(&mut self, state_id: u32, _proposals: &Vec<Vec<u8>>) -> (r: Result<
        (Vec<u8>, Vec<u8>),
        ClientError,
    >)
        requires
            old(self).wf(),
            old(self).state_known(state_id) ==> old(self).epoch_of(state_id) < u64::MAX,
        ensures
            final(self).wf(),
            r is Ok <==> old(self).state_known(state_id),
            r is Err ==> r == Err::<(Vec<u8>, Vec<u8>), ClientError>(
                ClientError::UnknownHandle(HandleRef::State(state_id)),
            ) && *final(self) == *old(self),
            r is Ok ==> r->Ok_0.0@ == engine::spec_commit() && r->Ok_0.1@
                == engine::spec_welcome(),
            r is Ok ==> commit_step(*old(self), *final(self), state_id),
    {
        let current = match self.registry.resolve_state(state_id) {
            Some(state) => state,
            None => {
                return Err(ClientError::UnknownHandle(HandleRef::State(state_id)));
            },
        };
        let next = GroupState { epoch: current.epoch + 1 };
        let _replaced = self.registry.replace_state(state_id, next);
        Ok((engine::commit_bytes(), engine::welcome_bytes()))
    }

    /// Applies a commit received from another member: validates it against
    /// what this session recognizes, advances the session one epoch in
    /// place and echoes the stable StateID.
    pub fn handle_commit(&mut self, state_id: u32, commit: &[u8]) -> (r: Result<u32, ClientError>)
        requires
            old(self).wf(),
            old(self).state_known(state_id) ==> old(self).epoch_of(state_id) < u64::MAX,
        ensures
            final(self).wf(),
            r is Ok <==> old(self).state_known(state_id) && commit@ == engine::spec_commit(),
            !old(self).state_known(state_id) ==> r == Err::<u32, ClientError>(
                ClientError::UnknownHandle(HandleRef::State(state_id)),
            ),
            old(self).state_known(state_id) && commit@ != engine::spec_commit() ==> r == Err::<
                u32,
                ClientError,
            >(ClientError::MalformedPayload(PayloadKind::Commit)),
            r is Err ==> *final(self) == *old(self),
            r is Ok ==> r->Ok_0 == state_id && commit_step(*old(self), *final(self), state_id),
    {
        let current = match self.registry.resolve_state(state_id) {
            Some(state) => state,
            None => {
                return Err(ClientError::UnknownHandle(HandleRef::State(state_id)));
            },
        };
        let expected = engine::commit_bytes();
        if !bytes_eq(commit, expected.as_slice()) {
            return Err(ClientError::MalformedPayload(PayloadKind::Commit));
        }
        let next = GroupState { epoch: current.epoch + 1 };
        let _replaced = self.registry.replace_state(state_id, next);
        Ok(state_id)
    }

    /// Applies an external commit: same validation and epoch advance as
    /// `handle_commit`, for a commit generated by an external join.
    pub fn handle_external_commit(&mut self, state_id: u32, commit: &[u8]) -> (r: Result<
        u32,
        ClientError,
    >)
        requires
            old(self).wf(),
            old(self).state_known(state_id) ==> old(self).epoch_of(state_id) < u64::MAX,
        ensures
            final(self).wf(),
            r is Ok <==> old(self).state_known(state_id) && commit@ == engine::spec_commit(),
            !old(self).state_known(state_id) ==> r == Err::<u32, ClientError>(
                ClientError::UnknownHandle(HandleRef::State(state_id)),
            ),
            old(self).state_known(state_id) && commit@ != engine::spec_commit() ==> r == Err::<
                u32,
                ClientError,
            >(ClientError::MalformedPayload(PayloadKind::Commit)),
            r is Err ==> *final(self) == *old(self),
            r is Ok ==> r->Ok_0 == state_id && commit_step(*old(self), *final(self), state_id),
    {
        let current = match self.registry.resolve_state(state_id) {
            Some(state) => state,
            None => {
                return Err(ClientError::UnknownHandle(HandleRef::State(state_id)));
            },
        };
        let expected = engine::commit_bytes();
        if !bytes_eq(commit, expected.as_slice()) {
            return Err(ClientError::MalformedPayload(PayloadKind::Commit));
        }
        let next = GroupState { epoch: current.epoch + 1 };
        let _replaced = self.registry.replace_state(state_id, next);
        Ok(state_id)
    }
}

impl Default for MlsClientImpl {
    /// A fresh service context, as `new` builds it.
    fn default() -> (r: Self)
        ensures
            r.wf(),
            r.txn_bound() == 0,
            r.state_bound() == 0,
            forall|id: u32| !(#[trigger] r.txn_known(id)),
            forall|id: u32| !(#[trigger] r.state_known(id)),
    {
        MlsClientImpl::new()
    }
}

} // verus!
