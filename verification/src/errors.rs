//! The caller-visible error taxonomy.
//!
//! Every failed request maps to the same rejection category at the RPC
//! boundary (an explicit failure response, never a crash); the variants
//! below distinguish the reasons so the transport layer can attach a
//! descriptive message.  The built-in mock engine validates payloads
//! structurally and never refuses an operation of its own accord, so every
//! rejection this crate produces is one of the variants below; a production
//! engine's internal rejections would surface through the same category.

use vstd::prelude::*;

verus! {

/// The handle argument that failed to resolve, together with its value so
/// the transport layer can echo it in the rejection message.
#[derive(Clone, Copy, Debug, PartialEq, Eq, Structural)]
pub enum HandleRef {
    /// A TransactionID that was never issued or was already consumed.
    Transaction(u32),
    /// A StateID that was never issued.
    State(u32),
}

/// The payload argument that failed validation against what the referenced
/// artifact or the protocol requires.
#[derive(Clone, Copy, Debug, PartialEq, Eq, Structural)]
pub enum PayloadKind {
    /// The welcome handed to a join did not match the pending key package.
    Welcome,
    /// The public group state handed to an external join was malformed.
    PublicGroupState,
    /// The key package handed to an add proposal was never issued here.
    KeyPackage,
    /// The commit handed back was not one this session recognizes.
    Commit,
    /// The test vector bytes differ from the canonical encoding.
    TestVector,
}

/// Why a request was rejected.
#[derive(Clone, Copy, Debug, PartialEq, Eq, Structural)]
pub enum ClientError {
    /// The referenced TransactionID or StateID is unknown: never issued by a
    /// prior successful allocating call, or already consumed.
    UnknownHandle(HandleRef),
    /// A payload argument does not match what the referenced artifact or the
    /// protocol requires.
    MalformedPayload(PayloadKind),
    /// The test-vector kind tag lies outside the closed enumeration; the
    /// offending tag is carried for the rejection message.
    UnsupportedVectorKind(i32),
}

} // verus!
