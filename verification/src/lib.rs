//! A mock client for cross-implementation conformance testing of a
//! group-messaging protocol.
//!
//! The crate provides three verified subsystems:
//!
//! - a test-vector generator and verifier for the closed set of protocol
//!   sub-algorithms ([`vectors`]);
//! - a session registry that hands out unique transaction and state handles
//!   and tracks pending key packages and established group sessions
//!   ([`registry`]);
//! - a protocol action dispatcher that validates every handle and payload
//!   argument before invoking the built-in mock engine ([`dispatch`]).
//!
//! The RPC transport, command-line configuration and the async runtime live
//! outside this crate; they hand the dispatcher plain values and receive
//! plain values back.

pub mod bytes;
pub mod caps;
pub mod dispatch;
pub mod engine;
pub mod errors;
pub mod laws;
pub mod registry;
pub mod vectors;

pub use crate::dispatch::MlsClientImpl;
pub use crate::errors::{ClientError, HandleRef, PayloadKind};
pub use crate::registry::{GroupState, PendingArtifact, SessionRegistry};
pub use crate::vectors::TestVectorType;
