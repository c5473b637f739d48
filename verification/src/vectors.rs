//! Test-vector subsystem: stateless generation and verification of canonical
//! byte artifacts for the closed set of protocol sub-algorithms.

use vstd::prelude::*;

verus! {

/// The closed set of protocol sub-algorithms for which canonical test
/// vectors exist.  The set is fixed by the protocol specification; a numeric
/// tag outside it is a request-shape error, never a protocol error.
#[derive(Clone, Copy, Debug, PartialEq, Eq, Structural)]
pub enum TestVectorType {
    TreeMath,
    Encryption,
    KeySchedule,
    Transcript,
    Treekem,
    Messages,
}

/// The vector kind a wire-level numeric tag denotes, if any.
pub open spec fn spec_kind_of(value: i32) -> Option<TestVectorType> {
    if value == 0 {
        Some(TestVectorType::TreeMath)
    } else if value == 1 {
        Some(TestVectorType::Encryption)
    } else if value == 2 {
        Some(TestVectorType::KeySchedule)
    } else if value == 3 {
        Some(TestVectorType::Transcript)
    } else if value == 4 {
        Some(TestVectorType::Treekem)
    } else if value == 5 {
        Some(TestVectorType::Messages)
    } else {
        None
    }
}

/// The canonical test vector for a kind.  The mock engine derives every
/// sub-algorithm's artifact from the same fixed four-byte encoding, so the
/// canonical vector is the same for each kind of the closed set.
pub open spec fn spec_canonical_vector(kind: TestVectorType) -> Seq<u8> {
    seq![0u8, 1u8, 2u8, 3u8]
}

/// Whether `bytes` is exactly the canonical encoding for `kind`.
pub open spec fn spec_vector_ok(kind: TestVectorType, bytes: Seq<u8>) -> bool {
    bytes == spec_canonical_vector(kind)
}

/// Generates the canonical test vector for `kind`.  Deterministic: the
/// result depends on the kind alone, so repeated calls yield byte-identical
/// output.
pub fn generate(kind: TestVectorType) -> (r: Vec<u8>)
    ensures
        r@ == spec_canonical_vector(kind),
{
    let r: Vec<u8> = vec![0u8, 1u8, 2u8, 3u8];
    proof {
        assert(r@ =~= spec_canonical_vector(kind));
    }
    r
}

/// Checks `test_vector` against the canonical encoding for `kind`:
/// accepts exactly the bytes `generate` produces and rejects every other
/// byte sequence.
pub fn verify(kind: TestVectorType, test_vector: &[u8]) -> (r: bool)
    ensures
        r <==> spec_vector_ok(kind, test_vector@),
{
    let canonical = generate(kind);
    crate::bytes::bytes_eq(test_vector, canonical.as_slice())
}

impl TestVectorType {
    /// Decodes the wire-level numeric tag of a vector kind.  Exactly the
    /// tags 0 through 5 denote a kind; every other value is rejected.
    pub fn try_from(value: i32) -> (r: Result<TestVectorType, ()>)
        ensures
            r is Ok <==> spec_kind_of(value) is Some,
            r is Ok ==> r->Ok_0 == spec_kind_of(value)->0,
    {
        match value {
            0 => Ok(TestVectorType::TreeMath),
            1 => Ok(TestVectorType::Encryption),
            2 => Ok(TestVectorType::KeySchedule),
            3 => Ok(TestVectorType::Transcript),
            4 => Ok(TestVectorType::Treekem),
            5 => Ok(TestVectorType::Messages),
            _ => Err(()),
        }
    }
}

} // verus!
