//! The built-in mock protocol engine.
//!
//! A production deployment would place a real group-key-agreement engine
//! behind these functions.  The mock engine used for transport-level
//! conformance testing instead emits one fixed, canonical artifact per
//! protocol operation and recognizes exactly that artifact when it is handed
//! back.  Each artifact is the ASCII encoding of a short tag naming the
//! operation, so a mismatched payload is always detected.

use vstd::prelude::*;

verus! {

/// Canonical key-package artifact: the ASCII bytes of `keyPackage`.
pub open spec fn spec_key_package() -> Seq<u8> {
    seq![107u8, 101u8, 121u8, 80u8, 97u8, 99u8, 107u8, 97u8, 103u8, 101u8]
}

/// Canonical welcome artifact: the ASCII bytes of `welcome`.
pub open spec fn spec_welcome() -> Seq<u8> {
    seq![119u8, 101u8, 108u8, 99u8, 111u8, 109u8, 101u8]
}

/// Canonical commit artifact: the ASCII bytes of `commit`.
pub open spec fn spec_commit() -> Seq<u8> {
    seq![99u8, 111u8, 109u8, 109u8, 105u8, 116u8]
}

/// Canonical exported public group state: the ASCII bytes of
/// `publicGroupState`.
pub open spec fn spec_public_group_state() -> Seq<u8> {
    seq![
        112u8, 117u8, 98u8, 108u8, 105u8, 99u8, 71u8, 114u8, 111u8, 117u8, 112u8, 83u8, 116u8,
        97u8, 116u8, 101u8,
    ]
}

/// Canonical state-authentication secret: the ASCII bytes of
/// `stateAuthSecret`.
pub open spec fn spec_state_auth_secret() -> Seq<u8> {
    seq![115u8, 116u8, 97u8, 116u8, 101u8, 65u8, 117u8, 116u8, 104u8, 83u8, 101u8, 99u8, 114u8,
        101u8, 116u8]
}

/// Canonical add-proposal artifact: the ASCII bytes of `addProposal`.
pub open spec fn spec_add_proposal() -> Seq<u8> {
    seq![97u8, 100u8, 100u8, 80u8, 114u8, 111u8, 112u8, 111u8, 115u8, 97u8, 108u8]
}

/// Produces the canonical key-package artifact.
pub fn key_package_bytes() -> (r: Vec<u8>)
    ensures
        r@ == spec_key_package(),
{
    let r: Vec<u8> = vec![107u8, 101u8, 121u8, 80u8, 97u8, 99u8, 107u8, 97u8, 103u8, 101u8];
    proof {
        assert(r@ =~= spec_key_package());
    }
    r
}

/// Produces the canonical welcome artifact.
pub fn welcome_bytes() -> (r: Vec<u8>)
    ensures
        r@ == spec_welcome(),
{
    let r: Vec<u8> = vec![119u8, 101u8, 108u8, 99u8, 111u8, 109u8, 101u8];
    proof {
        assert(r@ =~= spec_welcome());
    }
    r
}

/// Produces the canonical commit artifact.
pub fn commit_bytes() -> (r: Vec<u8>)
    ensures
        r@ == spec_commit(),
{
    let r: Vec<u8> = vec![99u8, 111u8, 109u8, 109u8, 105u8, 116u8];
    proof {
        assert(r@ =~= spec_commit());
    }
    r
}

/// Produces the canonical exported public group state.
pub fn public_group_state_bytes() -> (r: Vec<u8>)
    ensures
        r@ == spec_public_group_state(),
{
    let r: Vec<u8> = vec![
        112u8, 117u8, 98u8, 108u8, 105u8, 99u8, 71u8, 114u8, 111u8, 117u8, 112u8, 83u8, 116u8,
        97u8, 116u8, 101u8,
    ];
    proof {
        assert(r@ =~= spec_public_group_state());
    }
    r
}

/// Produces the canonical state-authentication secret.
pub fn state_auth_secret_bytes() -> (r: Vec<u8>)
    ensures
        r@ == spec_state_auth_secret(),
{
    let r: Vec<u8> = vec![
        115u8, 116u8, 97u8, 116u8, 101u8, 65u8, 117u8, 116u8, 104u8, 83u8, 101u8, 99u8, 114u8,
        101u8, 116u8,
    ];
    proof {
        assert(r@ =~= spec_state_auth_secret());
    }
    r
}

/// Produces the canonical add-proposal artifact.
pub fn add_proposal_bytes() -> (r: Vec<u8>)
    ensures
        r@ == spec_add_proposal(),
{
    let r: Vec<u8> = vec![
        97u8, 100u8, 100u8, 80u8, 114u8, 111u8, 112u8, 111u8, 115u8, 97u8, 108u8,
    ];
    proof {
        assert(r@ =~= spec_add_proposal());
    }
    r
}

} // verus!
