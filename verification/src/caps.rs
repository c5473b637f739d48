//! Capability registry: static, process-wide description of implementation
//! identity and supported ciphersuites, answered identically for every
//! request.

use vstd::prelude::*;

verus! {

/// The first advertised ciphersuite identifier.
pub const CIPHERSUITE_PRIMARY: u32 = 0xA0A0;

/// The second advertised ciphersuite identifier.
pub const CIPHERSUITE_SECONDARY: u32 = 0xA1A1;

/// The advertised ciphersuites in preference order; constant for the
/// process lifetime.
pub open spec fn spec_supported_ciphersuites() -> Seq<u32> {
    seq![CIPHERSUITE_PRIMARY, CIPHERSUITE_SECONDARY]
}

/// The constant implementation name advertised to the orchestrator.
pub fn implementation_name() -> (r: &'static str)
    ensures
        r@ == "Mock-Rust"@,
{
    "Mock-Rust"
}

/// The advertised ciphersuites, in stable preference order.
pub fn supported_ciphersuite_list() -> (r: Vec<u32>)
    ensures
        r@ == spec_supported_ciphersuites(),
{
    let r: Vec<u32> = vec![CIPHERSUITE_PRIMARY, CIPHERSUITE_SECONDARY];
    proof {
        assert(r@ =~= spec_supported_ciphersuites());
    }
    r
}

} // verus!
