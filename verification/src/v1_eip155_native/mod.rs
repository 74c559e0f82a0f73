//! The V1 EIP-155 "native" payment scheme: a client pays in the chain's native
//! token with a transaction it has already submitted, and the facilitator checks
//! that transaction on chain.

pub mod facilitator;
pub mod types;
pub mod verification;

use crate::v1_eip155_native::facilitator::V1Eip155NativeFacilitator;
use crate::v1_eip155_native::types::NativeScheme;
use vstd::prelude::*;

verus! {

/// The identity of the V1 EIP-155 native scheme.
#[derive(Clone, Copy, Debug)]
pub struct V1Eip155Native;

impl V1Eip155Native {
    /// The protocol version of the scheme.
    pub fn x402_version(&self) -> (v: u8)
        ensures
            v == 1,
    {
        1
    }

    /// The chain namespace of the scheme.
    pub fn namespace(&self) -> (s: &'static str)
        ensures
            s@ == "eip155"@,
    {
        "eip155"
    }

    /// The scheme name.
    pub fn scheme(&self) -> (s: &'static str)
        ensures
            s@ == "native"@,
    {
        NativeScheme.as_str()
    }

    /// Builds the facilitator of the scheme over `provider`. The scheme takes no
    /// configuration: `_config` is ignored.
    pub fn build<P>(&self, provider: P, _config: Option<serde_json::Value>) -> (r:
        V1Eip155NativeFacilitator<P>)
        ensures
            r.spec_provider() == provider,
    {
        V1Eip155NativeFacilitator::new(provider)
    }
}

} // verus!
