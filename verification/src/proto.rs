//! The messages of version 1 of the x402 payment protocol, generic over what a
//! payment scheme puts in them.

use crate::network::ChainId;
use vstd::prelude::*;

verus! {

/// A JSON value carried through unread (a schema, or scheme-specific extras).
#[verifier::external_type_specification]
#[verifier::external_body]
pub struct ExJsonValue(serde_json::Value);

/// A point in time, in whole seconds since the Unix epoch.
#[derive(Clone, Copy, Debug, PartialEq, Eq, Structural)]
pub struct UnixTimestamp {
    pub seconds: u64,
}

/// The marker of protocol version 1.
#[derive(Clone, Copy, Debug, PartialEq, Eq, Structural)]
pub struct X402Version1;

impl X402Version1 {
    /// The version number.
    pub fn value(&self) -> (v: u8)
        ensures
            v == 1,
    {
        1
    }
}

/// A payment as a client submits it: the scheme, the network and the
/// scheme-specific payload.
#[derive(Clone, Debug)]
pub struct PaymentPayload<S, P> {
    pub x402_version: X402Version1,
    pub scheme: S,
    pub network: String,
    pub payload: P,
}

/// What a resource server asks to be paid.
#[derive(Clone, Debug)]
pub struct PaymentRequirements<S, A, Addr, E> {
    pub scheme: S,
    pub network: String,
    pub max_amount_required: A,
    pub resource: String,
    pub description: String,
    pub mime_type: String,
    pub output_schema: Option<serde_json::Value>,
    pub pay_to: Addr,
    pub max_timeout_seconds: u64,
    pub asset: Addr,
    pub extra: Option<E>,
}

/// A request to verify (or to settle) a payment against requirements.
#[derive(Clone, Debug)]
pub struct VerifyRequest<P, R> {
    pub x402_version: X402Version1,
    pub payment_payload: P,
    pub payment_requirements: R,
}

/// The answer to a verification request.
#[derive(Clone, Debug)]
pub struct VerifyResponse {
    pub is_valid: bool,
    pub invalid_reason: Option<String>,
    pub payer: Option<String>,
}

impl VerifyResponse {
    /// The answer that a payment from `payer` is valid.
    pub fn valid(payer: String) -> (r: VerifyResponse)
        ensures
            r.is_valid,
            r.invalid_reason is None,
            r.payer == Some(payer),
    {
        VerifyResponse { is_valid: true, invalid_reason: None, payer: Some(payer) }
    }
}

/// The answer to a settlement request that succeeded.
#[derive(Clone, Debug)]
pub enum SettleResponse {
    Success { payer: String, transaction: String, network: String },
}

/// A scheme and network that a facilitator handles.
#[derive(Clone, Debug)]
pub struct SupportedPaymentKind {
    pub x402_version: u8,
    pub scheme: String,
    pub network: String,
    pub extra: Option<serde_json::Value>,
}

/// What a facilitator handles, and the addresses it signs with on each chain.
#[derive(Clone, Debug)]
pub struct SupportedResponse {
    pub kinds: Vec<SupportedPaymentKind>,
    pub extensions: Vec<String>,
    pub signers: Vec<(ChainId, Vec<String>)>,
}

} // verus!
