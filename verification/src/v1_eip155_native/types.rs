//! The wire types of the V1 EIP-155 native scheme.

use crate::primitives::{Address, TxHash, U256};
use crate::proto;
use vstd::prelude::*;

verus! {

/// The scheme name `native`.
#[derive(Clone, Copy, Debug, PartialEq, Eq, Structural)]
pub struct NativeScheme;

impl NativeScheme {
    /// The scheme name.
    pub fn as_str(&self) -> (s: &'static str)
        ensures
            s@ == "native"@,
    {
        "native"
    }

    /// The scheme name as an owned string.
    pub fn to_string(&self) -> (s: String)
        ensures
            s@ == "native"@,
    {
        "native".to_owned()
    }
}

/// A native token payment referring to a transaction already submitted.
#[derive(Clone, Copy, Debug)]
pub struct NativePaymentPayload {
    /// The hash of the transfer transaction.
    pub tx_hash: TxHash,
    /// The sender of the transaction.
    pub from: Address,
    /// The recipient of the transaction.
    pub to: Address,
    /// The amount transferred, in wei.
    pub amount_wei: U256,
}

/// A payment payload of the native scheme.
pub type PaymentPayload = proto::PaymentPayload<NativeScheme, NativePaymentPayload>;

/// Payment requirements of the native scheme.
pub type PaymentRequirements = proto::PaymentRequirements<
    NativeScheme,
    U256,
    Address,
    serde_json::Value,
>;

/// A verification request of the native scheme.
pub type VerifyRequest = proto::VerifyRequest<PaymentPayload, PaymentRequirements>;

/// A settlement request of the native scheme (the same shape as a verification
/// request).
pub type SettleRequest = VerifyRequest;

} // verus!
