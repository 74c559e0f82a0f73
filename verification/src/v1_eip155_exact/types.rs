//! The wire types of the V1 EIP-155 exact scheme, for ERC-3009 and EIP-2612
//! based payments.

use crate::primitives::{Address, B256, U256};
use crate::proto;
use crate::proto::UnixTimestamp;
use vstd::prelude::*;

verus! {

/// The scheme name `exact`.
#[derive(Clone, Copy, Debug, PartialEq, Eq, Structural)]
pub struct ExactScheme;

impl ExactScheme {
    /// The scheme name.
    pub fn as_str(&self) -> (s: &'static str)
        ensures
            s@ == "exact"@,
    {
        "exact"
    }

    /// The scheme name as an owned string.
    pub fn to_string(&self) -> (s: String)
        ensures
            s@ == "exact"@,
    {
        "exact".to_owned()
    }
}

/// Everything needed to execute an ERC-3009 `transferWithAuthorization` call: the
/// signature and the authorization that was signed.
#[derive(Clone, Debug)]
pub struct Erc3009Payload {
    /// The signature authorizing the transfer: an EOA signature (64 or 65 bytes),
    /// an EIP-1271 signature checked by a contract, or an EIP-6492 wrapped one.
    pub signature: Vec<u8>,
    /// The structured authorization data that was signed.
    pub authorization: Erc3009Authorization,
}

/// The EIP-712 structured data of an ERC-3009 transfer authorization: who
/// transfers how much to whom, and when.
#[derive(Clone, Copy, Debug)]
pub struct Erc3009Authorization {
    /// The token owner authorizing the transfer.
    pub from: Address,
    /// The recipient of the transfer.
    pub to: Address,
    /// The amount, in the token's smallest unit.
    pub value: U256,
    /// The authorization is not valid before this time (inclusive).
    pub valid_after: UnixTimestamp,
    /// The authorization expires at this time (exclusive).
    pub valid_before: UnixTimestamp,
    /// A unique nonce against replay.
    pub nonce: B256,
}

/// EIP-2612 permit data.
#[derive(Clone, Debug)]
pub struct Eip2612PermitPayload {
    pub owner: Address,
    pub spender: Address,
    pub value: U256,
    pub deadline: UnixTimestamp,
    pub nonce: u64,
    pub signature: Vec<u8>,
}

/// The `transferFrom` that follows an EIP-2612 permit.
#[derive(Clone, Copy, Debug)]
pub struct Eip2612TransferPayload {
    pub from: Address,
    pub to: Address,
    pub amount: U256,
}

/// An EIP-2612 payment: a permit and the transfer it allows.
#[derive(Clone, Debug)]
pub struct Eip2612Payload {
    pub permit: Eip2612PermitPayload,
    pub transfer: Eip2612TransferPayload,
}

/// An EVM payment payload of the exact scheme.
#[derive(Clone, Debug)]
pub enum ExactEvmPayload {
    /// ERC-3009: a single `transferWithAuthorization`.
    Erc3009(Erc3009Payload),
    /// EIP-2612: a permit, then `transferFrom`.
    Eip2612(Eip2612Payload),
}

/// The name under which protocol version 2 refers to ERC-3009 payloads.
pub type Eip3009Payload = Erc3009Payload;

/// The EIP-712 domain parameters of a token contract, given by the resource
/// server so that the facilitator need not ask the contract.
#[derive(Clone, Debug, PartialEq, Eq)]
pub struct PaymentRequirementsExtra {
    /// The token name in the EIP-712 domain.
    pub name: String,
    /// The token version in the EIP-712 domain.
    pub version: String,
}

/// A payment payload of the exact scheme.
pub type PaymentPayload = proto::PaymentPayload<ExactScheme, ExactEvmPayload>;

/// Payment requirements of the exact scheme.
pub type PaymentRequirements = proto::PaymentRequirements<
    ExactScheme,
    U256,
    Address,
    PaymentRequirementsExtra,
>;

/// A verification request of the exact scheme.
pub type VerifyRequest = proto::VerifyRequest<PaymentPayload, PaymentRequirements>;

/// A settlement request of the exact scheme.
pub type SettleRequest = VerifyRequest;

} // verus!
