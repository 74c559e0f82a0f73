//! Verified core of the V1 EIP-155 "native" payment scheme: the decisions a
//! facilitator takes when it checks an already-submitted native token transfer
//! against a payment payload and the payment requirements.

pub mod primitives;
pub mod text;
pub mod network;
pub mod error;
pub mod proto;
pub mod v1_eip155_native;
pub mod v1_eip155_exact;
