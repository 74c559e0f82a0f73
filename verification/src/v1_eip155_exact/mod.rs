//! The V1 EIP-155 "exact" payment scheme: a client signs an authorization for a
//! token transfer of exactly the required amount.

pub mod types;
