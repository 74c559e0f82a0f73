//! The facilitator side of the V1 EIP-155 native scheme: what it answers once a
//! payment has been verified, and what it declares it supports.

use crate::network::{chain_network, ChainId};
use crate::primitives::Address;
use crate::proto::{SettleResponse, SupportedPaymentKind, SupportedResponse, VerifyResponse};
use crate::text::{
    address_checksum_string,
    ascii_lowercase,
    checksummed_address,
    prefixed_hex,
    word_hex_string,
};
use crate::v1_eip155_native::types::{NativeScheme, PaymentPayload, PaymentRequirements};
use vstd::prelude::*;

verus! {

/// Facilitator for V1 EIP-155 native scheme payments, over an RPC provider.
pub struct V1Eip155NativeFacilitator<P> {
    provider: P,
}

impl<P> V1Eip155NativeFacilitator<P> {
    /// The provider the facilitator asks.
    pub closed spec fn spec_provider(&self) -> P {
        self.provider
    }

    /// Creates a facilitator that asks the given provider.
    pub fn new(provider: P) -> (r: Self)
        ensures
            r.spec_provider() == provider,
    {
        Self { provider }
    }

    /// The provider the facilitator asks.
    pub fn provider(&self) -> (r: &P)
        ensures
            *r == self.spec_provider(),
    {
        &self.provider
    }

    /// The answer to a verification request once the payment from `payer` has been
    /// verified: valid, naming the payer by its checksummed address.
    pub fn verify_response(&self, payer: &Address) -> (r: VerifyResponse)
        ensures
            r.is_valid,
            r.invalid_reason is None,
            r.payer matches Some(text) && text@ == checksummed_address(payer@)
                && text@.map_values(|c: char| ascii_lowercase(c)) == prefixed_hex(payer@),
    {
        VerifyResponse::valid(address_checksum_string(payer))
    }

    /// The answer to a settlement request once the payment from `payer` has been
    /// verified: the transaction was already submitted by the client, so the
    /// settlement names the payer, the payload's transaction hash and the network of
    /// the requirements.
    pub fn settle_response(
        &self,
        payer: &Address,
        payload: &PaymentPayload,
        requirements: &PaymentRequirements,
    ) -> (r: SettleResponse)
        ensures
            r matches SettleResponse::Success { payer: p, transaction: t, network: n } && p@
                == checksummed_address(payer@) && p@.map_values(|c: char| ascii_lowercase(c))
                == prefixed_hex(payer@) && t@ == prefixed_hex(payload.payload.tx_hash@) && n@
                == requirements.network@,
    {
        SettleResponse::Success {
            payer: address_checksum_string(payer),
            transaction: word_hex_string(&payload.payload.tx_hash),
            network: requirements.network.clone(),
        }
    }

    /// What the facilitator supports on `chain_id`: the native scheme on the
    /// chain's network, when the chain has a network name, and the given signer
    /// addresses for the chain.
    pub fn supported_response(&self, chain_id: ChainId, signer_addresses: Vec<String>) -> (r:
        SupportedResponse)
        ensures
            match chain_network(chain_id) {
                Some(name) => r.kinds@.len() == 1 && r.kinds@[0].x402_version == 1
                    && r.kinds@[0].scheme@ == "native"@ && r.kinds@[0].network@ == name
                    && r.kinds@[0].extra is None,
                None => r.kinds@.len() == 0,
            },
            r.extensions@.len() == 0,
            r.signers@.len() == 1,
            r.signers@[0].0 == chain_id,
            r.signers@[0].1@ == signer_addresses@,
    {
        let mut kinds: Vec<SupportedPaymentKind> = Vec::new();
        match chain_id.as_network_name() {
            Some(network) => {
                kinds.push(
                    SupportedPaymentKind {
                        x402_version: 1,
                        scheme: NativeScheme.to_string(),
                        network: network.to_owned(),
                        extra: None,
                    },
                );
            },
            None => {},
        }
        let mut signers: Vec<(ChainId, Vec<String>)> = Vec::new();
        signers.push((chain_id, signer_addresses));
        SupportedResponse { kinds, extensions: Vec::new(), signers }
    }
}

} // verus!
