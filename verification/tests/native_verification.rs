use x402_chain_eip155::error::PaymentVerificationError;
use x402_chain_eip155::network::Eip155ChainReference;
use x402_chain_eip155::primitives::{Address, TxHash, U256};
use x402_chain_eip155::proto::X402Version1;
use x402_chain_eip155::v1_eip155_native::types::{
    NativePaymentPayload, NativeScheme, PaymentPayload, PaymentRequirements,
};
use x402_chain_eip155::v1_eip155_native::verification::{
    NativePaymentVerification, NextStep, ProviderReply, ReceiptInfo, TransactionInfo,
    VerificationStage,
};

/// Answers queued for the provider, in the order in which they are given out.
struct ScriptedProvider {
    transaction: Option<Result<Option<TransactionInfo>, String>>,
    receipt: Option<Result<Option<ReceiptInfo>, String>>,
}

impl ScriptedProvider {
    fn new() -> Self {
        ScriptedProvider { transaction: None, receipt: None }
    }
}

fn verify_native_payment(
    provider: &mut ScriptedProvider,
    chain: &Eip155ChainReference,
    payload: &PaymentPayload,
    requirements: &PaymentRequirements,
) -> Result<Address, PaymentVerificationError> {
    let mut verification = NativePaymentVerification::new(*chain, payload, requirements);
    let mut step = verification.start();
    loop {
        let reply = match step {
            NextStep::Done(outcome) => {
                assert_eq!(verification.stage(), VerificationStage::Finished);
                return outcome;
            }
            NextStep::FetchTransaction(hash) => {
                assert_eq!(hash, payload.payload.tx_hash);
                ProviderReply::Transaction(provider.transaction.take().expect("no transaction queued"))
            }
            NextStep::FetchReceipt(hash) => {
                assert_eq!(hash, payload.payload.tx_hash);
                ProviderReply::Receipt(provider.receipt.take().expect("no receipt queued"))
            }
        };
        assert!(verification.accepts(&reply));
        step = verification.on_reply(reply);
    }
}

fn make_tx(to: Address, value: U256) -> TransactionInfo {
    TransactionInfo { to: Some(to), value }
}

fn make_receipt(from: Address, success: bool) -> ReceiptInfo {
    ReceiptInfo { status: success, from }
}

fn base_payload(to: Address, from: Address, amount: U256) -> PaymentPayload {
    PaymentPayload {
        x402_version: X402Version1,
        scheme: NativeScheme,
        network: "base".to_string(),
        payload: NativePaymentPayload { tx_hash: TxHash::zero(), from, to, amount_wei: amount },
    }
}

fn base_requirements(to: Address, amount: U256) -> PaymentRequirements {
    PaymentRequirements {
        scheme: NativeScheme,
        network: "base".to_string(),
        max_amount_required: amount,
        resource: "https://example.com/resource".to_string(),
        description: "native".to_string(),
        mime_type: "text/plain".to_string(),
        output_schema: None,
        pay_to: to,
        max_timeout_seconds: 300,
        asset: Address::zero(),
        extra: Some(serde_json::Value::Null),
    }
}

#[test]
fn verify_native_payment_rejects_payload_amount_below_requirement() {
    let mut provider = ScriptedProvider::new();
    let chain = Eip155ChainReference::new(8453);
    let to = Address::new([0x11u8; 20]);
    let from = Address::new([0x22u8; 20]);

    let payload = base_payload(to, from, U256::from_u64(5));
    let requirements = base_requirements(to, U256::from_u64(10));

    let result = verify_native_payment(&mut provider, &chain, &payload, &requirements);
    assert!(matches!(result, Err(PaymentVerificationError::InvalidPaymentAmount)));
}

#[test]
fn verify_native_payment_errors_when_tx_missing() {
    let mut provider = ScriptedProvider::new();
    provider.transaction = Some(Ok(None));
    let chain = Eip155ChainReference::new(8453);
    let to = Address::new([0x11u8; 20]);
    let from = Address::new([0x22u8; 20]);

    let payload = base_payload(to, from, U256::from_u64(10));
    let requirements = base_requirements(to, U256::from_u64(10));

    let result = verify_native_payment(&mut provider, &chain, &payload, &requirements);
    assert!(matches!(result, Err(PaymentVerificationError::InvalidFormat(_))));
}

#[test]
fn verify_native_payment_errors_when_tx_value_insufficient() {
    let mut provider = ScriptedProvider::new();
    let tx = make_tx(Address::new([0x11u8; 20]), U256::from_u64(5));
    provider.transaction = Some(Ok(Some(tx)));
    let chain = Eip155ChainReference::new(8453);
    let to = Address::new([0x11u8; 20]);
    let from = Address::new([0x22u8; 20]);

    let payload = base_payload(to, from, U256::from_u64(10));
    let requirements = base_requirements(to, U256::from_u64(10));

    let result = verify_native_payment(&mut provider, &chain, &payload, &requirements);
    assert!(matches!(result, Err(PaymentVerificationError::InvalidPaymentAmount)));
}

#[test]
fn verify_native_payment_errors_when_payload_amount_mismatch() {
    let mut provider = ScriptedProvider::new();
    let to = Address::new([0x11u8; 20]);
    let from = Address::new([0x22u8; 20]);
    let tx = make_tx(to, U256::from_u64(10));
    let receipt = make_receipt(from, true);
    provider.transaction = Some(Ok(Some(tx)));
    provider.receipt = Some(Ok(Some(receipt)));
    let chain = Eip155ChainReference::new(8453);

    let payload = base_payload(to, from, U256::from_u64(12));
    let requirements = base_requirements(to, U256::from_u64(10));

    let result = verify_native_payment(&mut provider, &chain, &payload, &requirements);
    assert!(matches!(result, Err(PaymentVerificationError::InvalidPaymentAmount)));
}

#[test]
fn verify_native_payment_errors_when_receipt_reverted() {
    let mut provider = ScriptedProvider::new();
    let to = Address::new([0x11u8; 20]);
    let from = Address::new([0x22u8; 20]);
    let tx = make_tx(to, U256::from_u64(10));
    let receipt = make_receipt(from, false);
    provider.transaction = Some(Ok(Some(tx)));
    provider.receipt = Some(Ok(Some(receipt)));
    let chain = Eip155ChainReference::new(8453);

    let payload = base_payload(to, from, U256::from_u64(10));
    let requirements = base_requirements(to, U256::from_u64(10));

    let result = verify_native_payment(&mut provider, &chain, &payload, &requirements);
    assert!(matches!(result, Err(PaymentVerificationError::TransactionSimulation(_))));
}

#[test]
fn verify_native_payment_errors_when_receipt_sender_mismatch() {
    let mut provider = ScriptedProvider::new();
    let to = Address::new([0x11u8; 20]);
    let from = Address::new([0x22u8; 20]);
    let tx = make_tx(to, U256::from_u64(10));
    let receipt = make_receipt(Address::new([0x33u8; 20]), true);
    provider.transaction = Some(Ok(Some(tx)));
    provider.receipt = Some(Ok(Some(receipt)));
    let chain = Eip155ChainReference::new(8453);

    let payload = base_payload(to, from, U256::from_u64(10));
    let requirements = base_requirements(to, U256::from_u64(10));

    let result = verify_native_payment(&mut provider, &chain, &payload, &requirements);
    assert!(matches!(result, Err(PaymentVerificationError::InvalidSignature(_))));
}

#[test]
fn verify_native_payment_returns_payer_when_valid() {
    let mut provider = ScriptedProvider::new();
    let to = Address::new([0x11u8; 20]);
    let from = Address::new([0x22u8; 20]);
    let tx = make_tx(to, U256::from_u64(10));
    let receipt = make_receipt(from, true);
    provider.transaction = Some(Ok(Some(tx)));
    provider.receipt = Some(Ok(Some(receipt)));
    let chain = Eip155ChainReference::new(8453);

    let payload = base_payload(to, from, U256::from_u64(10));
    let requirements = base_requirements(to, U256::from_u64(10));

    let result = verify_native_payment(&mut provider, &chain, &payload, &requirements);
    assert_eq!(result.expect("valid payment"), from);
}

#[test]
fn verify_native_payment_returns_transport_simulation_error() {
    let mut provider = ScriptedProvider::new();
    provider.transaction = Some(Err("server returned an error response: error code -32603: Internal error".to_string()));
    let chain = Eip155ChainReference::new(8453);
    let to = Address::new([0x11u8; 20]);
    let from = Address::new([0x22u8; 20]);

    let payload = base_payload(to, from, U256::from_u64(10));
    let requirements = base_requirements(to, U256::from_u64(10));

    let result = verify_native_payment(&mut provider, &chain, &payload, &requirements);
    assert!(matches!(result, Err(PaymentVerificationError::TransactionSimulation(_))));
}

#[test]
fn verify_native_payment_errors_on_wrong_network() {
    let mut provider = ScriptedProvider::new();
    let chain = Eip155ChainReference::new(8453);
    let to = Address::new([0x11u8; 20]);
    let from = Address::new([0x22u8; 20]);

    let mut payload = base_payload(to, from, U256::from_u64(10));
    payload.network = "unknown".to_string();
    let requirements = base_requirements(to, U256::from_u64(10));

    let result = verify_native_payment(&mut provider, &chain, &payload, &requirements);
    assert!(matches!(result, Err(PaymentVerificationError::UnsupportedChain)));
}

#[test]
fn verify_native_payment_errors_on_network_mismatch() {
    let mut provider = ScriptedProvider::new();
    let chain = Eip155ChainReference::new(84532);
    let to = Address::new([0x11u8; 20]);
    let from = Address::new([0x22u8; 20]);

    let payload = base_payload(to, from, U256::from_u64(10));
    let requirements = base_requirements(to, U256::from_u64(10));

    let result = verify_native_payment(&mut provider, &chain, &payload, &requirements);
    assert!(matches!(result, Err(PaymentVerificationError::ChainIdMismatch)));
}
