use x402_chain_eip155::error::PaymentVerificationError;
use x402_chain_eip155::network::{ChainId, Eip155ChainReference, SolanaCluster};
use x402_chain_eip155::primitives::{Address, TxHash, B256, U256};
use x402_chain_eip155::proto::{SettleResponse, X402Version1};
use x402_chain_eip155::v1_eip155_exact::types::ExactScheme;
use x402_chain_eip155::v1_eip155_native::facilitator::V1Eip155NativeFacilitator;
use x402_chain_eip155::v1_eip155_native::types::{
    NativePaymentPayload, NativeScheme, PaymentPayload, PaymentRequirements,
};
use x402_chain_eip155::v1_eip155_native::verification::{
    assert_payload_matches_request_payload, NativePaymentVerification, NextStep, ProviderReply,
    ReceiptInfo, TransactionInfo, VerificationStage,
};
use x402_chain_eip155::v1_eip155_native::V1Eip155Native;

fn payload(network: &str, to: Address, from: Address, amount: u64) -> PaymentPayload {
    PaymentPayload {
        x402_version: X402Version1,
        scheme: NativeScheme,
        network: network.to_string(),
        payload: NativePaymentPayload {
            tx_hash: TxHash::new([0xabu8; 32]),
            from,
            to,
            amount_wei: U256::from_u64(amount),
        },
    }
}

fn requirements(network: &str, to: Address, amount: u64) -> PaymentRequirements {
    PaymentRequirements {
        scheme: NativeScheme,
        network: network.to_string(),
        max_amount_required: U256::from_u64(amount),
        resource: "https://example.com/resource".to_string(),
        description: "native".to_string(),
        mime_type: "text/plain".to_string(),
        output_schema: None,
        pay_to: to,
        max_timeout_seconds: 300,
        asset: Address::zero(),
        extra: None,
    }
}

fn recipient() -> Address {
    Address::new([0x11u8; 20])
}

fn sender() -> Address {
    Address::new([0x22u8; 20])
}

/// Runs a verification with the given chain replies; panics if a reply is asked
/// for that was not given.
fn run(
    chain: u64,
    payload: &PaymentPayload,
    requirements: &PaymentRequirements,
    mut tx: Option<Result<Option<TransactionInfo>, String>>,
    mut receipt: Option<Result<Option<ReceiptInfo>, String>>,
) -> Result<Address, PaymentVerificationError> {
    let mut verification =
        NativePaymentVerification::new(Eip155ChainReference::new(chain), payload, requirements);
    assert_eq!(verification.stage(), VerificationStage::NotStarted);
    let mut step = verification.start();
    loop {
        let reply = match step {
            NextStep::Done(outcome) => return outcome,
            NextStep::FetchTransaction(_) => {
                assert_eq!(verification.stage(), VerificationStage::AwaitingTransaction);
                ProviderReply::Transaction(tx.take().expect("transaction not expected"))
            }
            NextStep::FetchReceipt(_) => {
                assert_eq!(verification.stage(), VerificationStage::AwaitingReceipt);
                ProviderReply::Receipt(receipt.take().expect("receipt not expected"))
            }
        };
        step = verification.on_reply(reply);
    }
}

fn paid(to: Address, value: u64) -> Option<Result<Option<TransactionInfo>, String>> {
    Some(Ok(Some(TransactionInfo { to: Some(to), value: U256::from_u64(value) })))
}

fn mined(from: Address, status: bool) -> Option<Result<Option<ReceiptInfo>, String>> {
    Some(Ok(Some(ReceiptInfo { status, from })))
}

#[test]
fn payload_to_other_recipient_is_refused_before_any_lookup() {
    let p = payload("base", Address::new([0x44u8; 20]), sender(), 10);
    let r = requirements("base", recipient(), 10);
    assert_eq!(run(8453, &p, &r, None, None), Err(PaymentVerificationError::RecipientMismatch));
}

#[test]
fn requirements_on_another_network_are_refused() {
    let p = payload("base", recipient(), sender(), 10);
    let r = requirements("base-sepolia", recipient(), 10);
    assert_eq!(run(8453, &p, &r, None, None), Err(PaymentVerificationError::ChainIdMismatch));
    let r = requirements("no-such-network", recipient(), 10);
    assert_eq!(run(8453, &p, &r, None, None), Err(PaymentVerificationError::UnsupportedChain));
}

#[test]
fn solana_network_is_not_an_eip155_chain() {
    let p = payload("solana", recipient(), sender(), 10);
    let r = requirements("base", recipient(), 10);
    assert_eq!(run(8453, &p, &r, None, None), Err(PaymentVerificationError::ChainIdMismatch));
}

#[test]
fn transaction_to_other_recipient_is_refused() {
    let p = payload("base", recipient(), sender(), 10);
    let r = requirements("base", recipient(), 10);
    let tx = paid(Address::new([0x55u8; 20]), 10);
    assert_eq!(run(8453, &p, &r, tx, None), Err(PaymentVerificationError::RecipientMismatch));
}

#[test]
fn contract_creation_has_no_recipient() {
    let p = payload("base", recipient(), sender(), 10);
    let r = requirements("base", recipient(), 10);
    let tx = Some(Ok(Some(TransactionInfo { to: None, value: U256::from_u64(10) })));
    assert_eq!(
        run(8453, &p, &r, tx, None),
        Err(PaymentVerificationError::InvalidFormat("missing recipient".to_string()))
    );
}

#[test]
fn missing_transaction_and_receipt_messages() {
    let p = payload("base", recipient(), sender(), 10);
    let r = requirements("base", recipient(), 10);
    assert_eq!(
        run(8453, &p, &r, Some(Ok(None)), None),
        Err(PaymentVerificationError::InvalidFormat("transaction not found".to_string()))
    );
    assert_eq!(
        run(8453, &p, &r, paid(recipient(), 10), Some(Ok(None))),
        Err(PaymentVerificationError::InvalidFormat("transaction not confirmed".to_string()))
    );
}

#[test]
fn transport_errors_keep_their_text() {
    let p = payload("base", recipient(), sender(), 10);
    let r = requirements("base", recipient(), 10);
    assert_eq!(
        run(8453, &p, &r, Some(Err("timed out".to_string())), None),
        Err(PaymentVerificationError::TransactionSimulation("timed out".to_string()))
    );
    assert_eq!(
        run(8453, &p, &r, paid(recipient(), 10), Some(Err("connection reset".to_string()))),
        Err(PaymentVerificationError::TransactionSimulation("connection reset".to_string()))
    );
    assert_eq!(
        run(8453, &p, &r, paid(recipient(), 10), mined(sender(), false)),
        Err(PaymentVerificationError::TransactionSimulation("transaction reverted".to_string()))
    );
}

#[test]
fn sender_mismatch_names_both_addresses() {
    let p = payload("base", recipient(), sender(), 10);
    let r = requirements("base", recipient(), 10);
    let result = run(8453, &p, &r, paid(recipient(), 10), mined(Address::new([0x33u8; 20]), true));
    assert_eq!(
        result,
        Err(PaymentVerificationError::InvalidSignature(
            "transaction sender mismatch: expected 0x2222222222222222222222222222222222222222, got 0x3333333333333333333333333333333333333333"
                .to_string()
        ))
    );
}

#[test]
fn overpaying_payload_is_accepted_when_the_transaction_carries_it() {
    let p = payload("base-sepolia", recipient(), sender(), 15);
    let r = requirements("base-sepolia", recipient(), 10);
    let result = run(84532, &p, &r, paid(recipient(), 15), mined(sender(), true));
    assert_eq!(result, Ok(sender()));
}

#[test]
fn large_amounts_compare_by_value() {
    let small = U256::from_limbs([u64::MAX, u64::MAX, u64::MAX, 0]);
    let large = U256::from_limbs([0, 0, 0, 1]);
    assert!(small.lt(&large));
    assert!(!large.lt(&small));
    assert!(!large.lt(&large));
    assert!(large == U256::from_limbs([0, 0, 0, 1]));
    assert!(small != large);
    assert!(U256::from_u64(7) == U256::from_limbs([7, 0, 0, 0]));

    let mut p = payload("base", recipient(), sender(), 0);
    p.payload.amount_wei = small;
    let mut r = requirements("base", recipient(), 0);
    r.max_amount_required = large;
    assert_eq!(
        assert_payload_matches_request_payload(&p.payload, &r),
        Err(PaymentVerificationError::InvalidPaymentAmount)
    );
    r.max_amount_required = small;
    assert_eq!(assert_payload_matches_request_payload(&p.payload, &r), Ok(()));
}

#[test]
fn network_names_round_trip() {
    let names = [
        "base", "base-sepolia", "avalanche", "avalanche-fuji", "polygon", "polygon-amoy", "sei",
        "sei-testnet", "xdc", "xrpl-evm", "solana", "solana-devnet",
    ];
    for name in names {
        let chain = ChainId::from_network_name(name).expect("known network");
        assert_eq!(chain.as_network_name(), Some(name));
    }
    assert_eq!(ChainId::from_network_name("base"), Some(ChainId::Eip155(8453)));
    assert_eq!(ChainId::from_network_name("base-sepolia"), Some(ChainId::Eip155(84532)));
    assert_eq!(
        ChainId::from_network_name("solana-devnet"),
        Some(ChainId::Solana(SolanaCluster::Devnet))
    );
    assert_eq!(ChainId::from_network_name("Base"), None);
    assert_eq!(ChainId::Eip155(1).as_network_name(), None);
    assert_eq!(Eip155ChainReference::new(8453).to_chain_id(), ChainId::Eip155(8453));
    assert_eq!(Eip155ChainReference::new(8453).inner(), 8453);
}

#[test]
fn verify_response_names_payer_by_checksum() {
    let facilitator = V1Eip155NativeFacilitator::new(());
    let payer = Address::new([
        0xd8, 0xda, 0x6b, 0xf2, 0x69, 0x64, 0xaf, 0x9d, 0x7e, 0xed, 0x9e, 0x03, 0xe5, 0x34, 0x15,
        0xd3, 0x7a, 0xa9, 0x60, 0x45,
    ]);
    let response = facilitator.verify_response(&payer);
    assert!(response.is_valid);
    assert_eq!(response.invalid_reason, None);
    assert_eq!(response.payer.as_deref(), Some("0xd8dA6BF26964aF9D7eEd9e03E53415D37aA96045"));
}

#[test]
fn settle_response_names_payer_transaction_and_network() {
    let facilitator = V1Eip155NativeFacilitator::new(());
    let p = payload("base", recipient(), sender(), 10);
    let r = requirements("base", recipient(), 10);
    let SettleResponse::Success { payer, transaction, network } =
        facilitator.settle_response(&sender(), &p, &r);
    assert_eq!(payer, "0x2222222222222222222222222222222222222222");
    assert_eq!(transaction, format!("0x{}", "ab".repeat(32)));
    assert_eq!(network, "base");
    let zero = B256::zero();
    assert_eq!(zero, B256::new([0u8; 32]));
}

#[test]
fn supported_lists_native_scheme_on_named_chains() {
    let facilitator = V1Eip155NativeFacilitator::new(());
    let signers = vec!["0x1111111111111111111111111111111111111111".to_string()];
    let response = facilitator.supported_response(ChainId::Eip155(8453), signers.clone());
    assert_eq!(response.kinds.len(), 1);
    assert_eq!(response.kinds[0].x402_version, 1);
    assert_eq!(response.kinds[0].scheme, "native");
    assert_eq!(response.kinds[0].network, "base");
    assert!(response.kinds[0].extra.is_none());
    assert!(response.extensions.is_empty());
    assert_eq!(response.signers.len(), 1);
    assert_eq!(response.signers[0].0, ChainId::Eip155(8453));
    assert_eq!(response.signers[0].1, signers);

    let unnamed = facilitator.supported_response(ChainId::Eip155(1), Vec::new());
    assert!(unnamed.kinds.is_empty());
    assert_eq!(unnamed.signers[0].0, ChainId::Eip155(1));
}

#[test]
fn scheme_identity() {
    let scheme = V1Eip155Native;
    assert_eq!(scheme.x402_version(), 1);
    assert_eq!(scheme.namespace(), "eip155");
    assert_eq!(scheme.scheme(), "native");
    assert_eq!(NativeScheme.to_string(), "native");
    assert_eq!(ExactScheme.as_str(), "exact");
    assert_eq!(ExactScheme.to_string(), "exact");
    assert_eq!(X402Version1.value(), 1);
    let facilitator = scheme.build(7u32, None);
    assert_eq!(*facilitator.provider(), 7);
}

#[test]
fn verification_accepts_only_the_awaited_reply() {
    let p = payload("base", recipient(), sender(), 10);
    let r = requirements("base", recipient(), 10);
    let mut verification = NativePaymentVerification::new(Eip155ChainReference::new(8453), &p, &r);
    let receipt_reply = ProviderReply::Receipt(Ok(None));
    let tx_reply = ProviderReply::Transaction(Ok(None));
    assert!(!verification.accepts(&tx_reply));
    match verification.start() {
        NextStep::FetchTransaction(hash) => assert_eq!(hash, TxHash::new([0xabu8; 32])),
        other => panic!("unexpected step {:?}", other),
    }
    assert!(verification.accepts(&tx_reply));
    assert!(!verification.accepts(&receipt_reply));
}

#[test]
fn payer_text_differs_for_different_payers() {
    let facilitator = V1Eip155NativeFacilitator::new(());
    let a = facilitator.verify_response(&Address::new([0xabu8; 20])).payer.expect("payer");
    let b = facilitator.verify_response(&Address::new([0xacu8; 20])).payer.expect("payer");
    let a_again = facilitator.verify_response(&Address::new([0xabu8; 20])).payer.expect("payer");
    assert_ne!(a.to_lowercase(), b.to_lowercase());
    assert_eq!(a, a_again);
    assert_eq!(a.to_lowercase(), format!("0x{}", "ab".repeat(20)));
}
