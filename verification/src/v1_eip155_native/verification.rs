//! Verification of a native payment against the chain.
//!
//! Checking a payment alternates between decisions and questions to an RPC
//! provider (the transaction, then its receipt). The decisions stand here as a
//! state machine: each call takes what the provider answered and says what to ask
//! next, or what the verdict is. The caller runs the provider calls.

use crate::error::{rejection, PaymentVerificationError, VerificationErrorView};
use crate::network::{network_chain, ChainId, Eip155ChainReference};
use crate::primitives::{Address, TxHash, U256};
use crate::text::{address_checksum_string, checksummed_address};
use crate::v1_eip155_native::types::{NativePaymentPayload, PaymentPayload, PaymentRequirements};
use vstd::prelude::*;

verus! {

/// What the chain reports of a transaction: its recipient (none for a contract
/// creation) and the value it carries.
#[derive(Clone, Copy, Debug)]
pub struct TransactionInfo {
    pub to: Option<Address>,
    pub value: U256,
}

/// What the chain reports of a mined transaction: whether it succeeded and who
/// sent it.
#[derive(Clone, Copy, Debug)]
pub struct ReceiptInfo {
    pub status: bool,
    pub from: Address,
}

/// A provider's answer: the record asked for, `None` when the chain has none,
/// or the text of the transport error.
#[derive(Debug)]
pub enum ProviderReply {
    Transaction(Result<Option<TransactionInfo>, String>),
    Receipt(Result<Option<ReceiptInfo>, String>),
}

/// What the caller has to do next.
#[derive(Debug)]
pub enum NextStep {
    /// Ask the provider for the transaction with this hash.
    FetchTransaction(TxHash),
    /// Ask the provider for the receipt of the transaction with this hash.
    FetchReceipt(TxHash),
    /// The verification is over: the payer, or why the payment is refused.
    Done(Result<Address, PaymentVerificationError>),
}

/// A next step with hashes and addresses as bytes and the refusal as its view.
pub enum NextStepView {
    FetchTransaction(Seq<u8>),
    FetchReceipt(Seq<u8>),
    Done(Result<Seq<u8>, VerificationErrorView>),
}

impl View for NextStep {
    type V = NextStepView;

    open spec fn view(&self) -> NextStepView {
        match self {
            NextStep::FetchTransaction(h) => NextStepView::FetchTransaction(h@),
            NextStep::FetchReceipt(h) => NextStepView::FetchReceipt(h@),
            NextStep::Done(Ok(payer)) => NextStepView::Done(Ok(payer@)),
            NextStep::Done(Err(e)) => NextStepView::Done(Err(e@)),
        }
    }
}

/// Where a verification stands.
#[derive(Clone, Copy, Debug, PartialEq, Eq, Structural)]
pub enum VerificationStage {
    NotStarted,
    AwaitingTransaction,
    AwaitingReceipt,
    Finished,
}

/// A provider's answer with the transport error as a sequence of characters.
pub open spec fn fetched<T>(r: Result<T, String>) -> Result<T, Seq<char>> {
    match r {
        Ok(t) => Ok(t),
        Err(e) => Err(e@),
    }
}

/// Whether a network name stands for the given EIP-155 chain: `None` when it
/// does, else the refusal.
pub open spec fn network_check(chain: Eip155ChainReference, network: Seq<char>) -> Option<
    VerificationErrorView,
> {
    match network_chain(network) {
        None => Some(VerificationErrorView::UnsupportedChain),
        Some(c) => if c == ChainId::Eip155(chain.chain_id) {
            None
        } else {
            Some(VerificationErrorView::ChainIdMismatch)
        },
    }
}

/// Whether the payload promises what the requirements ask: the required
/// recipient and at least the required amount.
pub open spec fn payload_check(
    payload: NativePaymentPayload,
    requirements: PaymentRequirements,
) -> Option<VerificationErrorView> {
    if payload.to@ != requirements.pay_to@ {
        Some(VerificationErrorView::RecipientMismatch)
    } else if payload.amount_wei@ < requirements.max_amount_required@ {
        Some(VerificationErrorView::InvalidPaymentAmount)
    } else {
        None
    }
}

/// The checks made before the chain is asked anything: both networks, then the
/// payload against the requirements.
pub open spec fn request_check(
    chain: Eip155ChainReference,
    payload: PaymentPayload,
    requirements: PaymentRequirements,
) -> Option<VerificationErrorView> {
    match network_check(chain, payload.network@) {
        Some(e) => Some(e),
        None => match network_check(chain, requirements.network@) {
            Some(e) => Some(e),
            None => payload_check(payload.payload, requirements),
        },
    }
}

/// The checks on the transaction the chain reports.
pub open spec fn transaction_check(
    payload: NativePaymentPayload,
    requirements: PaymentRequirements,
    tx: Result<Option<TransactionInfo>, Seq<char>>,
) -> Option<VerificationErrorView> {
    match tx {
        Err(message) => Some(VerificationErrorView::TransactionSimulation(message)),
        Ok(None) => Some(VerificationErrorView::InvalidFormat("transaction not found"@)),
        Ok(Some(t)) => match t.to {
            None => Some(VerificationErrorView::InvalidFormat("missing recipient"@)),
            Some(to) => if to@ != requirements.pay_to@ {
                Some(VerificationErrorView::RecipientMismatch)
            } else if t.value@ < requirements.max_amount_required@ || t.value@
                != payload.amount_wei@ {
                Some(VerificationErrorView::InvalidPaymentAmount)
            } else {
                None
            },
        },
    }
}

/// The message given when the receipt names another sender than the payload.
pub open spec fn sender_mismatch_message(expected: Seq<u8>, got: Seq<u8>) -> Seq<char> {
    "transaction sender mismatch: expected "@ + checksummed_address(expected) + ", got "@
        + checksummed_address(got)
}

/// The checks on the receipt the chain reports.
pub open spec fn receipt_check(
    payload: NativePaymentPayload,
    receipt: Result<Option<ReceiptInfo>, Seq<char>>,
) -> Option<VerificationErrorView> {
    match receipt {
        Err(message) => Some(VerificationErrorView::TransactionSimulation(message)),
        Ok(None) => Some(VerificationErrorView::InvalidFormat("transaction not confirmed"@)),
        Ok(Some(r)) => if !r.status {
            Some(VerificationErrorView::TransactionSimulation("transaction reverted"@))
        } else if r.from@ != payload.from@ {
            Some(
                VerificationErrorView::InvalidSignature(
                    sender_mismatch_message(payload.from@, r.from@),
                ),
            )
        } else {
            None
        },
    }
}

/// The first step: the refusal from the request alone, or the question for the
/// transaction.
pub open spec fn start_step(
    chain: Eip155ChainReference,
    payload: PaymentPayload,
    requirements: PaymentRequirements,
) -> NextStepView {
    match request_check(chain, payload, requirements) {
        Some(e) => NextStepView::Done(Err(e)),
        None => NextStepView::FetchTransaction(payload.payload.tx_hash@),
    }
}

/// The step after the transaction has been fetched.
pub open spec fn transaction_step(
    payload: NativePaymentPayload,
    requirements: PaymentRequirements,
    tx: Result<Option<TransactionInfo>, Seq<char>>,
) -> NextStepView {
    match transaction_check(payload, requirements, tx) {
        Some(e) => NextStepView::Done(Err(e)),
        None => NextStepView::FetchReceipt(payload.tx_hash@),
    }
}

/// The step after the receipt has been fetched: the verdict.
pub open spec fn receipt_step(
    payload: NativePaymentPayload,
    receipt: Result<Option<ReceiptInfo>, Seq<char>>,
) -> NextStepView {
    match receipt_check(payload, receipt) {
        Some(e) => NextStepView::Done(Err(e)),
        None => NextStepView::Done(Ok(payload.from@)),
    }
}

/// The stage a verification is in once it has handed out a step.
pub open spec fn stage_after(step: NextStepView) -> VerificationStage {
    match step {
        NextStepView::FetchTransaction(_) => VerificationStage::AwaitingTransaction,
        NextStepView::FetchReceipt(_) => VerificationStage::AwaitingReceipt,
        NextStepView::Done(_) => VerificationStage::Finished,
    }
}

/// The verdict on a payment, given what the chain reports of its transaction
/// and of the receipt: the payer, or the first check that fails.
pub open spec fn native_payment_verdict(
    chain: Eip155ChainReference,
    payload: PaymentPayload,
    requirements: PaymentRequirements,
    tx: Result<Option<TransactionInfo>, Seq<char>>,
    receipt: Result<Option<ReceiptInfo>, Seq<char>>,
) -> Result<Seq<u8>, VerificationErrorView> {
    match request_check(chain, payload, requirements) {
        Some(e) => Err(e),
        None => match transaction_check(payload.payload, requirements, tx) {
            Some(e) => Err(e),
            None => match receipt_check(payload.payload, receipt) {
                Some(e) => Err(e),
                None => Ok(payload.payload.from@),
            },
        },
    }
}


/// Everything that has to hold for a native payment to be accepted: both the
/// payload and the requirements name the facilitator's chain; the payload pays the
/// required recipient at least the required amount; the chain holds a transaction
/// to that recipient carrying exactly the payload's amount; and that transaction
/// succeeded and was sent by the payload's sender.
pub open spec fn payment_settled_as_required(
    chain: Eip155ChainReference,
    payload: PaymentPayload,
    requirements: PaymentRequirements,
    tx: Result<Option<TransactionInfo>, Seq<char>>,
    receipt: Result<Option<ReceiptInfo>, Seq<char>>,
) -> bool {
    &&& network_chain(payload.network@) == Some(ChainId::Eip155(chain.chain_id))
    &&& network_chain(requirements.network@) == Some(ChainId::Eip155(chain.chain_id))
    &&& payload.payload.to@ == requirements.pay_to@
    &&& payload.payload.amount_wei@ >= requirements.max_amount_required@
    &&& tx matches Ok(Some(t)) && t.to matches Some(to) && to@ == requirements.pay_to@
        && t.value@ == payload.payload.amount_wei@
    &&& receipt matches Ok(Some(r)) && r.status && r.from@ == payload.payload.from@
}

/// A native payment is accepted exactly when it was settled as required, and then
/// the payer is the payload's sender, who paid the required recipient at least the
/// required amount.
pub proof fn lemma_verdict_accepts_exactly_settled_payments(
    chain: Eip155ChainReference,
    payload: PaymentPayload,
    requirements: PaymentRequirements,
    tx: Result<Option<TransactionInfo>, Seq<char>>,
    receipt: Result<Option<ReceiptInfo>, Seq<char>>,
)
    ensures
        native_payment_verdict(chain, payload, requirements, tx, receipt) is Ok
            <==> payment_settled_as_required(chain, payload, requirements, tx, receipt),
        native_payment_verdict(chain, payload, requirements, tx, receipt) matches Ok(payer)
            ==> payer == payload.payload.from@ && (tx matches Ok(Some(t)) && t.to matches Some(
            to) && to@ == requirements.pay_to@ && t.value@ >= requirements.max_amount_required@),
{
}

/// Given what the chain reports, the steps end in the verdict.
///
/// Each lookup is for the payload's transaction hash, and whichever step is done
/// holds `native_payment_verdict` for those reports.
pub proof fn lemma_steps_reach_verdict(
    chain: Eip155ChainReference,
    payload: PaymentPayload,
    requirements: PaymentRequirements,
    tx: Result<Option<TransactionInfo>, Seq<char>>,
    receipt: Result<Option<ReceiptInfo>, Seq<char>>,
)
    ensures
        ({
            let verdict = native_payment_verdict(chain, payload, requirements, tx, receipt);
            match start_step(chain, payload, requirements) {
                NextStepView::Done(outcome) => outcome == verdict,
                NextStepView::FetchTransaction(hash) => hash == payload.payload.tx_hash@
                    && match transaction_step(payload.payload, requirements, tx) {
                    NextStepView::Done(outcome) => outcome == verdict,
                    NextStepView::FetchReceipt(hash) => hash == payload.payload.tx_hash@
                        && receipt_step(payload.payload, receipt) == NextStepView::Done(verdict),
                    NextStepView::FetchTransaction(_) => false,
                },
                NextStepView::FetchReceipt(_) => false,
            }
        }),
{
}

/// Why a payment is refused, checked in this order: a payload network the protocol
/// does not know is an unsupported chain, and one on another chain a chain id
/// mismatch (then the same for the requirements' network); a payload to another
/// recipient is a recipient mismatch, and one for less than required an invalid
/// amount. Then, of the transaction: a transport error is a failed simulation with
/// the error's text, a missing one an invalid format, one without a recipient an
/// invalid format, one to another recipient a recipient mismatch, and one whose
/// value is below the requirement or differs from the payload an invalid amount.
/// Then, of the receipt: a transport error is a failed simulation with its text, a
/// missing one an invalid format, a failed transaction a failed simulation, and
/// another sender an invalid signature.
pub proof fn lemma_refusal_reasons(
    chain: Eip155ChainReference,
    payload: PaymentPayload,
    requirements: PaymentRequirements,
    tx: Result<Option<TransactionInfo>, Seq<char>>,
    receipt: Result<Option<ReceiptInfo>, Seq<char>>,
)
    ensures
        ({
            let verdict = native_payment_verdict(chain, payload, requirements, tx, receipt);
            let here = ChainId::Eip155(chain.chain_id);
            let p = payload.payload;
            let payload_on_chain = network_chain(payload.network@) == Some(here);
            let request_on_chain = payload_on_chain && network_chain(requirements.network@)
                == Some(here);
            let request_ok = request_on_chain && p.to@ == requirements.pay_to@ && p.amount_wei@
                >= requirements.max_amount_required@;
            let tx_ok = tx matches Ok(Some(t)) && t.to matches Some(to) && to@
                == requirements.pay_to@ && t.value@ >= requirements.max_amount_required@
                && t.value@ == p.amount_wei@;
            &&& network_chain(payload.network@) is None ==> verdict == Err::<Seq<u8>, _>(
                VerificationErrorView::UnsupportedChain,
            )
            &&& (network_chain(payload.network@) matches Some(c) && c != here) ==> verdict
                == Err::<Seq<u8>, _>(VerificationErrorView::ChainIdMismatch)
            &&& (payload_on_chain && network_chain(requirements.network@) is None) ==> verdict
                == Err::<Seq<u8>, _>(VerificationErrorView::UnsupportedChain)
            &&& (network_chain(requirements.network@) matches Some(c) && c != here
                && payload_on_chain) ==> verdict == Err::<Seq<u8>, _>(VerificationErrorView::ChainIdMismatch)
            &&& (request_on_chain && p.to@ != requirements.pay_to@) ==> verdict == Err::<
                Seq<u8>,
                _,
            >(VerificationErrorView::RecipientMismatch)
            &&& (request_on_chain && p.to@ == requirements.pay_to@ && p.amount_wei@
                < requirements.max_amount_required@) ==> verdict == Err::<Seq<u8>, _>(
                VerificationErrorView::InvalidPaymentAmount,
            )
            &&& (tx matches Err(m) && request_ok) ==> verdict == Err::<Seq<u8>, _>(
                VerificationErrorView::TransactionSimulation(tx->Err_0),
            )
            &&& (request_ok && tx == Ok::<_, Seq<char>>(None::<TransactionInfo>)) ==> verdict
                == Err::<Seq<u8>, _>(VerificationErrorView::InvalidFormat("transaction not found"@))
            &&& (tx matches Ok(Some(t)) && t.to is None && request_ok) ==> verdict == Err::<
                Seq<u8>,
                _,
            >(VerificationErrorView::InvalidFormat("missing recipient"@))
            &&& (tx matches Ok(Some(t)) && t.to matches Some(to) && to@
                != requirements.pay_to@ && request_ok) ==> verdict == Err::<Seq<u8>, _>(
                VerificationErrorView::RecipientMismatch,
            )
            &&& (tx matches Ok(Some(t)) && t.to matches Some(to) && to@
                == requirements.pay_to@ && (t.value@ < requirements.max_amount_required@
                || t.value@ != p.amount_wei@) && request_ok) ==> verdict == Err::<Seq<u8>, _>(
                VerificationErrorView::InvalidPaymentAmount,
            )
            &&& (receipt matches Err(m) && request_ok && tx_ok) ==> verdict == Err::<Seq<u8>, _>(
                VerificationErrorView::TransactionSimulation(receipt->Err_0),
            )
            &&& (request_ok && tx_ok && receipt == Ok::<_, Seq<char>>(None::<ReceiptInfo>))
                ==> verdict == Err::<Seq<u8>, _>(
                VerificationErrorView::InvalidFormat("transaction not confirmed"@),
            )
            &&& (receipt matches Ok(Some(r)) && !r.status && request_ok && tx_ok) ==> verdict
                == Err::<Seq<u8>, _>(
                VerificationErrorView::TransactionSimulation("transaction reverted"@),
            )
            &&& (receipt matches Ok(Some(r)) && r.status && r.from@ != p.from@ && request_ok
                && tx_ok) ==> verdict matches Err(VerificationErrorView::InvalidSignature(_))
        }),
{
}

/// A payload that promises another recipient or less than the required amount is
/// refused before the chain is asked anything.
pub proof fn lemma_inconsistent_payload_refused_without_lookup(
    chain: Eip155ChainReference,
    payload: PaymentPayload,
    requirements: PaymentRequirements,
)
    requires
        payload.payload.to@ != requirements.pay_to@ || payload.payload.amount_wei@
            < requirements.max_amount_required@,
    ensures
        start_step(chain, payload, requirements) is Done,
{
}

/// Checks that the payment is made on the facilitator's chain: `network` must
/// name a chain the protocol knows, and that chain must be `chain`.
fn check_network(chain: &Eip155ChainReference, network: &String) -> (r: Result<
    (),
    PaymentVerificationError,
>)
    ensures
        rejection(r) == network_check(*chain, network@),
{
    let expected = chain.to_chain_id();
    match ChainId::from_network_name(network.as_str()) {
        None => Err(PaymentVerificationError::UnsupportedChain),
        Some(named) => if named == expected {
            Ok(())
        } else {
            Err(PaymentVerificationError::ChainIdMismatch)
        },
    }
}

/// Checks that the payload pays the required recipient at least the required
/// amount.
pub fn assert_payload_matches_request_payload(
    payload: &NativePaymentPayload,
    requirements: &PaymentRequirements,
) -> (r: Result<(), PaymentVerificationError>)
    ensures
        rejection(r) == payload_check(*payload, *requirements),
{
    if payload.to != requirements.pay_to {
        return Err(PaymentVerificationError::RecipientMismatch);
    }
    if payload.amount_wei.lt(&requirements.max_amount_required) {
        return Err(PaymentVerificationError::InvalidPaymentAmount);
    }
    Ok(())
}

/// The message for a receipt whose sender is not the payer the payload names.
fn sender_mismatch(expected: &Address, got: &Address) -> (r: String)
    ensures
        r@ == sender_mismatch_message(expected@, got@),
{
    let mut message = "transaction sender mismatch: expected ".to_owned();
    let expected_text = address_checksum_string(expected);
    message.append(expected_text.as_str());
    message.append(", got ");
    let got_text = address_checksum_string(got);
    message.append(got_text.as_str());
    message
}

/// The checks on a transaction as the chain reports it.
fn check_transaction(
    payload: &NativePaymentPayload,
    requirements: &PaymentRequirements,
    tx: Result<Option<TransactionInfo>, String>,
) -> (r: Result<(), PaymentVerificationError>)
    ensures
        rejection(r) == transaction_check(*payload, *requirements, fetched(tx)),
{
    match tx {
        Err(message) => Err(PaymentVerificationError::TransactionSimulation(message)),
        Ok(None) => Err(PaymentVerificationError::InvalidFormat("transaction not found".to_owned())),
        Ok(Some(t)) => match t.to {
            None => Err(PaymentVerificationError::InvalidFormat("missing recipient".to_owned())),
            Some(to) => {
                if to != requirements.pay_to {
                    return Err(PaymentVerificationError::RecipientMismatch);
                }
                let amount_required = &requirements.max_amount_required;
                if t.value.lt(amount_required) || t.value != payload.amount_wei {
                    return Err(PaymentVerificationError::InvalidPaymentAmount);
                }
                Ok(())
            },
        },
    }
}

/// The checks on a receipt as the chain reports it.
fn check_receipt(payload: &NativePaymentPayload, receipt: Result<Option<ReceiptInfo>, String>) -> (r:
    Result<(), PaymentVerificationError>)
    ensures
        rejection(r) == receipt_check(*payload, fetched(receipt)),
{
    match receipt {
        Err(message) => Err(PaymentVerificationError::TransactionSimulation(message)),
        Ok(None) => Err(
            PaymentVerificationError::InvalidFormat("transaction not confirmed".to_owned()),
        ),
        Ok(Some(r)) => {
            if !r.status {
                return Err(
                    PaymentVerificationError::TransactionSimulation(
                        "transaction reverted".to_owned(),
                    ),
                );
            }
            if r.from != payload.from {
                return Err(
                    PaymentVerificationError::InvalidSignature(
                        sender_mismatch(&payload.from, &r.from),
                    ),
                );
            }
            Ok(())
        },
    }
}

/// One verification of a native payment, from the request to the verdict.
pub struct NativePaymentVerification<'a> {
    chain: Eip155ChainReference,
    payload: &'a PaymentPayload,
    requirements: &'a PaymentRequirements,
    stage: VerificationStage,
}

impl<'a> NativePaymentVerification<'a> {
    /// The facilitator's chain.
    pub closed spec fn spec_chain(&self) -> Eip155ChainReference {
        self.chain
    }

    /// The payment under verification.
    pub closed spec fn spec_payload(&self) -> PaymentPayload {
        *self.payload
    }

    /// The requirements the payment must meet.
    pub closed spec fn spec_requirements(&self) -> PaymentRequirements {
        *self.requirements
    }

    /// Where the verification stands.
    pub closed spec fn spec_stage(&self) -> VerificationStage {
        self.stage
    }

    /// Whether the verification waits for this kind of answer.
    pub open spec fn spec_accepts(&self, reply: ProviderReply) -> bool {
        ||| self.spec_stage() == VerificationStage::AwaitingTransaction
            && reply is Transaction
        ||| self.spec_stage() == VerificationStage::AwaitingReceipt && reply is Receipt
    }

    /// The step that an accepted answer leads to.
    pub open spec fn spec_reply_step(&self, reply: ProviderReply) -> NextStepView {
        match reply {
            ProviderReply::Transaction(tx) => transaction_step(
                self.spec_payload().payload,
                self.spec_requirements(),
                fetched(tx),
            ),
            ProviderReply::Receipt(receipt) => receipt_step(
                self.spec_payload().payload,
                fetched(receipt),
            ),
        }
    }

    /// A verification of `payload` against `requirements` on `chain`, not yet
    /// started.
    pub fn new(
        chain: Eip155ChainReference,
        payload: &'a PaymentPayload,
        requirements: &'a PaymentRequirements,
    ) -> (r: Self)
        ensures
            r.spec_chain() == chain,
            r.spec_payload() == *payload,
            r.spec_requirements() == *requirements,
            r.spec_stage() == VerificationStage::NotStarted,
    {
        NativePaymentVerification { chain, payload, requirements, stage: VerificationStage::NotStarted }
    }

    /// Where the verification stands.
    pub fn stage(&self) -> (r: VerificationStage)
        ensures
            r == self.spec_stage(),
    {
        self.stage
    }

    /// Whether the verification waits for this kind of answer.
    pub fn accepts(&self, reply: &ProviderReply) -> (r: bool)
        ensures
            r == self.spec_accepts(*reply),
    {
        match reply {
            ProviderReply::Transaction(_) => self.stage == VerificationStage::AwaitingTransaction,
            ProviderReply::Receipt(_) => self.stage == VerificationStage::AwaitingReceipt,
        }
    }

    /// Checks what can be checked without the chain: that both the payload and
    /// the requirements name the facilitator's chain, and that the payload pays
    /// the required recipient at least the required amount. Then asks for the
    /// transaction.
    pub fn start(&mut self) -> (step: NextStep)
        requires
            old(self).spec_stage() == VerificationStage::NotStarted,
        ensures
            step@ == start_step(old(self).spec_chain(), old(self).spec_payload(), old(self).spec_requirements()),
            final(self).spec_stage() == stage_after(step@),
            final(self).spec_chain() == old(self).spec_chain(),
            final(self).spec_payload() == old(self).spec_payload(),
            final(self).spec_requirements() == old(self).spec_requirements(),
    {
        let checked = match check_network(&self.chain, &self.payload.network) {
            Err(e) => Err(e),
            Ok(()) => match check_network(&self.chain, &self.requirements.network) {
                Err(e) => Err(e),
                Ok(()) => assert_payload_matches_request_payload(
                    &self.payload.payload,
                    self.requirements,
                ),
            },
        };
        match checked {
            Err(e) => {
                self.stage = VerificationStage::Finished;
                NextStep::Done(Err(e))
            },
            Ok(()) => {
                self.stage = VerificationStage::AwaitingTransaction;
                NextStep::FetchTransaction(self.payload.payload.tx_hash)
            },
        }
    }

    /// Takes the provider's answer to the last question: checks the transaction
    /// (it must pay the required recipient exactly the payload's amount, which is
    /// at least the required amount) and then asks for its receipt; or checks the
    /// receipt (the transaction must have succeeded and been sent by the payer)
    /// and gives the verdict.
    pub fn on_reply(&mut self, reply: ProviderReply) -> (step: NextStep)
        requires
            old(self).spec_accepts(reply),
        ensures
            step@ == old(self).spec_reply_step(reply),
            final(self).spec_stage() == stage_after(step@),
            final(self).spec_chain() == old(self).spec_chain(),
            final(self).spec_payload() == old(self).spec_payload(),
            final(self).spec_requirements() == old(self).spec_requirements(),
    {
        match reply {
            ProviderReply::Transaction(tx) => {
                match check_transaction(&self.payload.payload, self.requirements, tx) {
                    Err(e) => {
                        self.stage = VerificationStage::Finished;
                        NextStep::Done(Err(e))
                    },
                    Ok(()) => {
                        self.stage = VerificationStage::AwaitingReceipt;
                        NextStep::FetchReceipt(self.payload.payload.tx_hash)
                    },
                }
            },
            ProviderReply::Receipt(receipt) => {
                self.stage = VerificationStage::Finished;
                match check_receipt(&self.payload.payload, receipt) {
                    Err(e) => NextStep::Done(Err(e)),
                    Ok(()) => NextStep::Done(Ok(self.payload.payload.from)),
                }
            },
        }
    }
}

} // verus!
