//! Why a payment fails verification.

use vstd::prelude::*;

verus! {

/// The reasons for which a payment is refused.
#[derive(Clone, Debug, PartialEq, Eq)]
pub enum PaymentVerificationError {
    /// The network named by the payment is not one the protocol knows.
    UnsupportedChain,
    /// The network named by the payment is not the facilitator's chain.
    ChainIdMismatch,
    /// The funds went, or would go, to another recipient than the one required.
    RecipientMismatch,
    /// The amount paid is not the amount owed.
    InvalidPaymentAmount,
    /// The payment or what the chain reports of it is malformed or missing.
    InvalidFormat(String),
    /// The payment was not made by the payer it names.
    InvalidSignature(String),
    /// The chain could not be asked, or the transaction failed on it.
    TransactionSimulation(String),
}

/// A refusal with its message as a sequence of characters.
pub enum VerificationErrorView {
    UnsupportedChain,
    ChainIdMismatch,
    RecipientMismatch,
    InvalidPaymentAmount,
    InvalidFormat(Seq<char>),
    InvalidSignature(Seq<char>),
    TransactionSimulation(Seq<char>),
}

impl View for PaymentVerificationError {
    type V = VerificationErrorView;

    open spec fn view(&self) -> VerificationErrorView {
        match self {
            PaymentVerificationError::UnsupportedChain => VerificationErrorView::UnsupportedChain,
            PaymentVerificationError::ChainIdMismatch => VerificationErrorView::ChainIdMismatch,
            PaymentVerificationError::RecipientMismatch => VerificationErrorView::RecipientMismatch,
            PaymentVerificationError::InvalidPaymentAmount => {
                VerificationErrorView::InvalidPaymentAmount
            },
            PaymentVerificationError::InvalidFormat(m) => VerificationErrorView::InvalidFormat(m@),
            PaymentVerificationError::InvalidSignature(m) => VerificationErrorView::InvalidSignature(
                m@,
            ),
            PaymentVerificationError::TransactionSimulation(m) => {
                VerificationErrorView::TransactionSimulation(m@)
            },
        }
    }
}

/// The refusal that a check's result carries, or `None` when it passed.
pub open spec fn rejection<T>(r: Result<T, PaymentVerificationError>) -> Option<
    VerificationErrorView,
> {
    match r {
        Ok(_) => None,
        Err(e) => Some(e@),
    }
}

} // verus!
