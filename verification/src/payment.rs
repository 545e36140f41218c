//! The paid resource: what a request must show to get it, and what it is
//! told when it does not.

use vstd::prelude::*;
use crate::types::{
    text_of,
    PaidResourceResponse,
    PaymentProof,
    PaymentRequiredResponse,
    VerifyPaymentRequest,
    VerifyPaymentResponse,
};

verus! {

/// HTTP status 400.
pub const BAD_REQUEST: u16 = 400;

/// HTTP status 402.
pub const PAYMENT_REQUIRED: u16 = 402;

/// HTTP status 500.
pub const INTERNAL_SERVER_ERROR: u16 = 500;

/// What the service asks for the paid resource, and whom it asks whether
/// a payment is good.
#[derive(Debug, Clone, PartialEq, Eq)]
pub struct PaymentTerms {
    pub facilitator_url: String,
    pub required_amount: String,
    pub merchant_address: String,
}

/// The payment header of a request.
#[derive(Debug, Clone, PartialEq, Eq)]
pub enum PaymentHeader {
    /// The request carries no payment header.
    Missing,
    /// The header is there but is not text.
    Unreadable,
    /// The header's text.
    Text(String),
}

/// What came of asking the facilitator.
#[derive(Debug, Clone, PartialEq, Eq)]
pub enum VerificationReply {
    /// The request to the facilitator failed.
    Unreachable { reason: String },
    /// The facilitator answered with something that is no verdict.
    Malformed,
    /// The facilitator's verdict.
    Verdict(VerifyPaymentResponse),
}

/// A request turned away: the HTTP status and the body of the answer.
#[derive(Debug, Clone, PartialEq, Eq)]
pub struct Refusal {
    pub status: u16,
    pub body: PaymentRequiredResponse,
}

/// `given` if there is one, `fallback` otherwise.
pub open spec fn setting(given: Option<String>, fallback: Seq<char>) -> Seq<char> {
    match given {
        Some(text) => text@,
        None => fallback,
    }
}

/// Whether `refusal` has status `status` and a body that names `error`
/// and the terms: the amount, the recipient, ETH on sepolia.
pub open spec fn refuses(
    refusal: Refusal,
    terms: PaymentTerms,
    status: u16,
    error: Seq<char>,
) -> bool {
    &&& refusal.status == status
    &&& refusal.body.error@ == error
    &&& refusal.body.amount@ == terms.required_amount@
    &&& refusal.body.recipient@ == terms.merchant_address@
    &&& text_of(refusal.body.currency) == Some("ETH"@)
    &&& text_of(refusal.body.network) == Some("sepolia"@)
}

/// What a payment that the facilitator rejects is told: the facilitator's
/// reason, or that the reason is unknown.
pub open spec fn rejection_notice(reason: Option<String>) -> Seq<char> {
    "Invalid payment: "@ + setting(reason, "Unknown error"@)
}

impl PaymentTerms {
    /// The terms from the configured values, each with its default: the
    /// public facilitator, 0.001 ETH in wei, and the zero address.
    pub fn from_settings(
        facilitator_url: Option<String>,
        required_amount: Option<String>,
        merchant_address: Option<String>,
    ) -> (terms: PaymentTerms)
        ensures
            terms.facilitator_url@ == setting(
                facilitator_url,
                "https://zkp-service-facilitator.vercel.app"@,
            ),
            terms.required_amount@ == setting(required_amount, "1000000000000000"@),
            terms.merchant_address@ == setting(
                merchant_address,
                "0x0000000000000000000000000000000000000000"@,
            ),
    {
        PaymentTerms {
            facilitator_url: match facilitator_url {
                Some(url) => url,
                None => String::from_str("https://zkp-service-facilitator.vercel.app"),
            },
            required_amount: match required_amount {
                Some(amount) => amount,
                None => String::from_str("1000000000000000"),
            },
            merchant_address: match merchant_address {
                Some(address) => address,
                None => String::from_str("0x0000000000000000000000000000000000000000"),
            },
        }
    }

    /// Where the facilitator verifies payments.
    pub fn verify_url(&self) -> (url: String)
        ensures
            url@ == self.facilitator_url@ + "/api/facilitator/verify"@,
    {
        self.facilitator_url.clone().concat("/api/facilitator/verify")
    }

    /// Turns a request away with `status` and `error`, naming the terms.
    pub fn refuse(&self, status: u16, error: String) -> (refusal: Refusal)
        ensures
            refuses(refusal, *self, status, error@),
    {
        Refusal {
            status,
            body: PaymentRequiredResponse {
                error,
                amount: self.required_amount.clone(),
                recipient: self.merchant_address.clone(),
                currency: Some(String::from_str("ETH")),
                network: Some(String::from_str("sepolia")),
            },
        }
    }

    /// Looks at the payment header. A request without one is asked to pay
    /// (402); a header that is not text is a bad request (400); otherwise
    /// the header's text is the payment proof to parse.
    pub fn screen(&self, header: PaymentHeader) -> (screened: Result<String, Refusal>)
        ensures
            match header {
                PaymentHeader::Missing => screened matches Err(refusal) && refuses(
                    refusal,
                    *self,
                    PAYMENT_REQUIRED,
                    "Payment Required"@,
                ),
                PaymentHeader::Unreadable => screened matches Err(refusal) && refuses(
                    refusal,
                    *self,
                    BAD_REQUEST,
                    "Invalid payment header"@,
                ),
                PaymentHeader::Text(text) => screened == Ok::<String, Refusal>(text),
            },
    {
        match header {
            PaymentHeader::Missing => Err(
                self.refuse(PAYMENT_REQUIRED, String::from_str("Payment Required")),
            ),
            PaymentHeader::Unreadable => Err(
                self.refuse(BAD_REQUEST, String::from_str("Invalid payment header")),
            ),
            PaymentHeader::Text(text) => Ok(text),
        }
    }

    /// Prepares the question to the facilitator from the parsed payment
    /// proof. A header that did not parse is a bad request (400).
    pub fn prepare(&self, parsed: Option<PaymentProof>) -> (prepared: Result<
        VerifyPaymentRequest,
        Refusal,
    >)
        ensures
            match parsed {
                Some(proof) => prepared matches Ok(request) && request.payment_proof == proof
                    && request.required_amount@ == self.required_amount@
                    && request.required_recipient@ == self.merchant_address@,
                None => prepared matches Err(refusal) && refuses(
                    refusal,
                    *self,
                    BAD_REQUEST,
                    "Invalid payment proof format"@,
                ),
            },
    {
        match parsed {
            Some(proof) => Ok(
                VerifyPaymentRequest {
                    payment_proof: proof,
                    required_amount: self.required_amount.clone(),
                    required_recipient: self.merchant_address.clone(),
                },
            ),
            None => Err(
                self.refuse(BAD_REQUEST, String::from_str("Invalid payment proof format")),
            ),
        }
    }

    /// Decides on the facilitator's reply. A valid payment gets the
    /// resource, with the payment's identifier. A rejected payment is asked
    /// to pay (402) and told the facilitator's reason. A facilitator that
    /// could not be reached, or whose answer is no verdict, is a server
    /// error (500).
    pub fn conclude(&self, reply: VerificationReply) -> (decision: Result<
        PaidResourceResponse,
        Refusal,
    >)
        ensures
            match reply {
                VerificationReply::Unreachable { reason } => decision matches Err(refusal)
                    && refuses(
                    refusal,
                    *self,
                    INTERNAL_SERVER_ERROR,
                    "Verification failed: "@ + reason@,
                ),
                VerificationReply::Malformed => decision matches Err(refusal) && refuses(
                    refusal,
                    *self,
                    INTERNAL_SERVER_ERROR,
                    "Failed to parse verification response"@,
                ),
                VerificationReply::Verdict(verdict) => if verdict.valid {
                    decision matches Ok(resource) && resource.success && resource.data@
                        == "Your protected resource"@ && resource.payment_id == verdict.payment_id
                } else {
                    decision matches Err(refusal) && refuses(
                        refusal,
                        *self,
                        PAYMENT_REQUIRED,
                        rejection_notice(verdict.error),
                    )
                },
            },
    {
        match reply {
            VerificationReply::Unreachable { reason } => {
                let error = String::from_str("Verification failed: ").concat(reason.as_str());
                Err(self.refuse(INTERNAL_SERVER_ERROR, error))
            },
            VerificationReply::Malformed => Err(
                self.refuse(
                    INTERNAL_SERVER_ERROR,
                    String::from_str("Failed to parse verification response"),
                ),
            ),
            VerificationReply::Verdict(verdict) => {
                if verdict.valid {
                    Ok(
                        PaidResourceResponse {
                            success: true,
                            data: String::from_str("Your protected resource"),
                            payment_id: verdict.payment_id,
                        },
                    )
                } else {
                    let reason = match verdict.error {
                        Some(text) => text,
                        None => String::from_str("Unknown error"),
                    };
                    let error = String::from_str("Invalid payment: ").concat(reason.as_str());
                    Err(self.refuse(PAYMENT_REQUIRED, error))
                }
            },
        }
    }
}

} // verus!
