use zkp_service::payment::{
    PaymentHeader, PaymentTerms, Refusal, VerificationReply, BAD_REQUEST, INTERNAL_SERVER_ERROR,
    PAYMENT_REQUIRED,
};
use zkp_service::types::{
    PaidResourceResponse, PaymentProof, PaymentRequiredResponse, VerifyPaymentRequest,
    VerifyPaymentResponse,
};

fn terms() -> PaymentTerms {
    PaymentTerms::from_settings(
        Some("http://localhost:9000".to_string()),
        Some("5".to_string()),
        Some("0xabc".to_string()),
    )
}

fn refusal(status: u16, error: &str) -> Refusal {
    Refusal {
        status,
        body: PaymentRequiredResponse {
            error: error.to_string(),
            amount: "5".to_string(),
            recipient: "0xabc".to_string(),
            currency: Some("ETH".to_string()),
            network: Some("sepolia".to_string()),
        },
    }
}

fn payment_proof() -> PaymentProof {
    PaymentProof {
        signature: "0xsig".to_string(),
        amount: "5".to_string(),
        recipient: "0xabc".to_string(),
        payer: "0xdef".to_string(),
        nonce: "n-1".to_string(),
        timestamp: 1_700_000_000,
    }
}

fn verdict(valid: bool, error: Option<&str>) -> VerifyPaymentResponse {
    VerifyPaymentResponse {
        valid,
        payment_id: Some("pay-1".to_string()),
        settlement_tx_hash: None,
        settled: Some(false),
        error: error.map(|e| e.to_string()),
    }
}

#[test]
fn terms_fall_back_to_defaults() {
    assert_eq!(
        PaymentTerms::from_settings(None, None, None),
        PaymentTerms {
            facilitator_url: "https://zkp-service-facilitator.vercel.app".to_string(),
            required_amount: "1000000000000000".to_string(),
            merchant_address: "0x0000000000000000000000000000000000000000".to_string(),
        }
    );
    assert_eq!(
        PaymentTerms::from_settings(None, Some("7".to_string()), None).required_amount,
        "7"
    );
}

#[test]
fn verify_url_appends_the_route() {
    assert_eq!(terms().verify_url(), "http://localhost:9000/api/facilitator/verify");
}

#[test]
fn missing_header_asks_for_payment() {
    assert_eq!(PAYMENT_REQUIRED, 402);
    assert_eq!(
        terms().screen(PaymentHeader::Missing),
        Err(refusal(402, "Payment Required"))
    );
}

#[test]
fn unreadable_header_is_a_bad_request() {
    assert_eq!(BAD_REQUEST, 400);
    assert_eq!(
        terms().screen(PaymentHeader::Unreadable),
        Err(refusal(400, "Invalid payment header"))
    );
}

#[test]
fn readable_header_is_passed_on() {
    assert_eq!(
        terms().screen(PaymentHeader::Text("{\"signature\":\"s\"}".to_string())),
        Ok("{\"signature\":\"s\"}".to_string())
    );
}

#[test]
fn unparsed_proof_is_a_bad_request() {
    assert_eq!(terms().prepare(None), Err(refusal(400, "Invalid payment proof format")));
}

#[test]
fn parsed_proof_becomes_the_question() {
    assert_eq!(
        terms().prepare(Some(payment_proof())),
        Ok(VerifyPaymentRequest {
            payment_proof: payment_proof(),
            required_amount: "5".to_string(),
            required_recipient: "0xabc".to_string(),
        })
    );
}

#[test]
fn unreachable_facilitator_is_a_server_error() {
    assert_eq!(INTERNAL_SERVER_ERROR, 500);
    assert_eq!(
        terms().conclude(VerificationReply::Unreachable { reason: "connection refused".to_string() }),
        Err(refusal(500, "Verification failed: connection refused"))
    );
}

#[test]
fn malformed_verdict_is_a_server_error() {
    assert_eq!(
        terms().conclude(VerificationReply::Malformed),
        Err(refusal(500, "Failed to parse verification response"))
    );
}

#[test]
fn rejected_payment_names_the_reason() {
    assert_eq!(
        terms().conclude(VerificationReply::Verdict(verdict(false, Some("nonce reused")))),
        Err(refusal(402, "Invalid payment: nonce reused"))
    );
    assert_eq!(
        terms().conclude(VerificationReply::Verdict(verdict(false, None))),
        Err(refusal(402, "Invalid payment: Unknown error"))
    );
}

#[test]
fn valid_payment_gets_the_resource() {
    assert_eq!(
        terms().conclude(VerificationReply::Verdict(verdict(true, None))),
        Ok(PaidResourceResponse {
            success: true,
            data: "Your protected resource".to_string(),
            payment_id: Some("pay-1".to_string()),
        })
    );
    let mut anonymous = verdict(true, Some("ignored"));
    anonymous.payment_id = None;
    assert_eq!(
        terms().conclude(VerificationReply::Verdict(anonymous)),
        Ok(PaidResourceResponse {
            success: true,
            data: "Your protected resource".to_string(),
            payment_id: None,
        })
    );
}
