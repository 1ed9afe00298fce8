use hivemind_market::clock::Instant;
use hivemind_market::escrow::{
    create_escrow_record, escrow_record_envelope, finish_escrow_release, seal_escrow_record, release_escrow_for_settlement, verify_escrow_record,
    EscrowAuthorizationCheck, EscrowQuoteCheck, EscrowRecordV1, EscrowReleaseRequestV1,
    ESCROW_RECORD_SCHEMA_VERSION, ESCROW_RELEASE_REQUEST_SCHEMA_VERSION,
};
use hivemind_market::findings::{IdentitySignatureCheck, MarketplaceVerificationIssueV1, SignedContent};
use hivemind_market::kinds::{
    EscrowStatusV1, IntegrityTier, PaymentAdapterKind, PrivacyTier, SettlementModel,
};
use hivemind_market::offers::{PriceModel, PriceV1};
use hivemind_market::payment::{
    authorize_payment, payment_authorization_envelope, seal_payment_authorization,
    verify_payment_authorization, AuthorizationCheck, PaymentAuthorizationV1,
    PaymentQuoteCheck, LEGACY_PAYMENT_AUTHORIZATION_SCHEMA_VERSION, PAYMENT_AUTHORIZATION_SCHEMA_VERSION,
    PAYMENT_AUTHORIZATION_VERIFICATION_SCHEMA_VERSION,
};
use hivemind_market::quote::{verify_service_quote, ServiceQuoteV1};
use hivemind_market::receipt_settlement::{
    settlement_from_receipt_with_payment, settlement_from_verified_receipt_with_payment, ReceiptFacts,
};
use hivemind_market::settlement::{
    seal_settlement_event, verify_settlement_event, SettlementEventV1, SETTLEMENT_EVENT_SCHEMA_VERSION,
    SETTLEMENT_EVENT_VERIFICATION_SCHEMA_VERSION,
};

fn now() -> Instant {
    Instant { secs: 1_780_000_000, nanos: 0 }
}

const NOW: &str = "2026-05-28T00:00:00Z";

fn content(id: &str, signature: &str) -> SignedContent {
    SignedContent {
        canonical_id: id.to_string(),
        dev_signature: signature.to_string(),
        identity_check: None,
    }
}

fn receipt() -> ReceiptFacts {
    ReceiptFacts {
        receipt_id: "receipt-1".to_string(),
        request_id: "req-1".to_string(),
        package_ref: "bzz://pkg".to_string(),
        runner_id: "runner-1".to_string(),
        billing_currency: "xDAI".to_string(),
        billing_estimated_cost: 0.01f64.to_bits(),
        verified: true,
    }
}

fn quote(receipt: &ReceiptFacts) -> ServiceQuoteV1 {
    ServiceQuoteV1 {
        schema_version: "hivemind.quote.v1".to_string(),
        quote_id: "quote-1".to_string(),
        job_id: Some("job-quote-1".to_string()),
        request_id: receipt.request_id.clone(),
        offer_id: "offer-1".to_string(),
        listing_id: Some("offer-1".to_string()),
        runner_id: receipt.runner_id.clone(),
        package_ref: receipt.package_ref.clone(),
        estimated_input_tokens: 1,
        estimated_output_tokens: 1,
        estimated_cost: 0.01f64.to_bits(),
        currency: "xDAI".to_string(),
        price: Some(PriceV1 { amount: 0.01f64.to_bits(), currency: "xDAI".to_string() }),
        price_model: Some(PriceModel::PerToken),
        privacy_mode: Some(PrivacyTier::NoLog),
        verification_mode: Some(IntegrityTier::ReceiptOnly),
        estimated_start_delay_ms: Some(0),
        estimated_time_to_first_output_ms: Some(1000),
        estimated_completion_ms: Some(1010),
        cache_hit_claim: Some(false),
        validation_support: vec!["receipt".to_string()],
        settlement_model: SettlementModel::DirectPayPerCall,
        expires_at: "2099-01-01T00:05:00Z".to_string(),
        details_job_id: None,
        details_job_order_job_id: None,
        details_escrow_ref: None,
        details_quote_ref: None,
        details_evidence_refs: Vec::new(),
        quote_timing: None,
        signature: Some("dev-service-quote-signature-v1:quote-1".to_string()),
    }
}

fn quote_check(quote: &ServiceQuoteV1) -> PaymentQuoteCheck {
    PaymentQuoteCheck {
        quote: quote.clone(),
        content: content(&quote.quote_id, "dev-service-quote-signature-v1:quote-1"),
        price_estimate_differs: false,
        amount_differs: false,
        max_below_estimate: false,
    }
}

fn sign_authorization(a: &mut PaymentAuthorizationV1, tag: &str) -> SignedContent {
    let payer = a.payer.clone();
    let id = format!("payment-authorization-{tag}");
    let signature = format!("dev-payment-authorization-signature-v1:{tag}");
    assert!(seal_payment_authorization(a, &payer, id.clone(), signature.clone()));
    content(&id, &signature)
}

fn authorization(quote: &ServiceQuoteV1, payment_ref: &str, tag: &str) -> (PaymentAuthorizationV1, SignedContent) {
    let mut a = authorize_payment(
        quote,
        "0xUser".to_string(),
        "runner-1".to_string(),
        PaymentAdapterKind::LocalDev,
        Some(payment_ref.to_string()),
        NOW.to_string(),
    );
    let c = sign_authorization(&mut a, tag);
    (a, c)
}

fn sign_escrow(e: &mut EscrowRecordV1, tag: &str) -> SignedContent {
    let custodian = e.custodian.clone();
    let id = format!("escrow-{tag}");
    let signature = format!("dev-escrow-record-signature-v1:{tag}");
    assert!(seal_escrow_record(e, &custodian, id.clone(), signature.clone()));
    content(&id, &signature)
}

fn sign_settlement(s: &mut SettlementEventV1, tag: &str) -> SignedContent {
    let payee = s.payee.clone();
    let id = format!("settlement-{tag}");
    let signature = format!("dev-settlement-signature-v1:{tag}");
    assert!(seal_settlement_event(s, &payee, id.clone(), signature.clone()));
    content(&id, &signature)
}

#[test]
fn authorizes_and_verifies_payment_for_quote() {
    let mut quote = quote(&receipt());
    quote.job_id = Some("job-payment-1".to_string());
    quote.details_job_id = Some("job-payment-1".to_string());
    quote.details_escrow_ref = Some("local://escrow/payment-1".to_string());
    let (authorization, signed) = authorization(&quote, "local://payment/auth-1", "1");

    assert!(!authorization.authorization_id.is_empty());
    assert_eq!(authorization.schema_version, PAYMENT_AUTHORIZATION_SCHEMA_VERSION);
    assert_eq!(authorization.job_id.as_deref(), Some("job-payment-1"));
    assert_eq!(authorization.max_amount, Some(quote.estimated_cost));
    assert_eq!(authorization.asset.as_deref(), Some("xDAI"));
    assert_eq!(authorization.method.as_ref(), Some(&PaymentAdapterKind::LocalDev));
    assert_eq!(authorization.escrow_ref.as_deref(), Some("local://escrow/payment-1"));
    assert_eq!(authorization.expires_at, quote.expires_at);

    let verification =
        verify_payment_authorization(&authorization, &signed, Some(&quote_check(&quote)), false, now(), NOW.to_string());

    assert!(verification.valid, "{verification:#?}");
    assert_eq!(verification.schema_version, PAYMENT_AUTHORIZATION_VERIFICATION_SCHEMA_VERSION);
    assert_eq!(verification.issues.len(), 0);
    assert_eq!(verification.expected_signature, authorization.signature);
}

#[test]
fn rejects_tampered_payment_authorization() {
    let quote = quote(&receipt());
    let (mut authorization, _) = authorization(&quote, "local://payment/auth-1", "1");
    authorization.amount = 99.0f64.to_bits();
    let tampered_content = content(&authorization.authorization_id, "dev-payment-authorization-signature-v1:other");
    let mut check = quote_check(&quote);
    check.amount_differs = true;

    let verification =
        verify_payment_authorization(&authorization, &tampered_content, Some(&check), true, now(), NOW.to_string());

    assert!(!verification.valid);
    assert!(verification.issues.iter().any(|issue| issue.path == "$.signature"));
    assert!(verification.issues.iter().any(|issue| issue.path == "$.amount"));
}

#[test]
fn rejects_tampered_identity_signed_payment_authorization() {
    let quote = quote(&receipt());
    let (mut authorization, _) = authorization(&quote, "local://payment/auth-1", "1");
    authorization.signature = "ed25519-envelope:payer".to_string();
    authorization.amount = 99.0f64.to_bits();
    let tampered = SignedContent {
        canonical_id: "payment-authorization-changed".to_string(),
        dev_signature: "dev".to_string(),
        identity_check: Some(IdentitySignatureCheck {
            payload_hash: "bad".to_string(),
            issues: vec![MarketplaceVerificationIssueV1 {
                path: "$.payloadHash".to_string(),
                message: "payload hash does not match".to_string(),
            }],
        }),
    };

    let verification = verify_payment_authorization(&authorization, &tampered, Some(&quote_check(&quote)), true, now(), NOW.to_string());

    assert!(!verification.valid);
    assert!(verification
        .issues
        .iter()
        .any(|issue| issue.path == "$.authorizationId" || issue.path == "$.signature.payloadHash"));
}

#[test]
fn payment_authorization_must_match_quote() {
    let quote = quote(&receipt());
    let mut other_quote = quote.clone();
    other_quote.quote_id = "quote-2".to_string();
    let (authorization, signed) = authorization(&quote, "local://payment/auth-1", "1");

    let verification = verify_payment_authorization(
        &authorization,
        &signed,
        Some(&quote_check(&other_quote)),
        false,
        now(),
        NOW.to_string(),
    );

    assert!(!verification.valid);
    assert!(verification.issues.iter().any(|issue| issue.path == "$.quoteId"));
}

#[test]
fn service_quote_verifies_with_its_signed_content() {
    let quote = quote(&receipt());
    let v = verify_service_quote(
        &quote,
        &content("quote-1", "dev-service-quote-signature-v1:quote-1"),
        None,
        false,
        now(),
        NOW.to_string(),
    );
    assert!(v.valid, "{v:#?}");
    let expired = verify_service_quote(
        &quote,
        &content("quote-1", "dev-service-quote-signature-v1:quote-1"),
        None,
        false,
        Instant { secs: 4_200_000_000, nanos: 0 },
        NOW.to_string(),
    );
    assert!(!expired.valid);
    assert!(expired.issues.iter().any(|issue| issue.path == "$.expiresAt"));
}

fn verified_settlement(
    quote: &ServiceQuoteV1,
    authorization: &PaymentAuthorizationV1,
    authorization_content: &SignedContent,
    receipt_ref: &str,
) -> SettlementEventV1 {
    let check = AuthorizationCheck {
        authorization: authorization.clone(),
        content: authorization_content.clone(),
        exceeds_max: false,
    };
    let draft = settlement_from_verified_receipt_with_payment(
        &receipt(),
        Some(&quote_check(quote)),
        Some(&check),
        "0xUser".to_string(),
        "runner-1".to_string(),
        Some(receipt_ref.to_string()),
        now(),
        NOW.to_string(),
        NOW.to_string(),
    );
    assert!(draft.issues.is_empty(), "{draft:#?}");
    draft.settlement.unwrap()
}

#[test]
fn verified_settlement_links_payment_authorization() {
    let quote = quote(&receipt());
    let (authorization, signed) = authorization(&quote, "local://payment/auth-1", "1");
    let mut settlement = verified_settlement(&quote, &authorization, &signed, "bzz://receipt");
    assert_eq!(settlement.payment_authorization_id, Some(authorization.authorization_id.clone()));
    assert_eq!(settlement.schema_version, SETTLEMENT_EVENT_SCHEMA_VERSION);
    assert_eq!(settlement.payment_ref, Some("local://payment/auth-1".to_string()));
    let settlement_content = sign_settlement(&mut settlement, "1");
    let event_verification = verify_settlement_event(&settlement, &settlement_content, NOW.to_string());
    assert!(event_verification.valid, "{event_verification:#?}");
    assert_eq!(event_verification.schema_version, SETTLEMENT_EVENT_VERIFICATION_SCHEMA_VERSION);
    assert!(event_verification.expected_signature.is_some());
}

#[test]
fn verified_settlement_requires_valid_receipt() {
    let quote = quote(&receipt());
    let draft = settlement_from_verified_receipt_with_payment(
        &receipt(),
        None,
        None,
        "0xUser".to_string(),
        "runner-1".to_string(),
        Some("bzz://receipt".to_string()),
        now(),
        NOW.to_string(),
        NOW.to_string(),
    );
    assert!(draft.issues.is_empty(), "{draft:#?}");
    assert!(draft.settlement.is_some());
    let _ = quote;

    let mut tampered = receipt();
    tampered.verified = false;
    let draft = settlement_from_verified_receipt_with_payment(
        &tampered,
        None,
        None,
        "0xUser".to_string(),
        "runner-1".to_string(),
        None,
        now(),
        NOW.to_string(),
        NOW.to_string(),
    );
    assert!(!draft.issues.is_empty());
    assert!(draft.settlement.is_none());
    assert!(draft.issues.iter().any(|issue| issue.path == "$.receipt"));
}

#[test]
fn verified_settlement_rejects_mismatched_quote() {
    let mut quote = quote(&receipt());
    quote.runner_id = "other-runner".to_string();
    let draft = settlement_from_verified_receipt_with_payment(
        &receipt(),
        Some(&quote_check(&quote)),
        None,
        "0xUser".to_string(),
        "runner-1".to_string(),
        None,
        now(),
        NOW.to_string(),
        NOW.to_string(),
    );
    assert!(draft.settlement.is_none());
    assert!(draft.issues.iter().any(|issue| issue.path == "$.quote.runnerId"));
}

#[test]
fn escrow_record_locks_authorization_and_releases_for_verified_settlement() {
    let quote = quote(&receipt());
    let (authorization, authorization_content) = authorization(&quote, "local://payment/auth-escrow-1", "e1");
    let mut escrow = create_escrow_record(
        &authorization,
        Some(&quote),
        "local-market-escrow".to_string(),
        vec!["local://policy/escrow-v1".to_string()],
        NOW.to_string(),
    );
    assert_eq!(escrow.schema_version, ESCROW_RECORD_SCHEMA_VERSION);
    assert_eq!(escrow.status, EscrowStatusV1::Locked);
    assert_eq!(escrow.authorization_id, authorization.authorization_id);
    assert_eq!(escrow.job_id, authorization.job_id);
    let escrow_content = sign_escrow(&mut escrow, "1");
    assert!(escrow.escrow_id.starts_with("escrow-"));

    let authorization_check = EscrowAuthorizationCheck {
        authorization: authorization.clone(),
        content: authorization_content.clone(),
        exceeds_max: false,
        amount_differs: false,
    };
    let quote_check = EscrowQuoteCheck { quote: quote_check(&quote), amount_differs: false };
    let escrow_verification = verify_escrow_record(
        &escrow,
        &escrow_content,
        Some(&authorization_check),
        Some(&quote_check),
        now(),
        NOW.to_string(),
    );
    assert!(escrow_verification.valid, "{escrow_verification:#?}");
    assert!(escrow_verification.payment_authorization_verification.as_ref().unwrap().valid);

    let mut settlement =
        verified_settlement(&quote, &authorization, &authorization_content, "local://receipt/receipt-escrow-1");
    let settlement_content = sign_settlement(&mut settlement, "escrow-1");
    let request = EscrowReleaseRequestV1 {
        schema_version: ESCROW_RELEASE_REQUEST_SCHEMA_VERSION.to_string(),
        escrow: escrow.clone(),
        settlement: settlement.clone(),
        released_by: "local-market-escrow".to_string(),
        reason: Some("receipt verified and settlement matched escrow".to_string()),
        evidence_refs: vec!["local://operator/release-approval".to_string()],
    };
    let draft = release_escrow_for_settlement(
        &request,
        &escrow_content,
        &settlement_content,
        false,
        now(),
        NOW.to_string(),
        NOW.to_string(),
    );
    assert!(draft.issues.is_empty(), "{draft:#?}");
    assert!(draft.settlement_verification.valid);
    let mut released = draft.escrow.clone().unwrap();
    assert_eq!(released.status, EscrowStatusV1::Released);
    assert_eq!(released.settlement_id.as_deref(), Some(settlement.settlement_id.as_str()));
    assert!(released.released_at.is_some());
    assert!(released
        .evidence_refs
        .iter()
        .any(|reference| reference == &format!("local://settlement/{}", settlement.settlement_id)));
    let released_content = sign_escrow(&mut released, "released");
    let v = verify_escrow_record(&released, &released_content, None, None, now(), NOW.to_string());
    assert!(v.valid, "{v:#?}");
    let result = finish_escrow_release(draft, Some((released, v)), NOW.to_string());
    assert!(result.valid);
}

#[test]
fn escrow_release_rejects_mismatched_settlement() {
    let quote = quote(&receipt());
    let (authorization, authorization_content) = authorization(&quote, "local://payment/auth-escrow-2", "e2");
    let mut escrow =
        create_escrow_record(&authorization, Some(&quote), "local-market-escrow".to_string(), Vec::new(), NOW.to_string());
    let escrow_content = sign_escrow(&mut escrow, "2");
    let mut settlement =
        verified_settlement(&quote, &authorization, &authorization_content, "local://receipt/receipt-escrow-2");
    settlement.amount = (f64::from_bits(settlement.amount) + 1.0).to_bits();
    let settlement_content = sign_settlement(&mut settlement, "escrow-2");

    let request = EscrowReleaseRequestV1 {
        schema_version: ESCROW_RELEASE_REQUEST_SCHEMA_VERSION.to_string(),
        escrow,
        settlement,
        released_by: "local-market-escrow".to_string(),
        reason: None,
        evidence_refs: Vec::new(),
    };
    let draft = release_escrow_for_settlement(
        &request,
        &escrow_content,
        &settlement_content,
        true,
        now(),
        NOW.to_string(),
        NOW.to_string(),
    );
    assert!(draft.escrow.is_none());
    assert!(draft.issues.iter().any(|issue| {
        issue.path == "$.settlement" || issue.path == "$.settlement.amount" || issue.path == "$.settlementId"
    }));
    let result = finish_escrow_release(draft, None, NOW.to_string());
    assert!(!result.valid);
    assert!(result.escrow.is_none());
}

#[test]
fn legacy_payment_authorization_schema_version_still_verifies() {
    let quote = quote(&receipt());
    let mut authorization = authorize_payment(
        &quote,
        "0xUser".to_string(),
        "runner-1".to_string(),
        PaymentAdapterKind::LocalDev,
        Some("local://payment/auth-1".to_string()),
        NOW.to_string(),
    );
    authorization.schema_version = LEGACY_PAYMENT_AUTHORIZATION_SCHEMA_VERSION.to_string();
    authorization.job_id = None;
    authorization.max_amount = None;
    authorization.asset = None;
    authorization.method = None;
    authorization.escrow_ref = None;
    let signed = sign_authorization(&mut authorization, "legacy");

    let verification =
        verify_payment_authorization(&authorization, &signed, Some(&quote_check(&quote)), false, now(), NOW.to_string());

    assert!(verification.valid, "{verification:#?}");
    assert_eq!(verification.schema_version, PAYMENT_AUTHORIZATION_VERIFICATION_SCHEMA_VERSION);
}

fn identity_signed_authorization(quote: &ServiceQuoteV1) -> (PaymentAuthorizationV1, SignedContent) {
    let mut authorization = authorize_payment(
        quote,
        "0xUser".to_string(),
        "runner-1".to_string(),
        PaymentAdapterKind::LocalDev,
        Some("local://payment/auth-1".to_string()),
        NOW.to_string(),
    );
    authorization.authorization_id = "payment-authorization-identity".to_string();
    authorization.signature = "ed25519-envelope:0xUser".to_string();
    let signed = SignedContent {
        canonical_id: "payment-authorization-identity".to_string(),
        dev_signature: "dev".to_string(),
        identity_check: Some(IdentitySignatureCheck { payload_hash: "payer".to_string(), issues: Vec::new() }),
    };
    (authorization, signed)
}

#[test]
fn identity_signed_payment_authorization_verifies() {
    let quote = quote(&receipt());
    let (authorization, signed) = identity_signed_authorization(&quote);
    let verification =
        verify_payment_authorization(&authorization, &signed, Some(&quote_check(&quote)), false, now(), NOW.to_string());
    assert!(verification.valid, "{verification:#?}");
    assert!(verification.expected_signature.starts_with("ed25519-payload-hash:"));
}

#[test]
fn identity_signed_payment_authorization_can_fund_settlement() {
    let quote = quote(&receipt());
    let (authorization, signed) = identity_signed_authorization(&quote);
    let check = AuthorizationCheck { authorization, content: signed, exceeds_max: false };
    let draft = settlement_from_verified_receipt_with_payment(
        &receipt(),
        Some(&quote_check(&quote)),
        Some(&check),
        "0xUser".to_string(),
        "runner-1".to_string(),
        Some("bzz://receipt".to_string()),
        now(),
        NOW.to_string(),
        NOW.to_string(),
    );
    assert!(draft.issues.is_empty(), "{draft:#?}");
    assert!(draft.settlement.is_some());
    assert!(draft
        .payment_authorization_verification
        .as_ref()
        .unwrap()
        .expected_signature
        .starts_with("ed25519-payload-hash:"));
}

#[test]
fn settlement_links_quote_and_receipt() {
    let mut r = receipt();
    r.billing_currency = "none".to_string();
    r.billing_estimated_cost = 0.0f64.to_bits();
    let mut quote = quote(&r);
    quote.schema_version = "swarm-ai.service-quote.v1".to_string();
    quote.job_id = None;
    quote.listing_id = None;
    quote.price = None;
    quote.price_model = None;
    quote.privacy_mode = None;
    quote.verification_mode = None;

    let settlement = settlement_from_receipt_with_payment(
        &r,
        Some(&quote),
        None,
        "0xUser".to_string(),
        "runner-1".to_string(),
        None,
        NOW.to_string(),
    );
    assert_eq!(settlement.quote_id, Some("quote-1".to_string()));
    assert_eq!(settlement.job_id.as_deref(), Some("job-for-req-1"));
    assert_eq!(settlement.receipt_id, "receipt-1");
    assert_eq!(settlement.amount, 0.01f64.to_bits());
    assert_eq!(settlement.asset.as_deref(), Some("xDAI"));
    assert!(settlement.created_at.is_some());
    assert!(settlement.reason.as_deref().unwrap().contains("service quote"));
    assert!(settlement.evidence_refs.iter().any(|reference| reference == "local://receipt/receipt-1"));
    assert!(settlement.evidence_refs.iter().any(|reference| reference == "local://quote/quote-1"));
    assert!(settlement.signature.is_none());
}

#[test]
fn payment_and_escrow_are_sealed_by_payer_and_custodian() {
    let receipt = receipt();
    let quote = quote(&receipt);
    let (mut a, _) = authorization(&quote, "local://payment/1", "seal");
    let e = payment_authorization_envelope(&a);
    assert_eq!(e.context, "payment-authorization");
    assert_eq!(e.signer.as_deref(), Some("0xUser"));
    assert!(!seal_payment_authorization(&mut a, "runner-1", "x".to_string(), "y".to_string()));
    assert_eq!(a.authorization_id, "payment-authorization-seal");
    assert!(seal_payment_authorization(&mut a, "0xUser", "p2".to_string(), "s2".to_string()));
    assert_eq!(a.authorization_id, "p2");
    assert_eq!(a.signature, "s2");
    let escrow = create_escrow_record(&a, Some(&quote), "local-market-escrow".to_string(), Vec::new(), NOW.to_string());
    let x = escrow_record_envelope(&escrow);
    assert_eq!(x.context, "escrow-record");
    assert_eq!(x.signer.as_deref(), Some("local-market-escrow"));
}
