use hivemind_market::clock::Instant;
use hivemind_market::findings::{IdentitySignatureCheck, MarketplaceVerificationIssueV1, SignedContent};
use hivemind_market::kinds::{ApiSurface, IntegrityTier, Modality, PrivacyTier, ReceiptMode, RunnerType};
use hivemind_market::offers::{
    PriceModel, PriceV1, RunnerHardwareV1, RunnerMemoryV1, RunnerOfferV1, RunnerPriceEntryV1,
    RunnerPricingV1, RunnerReputationV1, RunnerServiceLevelV1,
};
use hivemind_market::quote::{
    quote_execution, verify_service_quote, QuoteClock, QuoteOfferCheck, QuoteRequestFacts, ServiceQuoteV1,
    LEGACY_SERVICE_QUOTE_SCHEMA_VERSION, SERVICE_QUOTE_SCHEMA_VERSION,
    SERVICE_QUOTE_VERIFICATION_SCHEMA_VERSION,
};

fn now() -> Instant {
    Instant { secs: 1_780_000_000, nanos: 0 }
}

fn content(id: &str, signature: &str) -> SignedContent {
    SignedContent {
        canonical_id: id.to_string(),
        dev_signature: signature.to_string(),
        identity_check: None,
    }
}

fn runner_offer(runner_id: &str, token_price: f64, p95_first_token_ms: u64, validator_score: f64) -> RunnerOfferV1 {
    RunnerOfferV1 {
        schema_version: "hivemind.runner_offer.v1".to_string(),
        offer_id: format!("offer-{runner_id}"),
        runner_id: runner_id.to_string(),
        identity: Some(format!("local://identity/{runner_id}")),
        public_key: Some("local-dev-placeholder".to_string()),
        runner_type: RunnerType::Marketplace,
        runner_descriptor_ref: format!("local://runners/{runner_id}/descriptor"),
        supported_package_refs: vec!["bzz://pkg".to_string()],
        supported_capabilities: vec!["embedding".to_string(), "chat".to_string()],
        supported_apis: vec![ApiSurface::HivemindNative],
        supported_modalities: vec![Modality::Embedding],
        supported_package_kinds: vec!["model".to_string()],
        supported_model_formats: vec!["remote-openai-compatible".to_string()],
        engines: vec!["openai-compatible".to_string()],
        hardware: Some(RunnerHardwareV1 { accelerator: "gpu".to_string(), gpu_memory_mb: Some(1024), cpu_threads: None }),
        memory: Some(RunnerMemoryV1 { memory_mb: 1024, max_input_bytes: 1_000_000, max_concurrent_jobs: 1 }),
        max_context_tokens: None,
        max_batch_size: None,
        streaming_modes: vec!["none".to_string()],
        price_table: vec![RunnerPriceEntryV1 {
            price_model: PriceModel::PerToken,
            unit: "input-token".to_string(),
            price: PriceV1 { amount: token_price.to_bits(), currency: "xDAI".to_string() },
        }],
        cache_claims: Vec::new(),
        privacy_tiers: vec![PrivacyTier::Standard, PrivacyTier::NoLog],
        verification_tiers: vec![IntegrityTier::ReceiptOnly, IntegrityTier::ValidatorSpotCheck],
        region_hint: None,
        validator_score_ref: Some(format!("local://reputation/{runner_id}")),
        terms_ref: Some("bzz://terms".to_string()),
        expires_at: Some("2099-01-01T00:00:00Z".to_string()),
        pricing: RunnerPricingV1 {
            input_token_price: token_price.to_bits(),
            output_token_price: (token_price * 2.0).to_bits(),
            currency: "xDAI".to_string(),
        },
        service_level: RunnerServiceLevelV1 { p95_first_token_ms, availability_target: 0.99f64.to_bits() },
        reputation: RunnerReputationV1 { validator_score: validator_score.to_bits(), completed_jobs: 100 },
        signature: Some(format!("dev-runner-offer-signature-v1:{runner_id}")),
    }
}

fn request(package_ref: &str, task: &str) -> QuoteRequestFacts {
    QuoteRequestFacts {
        request_id: "req-1".to_string(),
        package_ref: package_ref.to_string(),
        task: task.to_string(),
        receipt_mode: ReceiptMode::HashOnly,
        estimated_input_tokens: 3,
    }
}

fn clock() -> QuoteClock {
    QuoteClock {
        started_at: "2026-06-05T00:00:00Z".to_string(),
        completed_at: "2026-06-05T00:00:00.013Z".to_string(),
        elapsed_ms: 13,
        expires_at: "2099-01-01T00:05:00Z".to_string(),
    }
}

fn sign_quote(q: &mut ServiceQuoteV1, tag: &str) -> SignedContent {
    q.quote_id = format!("quote-{tag}");
    q.signature = Some(format!("dev-service-quote-signature-v1:{tag}"));
    content(&q.quote_id, &format!("dev-service-quote-signature-v1:{tag}"))
}

fn offer_check(offer: &RunnerOfferV1, privacy_supported: bool, expected_cost: f64) -> QuoteOfferCheck {
    QuoteOfferCheck {
        offer: offer.clone(),
        content: content(&offer.offer_id, offer.signature.as_deref().unwrap()),
        privacy_supported,
        expected_cost: expected_cost.to_bits(),
        estimate_differs: false,
        price_differs: false,
    }
}

#[test]
fn quote_uses_offer_pricing_and_supports_package() {
    let offer = runner_offer("runner-1", 0.01, 1200, 0.91);
    let cost: f64 = 3.0 * 0.01 + 2.0 * 0.02;
    let mut quote = quote_execution(
        &request("bzz://pkg", "embedding"),
        &offer,
        Some(2),
        Some(PrivacyTier::NoLog),
        cost.to_bits(),
        clock(),
    )
    .unwrap();
    assert_eq!(quote.schema_version, SERVICE_QUOTE_SCHEMA_VERSION);
    assert_eq!(quote.job_id.as_deref(), Some("job-for-req-1"));
    assert_eq!(quote.listing_id.as_deref(), Some(offer.offer_id.as_str()));
    let price = quote.price.as_ref().unwrap();
    assert_eq!(price.amount, cost.to_bits());
    assert_eq!(price.currency, "xDAI");
    assert_eq!(quote.price_model, Some(PriceModel::PerToken));
    assert_eq!(quote.privacy_mode, Some(PrivacyTier::NoLog));
    assert_eq!(quote.verification_mode, Some(IntegrityTier::ValidatorSpotCheck));
    assert_eq!(quote.estimated_start_delay_ms, Some(0));
    assert_eq!(quote.estimated_time_to_first_output_ms, Some(1200));
    assert_eq!(quote.estimated_completion_ms, Some(1220));
    assert_eq!(quote.cache_hit_claim, Some(false));
    let timing = quote.quote_timing.as_ref().unwrap();
    assert_eq!(timing.schema_version, "hivemind.quote_timing.v1");
    assert!(timing.offer_matched && timing.privacy_matched && timing.verification_matched);
    assert!(quote.validation_support.contains(&"receipt".to_string()));
    assert!(quote.validation_support.contains(&"validator-spot-check".to_string()));
    assert_eq!(quote.estimated_input_tokens, 3);
    assert_eq!(quote.estimated_output_tokens, 2);
    assert_eq!(quote.estimated_cost, cost.to_bits());
    assert!(quote.signature.is_none());

    let signed = sign_quote(&mut quote, "1");
    let verification =
        verify_service_quote(&quote, &signed, Some(&offer_check(&offer, true, cost)), false, now(), "t".to_string());
    assert!(verification.valid, "{verification:#?}");
}

#[test]
fn legacy_service_quote_schema_version_still_verifies_without_v02_fields() {
    let offer = runner_offer("legacy-quote-runner", 0.01, 900, 0.91);
    let cost = 0.07;
    let mut quote = quote_execution(
        &request("bzz://pkg", "embedding"),
        &offer,
        Some(2),
        Some(PrivacyTier::NoLog),
        f64::to_bits(cost),
        clock(),
    )
    .unwrap();
    quote.schema_version = LEGACY_SERVICE_QUOTE_SCHEMA_VERSION.to_string();
    quote.job_id = None;
    quote.listing_id = None;
    quote.price = None;
    quote.price_model = None;
    quote.privacy_mode = None;
    quote.verification_mode = None;
    quote.estimated_start_delay_ms = None;
    quote.estimated_time_to_first_output_ms = None;
    quote.estimated_completion_ms = None;
    quote.cache_hit_claim = None;
    quote.validation_support = Vec::new();
    quote.quote_timing = None;
    let signed = sign_quote(&mut quote, "legacy");

    let verification =
        verify_service_quote(&quote, &signed, Some(&offer_check(&offer, true, cost)), false, now(), "t".to_string());

    assert!(verification.valid, "{verification:#?}");
    assert_eq!(verification.schema_version, SERVICE_QUOTE_VERIFICATION_SCHEMA_VERSION);
}

#[test]
fn quote_rejects_offer_that_cannot_satisfy_request_privacy() {
    let mut offer = runner_offer("standard-only-runner", 0.01, 900, 0.91);
    offer.privacy_tiers = vec![PrivacyTier::Standard];
    let quote = quote_execution(&request("bzz://pkg", "embedding"), &offer, Some(2), None, 0.07f64.to_bits(), clock());
    assert!(quote.is_none());
}

#[test]
fn quote_requires_supported_package_and_task() {
    let offer = runner_offer("runner-1", 0.01, 900, 0.91);
    assert!(quote_execution(
        &request("bzz://other", "embedding"),
        &offer,
        None,
        Some(PrivacyTier::NoLog),
        0,
        clock()
    )
    .is_none());
    assert!(quote_execution(&request("bzz://pkg", "image"), &offer, None, Some(PrivacyTier::NoLog), 0, clock()).is_none());
    let quote =
        quote_execution(&request("bzz://pkg", "chat"), &offer, None, Some(PrivacyTier::NoLog), 0, clock()).unwrap();
    assert_eq!(quote.estimated_output_tokens, 3);
}

#[test]
fn quote_verification_rejects_unsupported_privacy_claim() {
    let offer = runner_offer("quote-privacy-runner", 0.01, 900, 0.91);
    let cost = 0.07;
    let mut quote = quote_execution(
        &request("bzz://pkg", "embedding"),
        &offer,
        Some(2),
        Some(PrivacyTier::NoLog),
        f64::to_bits(cost),
        clock(),
    )
    .unwrap();
    quote.privacy_mode = Some(PrivacyTier::TeeConfidential);
    let signed = sign_quote(&mut quote, "privacy");

    let verification =
        verify_service_quote(&quote, &signed, Some(&offer_check(&offer, false, cost)), false, now(), "t".to_string());

    assert!(!verification.valid);
    assert!(verification.issues.iter().any(|issue| issue.path == "$.privacyMode"));
}

#[test]
fn identity_signed_service_quote_verifies() {
    let offer = runner_offer("runner-1", 0.01, 900, 0.91);
    let mut quote =
        quote_execution(&request("bzz://pkg", "embedding"), &offer, Some(2), Some(PrivacyTier::NoLog), 0.07f64.to_bits(), clock())
            .unwrap();
    quote.quote_id = "quote-identity".to_string();
    quote.signature = Some("ed25519-envelope:runner-1".to_string());
    let signed = SignedContent {
        canonical_id: "quote-identity".to_string(),
        dev_signature: "dev".to_string(),
        identity_check: Some(IdentitySignatureCheck { payload_hash: "h".to_string(), issues: Vec::new() }),
    };
    let verification = verify_service_quote(&quote, &signed, None, false, now(), "t".to_string());
    assert!(verification.valid, "{verification:#?}");
    assert_eq!(verification.expected_signature.as_deref(), Some("ed25519-payload-hash:h"));
}

#[test]
fn rejects_tampered_identity_signed_service_quote() {
    let offer = runner_offer("runner-1", 0.01, 900, 0.91);
    let mut quote =
        quote_execution(&request("bzz://pkg", "embedding"), &offer, Some(2), Some(PrivacyTier::NoLog), 0.07f64.to_bits(), clock())
            .unwrap();
    quote.quote_id = "quote-identity".to_string();
    quote.signature = Some("ed25519-envelope:runner-1".to_string());
    quote.estimated_cost = 0.0001f64.to_bits();
    let tampered = SignedContent {
        canonical_id: "quote-changed".to_string(),
        dev_signature: "dev".to_string(),
        identity_check: Some(IdentitySignatureCheck {
            payload_hash: "bad".to_string(),
            issues: vec![MarketplaceVerificationIssueV1 {
                path: "$.payloadHash".to_string(),
                message: "payload hash mismatch".to_string(),
            }],
        }),
    };
    let verification = verify_service_quote(&quote, &tampered, None, true, now(), "t".to_string());
    assert!(!verification.valid);
    assert!(verification
        .issues
        .iter()
        .any(|issue| issue.path == "$.quoteId" || issue.path == "$.signature.payloadHash"));
}

#[test]
fn rejects_invalid_offer_and_tampered_quote() {
    let mut offer = runner_offer("runner-1", 0.01, 1200, 0.9);
    offer.pricing.input_token_price = (-1.0f64).to_bits();
    let verification = hivemind_market::offers::verify_runner_offer(
        &offer,
        &content(&offer.offer_id, offer.signature.as_deref().unwrap()),
        now(),
        "t".to_string(),
    );
    assert!(!verification.valid);
    assert!(verification.issues.iter().any(|issue| issue.path == "$.pricing.inputTokenPrice"));

    offer.pricing.input_token_price = 0.01f64.to_bits();
    let mut quote =
        quote_execution(&request("bzz://pkg", "embedding"), &offer, Some(2), Some(PrivacyTier::NoLog), 0.07f64.to_bits(), clock())
            .unwrap();
    quote.estimated_cost = 999.0f64.to_bits();
    quote.price = None;
    let signed = sign_quote(&mut quote, "tampered");
    let mut check = offer_check(&offer, true, 0.07);
    check.estimate_differs = true;
    let verification = verify_service_quote(&quote, &signed, Some(&check), false, now(), "t".to_string());
    assert!(!verification.valid);
    assert!(verification.issues.iter().any(|issue| issue.path == "$.estimatedCost"));
    assert_eq!(verification.expected_cost, Some(0.07f64.to_bits()));
}
