use hivemind_market::capability::{
    default_hardware_resource_offer, default_local_runner_offer, hardware_offer_price_table,
    hardware_resource_offer_from_capability, offer_from_runner_descriptor, runner_offer_price_table,
    RunnerCapabilityV1, DEFAULT_AVAILABILITY_TARGET, DEFAULT_VALIDATOR_SCORE,
};
use hivemind_market::clock::Instant;
use hivemind_market::findings::SignedContent;
use hivemind_market::kinds::{
    ApiSurface, HardwareExecutionModeV1, IntegrityTier, MinerTrustTierV1, Modality, PolicyMode,
    PrivacyTier, ReceiptMode, RunnerType,
};
use hivemind_market::offers::{
    verify_hardware_resource_offer, verify_runner_offer, PriceModel, PriceV1, RunnerCacheClaimV1,
    RunnerHardwareV1, RunnerMemoryV1, RunnerPriceEntryV1, RunnerPricingV1, RunnerReputationV1,
    RunnerServiceLevelV1,
};
use hivemind_market::quote::QuoteRequestFacts;
use hivemind_market::shortlist::shortlist_request_from_execution;

fn capability() -> RunnerCapabilityV1 {
    RunnerCapabilityV1 {
        runner_id: "remote gpu/1".to_string(),
        supported_apis: vec![ApiSurface::HivemindNative, ApiSurface::Batch],
        supported_modalities: vec![Modality::Embedding],
        supported_package_kinds: vec!["model".to_string()],
        supported_model_formats: vec!["gguf".to_string()],
        engines: vec!["openai-compatible".to_string()],
        hardware: RunnerHardwareV1 { accelerator: "gpu".to_string(), gpu_memory_mb: Some(24_576), cpu_threads: Some(8) },
        memory: RunnerMemoryV1 { memory_mb: 65_536, max_input_bytes: 1_000_000, max_concurrent_jobs: 2 },
        max_context_tokens: Some(8192),
        max_batch_size: None,
        streaming_modes: vec!["sse".to_string()],
        price_table: Vec::new(),
        cache_claims: vec![RunnerCacheClaimV1 { package_ref: "bzz://pkg".to_string(), warmed: true }],
        privacy_tiers: vec![PrivacyTier::Standard, PrivacyTier::TeeConfidential],
        verification_tiers: vec![IntegrityTier::ReceiptOnly],
        region_hint: None,
    }
}

fn pricing(input: f64, output: f64, currency: &str) -> RunnerPricingV1 {
    RunnerPricingV1 {
        input_token_price: input.to_bits(),
        output_token_price: output.to_bits(),
        currency: currency.to_string(),
    }
}

fn row(unit: &str) -> RunnerPriceEntryV1 {
    RunnerPriceEntryV1 {
        price_model: PriceModel::PerCall,
        unit: unit.to_string(),
        price: PriceV1 { amount: 0.5f64.to_bits(), currency: "USD".to_string() },
    }
}

#[test]
fn runner_offer_price_table_prefers_capability_table_when_unpriced() {
    let table = runner_offer_price_table(&pricing(0.0, -0.0, "none"), vec![row("call")]);
    assert_eq!(table.len(), 1);
    assert_eq!(table[0].unit, "call");
    let table = runner_offer_price_table(&pricing(0.01, 0.02, "xDAI"), vec![row("call")]);
    assert_eq!(table.len(), 2);
    assert_eq!(table[0].unit, "input_token");
    assert_eq!(table[0].price.amount, 0.01f64.to_bits());
    assert_eq!(table[1].unit, "output_token");
    assert_eq!(table[1].price.currency, "xDAI");
    let table = runner_offer_price_table(&pricing(0.0, 0.0, "none"), Vec::new());
    assert_eq!(table.len(), 2);
}

#[test]
fn offer_from_runner_descriptor_names_references_after_the_runner() {
    let offer = offer_from_runner_descriptor(
        "remote gpu/1",
        RunnerType::RemoteGpu,
        vec!["embedding".to_string()],
        capability(),
        "bzz://descriptor".to_string(),
        vec!["bzz://pkg".to_string()],
        pricing(0.01, 0.02, "xDAI"),
        RunnerServiceLevelV1 { p95_first_token_ms: 1200, availability_target: 0.99f64.to_bits() },
        RunnerReputationV1 { validator_score: 0.9f64.to_bits(), completed_jobs: 42 },
        "2099-01-01T00:00:00Z".to_string(),
    );
    assert_eq!(offer.identity.as_deref(), Some("local://runner/remote-gpu-1"));
    assert_eq!(offer.validator_score_ref.as_deref(), Some("local://reputation/runner/remote-gpu-1"));
    assert_eq!(offer.terms_ref.as_deref(), Some("local://terms/runner-offer/remote-gpu-1"));
    assert_eq!(offer.supported_capabilities, vec!["embedding".to_string()]);
    assert_eq!(offer.price_table.len(), 2);
    assert!(offer.signature.is_none());
    assert!(offer.offer_id.is_empty());
    let mut signed = offer.clone();
    signed.offer_id = "offer-remote".to_string();
    signed.signature = Some("dev-runner-offer-signature-v1:remote".to_string());
    let content = SignedContent {
        canonical_id: "offer-remote".to_string(),
        dev_signature: "dev-runner-offer-signature-v1:remote".to_string(),
        identity_check: None,
    };
    let v = verify_runner_offer(&signed, &content, Instant { secs: 1_780_000_000, nanos: 0 }, "t".to_string());
    assert!(v.valid, "{v:#?}");
}

#[test]
fn default_local_runner_offer_is_unpriced() {
    let mut cap = capability();
    cap.price_table = vec![row("call")];
    let offer = default_local_runner_offer(
        "local-dev-runner",
        RunnerType::Local,
        vec!["chat".to_string()],
        cap,
        Vec::new(),
        "2099-01-01T00:00:00Z".to_string(),
    );
    assert_eq!(offer.pricing.currency, "none");
    assert_eq!(offer.service_level.availability_target, 0.99f64.to_bits());
    assert_eq!(DEFAULT_AVAILABILITY_TARGET, 0.99f64.to_bits());
    assert_eq!(offer.reputation.validator_score, 0.80f64.to_bits());
    assert_eq!(DEFAULT_VALIDATOR_SCORE, 0.80f64.to_bits());
    assert_eq!(offer.price_table.len(), 1);
    assert_eq!(offer.runner_descriptor_ref, "local://runner-descriptor/local-dev-runner");
}

#[test]
fn hardware_offer_from_capability_summarizes_capacity() {
    let offer = hardware_resource_offer_from_capability(
        capability(),
        "0xMiner".to_string(),
        "bzz://terms".to_string(),
        "2099-01-01T00:00:00Z".to_string(),
        Some(24.0f64.to_bits()),
        64.0f64.to_bits(),
    );
    assert_eq!(offer.hardware.gpu_count, 1);
    assert_eq!(offer.hardware.gpu_model.as_deref(), Some("unspecified-gpu"));
    assert_eq!(offer.hardware.cpu_cores, Some(8));
    assert_eq!(offer.hardware.runtime_versions, vec!["openai-compatible".to_string()]);
    assert_eq!(
        offer.supported_execution_modes,
        vec![
            HardwareExecutionModeV1::PackageInference,
            HardwareExecutionModeV1::EmbeddingBatch,
            HardwareExecutionModeV1::BatchInference,
        ]
    );
    assert_eq!(offer.trust_tier, MinerTrustTierV1::Confidential);
    assert_eq!(offer.availability.max_concurrent_jobs, 2);
    assert_eq!(offer.price_table.len(), 1);
    assert_eq!(offer.price_table[0].price.currency, "quote-required");
    assert_eq!(offer.price_table[0].price_model, PriceModel::PerSecond);
    let mut signed = offer.clone();
    signed.offer_id = "hardware-offer-x".to_string();
    signed.signature = Some("dev-hardware-offer-signature-v1:x".to_string());
    let content = SignedContent {
        canonical_id: "hardware-offer-x".to_string(),
        dev_signature: "dev-hardware-offer-signature-v1:x".to_string(),
        identity_check: None,
    };
    let v = verify_hardware_resource_offer(&signed, &content, Instant { secs: 1_780_000_000, nanos: 0 }, "t".to_string());
    assert!(v.valid, "{v:#?}");
}

#[test]
fn hardware_offer_keeps_capability_price_table() {
    let table = hardware_offer_price_table(vec![row("hour")]);
    assert_eq!(table.len(), 1);
    assert_eq!(table[0].unit, "hour");
    let offer = default_hardware_resource_offer(
        capability(),
        "0xMiner".to_string(),
        "2099-01-01T00:00:00Z".to_string(),
        None,
        8.0f64.to_bits(),
    );
    assert_eq!(offer.terms_ref, "local://terms/hardware-resource-offer/dev");
    assert_eq!(offer.hardware.vram_gb, None);
}

#[test]
fn shortlist_request_follows_execution_request() {
    let facts = QuoteRequestFacts {
        request_id: "req-1".to_string(),
        package_ref: "bzz://pkg".to_string(),
        task: "embedding".to_string(),
        receipt_mode: ReceiptMode::HashOnly,
        estimated_input_tokens: 7,
    };
    let request = shortlist_request_from_execution(&facts, PolicyMode::CostFirst, 3);
    assert_eq!(request.modality, Some(Modality::Embedding));
    assert_eq!(request.api_surface, Some(ApiSurface::HivemindNative));
    assert_eq!(request.estimated_input_tokens, 7);
    assert_eq!(request.estimated_output_tokens, 7);
    assert_eq!(request.required_privacy_tier, Some(PrivacyTier::NoLog));
    assert_eq!(request.required_verification_tier, Some(IntegrityTier::ReceiptOnly));
    assert_eq!(request.max_results, 3);
    assert!(!request.include_rejected);
}
