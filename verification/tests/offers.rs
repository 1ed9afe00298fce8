use hivemind_market::clock::{out_of_order, passed_before, reached_by, Instant};
use hivemind_market::findings::{IdentitySignatureCheck, MarketplaceVerificationIssueV1, SignedContent};
use hivemind_market::kinds::{
    ApiSurface, HardwareExecutionModeV1, IntegrityTier, MinerTrustTierV1, Modality, PolicyMode,
    PrivacyTier, RunnerType,
};
use hivemind_market::shortlist::{
    default_shortlist_max_results, rank_offers, runner_offer_eligibility, MarketplaceShortlistRequestV1,
    RankedOfferV1,
    ShortlistRejection, MARKETPLACE_SHORTLIST_REQUEST_SCHEMA_VERSION,
};
use hivemind_market::offers::{
    hardware_resource_offer_envelope, runner_offer_envelope, seal_runner_offer,
    verify_hardware_resource_offer, verify_runner_offer, HardwareAvailabilityV1,
    RUNNER_OFFER_SIGNATURE_MISMATCH,
    HardwareResourceOfferV1, HardwareResourceV1, PriceModel, PriceV1, RunnerCacheClaimV1,
    RunnerHardwareV1, RunnerMemoryV1, RunnerOfferV1, RunnerPriceEntryV1, RunnerPricingV1,
    RunnerReputationV1, RunnerServiceLevelV1, LEGACY_HARDWARE_RESOURCE_OFFER_SCHEMA_VERSION,
    LEGACY_RUNNER_OFFER_SCHEMA_VERSION,
};
use hivemind_market::quote::{estimate_input_tokens, service_quote_validation_support};
use hivemind_market::tiers::{
    dedup_execution_modes, execution_modes_from_capability, miner_trust_tier_for_capability,
    preferred_runner_offer_integrity_tier, select_runner_offer_integrity_tier,
};

fn now() -> Instant {
    Instant { secs: 1_780_000_000, nanos: 0 }
}

fn content(id: &str, signature: &str) -> SignedContent {
    SignedContent {
        canonical_id: id.to_string(),
        dev_signature: signature.to_string(),
        identity_check: None,
    }
}

fn price_row() -> RunnerPriceEntryV1 {
    RunnerPriceEntryV1 {
        price_model: PriceModel::PerToken,
        unit: "token".to_string(),
        price: PriceV1 { amount: 0.000002f64.to_bits(), currency: "USD".to_string() },
    }
}

fn runner_offer() -> RunnerOfferV1 {
    RunnerOfferV1 {
        schema_version: "hivemind.runner_offer.v1".to_string(),
        offer_id: "offer-1".to_string(),
        runner_id: "runner-1".to_string(),
        identity: Some("local://identity/runner-1".to_string()),
        public_key: Some("local-dev-placeholder".to_string()),
        runner_type: RunnerType::Marketplace,
        runner_descriptor_ref: "local://runners/runner-1/descriptor".to_string(),
        supported_package_refs: vec!["bzz://pkg".to_string()],
        supported_capabilities: vec!["chat".to_string()],
        supported_apis: vec![ApiSurface::HivemindNative],
        supported_modalities: vec![Modality::Chat],
        supported_package_kinds: vec!["model".to_string()],
        supported_model_formats: vec!["gguf".to_string()],
        engines: vec!["openai-compatible".to_string()],
        hardware: Some(RunnerHardwareV1 {
            accelerator: "gpu".to_string(),
            gpu_memory_mb: Some(24_000),
            cpu_threads: Some(16),
        }),
        memory: Some(RunnerMemoryV1 { memory_mb: 64_000, max_input_bytes: 1_000_000, max_concurrent_jobs: 4 }),
        max_context_tokens: Some(8192),
        max_batch_size: None,
        streaming_modes: vec!["sse".to_string()],
        price_table: vec![price_row()],
        cache_claims: vec![RunnerCacheClaimV1 { package_ref: "bzz://pkg".to_string(), warmed: true }],
        privacy_tiers: vec![PrivacyTier::Standard, PrivacyTier::NoLog],
        verification_tiers: vec![IntegrityTier::ReceiptOnly, IntegrityTier::ValidatorSpotCheck],
        region_hint: Some("eu".to_string()),
        validator_score_ref: Some("local://reputation/runner-1".to_string()),
        terms_ref: Some("bzz://terms".to_string()),
        expires_at: Some("2099-01-01T00:00:00Z".to_string()),
        pricing: RunnerPricingV1 {
            input_token_price: 0.000002f64.to_bits(),
            output_token_price: 0.000002f64.to_bits(),
            currency: "USD".to_string(),
        },
        service_level: RunnerServiceLevelV1 { p95_first_token_ms: 800, availability_target: 0.99f64.to_bits() },
        reputation: RunnerReputationV1 { validator_score: 0.9f64.to_bits(), completed_jobs: 10 },
        signature: Some("dev-runner-offer-signature-v1:offer-1".to_string()),
    }
}

fn runner_content() -> SignedContent {
    content("offer-1", "dev-runner-offer-signature-v1:offer-1")
}

fn hardware_offer() -> HardwareResourceOfferV1 {
    HardwareResourceOfferV1 {
        schema_version: "hivemind.hardware_resource_offer.v1".to_string(),
        offer_id: "hardware-offer-1".to_string(),
        runner_id: "runner-1".to_string(),
        operator: "0xMiner".to_string(),
        hardware: HardwareResourceV1 {
            gpu_vendor: Some("nvidia".to_string()),
            gpu_model: Some("rtx-4090".to_string()),
            gpu_count: 1,
            vram_gb: Some(24.0f64.to_bits()),
            cpu_cores: Some(16),
            ram_gb: 64.0f64.to_bits(),
            disk_gb: None,
            network_mbps: None,
            driver_version: None,
            runtime_versions: Vec::new(),
        },
        supported_execution_modes: vec![HardwareExecutionModeV1::PackageInference],
        supported_engines: vec!["ollama".to_string()],
        supported_apis: vec![ApiSurface::HivemindNative],
        supported_modalities: vec![Modality::Chat],
        price_table: vec![price_row()],
        availability: HardwareAvailabilityV1 {
            available_now: true,
            queue_depth: 0,
            max_concurrent_jobs: 2,
            schedule_refs: Vec::new(),
        },
        cache_claims: Vec::new(),
        privacy_tiers: vec![PrivacyTier::Standard],
        verification_tiers: vec![IntegrityTier::ReceiptOnly],
        trust_tier: MinerTrustTierV1::Open,
        stake: None,
        benchmark_result_refs: Vec::new(),
        terms_ref: "bzz://terms".to_string(),
        expires_at: "2099-01-01T00:00:00Z".to_string(),
        signature: Some("dev-hardware-offer-signature-v1:1".to_string()),
    }
}

fn hardware_content() -> SignedContent {
    content("hardware-offer-1", "dev-hardware-offer-signature-v1:1")
}

fn tampered_identity() -> SignedContent {
    SignedContent {
        canonical_id: "changed".to_string(),
        dev_signature: "dev".to_string(),
        identity_check: Some(IdentitySignatureCheck {
            payload_hash: "bad".to_string(),
            issues: vec![MarketplaceVerificationIssueV1 {
                path: "$.payloadHash".to_string(),
                message: "payload hash mismatch".to_string(),
            }],
        }),
    }
}

#[test]
fn runner_offer_verifies_with_its_signed_content() {
    let v = verify_runner_offer(&runner_offer(), &runner_content(), now(), "t".to_string());
    assert!(v.valid, "{v:#?}");
    assert_eq!(v.expected_signature.as_deref(), Some("dev-runner-offer-signature-v1:offer-1"));
}

#[test]
fn legacy_runner_offer_schema_version_still_verifies_without_v02_fields() {
    let mut offer = runner_offer();
    offer.schema_version = LEGACY_RUNNER_OFFER_SCHEMA_VERSION.to_string();
    offer.identity = None;
    offer.public_key = None;
    offer.supported_package_kinds = Vec::new();
    offer.supported_model_formats = Vec::new();
    offer.engines = Vec::new();
    offer.hardware = None;
    offer.memory = None;
    offer.streaming_modes = Vec::new();
    offer.price_table = Vec::new();
    offer.privacy_tiers = Vec::new();
    offer.verification_tiers = Vec::new();
    offer.validator_score_ref = None;
    offer.terms_ref = None;
    offer.expires_at = None;
    let v = verify_runner_offer(&offer, &runner_content(), now(), "t".to_string());
    assert!(v.valid, "{v:#?}");
}

#[test]
fn current_runner_offer_requires_v02_fields() {
    let mut offer = runner_offer();
    offer.hardware = None;
    offer.expires_at = Some("2000-01-01T00:00:00Z".to_string());
    let v = verify_runner_offer(&offer, &runner_content(), now(), "t".to_string());
    assert!(!v.valid);
    assert!(v.issues.iter().any(|issue| issue.path == "$.hardware"));
    assert!(v.issues.iter().any(|issue| issue.path == "$.expiresAt" && issue.message == "Runner offer has expired"));
}

#[test]
fn identity_signed_runner_offer_verifies() {
    let mut offer = runner_offer();
    offer.signature = Some("ed25519-envelope:runner-1".to_string());
    let signed = SignedContent {
        canonical_id: "offer-1".to_string(),
        dev_signature: "dev".to_string(),
        identity_check: Some(IdentitySignatureCheck { payload_hash: "h".to_string(), issues: Vec::new() }),
    };
    let v = verify_runner_offer(&offer, &signed, now(), "t".to_string());
    assert!(v.valid, "{v:#?}");
    assert_eq!(v.expected_signature.as_deref(), Some("ed25519-payload-hash:h"));
}

#[test]
fn rejects_tampered_identity_signed_runner_offer() {
    let mut offer = runner_offer();
    offer.signature = Some("ed25519-envelope:runner-1".to_string());
    offer.runner_id = "impostor".to_string();
    let v = verify_runner_offer(&offer, &tampered_identity(), now(), "t".to_string());
    assert!(!v.valid);
    assert!(v.issues.iter().any(|issue| issue.path == "$.offerId" || issue.path == "$.signature.payloadHash"));
}

#[test]
fn hardware_resource_offer_summarizes_runner_capacity() {
    let offer = hardware_offer();
    let v = verify_hardware_resource_offer(&offer, &hardware_content(), now(), "t".to_string());
    assert!(v.valid, "{v:#?}");
    assert_eq!(offer.hardware.gpu_count, 1);
    assert_eq!(offer.hardware.ram_gb, 64.0f64.to_bits());
}

#[test]
fn legacy_hardware_resource_offer_schema_version_still_verifies() {
    let mut offer = hardware_offer();
    offer.schema_version = LEGACY_HARDWARE_RESOURCE_OFFER_SCHEMA_VERSION.to_string();
    let v = verify_hardware_resource_offer(&offer, &hardware_content(), now(), "t".to_string());
    assert!(v.valid, "{v:#?}");
}

#[test]
fn identity_signed_hardware_resource_offer_verifies_and_detects_tampering() {
    let mut offer = hardware_offer();
    offer.signature = Some("ed25519-envelope:0xMiner".to_string());
    let signed = SignedContent {
        canonical_id: "hardware-offer-1".to_string(),
        dev_signature: "dev".to_string(),
        identity_check: Some(IdentitySignatureCheck { payload_hash: "h".to_string(), issues: Vec::new() }),
    };
    assert!(verify_hardware_resource_offer(&offer, &signed, now(), "t".to_string()).valid);
    offer.hardware.gpu_count = 8;
    let v = verify_hardware_resource_offer(&offer, &tampered_identity(), now(), "t".to_string());
    assert!(!v.valid);
    assert!(v.issues.iter().any(|issue| issue.path == "$.offerId" || issue.path == "$.signature.payloadHash"));
}

#[test]
fn hardware_offer_rejects_missing_capacity_and_expiry() {
    let mut offer = hardware_offer();
    offer.hardware.gpu_count = 0;
    offer.hardware.cpu_cores = None;
    offer.hardware.ram_gb = 0.0f64.to_bits();
    offer.expires_at = "soon".to_string();
    let v = verify_hardware_resource_offer(&offer, &hardware_content(), now(), "t".to_string());
    assert!(!v.valid);
    assert!(v.issues.iter().any(|issue| issue.path == "$.hardware"));
    assert!(v.issues.iter().any(|issue| issue.path == "$.hardware.ramGb"));
    assert!(v.issues.iter().any(|issue| issue.path == "$.expiresAt"));
}

#[test]
fn execution_modes_follow_capabilities_without_duplicates() {
    let modes = execution_modes_from_capability(
        &vec![Modality::Embedding],
        &vec![ApiSurface::Batch, ApiSurface::EvalRun],
    );
    assert_eq!(
        modes,
        vec![
            HardwareExecutionModeV1::PackageInference,
            HardwareExecutionModeV1::EmbeddingBatch,
            HardwareExecutionModeV1::BatchInference,
            HardwareExecutionModeV1::EvaluationRun,
        ]
    );
    let deduped = dedup_execution_modes(vec![
        HardwareExecutionModeV1::FineTuneSmall,
        HardwareExecutionModeV1::FineTuneSmall,
        HardwareExecutionModeV1::PackageInference,
    ]);
    assert_eq!(deduped, vec![HardwareExecutionModeV1::FineTuneSmall, HardwareExecutionModeV1::PackageInference]);
}

#[test]
fn miner_trust_tier_follows_strongest_evidence() {
    assert_eq!(
        miner_trust_tier_for_capability(&vec![IntegrityTier::ReceiptOnly], &vec![PrivacyTier::Standard]),
        MinerTrustTierV1::Open
    );
    assert_eq!(
        miner_trust_tier_for_capability(&vec![IntegrityTier::ValidatorSpotCheck], &vec![]),
        MinerTrustTierV1::Verified
    );
    assert_eq!(
        miner_trust_tier_for_capability(&vec![IntegrityTier::ReceiptOnly], &vec![PrivacyTier::TeeConfidential]),
        MinerTrustTierV1::Confidential
    );
    assert_eq!(
        miner_trust_tier_for_capability(&vec![IntegrityTier::TeeAttested], &vec![PrivacyTier::FheEncrypted]),
        MinerTrustTierV1::Cryptographic
    );
}

#[test]
fn integrity_tier_selection_prefers_strongest_satisfying_tier() {
    let available = vec![IntegrityTier::ReceiptOnly, IntegrityTier::TeeAttested];
    assert_eq!(preferred_runner_offer_integrity_tier(&available), Some(IntegrityTier::TeeAttested));
    assert_eq!(
        select_runner_offer_integrity_tier(&available, IntegrityTier::ReceiptOnly),
        Some(IntegrityTier::TeeAttested)
    );
    assert_eq!(select_runner_offer_integrity_tier(&available, IntegrityTier::TeeAttested), Some(IntegrityTier::TeeAttested));
    assert_eq!(select_runner_offer_integrity_tier(&available, IntegrityTier::ZkProofWhenSupported), None);
    assert_eq!(preferred_runner_offer_integrity_tier(&vec![]), None);
}

#[test]
fn validation_support_lists_offered_checks_sorted() {
    let support = service_quote_validation_support(&runner_offer());
    assert_eq!(
        support,
        vec!["receipt".to_string(), "validator-reputation-summary".to_string(), "validator-spot-check".to_string()]
    );
    let mut plain = runner_offer();
    plain.verification_tiers = vec![IntegrityTier::ReceiptOnly];
    plain.reputation.validator_score = 0.0f64.to_bits();
    assert_eq!(service_quote_validation_support(&plain), vec!["receipt".to_string()]);
}

#[test]
fn input_tokens_are_estimated_from_text_or_json_length() {
    assert_eq!(estimate_input_tokens(Some("hello local model"), 0), 3);
    assert_eq!(estimate_input_tokens(Some(""), 0), 1);
    assert_eq!(estimate_input_tokens(None, 40), 10);
    assert_eq!(estimate_input_tokens(None, 0), 1);
    assert_eq!(estimate_input_tokens(None, u64::MAX), u64::MAX / 4);
}

fn shortlist_request(package_ref: &str, task: &str) -> MarketplaceShortlistRequestV1 {
    MarketplaceShortlistRequestV1 {
        schema_version: MARKETPLACE_SHORTLIST_REQUEST_SCHEMA_VERSION.to_string(),
        package_ref: package_ref.to_string(),
        task: task.to_string(),
        api_surface: Some(ApiSurface::HivemindNative),
        modality: Some(Modality::Chat),
        estimated_input_tokens: 10,
        estimated_output_tokens: 5,
        required_privacy_tier: Some(PrivacyTier::NoLog),
        required_verification_tier: Some(IntegrityTier::ReceiptOnly),
        policy_mode: PolicyMode::Balanced,
        max_results: default_shortlist_max_results(),
        include_rejected: true,
    }
}

#[test]
fn shortlist_accepts_matching_verified_offer() {
    let offer = runner_offer();
    let e = runner_offer_eligibility(
        &shortlist_request("bzz://pkg", "chat"),
        &offer,
        &runner_content(),
        Some(PrivacyTier::NoLog),
        now(),
        "t".to_string(),
    );
    assert!(e.eligible, "{e:#?}");
    assert!(e.rejections.is_empty());
    assert!(e.api_matches && e.modality_matches);
    assert_eq!(e.selected_verification_tier, Some(IntegrityTier::ValidatorSpotCheck));
    assert!(e.cache_hit_claim);
    assert_eq!(default_shortlist_max_results(), 5);
}

#[test]
fn shortlist_rejects_unsupported_offer_when_requested() {
    let offer = runner_offer();
    let e = runner_offer_eligibility(
        &shortlist_request("bzz://other", "image"),
        &offer,
        &runner_content(),
        Some(PrivacyTier::NoLog),
        now(),
        "t".to_string(),
    );
    assert!(!e.eligible);
    assert_eq!(e.rejections, vec![ShortlistRejection::PackageNotSupported, ShortlistRejection::TaskNotSupported]);
    assert!(!e.cache_hit_claim);
}

#[test]
fn shortlist_enforces_privacy_api_modality_and_verification_filters() {
    let mut offer = runner_offer();
    offer.supported_apis = vec![ApiSurface::HivemindNative];
    offer.supported_modalities = vec![Modality::Text];
    offer.privacy_tiers = vec![PrivacyTier::Standard];
    offer.verification_tiers = vec![IntegrityTier::ReceiptOnly];
    let mut request = shortlist_request("bzz://pkg", "chat");
    request.api_surface = Some(ApiSurface::OpenAiEmbeddings);
    request.modality = Some(Modality::Embedding);
    request.required_privacy_tier = Some(PrivacyTier::TeeConfidential);
    request.required_verification_tier = Some(IntegrityTier::ValidatorSpotCheck);
    let e = runner_offer_eligibility(&request, &offer, &runner_content(), None, now(), "t".to_string());
    assert!(!e.eligible);
    assert!(e.selected_privacy_tier.is_none());
    assert!(e.selected_verification_tier.is_none());
    assert_eq!(
        e.rejections,
        vec![
            ShortlistRejection::ApiSurfaceNotSupported(ApiSurface::OpenAiEmbeddings),
            ShortlistRejection::ModalityNotSupported(Modality::Embedding),
            ShortlistRejection::PrivacyTierNotSatisfied(PrivacyTier::TeeConfidential),
            ShortlistRejection::VerificationTierNotSatisfied(IntegrityTier::ValidatorSpotCheck),
        ]
    );
}

#[test]
fn privacy_first_policy_rejects_remote_runners_and_unverified_offers() {
    let mut request = shortlist_request("bzz://pkg", "chat");
    request.policy_mode = PolicyMode::PrivacyFirst;
    request.schema_version = "unknown".to_string();
    let e = runner_offer_eligibility(
        &request,
        &runner_offer(),
        &content("offer-other", "dev-runner-offer-signature-v1:offer-1"),
        Some(PrivacyTier::NoLog),
        now(),
        "t".to_string(),
    );
    assert!(!e.verification.valid);
    assert_eq!(
        e.rejections,
        vec![
            ShortlistRejection::UnsupportedRequestSchema,
            ShortlistRejection::OfferDoesNotVerify,
            ShortlistRejection::PrivacyFirstAvoidsRemote,
        ]
    );
    let mut local = runner_offer();
    local.runner_type = RunnerType::Local;
    request.schema_version = MARKETPLACE_SHORTLIST_REQUEST_SCHEMA_VERSION.to_string();
    let e = runner_offer_eligibility(&request, &local, &runner_content(), Some(PrivacyTier::NoLog), now(), "t".to_string());
    assert!(e.eligible, "{e:#?}");
}

#[test]
fn runner_offer_edited_after_signing_fails_at_its_signature() {
    let mut offer = runner_offer();
    offer.signature = Some("dev-runner-offer-signature-v1:stale".to_string());
    let v = verify_runner_offer(&offer, &runner_content(), now(), "t".to_string());
    assert!(!v.valid);
    assert!(v
        .issues
        .iter()
        .any(|issue| issue.path == "$.signature" && issue.message == RUNNER_OFFER_SIGNATURE_MISMATCH));
    assert_eq!(v.expected_signature.as_deref(), Some(runner_content().dev_signature.as_str()));
}

#[test]
fn deadlines_and_order_of_parsed_instants() {
    let t = Instant { secs: 100, nanos: 5 };
    let later = Instant { secs: 100, nanos: 6 };
    assert_eq!(passed_before(Some(t), later), Some(true));
    assert_eq!(passed_before(Some(t), t), Some(false));
    assert_eq!(passed_before(None, t), None);
    assert_eq!(reached_by(Some(t), t), Some(true));
    assert_eq!(reached_by(Some(later), t), Some(false));
    assert_eq!(reached_by(None, t), None);
    assert!(out_of_order(Some(later), Some(t)));
    assert!(!out_of_order(Some(t), Some(t)));
    assert!(!out_of_order(None, Some(t)));
}

#[test]
fn runner_offer_expires_once_its_expiry_is_reached() {
    let mut offer = runner_offer();
    let at = offer.expires_at.clone().unwrap();
    let v = verify_runner_offer(&offer, &runner_content(), now(), "t".to_string());
    assert!(v.valid, "{v:#?} {at}");
    offer.expires_at = Some("2020-01-01T00:00:00Z".to_string());
    let v = verify_runner_offer(&offer, &runner_content(), now(), "t".to_string());
    assert!(v.issues.iter().any(|i| i.path == "$.expiresAt" && i.message == "Runner offer has expired"));
}

#[test]
fn offers_are_sealed_only_by_their_runner() {
    let mut offer = runner_offer();
    assert!(!seal_runner_offer(&mut offer, "someone-else", "x".to_string(), "y".to_string()));
    assert_eq!(offer.offer_id, runner_offer().offer_id);
    assert!(seal_runner_offer(&mut offer, "runner-1", "offer-2".to_string(), "sig".to_string()));
    assert_eq!(offer.offer_id, "offer-2");
    assert_eq!(offer.signature.as_deref(), Some("sig"));
    let e = runner_offer_envelope(&offer);
    assert_eq!(e.context, "runner-offer");
    assert_eq!(e.signer.as_deref(), Some("runner-1"));
    let h = hardware_resource_offer_envelope(&hardware_offer());
    assert_eq!(h.context, "hardware-resource-offer");
    assert_eq!(h.signer, Some(hardware_offer().operator));
}

fn candidate(index: usize, runner: &str, offer: &str, eligible: bool, score: f64) -> RankedOfferV1 {
    RankedOfferV1 {
        index,
        offer_id: offer.to_string(),
        runner_id: runner.to_string(),
        eligible,
        score: score.to_bits(),
    }
}

#[test]
fn offers_rank_by_score_then_runner_then_offer() {
    let offers = vec![
        candidate(0, "runner-b", "offer-1", true, 2.5),
        candidate(1, "runner-a", "offer-2", true, 2.5),
        candidate(2, "runner-a", "offer-1", true, 2.5),
        candidate(3, "runner-c", "offer-3", false, -1.0),
        candidate(4, "runner-d", "offer-4", true, 7.0),
        candidate(5, "runner-e", "offer-5", true, -0.0),
    ];
    let ranking = rank_offers(false, 10, offers.clone());
    let order: Vec<(u32, usize)> = ranking.iter().map(|(rank, o)| (*rank, o.index)).collect();
    assert_eq!(order, vec![(1, 4), (2, 2), (3, 1), (4, 0), (5, 5)]);

    let with_rejected = rank_offers(true, 0, offers.clone());
    assert_eq!(with_rejected.len(), 1);
    assert_eq!(with_rejected[0].1.index, 4);

    let top_two = rank_offers(true, 2, offers);
    let indices: Vec<usize> = top_two.iter().map(|(_, o)| o.index).collect();
    assert_eq!(indices, vec![4, 2]);
}
