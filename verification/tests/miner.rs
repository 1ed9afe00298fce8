use hivemind_market::clock::Instant;
use hivemind_market::findings::{IdentitySignatureCheck, MarketplaceVerificationIssueV1, SignedContent};
use hivemind_market::kinds::{
    ApiSurface, HardwareExecutionModeV1, IntegrityTier, MinerTrustTierV1, Modality, PrivacyTier,
};
use hivemind_market::miner::{
    miner_benchmark_result, miner_dashboard_summary, miner_heartbeat_from_profile,
    miner_onboarding_plan, miner_profile_from_hardware_offer, recommended_trust_tier,
    verify_miner_benchmark_result, verify_miner_heartbeat, verify_miner_profile,
    MinerBenchmarkMetricV1, MinerBenchmarkResultV1, MinerDaemonStatus, MinerDashboardInputV1,
    MinerProfileV1,
};
use hivemind_market::offers::{
    HardwareAvailabilityV1, HardwareResourceOfferV1, HardwareResourceV1, PriceModel, PriceV1,
    RunnerPriceEntryV1,
};

fn now() -> Instant {
    Instant { secs: 1_750_000_000, nanos: 0 }
}

fn content(id: &str, signature: &str) -> SignedContent {
    SignedContent {
        canonical_id: id.to_string(),
        dev_signature: signature.to_string(),
        identity_check: None,
    }
}

fn default_offer() -> HardwareResourceOfferV1 {
    HardwareResourceOfferV1 {
        schema_version: "hivemind.hardware_resource_offer.v1".to_string(),
        offer_id: "hardware-offer-remote-gpu".to_string(),
        runner_id: "remote-gpu-runner".to_string(),
        operator: "0xMiner".to_string(),
        hardware: HardwareResourceV1 {
            gpu_vendor: Some("nvidia".to_string()),
            gpu_model: Some("rtx-4090".to_string()),
            gpu_count: 1,
            vram_gb: Some(24.0f64.to_bits()),
            cpu_cores: Some(16),
            ram_gb: 64.0f64.to_bits(),
            disk_gb: Some(1000.0f64.to_bits()),
            network_mbps: None,
            driver_version: None,
            runtime_versions: vec!["cuda-12".to_string()],
        },
        supported_execution_modes: vec![HardwareExecutionModeV1::PackageInference],
        supported_engines: vec!["ollama".to_string()],
        supported_apis: vec![ApiSurface::HivemindNative],
        supported_modalities: vec![Modality::Chat],
        price_table: vec![RunnerPriceEntryV1 {
            price_model: PriceModel::PerToken,
            unit: "token".to_string(),
            price: PriceV1 { amount: 0.000001f64.to_bits(), currency: "USD".to_string() },
        }],
        availability: HardwareAvailabilityV1 {
            available_now: true,
            queue_depth: 0,
            max_concurrent_jobs: 1,
            schedule_refs: Vec::new(),
        },
        cache_claims: Vec::new(),
        privacy_tiers: vec![PrivacyTier::Standard],
        verification_tiers: vec![IntegrityTier::ReceiptOnly],
        trust_tier: MinerTrustTierV1::Open,
        stake: None,
        benchmark_result_refs: Vec::new(),
        terms_ref: "bzz://terms".to_string(),
        expires_at: "2099-01-01T00:00:00Z".to_string(),
        signature: Some("dev-hardware-offer-signature-v1:offer".to_string()),
    }
}

fn offer_content() -> SignedContent {
    content("hardware-offer-remote-gpu", "dev-hardware-offer-signature-v1:offer")
}

fn sign_profile(profile: &mut MinerProfileV1, tag: &str) -> SignedContent {
    let id = format!("miner-profile-{tag}");
    let signature = format!("dev-miner-profile-signature-v1:{tag}");
    profile.miner_id = id.clone();
    profile.signature = Some(signature.clone());
    content(&id, &signature)
}

fn sign_benchmark(result: &mut MinerBenchmarkResultV1, tag: &str) -> SignedContent {
    let id = format!("miner-benchmark-{tag}");
    let signature = format!("dev-miner-benchmark-signature-v1:{tag}");
    result.benchmark_id = id.clone();
    result.signature = Some(signature.clone());
    content(&id, &signature)
}

fn smoke_benchmark(profile: &MinerProfileV1, offer: &HardwareResourceOfferV1) -> MinerBenchmarkResultV1 {
    miner_benchmark_result(
        profile,
        offer,
        "local-miner-smoke".to_string(),
        "chat-throughput".to_string(),
        vec![MinerBenchmarkMetricV1 {
            name: "tokens_per_second".to_string(),
            value: 42.0f64.to_bits(),
            unit: "tokens/s".to_string(),
        }],
        vec!["bzz://benchmark-evidence".to_string()],
        "2025-06-01T00:00:00Z".to_string(),
    )
}

#[test]
fn profile_round_trips_from_hardware_offer() {
    let offer = default_offer();
    let mut profile =
        miner_profile_from_hardware_offer(&offer, "0.1.0".to_string(), "2025-06-01T00:00:00Z".to_string());
    let profile_content = sign_profile(&mut profile, "a");
    let verification =
        verify_miner_profile(&profile, &profile_content, Some(&offer), "2025-06-01T00:00:01Z".to_string());
    assert!(verification.valid, "{verification:#?}");
    assert_eq!(profile.runner_id, offer.runner_id);
    assert_eq!(profile.hardware_offer_id, offer.offer_id);
    assert_eq!(verification.expected_signature.as_deref(), profile.signature.as_deref());
}

#[test]
fn onboarding_requires_benchmark_for_sensitive_work() {
    let offer = default_offer();
    let mut profile =
        miner_profile_from_hardware_offer(&offer, "0.1.0".to_string(), "2025-06-01T00:00:00Z".to_string());
    profile.trust_tier = MinerTrustTierV1::Verified;
    profile.privacy_tiers.push(PrivacyTier::NoLog);
    let profile_content = sign_profile(&mut profile, "b");
    let public_plan = miner_onboarding_plan(
        &profile,
        &profile_content,
        &offer,
        &offer_content(),
        &Vec::new(),
        now(),
        "2025-06-01T00:00:02Z".to_string(),
    );
    assert!(public_plan.eligible_for_public_jobs);
    assert!(!public_plan.eligible_for_sensitive_jobs);

    let mut benchmark = smoke_benchmark(&profile, &offer);
    let benchmark_content = sign_benchmark(&mut benchmark, "b");
    let sensitive_plan = miner_onboarding_plan(
        &profile,
        &profile_content,
        &offer,
        &offer_content(),
        &vec![(benchmark, benchmark_content)],
        now(),
        "2025-06-01T00:00:03Z".to_string(),
    );
    assert!(sensitive_plan.eligible_for_sensitive_jobs);
    assert_eq!(sensitive_plan.recommended_trust_tier, MinerTrustTierV1::Verified);
}

#[test]
fn identity_signed_benchmark_detects_tampering() {
    let offer = default_offer();
    let mut profile =
        miner_profile_from_hardware_offer(&offer, "0.1.0".to_string(), "2025-06-01T00:00:00Z".to_string());
    profile.miner_id = "miner-profile-identity".to_string();
    profile.signature = Some("ed25519-envelope:operator".to_string());
    let profile_content = SignedContent {
        canonical_id: "miner-profile-identity".to_string(),
        dev_signature: "dev-miner-profile-signature-v1:identity".to_string(),
        identity_check: Some(IdentitySignatureCheck { payload_hash: "abc".to_string(), issues: Vec::new() }),
    };
    assert!(verify_miner_profile(&profile, &profile_content, Some(&offer), "t".to_string()).valid);

    let mut benchmark = miner_benchmark_result(
        &profile,
        &offer,
        "validator-hidden-suite".to_string(),
        "embedding-batch".to_string(),
        vec![MinerBenchmarkMetricV1 {
            name: "items_per_second".to_string(),
            value: 12.5f64.to_bits(),
            unit: "items/s".to_string(),
        }],
        vec!["sha256://evidence".to_string()],
        "2025-06-01T00:00:00Z".to_string(),
    );
    benchmark.benchmark_id = "miner-benchmark-identity".to_string();
    benchmark.signature = Some("ed25519-envelope:benchmark".to_string());
    let signed = SignedContent {
        canonical_id: "miner-benchmark-identity".to_string(),
        dev_signature: "dev-miner-benchmark-signature-v1:identity".to_string(),
        identity_check: Some(IdentitySignatureCheck { payload_hash: "def".to_string(), issues: Vec::new() }),
    };
    assert!(verify_miner_benchmark_result(&benchmark, &signed, Some(&profile), Some(&offer), "t".to_string()).valid);

    benchmark.metrics[0].value = 99_999.0f64.to_bits();
    let tampered_check = SignedContent {
        canonical_id: "miner-benchmark-identity".to_string(),
        dev_signature: "dev-miner-benchmark-signature-v1:tampered".to_string(),
        identity_check: Some(IdentitySignatureCheck {
            payload_hash: "0bad".to_string(),
            issues: vec![MarketplaceVerificationIssueV1 {
                path: "$.payloadHash".to_string(),
                message: "Signature payload hash does not match signed value".to_string(),
            }],
        }),
    };
    let tampered =
        verify_miner_benchmark_result(&benchmark, &tampered_check, Some(&profile), Some(&offer), "t".to_string());
    assert!(!tampered.valid);
    assert!(tampered.issues.iter().any(|issue| issue.path.starts_with("$.signature")));
    assert!(tampered.issues.iter().any(|issue| issue.path == "$.signature.payloadHash"));
    assert_eq!(tampered.expected_signature.as_deref(), Some("ed25519-payload-hash:0bad"));
}

#[test]
fn onboarding_plan_reports_steps_and_warns_without_benchmarks() {
    let offer = default_offer();
    let mut profile =
        miner_profile_from_hardware_offer(&offer, "0.1.0".to_string(), "2025-06-01T00:00:00Z".to_string());
    let profile_content = sign_profile(&mut profile, "c");
    let plan = miner_onboarding_plan(
        &profile,
        &profile_content,
        &offer,
        &offer_content(),
        &Vec::new(),
        now(),
        "2025-06-01T00:00:02Z".to_string(),
    );
    assert_eq!(plan.steps.len(), 4);
    assert_eq!(plan.steps[0].title, "Create miner profile");
    assert_eq!(plan.steps[0].status, "complete");
    assert_eq!(plan.steps[0].evidence_refs, vec![profile.miner_id.clone()]);
    assert_eq!(plan.steps[1].status, "complete");
    assert_eq!(plan.steps[1].evidence_refs, vec![offer.offer_id.clone()]);
    assert_eq!(plan.steps[2].order, 3);
    assert_eq!(plan.steps[2].status, "pending");
    assert!(plan.steps[2].evidence_refs.is_empty());
    assert_eq!(plan.steps[3].title, "Restrict sensitive jobs by trust tier");
    assert_eq!(plan.steps[3].status, "pending");
    assert_eq!(plan.recommended_trust_tier, MinerTrustTierV1::Open);
    assert!(plan.issues.is_empty());
    let last = plan.warnings.last().unwrap();
    assert_eq!(last.path, "$.benchmarks");
    assert_eq!(
        last.message,
        "No miner benchmark result supplied; keep miner on public or low-risk jobs only"
    );
}

#[test]
fn onboarding_plan_reports_offer_findings_under_hardware_offer() {
    let mut offer = default_offer();
    let mut profile =
        miner_profile_from_hardware_offer(&offer, "0.1.0".to_string(), "2025-06-01T00:00:00Z".to_string());
    let profile_content = sign_profile(&mut profile, "d");
    offer.availability.max_concurrent_jobs = 0;
    let plan = miner_onboarding_plan(
        &profile,
        &profile_content,
        &offer,
        &offer_content(),
        &Vec::new(),
        now(),
        "t".to_string(),
    );
    assert!(!plan.eligible_for_public_jobs);
    assert_eq!(plan.steps[1].status, "pending");
    assert!(plan
        .issues
        .iter()
        .any(|issue| issue.path == "$.hardwareOffer.availability.maxConcurrentJobs"));
}

#[test]
fn recommended_tier_prefers_cryptographic_then_confidential_evidence() {
    let offer = default_offer();
    let mut profile =
        miner_profile_from_hardware_offer(&offer, "0.1.0".to_string(), "2025-06-01T00:00:00Z".to_string());
    assert_eq!(recommended_trust_tier(&profile, false), MinerTrustTierV1::Open);
    assert_eq!(recommended_trust_tier(&profile, true), MinerTrustTierV1::Open);
    profile.trust_tier = MinerTrustTierV1::Staked;
    assert_eq!(recommended_trust_tier(&profile, true), MinerTrustTierV1::Staked);
    profile.trust_tier = MinerTrustTierV1::Cryptographic;
    assert_eq!(recommended_trust_tier(&profile, true), MinerTrustTierV1::Verified);
    profile.privacy_tiers.push(PrivacyTier::TeeConfidential);
    assert_eq!(recommended_trust_tier(&profile, true), MinerTrustTierV1::Confidential);
    profile.verification_tiers.push(IntegrityTier::ZkProofWhenSupported);
    assert_eq!(recommended_trust_tier(&profile, true), MinerTrustTierV1::Cryptographic);
    assert_eq!(recommended_trust_tier(&profile, false), MinerTrustTierV1::Open);
}

#[test]
fn benchmark_metric_must_be_finite_and_non_negative() {
    let offer = default_offer();
    let mut profile =
        miner_profile_from_hardware_offer(&offer, "0.1.0".to_string(), "2025-06-01T00:00:00Z".to_string());
    let _ = sign_profile(&mut profile, "e");
    let mut benchmark = smoke_benchmark(&profile, &offer);
    benchmark.metrics[0].value = (-1.0f64).to_bits();
    let c = sign_benchmark(&mut benchmark, "e");
    let v = verify_miner_benchmark_result(&benchmark, &c, Some(&profile), Some(&offer), "t".to_string());
    assert!(!v.valid);
    assert!(v.issues.iter().any(|issue| issue.path == "$.metrics[0].value"));
    benchmark.metrics[0].value = f64::NAN.to_bits();
    let v = verify_miner_benchmark_result(&benchmark, &c, Some(&profile), Some(&offer), "t".to_string());
    assert!(v.issues.iter().any(|issue| issue.path == "$.metrics[0].value"));
}

#[test]
fn heartbeat_from_profile_reports_profile_capacity() {
    let offer = default_offer();
    let mut profile =
        miner_profile_from_hardware_offer(&offer, "0.1.0".to_string(), "2025-06-01T00:00:00Z".to_string());
    let _ = sign_profile(&mut profile, "f");
    let mut heartbeat = miner_heartbeat_from_profile(
        &profile,
        MinerDaemonStatus::Available,
        2,
        1,
        vec!["job-1".to_string()],
        0.5f64.to_bits(),
        "2025-06-01T00:00:05Z".to_string(),
    );
    assert_eq!(heartbeat.available_ram_gb, 64.0f64.to_bits());
    assert_eq!(heartbeat.available_vram_gb, Some(24.0f64.to_bits()));
    assert_eq!(heartbeat.miner_id, profile.miner_id);
    assert!(heartbeat.signature.is_none());
    heartbeat.heartbeat_id = "miner-heartbeat-f".to_string();
    heartbeat.signature = Some("dev-miner-heartbeat-signature-v1:f".to_string());
    let c = content("miner-heartbeat-f", "dev-miner-heartbeat-signature-v1:f");
    let v = verify_miner_heartbeat(&heartbeat, &c, Some(&profile), "t".to_string());
    assert!(v.valid, "{v:#?}");
}

#[test]
fn benchmark_tiers_default_when_profile_declares_none() {
    let offer = default_offer();
    let mut profile =
        miner_profile_from_hardware_offer(&offer, "0.1.0".to_string(), "2025-06-01T00:00:00Z".to_string());
    profile.privacy_tiers.clear();
    profile.verification_tiers.clear();
    let benchmark = smoke_benchmark(&profile, &offer);
    assert_eq!(benchmark.privacy_tier, PrivacyTier::Standard);
    assert_eq!(benchmark.integrity_tier, IntegrityTier::ReceiptOnly);
    profile.privacy_tiers.push(PrivacyTier::NoLog);
    profile.verification_tiers.push(IntegrityTier::TeeAttested);
    let benchmark = smoke_benchmark(&profile, &offer);
    assert_eq!(benchmark.privacy_tier, PrivacyTier::NoLog);
    assert_eq!(benchmark.integrity_tier, IntegrityTier::TeeAttested);
}

#[test]
fn dashboard_summarizes_heartbeat_plan_and_earnings() {
    let offer = default_offer();
    let mut profile =
        miner_profile_from_hardware_offer(&offer, "0.1.0".to_string(), "2025-06-01T00:00:00Z".to_string());
    let profile_content = sign_profile(&mut profile, "g");
    let heartbeat = miner_heartbeat_from_profile(
        &profile,
        MinerDaemonStatus::Busy,
        3,
        2,
        Vec::new(),
        1.0f64.to_bits(),
        "2025-06-01T00:00:05Z".to_string(),
    );
    let input = MinerDashboardInputV1 {
        profile: profile.clone(),
        heartbeat,
        hardware_offer: offer.clone(),
        benchmarks: Vec::new(),
        completed_jobs: 10,
        settled_jobs: 8,
        disputed_jobs: 1,
        estimated_earnings: None,
    };
    let summary = miner_dashboard_summary(input, &profile_content, &offer_content(), now(), "t".to_string());
    assert_eq!(summary.status, MinerDaemonStatus::Busy);
    assert_eq!(summary.queue_depth, 3);
    assert_eq!(summary.active_jobs, 2);
    assert_eq!(summary.completed_jobs, 10);
    assert_eq!(summary.settled_jobs, 8);
    assert_eq!(summary.disputed_jobs, 1);
    assert_eq!(summary.trust_tier, MinerTrustTierV1::Open);
    assert_eq!(summary.estimated_earnings.amount, 0.0f64.to_bits());
    assert_eq!(summary.estimated_earnings.currency, "USD");
    assert_eq!(summary.benchmark_count, 0);
    assert_eq!(summary.warning_count, 1);
    assert_eq!(summary.hardware_offer_id, offer.offer_id);
}
