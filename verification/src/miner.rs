//! Miners: the operator profile of a runner's hardware, its heartbeats, its
//! benchmark results, the rules each must pass, and the onboarding plan and
//! dashboard built from them.
use crate::clock::{parse_rfc3339, rfc3339_instant, Instant};
use crate::findings::{envelope_subject, EnvelopeSubject, copy_issues, copy_opt, opt_text_eq, copy_texts, expected_signature, push_text, identity_view, indexed, indexed_path, marketplace_issue, issues_view, opt_view, present_text, present_text_of, Findings, IssueView, MarketplaceVerificationIssueV1, Report, SignedContent};
use crate::ieee::{f64_eq, f64_is_finite, f64_le_zero, f64_lt_zero, feq, is_finite, le_zero, lt_zero};
use crate::kinds::{ApiSurface, HardwareExecutionModeV1, IntegrityTier, MinerTrustTierV1, Modality, PrivacyTier};
use crate::offers::{hardware_offer_report, verify_hardware_resource_offer, HardwareResourceOfferV1, HardwareResourceV1, PriceV1, RunnerCacheClaimV1};
use crate::tiers::{has_integrity, has_privacy};
use crate::text::{blank, is_blank, text_eq};
use vstd::prelude::*;

verus! {

pub const MINER_PROFILE_SCHEMA_VERSION: &'static str = "swarm-ai.miner-profile.v1";

pub const MINER_PROFILE_VERIFICATION_SCHEMA_VERSION: &'static str =
    "swarm-ai.miner-profile-verification.v1";

pub const MINER_HEARTBEAT_SCHEMA_VERSION: &'static str = "swarm-ai.miner-heartbeat.v1";

pub const MINER_HEARTBEAT_VERIFICATION_SCHEMA_VERSION: &'static str =
    "swarm-ai.miner-heartbeat-verification.v1";

pub const MINER_BENCHMARK_SCHEMA_VERSION: &'static str = "swarm-ai.miner-benchmark-result.v1";

pub const MINER_BENCHMARK_VERIFICATION_SCHEMA_VERSION: &'static str =
    "swarm-ai.miner-benchmark-verification.v1";

pub const MINER_ONBOARDING_PLAN_SCHEMA_VERSION: &'static str = "swarm-ai.miner-onboarding-plan.v1";

pub const MINER_DASHBOARD_SUMMARY_SCHEMA_VERSION: &'static str =
    "swarm-ai.miner-dashboard-summary.v1";

/// What a miner daemon reports itself doing.
#[derive(Debug, Clone, Copy, PartialEq, Eq, Structural)]
pub enum MinerDaemonStatus {
    Starting,
    Available,
    Busy,
    Draining,
    Offline,
    Error,
}

/// The kinds of miner records.
#[derive(Debug, Clone, Copy, PartialEq, Eq, Structural)]
pub enum MinerRecordType {
    Profile,
    Heartbeat,
    Benchmark,
}

/// An operator's profile of a miner.
#[derive(Debug, Clone)]
pub struct MinerProfileV1 {
    pub schema_version: String,
    pub miner_id: String,
    pub operator: String,
    pub runner_id: String,
    pub daemon_version: String,
    pub hardware: HardwareResourceV1,
    pub supported_execution_modes: Vec<HardwareExecutionModeV1>,
    pub supported_engines: Vec<String>,
    pub supported_apis: Vec<ApiSurface>,
    pub supported_modalities: Vec<Modality>,
    pub privacy_tiers: Vec<PrivacyTier>,
    pub verification_tiers: Vec<IntegrityTier>,
    pub trust_tier: MinerTrustTierV1,
    pub hardware_offer_id: String,
    pub terms_ref: String,
    pub created_at: String,
    pub signature: Option<String>,
}

/// What the verification of a miner profile found.
#[derive(Debug, Clone)]
pub struct MinerProfileVerificationV1 {
    pub schema_version: String,
    pub miner_id: String,
    pub valid: bool,
    pub issues: Vec<MarketplaceVerificationIssueV1>,
    pub warnings: Vec<MarketplaceVerificationIssueV1>,
    pub expected_signature: Option<String>,
    pub verified_at: String,
}

/// A miner's heartbeat. `available_vram_gb`, `available_ram_gb` and
/// `load_average` are IEEE 754 bit patterns.
#[derive(Debug, Clone)]
pub struct MinerHeartbeatV1 {
    pub schema_version: String,
    pub heartbeat_id: String,
    pub miner_id: String,
    pub runner_id: String,
    pub status: MinerDaemonStatus,
    pub observed_at: String,
    pub queue_depth: u32,
    pub active_jobs: u32,
    pub current_job_ids: Vec<String>,
    pub available_vram_gb: Option<u64>,
    pub available_ram_gb: u64,
    pub load_average: u64,
    pub cache_claims: Vec<RunnerCacheClaimV1>,
    pub errors: Vec<String>,
    pub signature: Option<String>,
}

/// What the verification of a heartbeat found.
#[derive(Debug, Clone)]
pub struct MinerHeartbeatVerificationV1 {
    pub schema_version: String,
    pub heartbeat_id: String,
    pub valid: bool,
    pub issues: Vec<MarketplaceVerificationIssueV1>,
    pub warnings: Vec<MarketplaceVerificationIssueV1>,
    pub expected_signature: Option<String>,
    pub verified_at: String,
}

/// One benchmark metric; `value` is an IEEE 754 bit pattern.
#[derive(Debug, Clone)]
pub struct MinerBenchmarkMetricV1 {
    pub name: String,
    pub value: u64,
    pub unit: String,
}

/// A miner's benchmark result.
#[derive(Debug, Clone)]
pub struct MinerBenchmarkResultV1 {
    pub schema_version: String,
    pub benchmark_id: String,
    pub miner_id: String,
    pub runner_id: String,
    pub hardware_offer_id: String,
    pub benchmark_suite: String,
    pub workload: String,
    pub metrics: Vec<MinerBenchmarkMetricV1>,
    pub evidence_refs: Vec<String>,
    pub privacy_tier: PrivacyTier,
    pub integrity_tier: IntegrityTier,
    pub measured_at: String,
    pub signature: Option<String>,
}

/// What the verification of a benchmark result found.
#[derive(Debug, Clone)]
pub struct MinerBenchmarkVerificationV1 {
    pub schema_version: String,
    pub benchmark_id: String,
    pub valid: bool,
    pub issues: Vec<MarketplaceVerificationIssueV1>,
    pub warnings: Vec<MarketplaceVerificationIssueV1>,
    pub expected_signature: Option<String>,
    pub verified_at: String,
}

/// One step of a miner's onboarding.
#[derive(Debug, Clone)]
pub struct MinerOnboardingStepV1 {
    pub order: u32,
    pub title: String,
    pub status: String,
    pub evidence_refs: Vec<String>,
}

/// A miner's onboarding plan.
#[derive(Debug, Clone)]
pub struct MinerOnboardingPlanV1 {
    pub schema_version: String,
    pub miner_id: String,
    pub runner_id: String,
    pub recommended_trust_tier: MinerTrustTierV1,
    pub eligible_for_public_jobs: bool,
    pub eligible_for_sensitive_jobs: bool,
    pub steps: Vec<MinerOnboardingStepV1>,
    pub issues: Vec<MarketplaceVerificationIssueV1>,
    pub warnings: Vec<MarketplaceVerificationIssueV1>,
    pub generated_at: String,
}

/// A miner's dashboard.
#[derive(Debug, Clone)]
pub struct MinerDashboardSummaryV1 {
    pub schema_version: String,
    pub miner_id: String,
    pub runner_id: String,
    pub status: MinerDaemonStatus,
    pub trust_tier: MinerTrustTierV1,
    pub hardware_offer_id: String,
    pub queue_depth: u32,
    pub active_jobs: u32,
    pub completed_jobs: u64,
    pub settled_jobs: u64,
    pub disputed_jobs: u64,
    pub estimated_earnings: PriceV1,
    pub benchmark_count: u32,
    pub warning_count: u32,
    pub generated_at: String,
}

// ---------------------------------------------------------------------------
// Signatures

/// A path without its leading `$` characters.
pub open spec fn strip_dollars(p: Seq<char>) -> Seq<char>
    decreases p.len(),
{
    if p.len() > 0 && p[0] == '$' {
        strip_dollars(p.drop_first())
    } else {
        p
    }
}

/// Where a miner record reports an identity-envelope finding at `path`:
/// `$` is `$.signature`; any other path follows `$.signature` once its
/// leading `$` characters are removed.
pub open spec fn miner_signature_path(path: Seq<char>) -> Seq<char> {
    if path == "$"@ {
        "$.signature"@
    } else {
        "$.signature"@ + strip_dollars(path)
    }
}

pub open spec fn miner_rerooted(s: Seq<IssueView>) -> Seq<IssueView> {
    s.map_values(|i: IssueView| (miner_signature_path(i.0), i.1))
}

/// The signature rule of miner records: a present signature either passes
/// its identity envelope check (whose findings become issues) or must equal
/// the development signature; an absent one is a warning.
pub open spec fn miner_signature_report(
    r: Report,
    sig: Option<Seq<char>>,
    dev: Seq<char>,
    identity: Option<(Seq<char>, Seq<IssueView>)>,
    mismatch_message: Seq<char>,
) -> Report {
    match present_text(sig) {
        Some(s) => match identity {
            Some(c) => Report { issues: r.issues + miner_rerooted(c.1), warnings: r.warnings },
            None => r.issue_if(s != dev, "$.signature"@, mismatch_message),
        },
        None => r.warn_if(true, "$.signature"@, "Object is unsigned; verify through a trusted source"@),
    }
}

fn strip_dollars_of(p: &str) -> (r: &str)
    ensures
        r@ == strip_dollars(p@),
{
    let n = p.unicode_len();
    let mut k: usize = 0;
    assert(p@.subrange(0, n as int) =~= p@);
    while k < n && p.get_char(k) == '$'
        invariant
            n == p@.len(),
            k <= n,
            strip_dollars(p@) == strip_dollars(p@.subrange(k as int, n as int)),
        decreases n - k,
    {
        assert(p@.subrange(k as int, n as int).drop_first() =~= p@.subrange(k + 1, n as int));
        k = k + 1;
    }
    assert(strip_dollars(p@.subrange(k as int, n as int)) == p@.subrange(k as int, n as int));
    p.substring_char(k, n)
}

/// Places an identity-envelope finding path under `$.signature`.
pub fn miner_signature_issue_path(path: &str) -> (r: String)
    ensures
        r@ == miner_signature_path(path@),
{
    proof {
        reveal_strlit("$");
        assert(path@.subrange(0, path@.len() as int) =~= path@);
    }
    if path.unicode_len() == 1 && path.get_char(0) == '$' {
        assert(path@ =~= "$"@);
        return String::from_str("$.signature");
    }
    assert(path@ != "$"@) by {
        if path@ =~= "$"@ {
            assert(path@.len() == 1);
        }
    }
    let mut out = String::from_str("$.signature");
    out.append(strip_dollars_of(path));
    out
}

/// Applies the miner signature rule; returns the signature reported as
/// expected.
fn miner_signature(
    f: &mut Findings,
    sig: &Option<String>,
    c: &SignedContent,
    mismatch_message: &str,
) -> (expected: String)
    ensures
        final(f)@ == miner_signature_report(
            old(f)@,
            opt_view(*sig),
            c.dev_signature@,
            identity_view(c.identity_check),
            mismatch_message@,
        ),
        expected@ == expected_signature(opt_view(*sig), c.dev_signature@, identity_view(c.identity_check)),
{
    match present_text_of(sig) {
        Some(s) => match &c.identity_check {
            Some(check) => {
                let ghost start = f@;
                let mut i: usize = 0;
                while i < check.issues.len()
                    invariant
                        i <= check.issues.len(),
                        f@.warnings == start.warnings,
                        f@.issues =~= start.issues + miner_rerooted(
                            issues_view(check.issues@).subrange(0, i as int),
                        ),
                    decreases check.issues.len() - i,
                {
                    let path = miner_signature_issue_path(check.issues[i].path.as_str());
                    f.push_issue(path, check.issues[i].message.as_str());
                    assert(issues_view(check.issues@).subrange(0, i + 1) =~= issues_view(
                        check.issues@,
                    ).subrange(0, i as int).push(check.issues@[i as int]@));
                    i = i + 1;
                }
                assert(issues_view(check.issues@).subrange(0, i as int) =~= issues_view(check.issues@));
                let mut e = String::from_str("ed25519-payload-hash:");
                e.append(check.payload_hash.as_str());
                e
            },
            None => {
                f.issue_if(!text_eq(s, c.dev_signature.as_str()), "$.signature", mismatch_message);
                c.dev_signature.clone()
            },
        },
        None => {
            f.warn_if(true, "$.signature", "Object is unsigned; verify through a trusted source");
            c.dev_signature.clone()
        },
    }
}

// ---------------------------------------------------------------------------
// Miner profiles

/// Two optional IEEE 754 values are equal as numbers (absent equals absent).
pub open spec fn opt_feq(a: Option<u64>, b: Option<u64>) -> bool {
    match (a, b) {
        (Some(x), Some(y)) => feq(x, y),
        (None, None) => true,
        _ => false,
    }
}

fn opt_f64_eq(a: Option<u64>, b: Option<u64>) -> (r: bool)
    ensures
        r == opt_feq(a, b),
{
    match (a, b) {
        (Some(x), Some(y)) => f64_eq(x, y),
        (None, None) => true,
        _ => false,
    }
}

fn texts_eq(a: &Vec<String>, b: &Vec<String>) -> (r: bool)
    ensures
        r == (a.deep_view() == b.deep_view()),
{
    if a.len() != b.len() {
        assert(a.deep_view().len() != b.deep_view().len());
        return false;
    }
    let mut i: usize = 0;
    while i < a.len()
        invariant
            i <= a.len(),
            a.len() == b.len(),
            forall|j: int| 0 <= j < i ==> a.deep_view()[j] == b.deep_view()[j],
        decreases a.len() - i,
    {
        assert(a.deep_view()[i as int] == a@[i as int]@);
        assert(b.deep_view()[i as int] == b@[i as int]@);
        if !text_eq(a[i].as_str(), b[i].as_str()) {
            assert(a.deep_view()[i as int] != b.deep_view()[i as int]);
            return false;
        }
        i = i + 1;
    }
    assert(a.deep_view() =~= b.deep_view());
    true
}

/// Two hardware descriptions are equal field by field (sizes as numbers).
pub open spec fn same_hardware(a: HardwareResourceV1, b: HardwareResourceV1) -> bool {
    &&& opt_view(a.gpu_vendor) == opt_view(b.gpu_vendor)
    &&& opt_view(a.gpu_model) == opt_view(b.gpu_model)
    &&& a.gpu_count == b.gpu_count
    &&& opt_feq(a.vram_gb, b.vram_gb)
    &&& a.cpu_cores == b.cpu_cores
    &&& feq(a.ram_gb, b.ram_gb)
    &&& opt_feq(a.disk_gb, b.disk_gb)
    &&& opt_feq(a.network_mbps, b.network_mbps)
    &&& opt_view(a.driver_version) == opt_view(b.driver_version)
    &&& a.runtime_versions.deep_view() == b.runtime_versions.deep_view()
}

fn hardware_eq(a: &HardwareResourceV1, b: &HardwareResourceV1) -> (r: bool)
    ensures
        r == same_hardware(*a, *b),
{
    opt_text_eq(&a.gpu_vendor, &b.gpu_vendor) && opt_text_eq(&a.gpu_model, &b.gpu_model)
        && a.gpu_count == b.gpu_count && opt_f64_eq(a.vram_gb, b.vram_gb) && a.cpu_cores
        == b.cpu_cores && f64_eq(a.ram_gb, b.ram_gb) && opt_f64_eq(a.disk_gb, b.disk_gb)
        && opt_f64_eq(a.network_mbps, b.network_mbps) && opt_text_eq(
        &a.driver_version,
        &b.driver_version,
    ) && texts_eq(&a.runtime_versions, &b.runtime_versions)
}

/// The hardware rules of a profile: some capacity must be declared, GPUs
/// should come with VRAM, and RAM must be positive.
pub open spec fn hardware_report(r: Report, h: HardwareResourceV1) -> Report {
    let cpu = match h.cpu_cores {
        Some(c) => c,
        None => 0,
    };
    let r = r.issue_if(
        h.gpu_count == 0 && cpu == 0 && le_zero(h.ram_gb),
        "$.hardware"@,
        "Miner hardware must declare GPU, CPU, or RAM capacity"@,
    );
    let r = r.warn_if(
        h.gpu_count > 0 && match h.vram_gb {
            Some(v) => le_zero(v),
            None => true,
        },
        "$.hardware.vramGb"@,
        "GPU miner should declare VRAM for routing and safety checks"@,
    );
    r.issue_if(le_zero(h.ram_gb), "$.hardware.ramGb"@, "Miner RAM capacity must be greater than zero"@)
}

/// Applies the hardware rules.
pub fn validate_hardware(h: &HardwareResourceV1, f: &mut Findings)
    ensures
        final(f)@ == hardware_report(old(f)@, *h),
{
    let cpu = match h.cpu_cores {
        Some(c) => c,
        None => 0,
    };
    f.issue_if(
        h.gpu_count == 0 && cpu == 0 && f64_le_zero(h.ram_gb),
        "$.hardware",
        "Miner hardware must declare GPU, CPU, or RAM capacity",
    );
    let no_vram = match h.vram_gb {
        Some(v) => f64_le_zero(v),
        None => true,
    };
    f.warn_if(
        h.gpu_count > 0 && no_vram,
        "$.hardware.vramGb",
        "GPU miner should declare VRAM for routing and safety checks",
    );
    f.issue_if(f64_le_zero(h.ram_gb), "$.hardware.ramGb", "Miner RAM capacity must be greater than zero");
}

/// The rules that hold a profile to its hardware offer.
pub open spec fn profile_offer_report(r: Report, p: MinerProfileV1, o: HardwareResourceOfferV1) -> Report {
    let r = r.issue_if(
        p.hardware_offer_id@ != o.offer_id@,
        "$.hardwareOfferId"@,
        "Miner profile does not reference the supplied hardware offer"@,
    );
    let r = r.issue_if(
        p.runner_id@ != o.runner_id@,
        "$.runnerId"@,
        "Miner profile runnerId does not match supplied hardware offer"@,
    );
    let r = r.issue_if(
        p.operator@ != o.operator@,
        "$.operator"@,
        "Miner profile operator does not match supplied hardware offer"@,
    );
    let r = r.warn_if(
        !same_hardware(p.hardware, o.hardware),
        "$.hardware"@,
        "Miner profile hardware differs from supplied hardware offer"@,
    );
    r.warn_if(
        p.trust_tier != o.trust_tier,
        "$.trustTier"@,
        "Miner profile trust tier differs from supplied hardware offer"@,
    )
}

/// Applies the rules that hold a profile to its hardware offer.
pub fn compare_profile_to_offer(p: &MinerProfileV1, o: &HardwareResourceOfferV1, f: &mut Findings)
    ensures
        final(f)@ == profile_offer_report(old(f)@, *p, *o),
{
    f.issue_if(
        !text_eq(p.hardware_offer_id.as_str(), o.offer_id.as_str()),
        "$.hardwareOfferId",
        "Miner profile does not reference the supplied hardware offer",
    );
    f.issue_if(
        !text_eq(p.runner_id.as_str(), o.runner_id.as_str()),
        "$.runnerId",
        "Miner profile runnerId does not match supplied hardware offer",
    );
    f.issue_if(
        !text_eq(p.operator.as_str(), o.operator.as_str()),
        "$.operator",
        "Miner profile operator does not match supplied hardware offer",
    );
    f.warn_if(
        !hardware_eq(&p.hardware, &o.hardware),
        "$.hardware",
        "Miner profile hardware differs from supplied hardware offer",
    );
    f.warn_if(
        p.trust_tier != o.trust_tier,
        "$.trustTier",
        "Miner profile trust tier differs from supplied hardware offer",
    );
}

/// The identity and declaration rules of a profile.
pub open spec fn profile_fields_report(r: Report, p: MinerProfileV1, c: SignedContent) -> Report {
    let r = r.issue_if(
        p.schema_version@ != MINER_PROFILE_SCHEMA_VERSION@,
        "$.schemaVersion"@,
        "Expected schemaVersion to be swarm-ai.miner-profile.v1"@,
    );
    let r = r.issue_if(blank(p.miner_id@), "$.minerId"@, "Value is required"@);
    let r = r.issue_if(
        p.miner_id@.len() > 0 && p.miner_id@ != c.canonical_id@,
        "$.minerId"@,
        "Miner id does not match canonical signed content"@,
    );
    let r = r.issue_if(blank(p.operator@), "$.operator"@, "Value is required"@);
    let r = r.issue_if(blank(p.runner_id@), "$.runnerId"@, "Value is required"@);
    let r = r.issue_if(blank(p.daemon_version@), "$.daemonVersion"@, "Value is required"@);
    let r = r.issue_if(blank(p.hardware_offer_id@), "$.hardwareOfferId"@, "Value is required"@);
    let r = r.issue_if(blank(p.terms_ref@), "$.termsRef"@, "Value is required"@);
    hardware_report(r, p.hardware)
}

/// The capability declaration rules of a profile.
pub open spec fn profile_capability_report(r: Report, p: MinerProfileV1) -> Report {
    let r = r.issue_if(
        p.supported_execution_modes@.len() == 0,
        "$.supportedExecutionModes"@,
        "Miner profile must declare supported execution modes"@,
    );
    let r = r.issue_if(
        p.supported_apis@.len() == 0,
        "$.supportedApis"@,
        "Miner profile must declare supported APIs"@,
    );
    let r = r.issue_if(
        p.privacy_tiers@.len() == 0,
        "$.privacyTiers"@,
        "Miner profile must declare supported privacy tiers"@,
    );
    let r = r.issue_if(
        p.verification_tiers@.len() == 0,
        "$.verificationTiers"@,
        "Miner profile must declare supported verification tiers"@,
    );
    let r = r.warn_if(
        (p.trust_tier == MinerTrustTierV1::Confidential || p.trust_tier
            == MinerTrustTierV1::Cryptographic) && !p.privacy_tiers@.contains(
            PrivacyTier::TeeConfidential,
        ) && !p.privacy_tiers@.contains(PrivacyTier::FheEncrypted),
        "$.trustTier"@,
        "High trust miner should declare matching confidential or encrypted privacy support"@,
    );
    r.issue_if(
        rfc3339_instant(p.created_at@) is None,
        "$.createdAt"@,
        "Timestamp must be RFC3339"@,
    )
}

/// The findings of the miner profile rules, in the order they are applied.
pub open spec fn miner_profile_report(
    p: MinerProfileV1,
    c: SignedContent,
    offer: Option<HardwareResourceOfferV1>,
) -> Report {
    let r = profile_fields_report(Report::empty(), p, c);
    let r = profile_capability_report(r, p);
    let r = match offer {
        Some(o) => profile_offer_report(r, p, o),
        None => r.warn_if(
            true,
            "$.hardwareOfferId"@,
            "No HardwareResourceOfferV1 was supplied for profile consistency checks"@,
        ),
    };
    miner_signature_report(
        r,
        opt_view(p.signature),
        c.dev_signature@,
        identity_view(c.identity_check),
        "Miner profile signature does not match canonical dev signature or Ed25519 operator identity envelope"@,
    )
}

fn profile_fields(f: &mut Findings, p: &MinerProfileV1, c: &SignedContent)
    ensures
        final(f)@ == profile_fields_report(old(f)@, *p, *c),
{
    f.issue_if(
        !text_eq(p.schema_version.as_str(), MINER_PROFILE_SCHEMA_VERSION),
        "$.schemaVersion",
        "Expected schemaVersion to be swarm-ai.miner-profile.v1",
    );
    f.required(p.miner_id.as_str(), "$.minerId", "Value is required");
    f.issue_if(
        p.miner_id.unicode_len() > 0 && !text_eq(p.miner_id.as_str(), c.canonical_id.as_str()),
        "$.minerId",
        "Miner id does not match canonical signed content",
    );
    f.required(p.operator.as_str(), "$.operator", "Value is required");
    f.required(p.runner_id.as_str(), "$.runnerId", "Value is required");
    f.required(p.daemon_version.as_str(), "$.daemonVersion", "Value is required");
    f.required(p.hardware_offer_id.as_str(), "$.hardwareOfferId", "Value is required");
    f.required(p.terms_ref.as_str(), "$.termsRef", "Value is required");
    validate_hardware(&p.hardware, f);
}

fn profile_capability(f: &mut Findings, p: &MinerProfileV1)
    ensures
        final(f)@ == profile_capability_report(old(f)@, *p),
{
    f.issue_if(
        p.supported_execution_modes.len() == 0,
        "$.supportedExecutionModes",
        "Miner profile must declare supported execution modes",
    );
    f.issue_if(p.supported_apis.len() == 0, "$.supportedApis", "Miner profile must declare supported APIs");
    f.issue_if(
        p.privacy_tiers.len() == 0,
        "$.privacyTiers",
        "Miner profile must declare supported privacy tiers",
    );
    f.issue_if(
        p.verification_tiers.len() == 0,
        "$.verificationTiers",
        "Miner profile must declare supported verification tiers",
    );
    let high = p.trust_tier == MinerTrustTierV1::Confidential || p.trust_tier
        == MinerTrustTierV1::Cryptographic;
    f.warn_if(
        high && !has_privacy(&p.privacy_tiers, PrivacyTier::TeeConfidential) && !has_privacy(
            &p.privacy_tiers,
            PrivacyTier::FheEncrypted,
        ),
        "$.trustTier",
        "High trust miner should declare matching confidential or encrypted privacy support",
    );
    f.issue_if(
        parse_rfc3339(p.created_at.as_str()).is_none(),
        "$.createdAt",
        "Timestamp must be RFC3339",
    );
}

/// Checks a miner profile against the profile rules and, when given, against
/// its hardware offer. `content` carries the canonical id and development
/// signature of the profile's signing value and, for an identity-enveloped
/// signature, the envelope check (signed by the operator); `verified_at` is
/// the time of the check.
pub fn verify_miner_profile(
    profile: &MinerProfileV1,
    content: &SignedContent,
    offer: Option<&HardwareResourceOfferV1>,
    verified_at: String,
) -> (r: MinerProfileVerificationV1)
    ensures
        r.schema_version@ == MINER_PROFILE_VERIFICATION_SCHEMA_VERSION@,
        r.miner_id@ == profile.miner_id@,
        issues_view(r.issues@) == miner_profile_report(
            *profile,
            *content,
            match offer { Some(o) => Some(*o), None => None },
        ).issues,
        issues_view(r.warnings@) == miner_profile_report(
            *profile,
            *content,
            match offer { Some(o) => Some(*o), None => None },
        ).warnings,
        r.valid == miner_profile_report(
            *profile,
            *content,
            match offer { Some(o) => Some(*o), None => None },
        ).valid(),
        r.expected_signature matches Some(e) && e@ == expected_signature(
            opt_view(profile.signature),
            content.dev_signature@,
            identity_view(content.identity_check),
        ),
        r.verified_at@ == verified_at@,
{
    let mut f = Findings::new();
    profile_fields(&mut f, profile, content);
    profile_capability(&mut f, profile);
    match offer {
        Some(o) => compare_profile_to_offer(profile, o, &mut f),
        None => f.warn_if(
            true,
            "$.hardwareOfferId",
            "No HardwareResourceOfferV1 was supplied for profile consistency checks",
        ),
    }
    let expected = miner_signature(
        &mut f,
        &profile.signature,
        content,
        "Miner profile signature does not match canonical dev signature or Ed25519 operator identity envelope",
    );
    let valid = f.is_valid();
    MinerProfileVerificationV1 {
        schema_version: String::from_str(MINER_PROFILE_VERIFICATION_SCHEMA_VERSION),
        miner_id: profile.miner_id.clone(),
        valid,
        issues: f.issues,
        warnings: f.warnings,
        expected_signature: Some(expected),
        verified_at,
    }
}

// ---------------------------------------------------------------------------
// Heartbeats

/// The findings of the heartbeat rules, in the order they are applied.
pub open spec fn miner_heartbeat_report(
    h: MinerHeartbeatV1,
    c: SignedContent,
    profile: Option<MinerProfileV1>,
) -> Report {
    let r = Report::empty().issue_if(
        h.schema_version@ != MINER_HEARTBEAT_SCHEMA_VERSION@,
        "$.schemaVersion"@,
        "Expected schemaVersion to be swarm-ai.miner-heartbeat.v1"@,
    );
    let r = r.issue_if(blank(h.heartbeat_id@), "$.heartbeatId"@, "Value is required"@);
    let r = r.issue_if(
        h.heartbeat_id@.len() > 0 && h.heartbeat_id@ != c.canonical_id@,
        "$.heartbeatId"@,
        "Heartbeat id does not match canonical signed content"@,
    );
    let r = r.issue_if(blank(h.miner_id@), "$.minerId"@, "Value is required"@);
    let r = r.issue_if(blank(h.runner_id@), "$.runnerId"@, "Value is required"@);
    let r = r.issue_if(
        rfc3339_instant(h.observed_at@) is None,
        "$.observedAt"@,
        "Timestamp must be RFC3339"@,
    );
    let r = r.issue_if(
        lt_zero(h.load_average),
        "$.loadAverage"@,
        "Miner load average must not be negative"@,
    );
    let r = r.issue_if(
        lt_zero(h.available_ram_gb),
        "$.availableRamGb"@,
        "Available RAM must not be negative"@,
    );
    let r = r.warn_if(
        h.active_jobs > 0 && h.status == MinerDaemonStatus::Available,
        "$.status"@,
        "Heartbeat is marked available while active jobs are running"@,
    );
    let r = r.warn_if(
        h.status == MinerDaemonStatus::Error && h.errors@.len() == 0,
        "$.errors"@,
        "Error heartbeat should include an operator-visible error summary"@,
    );
    let r = match profile {
        Some(p) => {
            let r = r.issue_if(
                h.miner_id@ != p.miner_id@,
                "$.minerId"@,
                "Heartbeat minerId does not match supplied miner profile"@,
            );
            r.issue_if(
                h.runner_id@ != p.runner_id@,
                "$.runnerId"@,
                "Heartbeat runnerId does not match supplied miner profile"@,
            )
        },
        None => r,
    };
    miner_signature_report(
        r,
        opt_view(h.signature),
        c.dev_signature@,
        identity_view(c.identity_check),
        "Miner heartbeat signature does not match canonical dev signature"@,
    )
}

/// Checks a heartbeat against the heartbeat rules and, when given, against
/// the miner's profile. `content` carries the canonical id and development
/// signature of the heartbeat's signing value and, for an identity-enveloped
/// signature, the envelope check; `verified_at` is the time of the check.
pub fn verify_miner_heartbeat(
    heartbeat: &MinerHeartbeatV1,
    content: &SignedContent,
    profile: Option<&MinerProfileV1>,
    verified_at: String,
) -> (r: MinerHeartbeatVerificationV1)
    ensures
        r.schema_version@ == MINER_HEARTBEAT_VERIFICATION_SCHEMA_VERSION@,
        r.heartbeat_id@ == heartbeat.heartbeat_id@,
        issues_view(r.issues@) == miner_heartbeat_report(
            *heartbeat,
            *content,
            match profile { Some(p) => Some(*p), None => None },
        ).issues,
        issues_view(r.warnings@) == miner_heartbeat_report(
            *heartbeat,
            *content,
            match profile { Some(p) => Some(*p), None => None },
        ).warnings,
        r.valid == miner_heartbeat_report(
            *heartbeat,
            *content,
            match profile { Some(p) => Some(*p), None => None },
        ).valid(),
        r.expected_signature matches Some(e) && e@ == expected_signature(
            opt_view(heartbeat.signature),
            content.dev_signature@,
            identity_view(content.identity_check),
        ),
        r.verified_at@ == verified_at@,
{
    let h = heartbeat;
    let mut f = Findings::new();
    f.issue_if(
        !text_eq(h.schema_version.as_str(), MINER_HEARTBEAT_SCHEMA_VERSION),
        "$.schemaVersion",
        "Expected schemaVersion to be swarm-ai.miner-heartbeat.v1",
    );
    f.required(h.heartbeat_id.as_str(), "$.heartbeatId", "Value is required");
    f.issue_if(
        h.heartbeat_id.unicode_len() > 0 && !text_eq(h.heartbeat_id.as_str(), content.canonical_id.as_str()),
        "$.heartbeatId",
        "Heartbeat id does not match canonical signed content",
    );
    f.required(h.miner_id.as_str(), "$.minerId", "Value is required");
    f.required(h.runner_id.as_str(), "$.runnerId", "Value is required");
    f.issue_if(
        parse_rfc3339(h.observed_at.as_str()).is_none(),
        "$.observedAt",
        "Timestamp must be RFC3339",
    );
    f.issue_if(f64_lt_zero(h.load_average), "$.loadAverage", "Miner load average must not be negative");
    f.issue_if(
        f64_lt_zero(h.available_ram_gb),
        "$.availableRamGb",
        "Available RAM must not be negative",
    );
    f.warn_if(
        h.active_jobs > 0 && h.status == MinerDaemonStatus::Available,
        "$.status",
        "Heartbeat is marked available while active jobs are running",
    );
    f.warn_if(
        h.status == MinerDaemonStatus::Error && h.errors.len() == 0,
        "$.errors",
        "Error heartbeat should include an operator-visible error summary",
    );
    match profile {
        Some(p) => {
            f.issue_if(
                !text_eq(h.miner_id.as_str(), p.miner_id.as_str()),
                "$.minerId",
                "Heartbeat minerId does not match supplied miner profile",
            );
            f.issue_if(
                !text_eq(h.runner_id.as_str(), p.runner_id.as_str()),
                "$.runnerId",
                "Heartbeat runnerId does not match supplied miner profile",
            );
        },
        None => {},
    }
    let expected = miner_signature(
        &mut f,
        &h.signature,
        content,
        "Miner heartbeat signature does not match canonical dev signature",
    );
    let valid = f.is_valid();
    MinerHeartbeatVerificationV1 {
        schema_version: String::from_str(MINER_HEARTBEAT_VERIFICATION_SCHEMA_VERSION),
        heartbeat_id: h.heartbeat_id.clone(),
        valid,
        issues: f.issues,
        warnings: f.warnings,
        expected_signature: Some(expected),
        verified_at,
    }
}

// ---------------------------------------------------------------------------
// Benchmarks

/// The rules on the first `n` metrics: each needs a name and a unit, and a
/// finite, non-negative value.
pub open spec fn metrics_report(r: Report, m: Seq<MinerBenchmarkMetricV1>, n: nat) -> Report
    decreases n,
{
    if n == 0 {
        r
    } else {
        let i = n - 1;
        let x = m[i];
        let r = metrics_report(r, m, (n - 1) as nat);
        let r = r.issue_if(blank(x.name@), indexed("$.metrics["@, i, "].name"@), "Value is required"@);
        let r = r.issue_if(blank(x.unit@), indexed("$.metrics["@, i, "].unit"@), "Value is required"@);
        r.issue_if(
            !is_finite(x.value) || lt_zero(x.value),
            indexed("$.metrics["@, i, "].value"@),
            "Benchmark metric value must be finite and non-negative"@,
        )
    }
}

/// The identity and measurement rules of a benchmark result.
pub open spec fn benchmark_fields_report(r: Report, b: MinerBenchmarkResultV1, c: SignedContent) -> Report {
    let r = r.issue_if(
        b.schema_version@ != MINER_BENCHMARK_SCHEMA_VERSION@,
        "$.schemaVersion"@,
        "Expected schemaVersion to be swarm-ai.miner-benchmark-result.v1"@,
    );
    let r = r.issue_if(blank(b.benchmark_id@), "$.benchmarkId"@, "Value is required"@);
    let r = r.issue_if(
        b.benchmark_id@.len() > 0 && b.benchmark_id@ != c.canonical_id@,
        "$.benchmarkId"@,
        "Benchmark id does not match canonical signed content"@,
    );
    let r = r.issue_if(blank(b.miner_id@), "$.minerId"@, "Value is required"@);
    let r = r.issue_if(blank(b.runner_id@), "$.runnerId"@, "Value is required"@);
    let r = r.issue_if(blank(b.hardware_offer_id@), "$.hardwareOfferId"@, "Value is required"@);
    let r = r.issue_if(blank(b.benchmark_suite@), "$.benchmarkSuite"@, "Value is required"@);
    let r = r.issue_if(blank(b.workload@), "$.workload"@, "Value is required"@);
    let r = r.issue_if(
        rfc3339_instant(b.measured_at@) is None,
        "$.measuredAt"@,
        "Timestamp must be RFC3339"@,
    );
    let r = r.issue_if(
        b.metrics@.len() == 0,
        "$.metrics"@,
        "Miner benchmark must include at least one metric"@,
    );
    let r = metrics_report(r, b.metrics@, b.metrics@.len());
    r.warn_if(
        b.evidence_refs@.len() == 0,
        "$.evidenceRefs"@,
        "Benchmark has no evidence refs; validator replay will be weaker"@,
    )
}

/// The rules that hold a benchmark result to the miner's profile and to the
/// hardware offer.
pub open spec fn benchmark_links_report(
    r: Report,
    b: MinerBenchmarkResultV1,
    profile: Option<MinerProfileV1>,
    offer: Option<HardwareResourceOfferV1>,
) -> Report {
    let r = match profile {
        Some(p) => {
            let r = r.issue_if(
                b.miner_id@ != p.miner_id@,
                "$.minerId"@,
                "Benchmark minerId does not match supplied miner profile"@,
            );
            let r = r.issue_if(
                !p.privacy_tiers@.contains(b.privacy_tier),
                "$.privacyTier"@,
                "Benchmark privacy tier is not declared by supplied miner profile"@,
            );
            r.issue_if(
                !p.verification_tiers@.contains(b.integrity_tier),
                "$.integrityTier"@,
                "Benchmark integrity tier is not declared by supplied miner profile"@,
            )
        },
        None => r,
    };
    match offer {
        Some(o) => {
            let r = r.issue_if(
                b.hardware_offer_id@ != o.offer_id@,
                "$.hardwareOfferId"@,
                "Benchmark hardwareOfferId does not match supplied hardware offer"@,
            );
            r.issue_if(
                b.runner_id@ != o.runner_id@,
                "$.runnerId"@,
                "Benchmark runnerId does not match supplied hardware offer"@,
            )
        },
        None => r,
    }
}

/// The findings of the benchmark result rules, in the order they are applied.
pub open spec fn miner_benchmark_report(
    b: MinerBenchmarkResultV1,
    c: SignedContent,
    profile: Option<MinerProfileV1>,
    offer: Option<HardwareResourceOfferV1>,
) -> Report {
    let r = benchmark_fields_report(Report::empty(), b, c);
    let r = benchmark_links_report(r, b, profile, offer);
    miner_signature_report(
        r,
        opt_view(b.signature),
        c.dev_signature@,
        identity_view(c.identity_check),
        "Miner benchmark signature does not match canonical dev signature or Ed25519 operator identity envelope"@,
    )
}

fn benchmark_metrics(f: &mut Findings, m: &Vec<MinerBenchmarkMetricV1>)
    ensures
        final(f)@ == metrics_report(old(f)@, m@, m@.len()),
{
    let ghost start = f@;
    let mut i: usize = 0;
    while i < m.len()
        invariant
            i <= m.len(),
            f@ == metrics_report(start, m@, i as nat),
        decreases m.len() - i,
    {
        let x = &m[i];
        if is_blank(x.name.as_str()) {
            f.push_issue(indexed_path("$.metrics[", i, "].name"), "Value is required");
        }
        if is_blank(x.unit.as_str()) {
            f.push_issue(indexed_path("$.metrics[", i, "].unit"), "Value is required");
        }
        if !f64_is_finite(x.value) || f64_lt_zero(x.value) {
            f.push_issue(
                indexed_path("$.metrics[", i, "].value"),
                "Benchmark metric value must be finite and non-negative",
            );
        }
        i = i + 1;
    }
}

fn benchmark_fields(f: &mut Findings, b: &MinerBenchmarkResultV1, c: &SignedContent)
    ensures
        final(f)@ == benchmark_fields_report(old(f)@, *b, *c),
{
    f.issue_if(
        !text_eq(b.schema_version.as_str(), MINER_BENCHMARK_SCHEMA_VERSION),
        "$.schemaVersion",
        "Expected schemaVersion to be swarm-ai.miner-benchmark-result.v1",
    );
    f.required(b.benchmark_id.as_str(), "$.benchmarkId", "Value is required");
    f.issue_if(
        b.benchmark_id.unicode_len() > 0 && !text_eq(b.benchmark_id.as_str(), c.canonical_id.as_str()),
        "$.benchmarkId",
        "Benchmark id does not match canonical signed content",
    );
    f.required(b.miner_id.as_str(), "$.minerId", "Value is required");
    f.required(b.runner_id.as_str(), "$.runnerId", "Value is required");
    f.required(b.hardware_offer_id.as_str(), "$.hardwareOfferId", "Value is required");
    f.required(b.benchmark_suite.as_str(), "$.benchmarkSuite", "Value is required");
    f.required(b.workload.as_str(), "$.workload", "Value is required");
    f.issue_if(
        parse_rfc3339(b.measured_at.as_str()).is_none(),
        "$.measuredAt",
        "Timestamp must be RFC3339",
    );
    f.issue_if(b.metrics.len() == 0, "$.metrics", "Miner benchmark must include at least one metric");
    benchmark_metrics(f, &b.metrics);
    f.warn_if(
        b.evidence_refs.len() == 0,
        "$.evidenceRefs",
        "Benchmark has no evidence refs; validator replay will be weaker",
    );
}

fn benchmark_links(
    f: &mut Findings,
    b: &MinerBenchmarkResultV1,
    profile: Option<&MinerProfileV1>,
    offer: Option<&HardwareResourceOfferV1>,
)
    ensures
        final(f)@ == benchmark_links_report(
            old(f)@,
            *b,
            match profile { Some(p) => Some(*p), None => None },
            match offer { Some(o) => Some(*o), None => None },
        ),
{
    match profile {
        Some(p) => {
            f.issue_if(
                !text_eq(b.miner_id.as_str(), p.miner_id.as_str()),
                "$.minerId",
                "Benchmark minerId does not match supplied miner profile",
            );
            f.issue_if(
                !has_privacy(&p.privacy_tiers, b.privacy_tier),
                "$.privacyTier",
                "Benchmark privacy tier is not declared by supplied miner profile",
            );
            f.issue_if(
                !has_integrity(&p.verification_tiers, b.integrity_tier),
                "$.integrityTier",
                "Benchmark integrity tier is not declared by supplied miner profile",
            );
        },
        None => {},
    }
    match offer {
        Some(o) => {
            f.issue_if(
                !text_eq(b.hardware_offer_id.as_str(), o.offer_id.as_str()),
                "$.hardwareOfferId",
                "Benchmark hardwareOfferId does not match supplied hardware offer",
            );
            f.issue_if(
                !text_eq(b.runner_id.as_str(), o.runner_id.as_str()),
                "$.runnerId",
                "Benchmark runnerId does not match supplied hardware offer",
            );
        },
        None => {},
    }
}

/// Checks a benchmark result against the benchmark rules and, when given,
/// against the miner's profile and hardware offer. `content` carries the
/// canonical id and development signature of the result's signing value and,
/// for an identity-enveloped signature, the envelope check (signed by the
/// profile's operator); `verified_at` is the time of the check.
pub fn verify_miner_benchmark_result(
    result: &MinerBenchmarkResultV1,
    content: &SignedContent,
    profile: Option<&MinerProfileV1>,
    offer: Option<&HardwareResourceOfferV1>,
    verified_at: String,
) -> (r: MinerBenchmarkVerificationV1)
    ensures
        r.schema_version@ == MINER_BENCHMARK_VERIFICATION_SCHEMA_VERSION@,
        r.benchmark_id@ == result.benchmark_id@,
        issues_view(r.issues@) == miner_benchmark_report(
            *result,
            *content,
            match profile { Some(p) => Some(*p), None => None },
            match offer { Some(o) => Some(*o), None => None },
        ).issues,
        issues_view(r.warnings@) == miner_benchmark_report(
            *result,
            *content,
            match profile { Some(p) => Some(*p), None => None },
            match offer { Some(o) => Some(*o), None => None },
        ).warnings,
        r.valid == miner_benchmark_report(
            *result,
            *content,
            match profile { Some(p) => Some(*p), None => None },
            match offer { Some(o) => Some(*o), None => None },
        ).valid(),
        r.expected_signature matches Some(e) && e@ == expected_signature(
            opt_view(result.signature),
            content.dev_signature@,
            identity_view(content.identity_check),
        ),
        r.verified_at@ == verified_at@,
{
    let mut f = Findings::new();
    benchmark_fields(&mut f, result, content);
    benchmark_links(&mut f, result, profile, offer);
    let expected = miner_signature(
        &mut f,
        &result.signature,
        content,
        "Miner benchmark signature does not match canonical dev signature or Ed25519 operator identity envelope",
    );
    let valid = f.is_valid();
    MinerBenchmarkVerificationV1 {
        schema_version: String::from_str(MINER_BENCHMARK_VERIFICATION_SCHEMA_VERSION),
        benchmark_id: result.benchmark_id.clone(),
        valid,
        issues: f.issues,
        warnings: f.warnings,
        expected_signature: Some(expected),
        verified_at,
    }
}


// ---------------------------------------------------------------------------
// Onboarding

/// The trust tiers that admit sensitive work.
pub open spec fn admits_sensitive_work(t: MinerTrustTierV1) -> bool {
    t == MinerTrustTierV1::Verified || t == MinerTrustTierV1::Confidential || t
        == MinerTrustTierV1::Cryptographic
}

/// The trust tier recommended for a miner: `Open` until its benchmarks pass;
/// then `Cryptographic` with zero-knowledge verification, `Confidential` with
/// TEE attestation or TEE-confidential privacy, `Verified` for a declared
/// tier that admits sensitive work, else the declared tier.
pub open spec fn recommended_tier(p: MinerProfileV1, benchmark_valid: bool) -> MinerTrustTierV1 {
    if !benchmark_valid {
        MinerTrustTierV1::Open
    } else if p.verification_tiers@.contains(IntegrityTier::ZkProofWhenSupported) {
        MinerTrustTierV1::Cryptographic
    } else if p.verification_tiers@.contains(IntegrityTier::TeeAttested)
        || p.privacy_tiers@.contains(PrivacyTier::TeeConfidential) {
        MinerTrustTierV1::Confidential
    } else if admits_sensitive_work(p.trust_tier) {
        MinerTrustTierV1::Verified
    } else {
        p.trust_tier
    }
}

fn tier_admits_sensitive_work(t: MinerTrustTierV1) -> (r: bool)
    ensures
        r == admits_sensitive_work(t),
{
    match t {
        MinerTrustTierV1::Verified | MinerTrustTierV1::Confidential
        | MinerTrustTierV1::Cryptographic => true,
        _ => false,
    }
}

/// The trust tier recommended for `profile` given whether its benchmarks
/// passed.
pub fn recommended_trust_tier(profile: &MinerProfileV1, benchmark_valid: bool) -> (r:
    MinerTrustTierV1)
    ensures
        r == recommended_tier(*profile, benchmark_valid),
{
    if !benchmark_valid {
        MinerTrustTierV1::Open
    } else if has_integrity(&profile.verification_tiers, IntegrityTier::ZkProofWhenSupported) {
        MinerTrustTierV1::Cryptographic
    } else if has_integrity(&profile.verification_tiers, IntegrityTier::TeeAttested)
        || has_privacy(&profile.privacy_tiers, PrivacyTier::TeeConfidential) {
        MinerTrustTierV1::Confidential
    } else if tier_admits_sensitive_work(profile.trust_tier) {
        MinerTrustTierV1::Verified
    } else {
        profile.trust_tier
    }
}

/// The status text of an onboarding step.
pub open spec fn step_status(done: bool) -> Seq<char> {
    if done {
        "complete"@
    } else {
        "pending"@
    }
}

/// An onboarding step with the given order, title, completion and evidence.
pub open spec fn is_step(
    s: MinerOnboardingStepV1,
    order: u32,
    title: Seq<char>,
    done: bool,
    evidence: Seq<Seq<char>>,
) -> bool {
    &&& s.order == order
    &&& s.title@ == title
    &&& s.status@ == step_status(done)
    &&& s.evidence_refs.deep_view() == evidence
}

/// An onboarding step.
pub fn step(order: u32, title: &str, done: bool, evidence_refs: Vec<String>) -> (r:
    MinerOnboardingStepV1)
    ensures
        is_step(r, order, title@, done, evidence_refs.deep_view()),
{
    proof {
        reveal_strlit("complete");
        reveal_strlit("pending");
    }
    MinerOnboardingStepV1 {
        order,
        title: title.to_string(),
        status: if done {
            String::from_str("complete")
        } else {
            String::from_str("pending")
        },
        evidence_refs,
    }
}

/// Findings of the hardware offer as an onboarding plan reports them: under
/// `$.hardwareOffer`, each path without its leading `$` characters.
pub open spec fn under_offer(s: Seq<IssueView>) -> Seq<IssueView> {
    s.map_values(|i: IssueView| ("$.hardwareOffer"@ + strip_dollars(i.0), i.1))
}

/// A benchmark result with what its check needs of its signing value.
pub type SignedBenchmark = (MinerBenchmarkResultV1, SignedContent);

/// The issues of the benchmark results, checked against the profile and the
/// offer, in order.
pub open spec fn benchmark_issues(
    bs: Seq<SignedBenchmark>,
    p: MinerProfileV1,
    o: HardwareResourceOfferV1,
) -> Seq<IssueView>
    decreases bs.len(),
{
    if bs.len() == 0 {
        seq![]
    } else {
        benchmark_issues(bs.drop_last(), p, o) + miner_benchmark_report(
            bs.last().0,
            bs.last().1,
            Some(p),
            Some(o),
        ).issues
    }
}

/// The warnings of the benchmark results, in order.
pub open spec fn benchmark_warnings(
    bs: Seq<SignedBenchmark>,
    p: MinerProfileV1,
    o: HardwareResourceOfferV1,
) -> Seq<IssueView>
    decreases bs.len(),
{
    if bs.len() == 0 {
        seq![]
    } else {
        benchmark_warnings(bs.drop_last(), p, o) + miner_benchmark_report(
            bs.last().0,
            bs.last().1,
            Some(p),
            Some(o),
        ).warnings
    }
}

/// At least one benchmark result was supplied and every one passes its check.
pub open spec fn benchmarks_pass(
    bs: Seq<SignedBenchmark>,
    p: MinerProfileV1,
    o: HardwareResourceOfferV1,
) -> bool {
    bs.len() > 0 && forall|i: int|
        0 <= i < bs.len() ==> #[trigger] miner_benchmark_report(bs[i].0, bs[i].1, Some(p), Some(o)).valid()
}

/// A miner may take public jobs: its profile and its offer pass their checks
/// and it declares at least one execution mode and one API.
pub open spec fn eligible_public(
    p: MinerProfileV1,
    pc: SignedContent,
    o: HardwareResourceOfferV1,
    oc: SignedContent,
    now: Instant,
) -> bool {
    &&& miner_profile_report(p, pc, Some(o)).valid()
    &&& hardware_offer_report(o, oc, now).valid()
    &&& p.supported_execution_modes@.len() > 0
    &&& p.supported_apis@.len() > 0
}

/// A miner's privacy tiers include one that keeps sensitive data safe.
pub open spec fn protects_sensitive_data(ps: Seq<PrivacyTier>) -> bool {
    ps.contains(PrivacyTier::NoLog) || ps.contains(PrivacyTier::TeeConfidential) || ps.contains(
        PrivacyTier::FheEncrypted,
    )
}

/// A miner may take sensitive jobs: it may take public ones, its benchmarks
/// pass, its declared tier admits sensitive work and its privacy tiers
/// protect sensitive data.
pub open spec fn eligible_sensitive(
    p: MinerProfileV1,
    pc: SignedContent,
    o: HardwareResourceOfferV1,
    oc: SignedContent,
    bs: Seq<SignedBenchmark>,
    now: Instant,
) -> bool {
    &&& eligible_public(p, pc, o, oc, now)
    &&& benchmarks_pass(bs, p, o)
    &&& admits_sensitive_work(p.trust_tier)
    &&& protects_sensitive_data(p.privacy_tiers@)
}

/// The issues of an onboarding plan: the profile's, the offer's (under
/// `$.hardwareOffer`), then each benchmark's.
pub open spec fn onboarding_issues(
    p: MinerProfileV1,
    pc: SignedContent,
    o: HardwareResourceOfferV1,
    oc: SignedContent,
    bs: Seq<SignedBenchmark>,
    now: Instant,
) -> Seq<IssueView> {
    miner_profile_report(p, pc, Some(o)).issues + under_offer(hardware_offer_report(o, oc, now).issues)
        + benchmark_issues(bs, p, o)
}

/// The warnings of an onboarding plan, in the same order, then a warning at
/// `$.benchmarks` when no benchmark result was supplied.
pub open spec fn onboarding_warnings(
    p: MinerProfileV1,
    pc: SignedContent,
    o: HardwareResourceOfferV1,
    oc: SignedContent,
    bs: Seq<SignedBenchmark>,
    now: Instant,
) -> Seq<IssueView> {
    let w = miner_profile_report(p, pc, Some(o)).warnings + under_offer(
        hardware_offer_report(o, oc, now).warnings,
    ) + benchmark_warnings(bs, p, o);
    if bs.len() == 0 {
        w.push(
            (
                "$.benchmarks"@,
                "No miner benchmark result supplied; keep miner on public or low-risk jobs only"@,
            ),
        )
    } else {
        w
    }
}

/// The ids of the benchmark results, in order.
pub open spec fn benchmark_ids(bs: Seq<SignedBenchmark>) -> Seq<Seq<char>> {
    bs.map_values(|b: SignedBenchmark| b.0.benchmark_id@)
}

/// Appends copies of `src` to `dst`.
fn extend_issues(dst: &mut Vec<MarketplaceVerificationIssueV1>, src: &Vec<MarketplaceVerificationIssueV1>)
    ensures
        issues_view(final(dst)@) == issues_view(old(dst)@) + issues_view(src@),
{
    let ghost start = issues_view(dst@);
    let mut i: usize = 0;
    while i < src.len()
        invariant
            i <= src.len(),
            issues_view(dst@) =~= start + issues_view(src@).subrange(0, i as int),
        decreases src.len() - i,
    {
        let item = marketplace_issue(src[i].path.clone(), src[i].message.as_str());
        let ghost before = dst@;
        dst.push(item);
        assert(dst@ =~= before.push(item));
        assert(issues_view(dst@) =~= issues_view(before).push(item@));
        assert(issues_view(src@).subrange(0, i + 1) =~= issues_view(src@).subrange(0, i as int).push(
            src@[i as int]@,
        ));
        i = i + 1;
    }
    assert(issues_view(src@).subrange(0, i as int) =~= issues_view(src@));
}

/// Appends copies of the offer findings `src` to `dst`, under
/// `$.hardwareOffer`.
fn extend_under_offer(
    dst: &mut Vec<MarketplaceVerificationIssueV1>,
    src: &Vec<MarketplaceVerificationIssueV1>,
)
    ensures
        issues_view(final(dst)@) == issues_view(old(dst)@) + under_offer(issues_view(src@)),
{
    let ghost start = issues_view(dst@);
    let mut i: usize = 0;
    while i < src.len()
        invariant
            i <= src.len(),
            issues_view(dst@) =~= start + under_offer(issues_view(src@).subrange(0, i as int)),
        decreases src.len() - i,
    {
        let mut path = String::from_str("$.hardwareOffer");
        path.append(strip_dollars_of(src[i].path.as_str()));
        let item = marketplace_issue(path, src[i].message.as_str());
        let ghost before = dst@;
        dst.push(item);
        assert(dst@ =~= before.push(item));
        assert(issues_view(dst@) =~= issues_view(before).push(item@));
        assert(issues_view(src@).subrange(0, i + 1) =~= issues_view(src@).subrange(0, i as int).push(
            src@[i as int]@,
        ));
        assert(under_offer(issues_view(src@).subrange(0, i + 1)) =~= under_offer(
            issues_view(src@).subrange(0, i as int),
        ).push(("$.hardwareOffer"@ + strip_dollars(src@[i as int].path@), src@[i as int].message@)));
        i = i + 1;
    }
    assert(issues_view(src@).subrange(0, i as int) =~= issues_view(src@));
}

/// The findings of checking each benchmark result against the profile and
/// the offer.
struct BenchmarkFindings {
    issues: Vec<MarketplaceVerificationIssueV1>,
    warnings: Vec<MarketplaceVerificationIssueV1>,
    all_valid: bool,
    ids: Vec<String>,
}

fn check_benchmarks(
    benchmarks: &Vec<SignedBenchmark>,
    profile: &MinerProfileV1,
    offer: &HardwareResourceOfferV1,
    verified_at: &String,
) -> (r: BenchmarkFindings)
    ensures
        issues_view(r.issues@) == benchmark_issues(benchmarks@, *profile, *offer),
        issues_view(r.warnings@) == benchmark_warnings(benchmarks@, *profile, *offer),
        r.all_valid == (forall|i: int|
            0 <= i < benchmarks@.len() ==> #[trigger] miner_benchmark_report(
                benchmarks@[i].0,
                benchmarks@[i].1,
                Some(*profile),
                Some(*offer),
            ).valid()),
        r.ids.deep_view() == benchmark_ids(benchmarks@),
{
    let mut issues: Vec<MarketplaceVerificationIssueV1> = Vec::new();
    let mut warnings: Vec<MarketplaceVerificationIssueV1> = Vec::new();
    let mut all_valid = true;
    let mut ids: Vec<String> = Vec::new();
    let mut i: usize = 0;
    while i < benchmarks.len()
        invariant
            i <= benchmarks.len(),
            issues_view(issues@) == benchmark_issues(benchmarks@.subrange(0, i as int), *profile, *offer),
            issues_view(warnings@) == benchmark_warnings(
                benchmarks@.subrange(0, i as int),
                *profile,
                *offer,
            ),
            all_valid == (forall|j: int|
                0 <= j < i ==> #[trigger] miner_benchmark_report(
                    benchmarks@[j].0,
                    benchmarks@[j].1,
                    Some(*profile),
                    Some(*offer),
                ).valid()),
            ids.deep_view() =~= benchmark_ids(benchmarks@.subrange(0, i as int)),
        decreases benchmarks.len() - i,
    {
        let b = &benchmarks[i];
        let v = verify_miner_benchmark_result(&b.0, &b.1, Some(profile), Some(offer), verified_at.clone());
        extend_issues(&mut issues, &v.issues);
        extend_issues(&mut warnings, &v.warnings);
        all_valid = all_valid && v.valid;
        let ghost before = ids.deep_view();
        ids.push(b.0.benchmark_id.clone());
        proof {
            let s = benchmarks@.subrange(0, i + 1);
            assert(s.drop_last() =~= benchmarks@.subrange(0, i as int));
            assert(s.last() == benchmarks@[i as int]);
            assert(ids.deep_view() =~= before.push(benchmarks@[i as int].0.benchmark_id@));
        }
        i = i + 1;
    }
    assert(benchmarks@.subrange(0, i as int) =~= benchmarks@);
    BenchmarkFindings { issues, warnings, all_valid, ids }
}

/// The findings of a profile, of its offer (under `$.hardwareOffer`) and of
/// its benchmarks, in that order.
fn merge_findings(
    profile: &Vec<MarketplaceVerificationIssueV1>,
    offer: &Vec<MarketplaceVerificationIssueV1>,
    benchmarks: &Vec<MarketplaceVerificationIssueV1>,
) -> (r: Vec<MarketplaceVerificationIssueV1>)
    ensures
        issues_view(r@) == issues_view(profile@) + under_offer(issues_view(offer@)) + issues_view(
            benchmarks@,
        ),
{
    let mut r = copy_issues(profile);
    extend_under_offer(&mut r, offer);
    extend_issues(&mut r, benchmarks);
    r
}

/// The four onboarding steps.
fn onboarding_steps(
    miner_id: &str,
    offer_id: &str,
    profile_valid: bool,
    offer_valid: bool,
    benchmark_valid: bool,
    benchmark_ids: Vec<String>,
    sensitive: bool,
) -> (r: Vec<MinerOnboardingStepV1>)
    ensures
        r@.len() == 4,
        is_step(r@[0], 1, "Create miner profile"@, profile_valid, seq![miner_id@]),
        is_step(r@[1], 2, "Publish hardware offer"@, offer_valid, seq![offer_id@]),
        is_step(r@[2], 3, "Run benchmark challenge"@, benchmark_valid, benchmark_ids.deep_view()),
        is_step(r@[3], 4, "Restrict sensitive jobs by trust tier"@, sensitive, seq![]),
{
    let mut first_refs: Vec<String> = Vec::new();
    push_text(&mut first_refs, miner_id);
    let mut second_refs: Vec<String> = Vec::new();
    push_text(&mut second_refs, offer_id);
    let none: Vec<String> = Vec::new();
    assert(first_refs.deep_view() =~= seq![miner_id@]);
    assert(second_refs.deep_view() =~= seq![offer_id@]);
    assert(none.deep_view() =~= Seq::<Seq<char>>::empty());
    vec![
        step(1, "Create miner profile", profile_valid, first_refs),
        step(2, "Publish hardware offer", offer_valid, second_refs),
        step(3, "Run benchmark challenge", benchmark_valid, benchmark_ids),
        step(4, "Restrict sensitive jobs by trust tier", sensitive, none),
    ]
}

/// The onboarding plan of a miner: the trust tier recommended for it,
/// whether it may take public and sensitive jobs, the four onboarding steps
/// (create the profile, publish the offer, run the benchmark challenge,
/// restrict sensitive jobs by trust tier) with their completion and
/// evidence, and the findings of the checks behind them. `profile_content`,
/// `offer_content` and each benchmark's content carry what the checks need of
/// the records' signing values; `now` is the time the offer is checked
/// against; `generated_at` is the time of the plan.
pub fn miner_onboarding_plan(
    profile: &MinerProfileV1,
    profile_content: &SignedContent,
    offer: &HardwareResourceOfferV1,
    offer_content: &SignedContent,
    benchmarks: &Vec<SignedBenchmark>,
    now: Instant,
    generated_at: String,
) -> (r: MinerOnboardingPlanV1)
    ensures
        r.schema_version@ == MINER_ONBOARDING_PLAN_SCHEMA_VERSION@,
        r.miner_id@ == profile.miner_id@,
        r.runner_id@ == profile.runner_id@,
        r.recommended_trust_tier == recommended_tier(
            *profile,
            benchmarks_pass(benchmarks@, *profile, *offer),
        ),
        r.eligible_for_public_jobs == eligible_public(
            *profile,
            *profile_content,
            *offer,
            *offer_content,
            now,
        ),
        r.eligible_for_sensitive_jobs == eligible_sensitive(
            *profile,
            *profile_content,
            *offer,
            *offer_content,
            benchmarks@,
            now,
        ),
        r.steps@.len() == 4,
        is_step(
            r.steps@[0],
            1,
            "Create miner profile"@,
            miner_profile_report(*profile, *profile_content, Some(*offer)).valid(),
            seq![profile.miner_id@],
        ),
        is_step(
            r.steps@[1],
            2,
            "Publish hardware offer"@,
            hardware_offer_report(*offer, *offer_content, now).valid(),
            seq![offer.offer_id@],
        ),
        is_step(
            r.steps@[2],
            3,
            "Run benchmark challenge"@,
            benchmarks_pass(benchmarks@, *profile, *offer),
            benchmark_ids(benchmarks@),
        ),
        is_step(
            r.steps@[3],
            4,
            "Restrict sensitive jobs by trust tier"@,
            r.eligible_for_sensitive_jobs,
            seq![],
        ),
        issues_view(r.issues@) == onboarding_issues(
            *profile,
            *profile_content,
            *offer,
            *offer_content,
            benchmarks@,
            now,
        ),
        issues_view(r.warnings@) == onboarding_warnings(
            *profile,
            *profile_content,
            *offer,
            *offer_content,
            benchmarks@,
            now,
        ),
        r.generated_at@ == generated_at@,
{
    let pv = verify_miner_profile(profile, profile_content, Some(offer), generated_at.clone());
    let ov = verify_hardware_resource_offer(offer, offer_content, now, generated_at.clone());
    let bf = check_benchmarks(benchmarks, profile, offer, &generated_at);
    let benchmark_valid = benchmarks.len() > 0 && bf.all_valid;
    let public = pv.valid && ov.valid && profile.supported_execution_modes.len() > 0
        && profile.supported_apis.len() > 0;
    let sensitive = public && benchmark_valid && tier_admits_sensitive_work(profile.trust_tier) && (
    has_privacy(&profile.privacy_tiers, PrivacyTier::NoLog) || has_privacy(
        &profile.privacy_tiers,
        PrivacyTier::TeeConfidential,
    ) || has_privacy(&profile.privacy_tiers, PrivacyTier::FheEncrypted));

    let issues = merge_findings(&pv.issues, &ov.issues, &bf.issues);
    let mut warnings = merge_findings(&pv.warnings, &ov.warnings, &bf.warnings);
    if benchmarks.len() == 0 {
        warnings.push(
            marketplace_issue(
                String::from_str("$.benchmarks"),
                "No miner benchmark result supplied; keep miner on public or low-risk jobs only",
            ),
        );
    }
    let tier = recommended_trust_tier(profile, benchmark_valid);
    let steps = onboarding_steps(
        profile.miner_id.as_str(),
        offer.offer_id.as_str(),
        pv.valid,
        ov.valid,
        benchmark_valid,
        bf.ids,
        sensitive,
    );
    proof {
        reveal_strlit("$.benchmarks");
        reveal_strlit("No miner benchmark result supplied; keep miner on public or low-risk jobs only");
    }
    MinerOnboardingPlanV1 {
        schema_version: String::from_str(MINER_ONBOARDING_PLAN_SCHEMA_VERSION),
        miner_id: profile.miner_id.clone(),
        runner_id: profile.runner_id.clone(),
        recommended_trust_tier: tier,
        eligible_for_public_jobs: public,
        eligible_for_sensitive_jobs: sensitive,
        steps,
        issues,
        warnings,
        generated_at,
    }
}


// ---------------------------------------------------------------------------
// Dashboard

/// What a miner's dashboard is built from. Each benchmark result comes with
/// what its check needs of its signing value.
#[derive(Debug, Clone)]
pub struct MinerDashboardInputV1 {
    pub profile: MinerProfileV1,
    pub heartbeat: MinerHeartbeatV1,
    pub hardware_offer: HardwareResourceOfferV1,
    pub benchmarks: Vec<SignedBenchmark>,
    pub completed_jobs: u64,
    pub settled_jobs: u64,
    pub disputed_jobs: u64,
    pub estimated_earnings: Option<PriceV1>,
}

/// The dashboard of a miner: its identity, its heartbeat's status and load,
/// the trust tier its onboarding plan recommends, its job counts, its
/// estimated earnings (zero US dollars when none are given), how many
/// benchmark results it has and how many warnings its onboarding plan
/// carries (each count as a `u32`, as the record stores it).
/// `profile_content` and `offer_content` carry what the checks need of the
/// records' signing values; `now` is the time the offer is checked against;
/// `generated_at` is the time of the summary.
pub fn miner_dashboard_summary(
    input: MinerDashboardInputV1,
    profile_content: &SignedContent,
    offer_content: &SignedContent,
    now: Instant,
    generated_at: String,
) -> (r: MinerDashboardSummaryV1)
    ensures
        r.schema_version@ == MINER_DASHBOARD_SUMMARY_SCHEMA_VERSION@,
        r.miner_id@ == input.profile.miner_id@,
        r.runner_id@ == input.profile.runner_id@,
        r.status == input.heartbeat.status,
        r.trust_tier == recommended_tier(
            input.profile,
            benchmarks_pass(input.benchmarks@, input.profile, input.hardware_offer),
        ),
        r.hardware_offer_id@ == input.hardware_offer.offer_id@,
        r.queue_depth == input.heartbeat.queue_depth,
        r.active_jobs == input.heartbeat.active_jobs,
        r.completed_jobs == input.completed_jobs,
        r.settled_jobs == input.settled_jobs,
        r.disputed_jobs == input.disputed_jobs,
        match input.estimated_earnings {
            Some(e) => r.estimated_earnings.amount == e.amount
                && r.estimated_earnings.currency@ == e.currency@,
            None => r.estimated_earnings.amount == 0 && r.estimated_earnings.currency@ == "USD"@,
        },
        r.benchmark_count == input.benchmarks@.len() as u32,
        r.warning_count == onboarding_warnings(
            input.profile,
            *profile_content,
            input.hardware_offer,
            *offer_content,
            input.benchmarks@,
            now,
        ).len() as u32,
        r.generated_at@ == generated_at@,
{
    let plan = miner_onboarding_plan(
        &input.profile,
        profile_content,
        &input.hardware_offer,
        offer_content,
        &input.benchmarks,
        now,
        generated_at.clone(),
    );
    assert(issues_view(plan.warnings@).len() == plan.warnings@.len());
    proof {
        reveal_strlit("USD");
    }
    let estimated_earnings = match input.estimated_earnings {
        Some(e) => e,
        None => PriceV1 { amount: 0, currency: String::from_str("USD") },
    };
    let benchmark_count = input.benchmarks.len() as u32;
    let warning_count = plan.warnings.len() as u32;
    MinerDashboardSummaryV1 {
        schema_version: String::from_str(MINER_DASHBOARD_SUMMARY_SCHEMA_VERSION),
        miner_id: input.profile.miner_id,
        runner_id: input.profile.runner_id,
        status: input.heartbeat.status,
        trust_tier: plan.recommended_trust_tier,
        hardware_offer_id: input.hardware_offer.offer_id,
        queue_depth: input.heartbeat.queue_depth,
        active_jobs: input.heartbeat.active_jobs,
        completed_jobs: input.completed_jobs,
        settled_jobs: input.settled_jobs,
        disputed_jobs: input.disputed_jobs,
        estimated_earnings,
        benchmark_count,
        warning_count,
        generated_at,
    }
}

// ---------------------------------------------------------------------------
// Building records

/// Two hardware descriptions hold the same values, bit for bit.
pub open spec fn identical_hardware(a: HardwareResourceV1, b: HardwareResourceV1) -> bool {
    &&& opt_view(a.gpu_vendor) == opt_view(b.gpu_vendor)
    &&& opt_view(a.gpu_model) == opt_view(b.gpu_model)
    &&& a.gpu_count == b.gpu_count
    &&& a.vram_gb == b.vram_gb
    &&& a.cpu_cores == b.cpu_cores
    &&& a.ram_gb == b.ram_gb
    &&& a.disk_gb == b.disk_gb
    &&& a.network_mbps == b.network_mbps
    &&& opt_view(a.driver_version) == opt_view(b.driver_version)
    &&& a.runtime_versions.deep_view() == b.runtime_versions.deep_view()
}

fn copy_hardware(h: &HardwareResourceV1) -> (r: HardwareResourceV1)
    ensures
        identical_hardware(r, *h),
{
    HardwareResourceV1 {
        gpu_vendor: copy_opt(&h.gpu_vendor),
        gpu_model: copy_opt(&h.gpu_model),
        gpu_count: h.gpu_count,
        vram_gb: h.vram_gb,
        cpu_cores: h.cpu_cores,
        ram_gb: h.ram_gb,
        disk_gb: h.disk_gb,
        network_mbps: h.network_mbps,
        driver_version: copy_opt(&h.driver_version),
        runtime_versions: copy_texts(&h.runtime_versions),
    }
}

fn copy_values<T: Copy>(v: &Vec<T>) -> (r: Vec<T>)
    ensures
        r@ == v@,
{
    let mut r: Vec<T> = Vec::new();
    let mut i: usize = 0;
    while i < v.len()
        invariant
            i <= v.len(),
            r@ =~= v@.subrange(0, i as int),
        decreases v.len() - i,
    {
        r.push(v[i]);
        i = i + 1;
    }
    r
}

/// The profile of the miner behind a hardware offer, running
/// `daemon_version`, created at `created_at`: the offer's operator, runner,
/// hardware, capabilities, tiers and terms, citing the offer. The profile is
/// returned unsigned and without its canonical id.
pub fn miner_profile_from_hardware_offer(
    offer: &HardwareResourceOfferV1,
    daemon_version: String,
    created_at: String,
) -> (r: MinerProfileV1)
    ensures
        r.schema_version@ == MINER_PROFILE_SCHEMA_VERSION@,
        r.miner_id@ == Seq::<char>::empty(),
        r.operator@ == offer.operator@,
        r.runner_id@ == offer.runner_id@,
        r.daemon_version@ == daemon_version@,
        identical_hardware(r.hardware, offer.hardware),
        r.supported_execution_modes@ == offer.supported_execution_modes@,
        r.supported_engines.deep_view() == offer.supported_engines.deep_view(),
        r.supported_apis@ == offer.supported_apis@,
        r.supported_modalities@ == offer.supported_modalities@,
        r.privacy_tiers@ == offer.privacy_tiers@,
        r.verification_tiers@ == offer.verification_tiers@,
        r.trust_tier == offer.trust_tier,
        r.hardware_offer_id@ == offer.offer_id@,
        r.terms_ref@ == offer.terms_ref@,
        r.created_at@ == created_at@,
        r.signature is None,
{
    MinerProfileV1 {
        schema_version: String::from_str(MINER_PROFILE_SCHEMA_VERSION),
        miner_id: String::new(),
        operator: offer.operator.clone(),
        runner_id: offer.runner_id.clone(),
        daemon_version,
        hardware: copy_hardware(&offer.hardware),
        supported_execution_modes: copy_values(&offer.supported_execution_modes),
        supported_engines: copy_texts(&offer.supported_engines),
        supported_apis: copy_values(&offer.supported_apis),
        supported_modalities: copy_values(&offer.supported_modalities),
        privacy_tiers: copy_values(&offer.privacy_tiers),
        verification_tiers: copy_values(&offer.verification_tiers),
        trust_tier: offer.trust_tier,
        hardware_offer_id: offer.offer_id.clone(),
        terms_ref: offer.terms_ref.clone(),
        created_at,
        signature: None,
    }
}

/// A heartbeat of the miner of `profile`, observed at `observed_at`, in the
/// given status with the given queue, jobs and load (an IEEE 754 bit
/// pattern), reporting the profile's VRAM and RAM as available. The
/// heartbeat is returned unsigned and without its canonical id.
pub fn miner_heartbeat_from_profile(
    profile: &MinerProfileV1,
    status: MinerDaemonStatus,
    queue_depth: u32,
    active_jobs: u32,
    current_job_ids: Vec<String>,
    load_average: u64,
    observed_at: String,
) -> (r: MinerHeartbeatV1)
    ensures
        r.schema_version@ == MINER_HEARTBEAT_SCHEMA_VERSION@,
        r.heartbeat_id@ == Seq::<char>::empty(),
        r.miner_id@ == profile.miner_id@,
        r.runner_id@ == profile.runner_id@,
        r.status == status,
        r.observed_at@ == observed_at@,
        r.queue_depth == queue_depth,
        r.active_jobs == active_jobs,
        r.current_job_ids.deep_view() == current_job_ids.deep_view(),
        r.available_vram_gb == profile.hardware.vram_gb,
        r.available_ram_gb == profile.hardware.ram_gb,
        r.load_average == load_average,
        r.cache_claims@.len() == 0,
        r.errors@.len() == 0,
        r.signature is None,
{
    MinerHeartbeatV1 {
        schema_version: String::from_str(MINER_HEARTBEAT_SCHEMA_VERSION),
        heartbeat_id: String::new(),
        miner_id: profile.miner_id.clone(),
        runner_id: profile.runner_id.clone(),
        status,
        observed_at,
        queue_depth,
        active_jobs,
        current_job_ids,
        available_vram_gb: profile.hardware.vram_gb,
        available_ram_gb: profile.hardware.ram_gb,
        load_average,
        cache_claims: Vec::new(),
        errors: Vec::new(),
        signature: None,
    }
}

/// The privacy tier a benchmark runs under: the profile's first, else
/// `Standard`.
pub open spec fn benchmark_privacy(ps: Seq<PrivacyTier>) -> PrivacyTier {
    if ps.len() > 0 {
        ps[0]
    } else {
        PrivacyTier::Standard
    }
}

/// The integrity tier a benchmark runs under: the profile's first, else
/// `ReceiptOnly`.
pub open spec fn benchmark_integrity(vs: Seq<IntegrityTier>) -> IntegrityTier {
    if vs.len() > 0 {
        vs[0]
    } else {
        IntegrityTier::ReceiptOnly
    }
}

/// The result of running `workload` of `benchmark_suite` on the miner of
/// `profile` behind `offer`, measured at `measured_at`. The result is
/// returned unsigned and without its canonical id.
pub fn miner_benchmark_result(
    profile: &MinerProfileV1,
    offer: &HardwareResourceOfferV1,
    benchmark_suite: String,
    workload: String,
    metrics: Vec<MinerBenchmarkMetricV1>,
    evidence_refs: Vec<String>,
    measured_at: String,
) -> (r: MinerBenchmarkResultV1)
    ensures
        r.schema_version@ == MINER_BENCHMARK_SCHEMA_VERSION@,
        r.benchmark_id@ == Seq::<char>::empty(),
        r.miner_id@ == profile.miner_id@,
        r.runner_id@ == profile.runner_id@,
        r.hardware_offer_id@ == offer.offer_id@,
        r.benchmark_suite@ == benchmark_suite@,
        r.workload@ == workload@,
        r.metrics@ == metrics@,
        r.evidence_refs.deep_view() == evidence_refs.deep_view(),
        r.privacy_tier == benchmark_privacy(profile.privacy_tiers@),
        r.integrity_tier == benchmark_integrity(profile.verification_tiers@),
        r.measured_at@ == measured_at@,
        r.signature is None,
{
    let privacy_tier = if profile.privacy_tiers.len() > 0 {
        profile.privacy_tiers[0]
    } else {
        PrivacyTier::Standard
    };
    let integrity_tier = if profile.verification_tiers.len() > 0 {
        profile.verification_tiers[0]
    } else {
        IntegrityTier::ReceiptOnly
    };
    MinerBenchmarkResultV1 {
        schema_version: String::from_str(MINER_BENCHMARK_SCHEMA_VERSION),
        benchmark_id: String::new(),
        miner_id: profile.miner_id.clone(),
        runner_id: profile.runner_id.clone(),
        hardware_offer_id: offer.offer_id.clone(),
        benchmark_suite,
        workload,
        metrics,
        evidence_refs,
        privacy_tier,
        integrity_tier,
        measured_at,
        signature: None,
    }
}


// ---------------------------------------------------------------------------
// Laws

/// Sensitive work needs benchmarks: a miner eligible for sensitive jobs is
/// eligible for public ones and its benchmarks pass; a miner without a
/// benchmark result is recommended the open tier and is not eligible for
/// sensitive jobs.
pub proof fn lemma_sensitive_work_needs_benchmarks(
    p: MinerProfileV1,
    pc: SignedContent,
    o: HardwareResourceOfferV1,
    oc: SignedContent,
    bs: Seq<SignedBenchmark>,
    now: Instant,
)
    ensures
        eligible_sensitive(p, pc, o, oc, bs, now) ==> eligible_public(p, pc, o, oc, now)
            && benchmarks_pass(bs, p, o),
        bs.len() == 0 ==> !eligible_sensitive(p, pc, o, oc, bs, now) && recommended_tier(
            p,
            benchmarks_pass(bs, p, o),
        ) == MinerTrustTierV1::Open,
{
}

/// The signature rule of miner records: an unsigned record only gets a
/// warning; a signed one passes exactly when its envelope check found
/// nothing, or, without an envelope, when its signature is the development
/// signature.
pub proof fn lemma_miner_signature_verdict(
    r: Report,
    sig: Option<Seq<char>>,
    dev: Seq<char>,
    identity: Option<(Seq<char>, Seq<IssueView>)>,
    mismatch_message: Seq<char>,
)
    ensures
        present_text(sig) is None ==> miner_signature_report(r, sig, dev, identity, mismatch_message).issues
            == r.issues,
        present_text(sig) is Some ==> (identity matches Some(c) ==> miner_signature_report(
            r,
            sig,
            dev,
            identity,
            mismatch_message,
        ).valid() == (r.valid() && c.1.len() == 0)),
        present_text(sig) is Some && identity is None ==> miner_signature_report(
            r,
            sig,
            dev,
            identity,
            mismatch_message,
        ).valid() == (r.valid() && present_text(sig) == Some(dev)),
{
}


/// The identity envelope of a MinerProfileV1's signature: context `miner-profile`, signed by
/// its operator.
pub fn miner_profile_envelope(profile: &MinerProfileV1) -> (r: EnvelopeSubject)
    ensures
        r.context@ == "miner-profile"@,
        opt_view(r.signer) == Some(profile.operator@),
{
    envelope_subject("miner-profile", profile.operator.as_str())
}


/// The identity envelope of a miner heartbeat's signature: context
/// `miner-heartbeat`, with no expected signer.
pub fn miner_heartbeat_envelope() -> (r: EnvelopeSubject)
    ensures
        r.context@ == "miner-heartbeat"@,
        r.signer is None,
{
    EnvelopeSubject { context: String::from_str("miner-heartbeat"), signer: None }
}

/// The identity envelope of a miner benchmark result's signature: context
/// `miner-benchmark-result`, signed by the operator of the miner's profile
/// when the profile is known, by anyone otherwise.
pub fn miner_benchmark_envelope(profile: Option<&MinerProfileV1>) -> (r: EnvelopeSubject)
    ensures
        r.context@ == "miner-benchmark-result"@,
        opt_view(r.signer) == match profile {
            Some(p) => Some(p.operator@),
            None => None::<Seq<char>>,
        },
{
    match profile {
        Some(p) => envelope_subject("miner-benchmark-result", p.operator.as_str()),
        None => EnvelopeSubject { context: String::from_str("miner-benchmark-result"), signer: None },
    }
}


/// Puts on a MinerProfileV1 a signature that `subject` made over its signed content,
/// with `miner_id` the canonical id of that content: refused, leaving the record
/// unchanged, when `subject` is not the record's operator.
pub fn seal_miner_profile(profile: &mut MinerProfileV1, subject: &str, miner_id: String, signature: String) -> (ok: bool)
    ensures
        ok == (subject@ == old(profile).operator@),
        ok ==> *final(profile) == (MinerProfileV1 { miner_id, signature: Some(signature), ..*old(profile) }),
        !ok ==> *final(profile) == *old(profile),
{
    if !text_eq(subject, profile.operator.as_str()) {
        return false;
    }
    profile.miner_id = miner_id;
    profile.signature = Some(signature);
    true
}


/// Puts on a miner benchmark result a signature that `subject` made over its
/// signed content, with `benchmark_id` the canonical id of that content:
/// refused, leaving the result unchanged, when `subject` is not the operator
/// of the miner's profile or the result names another miner.
pub fn seal_miner_benchmark_result(
    result: &mut MinerBenchmarkResultV1,
    profile: &MinerProfileV1,
    subject: &str,
    benchmark_id: String,
    signature: String,
) -> (ok: bool)
    ensures
        ok == (subject@ == profile.operator@ && old(result).miner_id@ == profile.miner_id@),
        ok ==> *final(result) == (MinerBenchmarkResultV1 { benchmark_id, signature: Some(signature), ..*old(result) }),
        !ok ==> *final(result) == *old(result),
{
    if !text_eq(subject, profile.operator.as_str()) || !text_eq(result.miner_id.as_str(), profile.miner_id.as_str()) {
        return false;
    }
    result.benchmark_id = benchmark_id;
    result.signature = Some(signature);
    true
}

} // verus!
