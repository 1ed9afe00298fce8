//! Runner offers and hardware resource offers, and the rules they must pass.
use crate::clock::{not_after, parse_rfc3339, reached_by, rfc3339_instant, Instant};
use crate::findings::{envelope_subject, EnvelopeSubject, keeps_issues, lemma_nonblank_keep, lemma_references_keep, expected_signature, identity_view, indexed, indexed_path, issues_view, opt_view, present_text, present_text_of, Findings, MarketplaceVerificationIssueV1, Report, SignedContent};
use crate::ieee::{f64_le_zero, f64_lt_zero, f64_outside_unit, le_zero, lt_zero, outside_unit};
use crate::kinds::{ApiSurface, HardwareExecutionModeV1, IntegrityTier, MinerTrustTierV1, Modality, PrivacyTier, RunnerType};
use crate::text::{blank, is_blank, looks_like_marketplace_ref, marketplace_ref, text_eq, trimmed};
use vstd::prelude::*;

verus! {

pub const RUNNER_OFFER_SCHEMA_VERSION: &'static str = "hivemind.runner_offer.v1";

pub const LEGACY_RUNNER_OFFER_SCHEMA_VERSION: &'static str = "swarm-ai.runner-offer.v1";

/// The finding at `$.signature` for a signature that matches neither the
/// development signature nor an identity envelope.
pub const RUNNER_OFFER_SIGNATURE_MISMATCH: &'static str =
    "Runner offer signature does not match canonical dev signature or Ed25519 identity envelope";

pub const RUNNER_OFFER_VERIFICATION_SCHEMA_VERSION: &'static str =
    "hivemind.runner_offer_verification.v1";

pub const HARDWARE_RESOURCE_OFFER_SCHEMA_VERSION: &'static str =
    "hivemind.hardware_resource_offer.v1";

pub const LEGACY_HARDWARE_RESOURCE_OFFER_SCHEMA_VERSION: &'static str =
    "swarm-ai.hardware-resource-offer.v1";

pub const HARDWARE_RESOURCE_OFFER_VERIFICATION_SCHEMA_VERSION: &'static str =
    "hivemind.hardware_resource_offer_verification.v1";

/// How a price entry is metered.
#[derive(Debug, Clone, Copy, PartialEq, Eq, Structural)]
pub enum PriceModel {
    PerToken,
    PerSecond,
    PerCall,
    Other,
}

/// An amount (IEEE 754 bits) in a currency.
#[derive(Debug, Clone)]
pub struct PriceV1 {
    pub amount: u64,
    pub currency: String,
}

/// One row of a comparable price table.
#[derive(Debug, Clone)]
pub struct RunnerPriceEntryV1 {
    pub price_model: PriceModel,
    pub unit: String,
    pub price: PriceV1,
}

/// A runner's claim that a package is cached (and possibly warm).
#[derive(Debug, Clone)]
pub struct RunnerCacheClaimV1 {
    pub package_ref: String,
    pub warmed: bool,
}

/// Hardware a runner reports.
#[derive(Debug, Clone)]
pub struct RunnerHardwareV1 {
    pub accelerator: String,
    pub gpu_memory_mb: Option<u64>,
    pub cpu_threads: Option<u32>,
}

/// Memory limits a runner reports.
#[derive(Debug, Clone)]
pub struct RunnerMemoryV1 {
    pub memory_mb: u64,
    pub max_input_bytes: u64,
    pub max_concurrent_jobs: u32,
}

/// Token prices of a runner offer (IEEE 754 bits).
#[derive(Debug, Clone)]
pub struct RunnerPricingV1 {
    pub input_token_price: u64,
    pub output_token_price: u64,
    pub currency: String,
}

/// Service level of a runner offer; `availability_target` is IEEE 754 bits.
#[derive(Debug, Clone)]
pub struct RunnerServiceLevelV1 {
    pub p95_first_token_ms: u64,
    pub availability_target: u64,
}

/// Reputation of a runner; `validator_score` is IEEE 754 bits.
#[derive(Debug, Clone)]
pub struct RunnerReputationV1 {
    pub validator_score: u64,
    pub completed_jobs: u64,
}

/// A runner's offer to execute packages.
#[derive(Debug, Clone)]
pub struct RunnerOfferV1 {
    pub schema_version: String,
    pub offer_id: String,
    pub runner_id: String,
    pub identity: Option<String>,
    pub public_key: Option<String>,
    pub runner_type: RunnerType,
    pub runner_descriptor_ref: String,
    pub supported_package_refs: Vec<String>,
    pub supported_capabilities: Vec<String>,
    pub supported_apis: Vec<ApiSurface>,
    pub supported_modalities: Vec<Modality>,
    pub supported_package_kinds: Vec<String>,
    pub supported_model_formats: Vec<String>,
    pub engines: Vec<String>,
    pub hardware: Option<RunnerHardwareV1>,
    pub memory: Option<RunnerMemoryV1>,
    pub max_context_tokens: Option<u64>,
    pub max_batch_size: Option<u64>,
    pub streaming_modes: Vec<String>,
    pub price_table: Vec<RunnerPriceEntryV1>,
    pub cache_claims: Vec<RunnerCacheClaimV1>,
    pub privacy_tiers: Vec<PrivacyTier>,
    pub verification_tiers: Vec<IntegrityTier>,
    pub region_hint: Option<String>,
    pub validator_score_ref: Option<String>,
    pub terms_ref: Option<String>,
    pub expires_at: Option<String>,
    pub pricing: RunnerPricingV1,
    pub service_level: RunnerServiceLevelV1,
    pub reputation: RunnerReputationV1,
    pub signature: Option<String>,
}

#[derive(Debug, Clone)]
pub struct RunnerOfferVerificationV1 {
    pub schema_version: String,
    pub offer_id: String,
    pub valid: bool,
    pub issues: Vec<MarketplaceVerificationIssueV1>,
    pub warnings: Vec<MarketplaceVerificationIssueV1>,
    pub expected_signature: Option<String>,
    pub verified_at: String,
}

/// The price-table rules for the first `n` rows: a negative amount, a blank
/// currency and a blank unit are issues.
pub open spec fn price_rows_upto(r: Report, rows: Seq<RunnerPriceEntryV1>, n: nat) -> Report
    decreases n,
{
    if n == 0 {
        r
    } else {
        let i = n - 1;
        let e = rows[i];
        let r = price_rows_upto(r, rows, (n - 1) as nat);
        let r = r.issue_if(
            lt_zero(e.price.amount),
            indexed("$.priceTable["@, i, "].price.amount"@),
            "Price amount must not be negative"@,
        );
        let r = r.issue_if(
            blank(e.price.currency@),
            indexed("$.priceTable["@, i, "].price.currency"@),
            "Price currency is required"@,
        );
        r.issue_if(blank(e.unit@), indexed("$.priceTable["@, i, "].unit"@), "Price unit is required"@)
    }
}

/// The cache-claim rules for the first `n` claims: each package ref is a
/// reference at `$.cacheClaims[i].packageRef`.
pub open spec fn cache_claims_upto(r: Report, claims: Seq<RunnerCacheClaimV1>, n: nat) -> Report
    decreases n,
{
    if n == 0 {
        r
    } else {
        cache_claims_upto(r, claims, (n - 1) as nat).reference(
            claims[n - 1].package_ref@,
            indexed("$.cacheClaims["@, n - 1, "].packageRef"@),
            "Cache claim package ref must not be empty"@,
            "Cache claim package ref is not a recognized bzz:// or local:// reference"@,
        )
    }
}

impl Findings {
    pub fn price_rows(&mut self, rows: &Vec<RunnerPriceEntryV1>)
        ensures
            final(self)@ == price_rows_upto(old(self)@, rows@, rows@.len()),
    {
        let ghost start = self@;
        let mut i: usize = 0;
        while i < rows.len()
            invariant
                i <= rows.len(),
                self@ == price_rows_upto(start, rows@, i as nat),
            decreases rows.len() - i,
        {
            let e = &rows[i];
            if f64_lt_zero(e.price.amount) {
                self.push_issue(
                    indexed_path("$.priceTable[", i, "].price.amount"),
                    "Price amount must not be negative",
                );
            }
            if is_blank(e.price.currency.as_str()) {
                self.push_issue(
                    indexed_path("$.priceTable[", i, "].price.currency"),
                    "Price currency is required",
                );
            }
            if is_blank(e.unit.as_str()) {
                self.push_issue(indexed_path("$.priceTable[", i, "].unit"), "Price unit is required");
            }
            i = i + 1;
        }
    }

    pub fn cache_claims(&mut self, claims: &Vec<RunnerCacheClaimV1>)
        ensures
            final(self)@ == cache_claims_upto(old(self)@, claims@, claims@.len()),
    {
        let ghost start = self@;
        let mut i: usize = 0;
        while i < claims.len()
            invariant
                i <= claims.len(),
                self@ == cache_claims_upto(start, claims@, i as nat),
            decreases claims.len() - i,
        {
            let v = claims[i].package_ref.as_str();
            if is_blank(v) {
                self.push_issue(
                    indexed_path("$.cacheClaims[", i, "].packageRef"),
                    "Cache claim package ref must not be empty",
                );
            } else if !looks_like_marketplace_ref(v) {
                self.push_warning(
                    indexed_path("$.cacheClaims[", i, "].packageRef"),
                    "Cache claim package ref is not a recognized bzz:// or local:// reference",
                );
            }
            i = i + 1;
        }
    }

    /// A reference that must be present once trimmed: absent or blank is an
    /// issue, an unrecognised scheme (of the trimmed text) a warning.
    pub fn trimmed_reference(
        &mut self,
        value: &Option<String>,
        path: &str,
        missing_message: &str,
        scheme_message: &str,
    )
        ensures
            final(self)@ == trimmed_reference(
                old(self)@,
                opt_view(*value),
                path@,
                missing_message@,
                scheme_message@,
            ),
    {
        match present_text_of(value) {
            Some(t) => {
                let ok = looks_like_marketplace_ref(t);
                self.warn_if(!ok, path, scheme_message);
            },
            None => self.issue_if(true, path, missing_message),
        }
    }
}

pub open spec fn trimmed_reference(
    r: Report,
    value: Option<Seq<char>>,
    path: Seq<char>,
    missing_message: Seq<char>,
    scheme_message: Seq<char>,
) -> Report {
    match present_text(value) {
        Some(t) => r.warn_if(!marketplace_ref(t), path, scheme_message),
        None => r.issue_if(true, path, missing_message),
    }
}

/// The rules that only the current runner-offer schema imposes.
pub open spec fn runner_offer_current_rules(r: Report, o: RunnerOfferV1, now: Instant) -> Report {
    current_rules_terms(current_rules_capacity(current_rules_surfaces(r, o), o), o, now)
}

/// Current-schema rules on identity and declared surfaces.
pub open spec fn current_rules_surfaces(r: Report, o: RunnerOfferV1) -> Report {
    let r = trimmed_reference(
        r,
        opt_view(o.identity),
        "$.identity"@,
        "Current runner offer schema requires identity"@,
        "Runner identity is not a recognized bzz:// or local:// reference"@,
    );
    let r = r.warn_if(
        present_text(opt_view(o.public_key)) is None,
        "$.publicKey"@,
        "Current runner offer schema should include a public key or local-dev placeholder"@,
    );
    let r = r.issue_if(
        o.supported_apis@.len() == 0,
        "$.supportedApis"@,
        "Current runner offer schema requires at least one supported API"@,
    );
    let r = r.issue_if(
        o.supported_modalities@.len() == 0,
        "$.supportedModalities"@,
        "Current runner offer schema requires at least one supported modality"@,
    );
    let r = r.issue_if(
        o.supported_package_kinds@.len() == 0,
        "$.supportedPackageKinds"@,
        "Current runner offer schema requires at least one supported package kind"@,
    );
    let r = r.nonblank_each(
        o.supported_package_kinds.deep_view(),
        "$.supportedPackageKinds["@,
        "]"@,
        "Supported package kind must not be empty"@,
    );
    let r = r.issue_if(
        o.supported_model_formats@.len() == 0,
        "$.supportedModelFormats"@,
        "Current runner offer schema requires at least one supported model format"@,
    );
    let r = r.nonblank_each(
        o.supported_model_formats.deep_view(),
        "$.supportedModelFormats["@,
        "]"@,
        "Supported model format must not be empty"@,
    );
    let r = r.issue_if(
        o.engines@.len() == 0,
        "$.engines"@,
        "Current runner offer schema requires at least one execution engine"@,
    );
    let r = r.nonblank_each(
        o.engines.deep_view(),
        "$.engines["@,
        "]"@,
        "Execution engine must not be empty"@,
    );
    r
}

/// Current-schema rules on hardware, memory and limits.
pub open spec fn current_rules_capacity(r: Report, o: RunnerOfferV1) -> Report {
    let r = match o.hardware {
        Some(h) => {
            let r = r.issue_if(
                blank(h.accelerator@),
                "$.hardware.accelerator"@,
                "Hardware accelerator is required"@,
            );
            let r = r.issue_if(
                h.gpu_memory_mb == Some(0u64),
                "$.hardware.gpuMemoryMB"@,
                "GPU memory must be greater than zero when present"@,
            );
            r.issue_if(
                h.cpu_threads == Some(0u32),
                "$.hardware.cpuThreads"@,
                "CPU thread count must be greater than zero when present"@,
            )
        },
        None => r.issue_if(true, "$.hardware"@, "Current runner offer schema requires hardware"@),
    };
    let r = match o.memory {
        Some(m) => {
            let r = r.issue_if(
                m.memory_mb == 0,
                "$.memory.memoryMB"@,
                "Memory capacity must be greater than zero"@,
            );
            let r = r.issue_if(
                m.max_input_bytes == 0,
                "$.memory.maxInputBytes"@,
                "Max input bytes must be greater than zero"@,
            );
            r.issue_if(
                m.max_concurrent_jobs == 0,
                "$.memory.maxConcurrentJobs"@,
                "Max concurrent jobs must be greater than zero"@,
            )
        },
        None => r.issue_if(true, "$.memory"@, "Current runner offer schema requires memory"@),
    };
    let r = r.issue_if(
        o.max_context_tokens == Some(0u64),
        "$.maxContextTokens"@,
        "Max context tokens must be greater than zero when present"@,
    );
    let r = r.issue_if(
        o.max_batch_size == Some(0u64),
        "$.maxBatchSize"@,
        "Max batch size must be greater than zero when present"@,
    );
    r
}

/// Current-schema rules on streaming, prices, tiers, references and expiry.
pub open spec fn current_rules_terms(r: Report, o: RunnerOfferV1, now: Instant) -> Report {
    let r = r.issue_if(
        o.streaming_modes@.len() == 0,
        "$.streamingModes"@,
        "Current runner offer schema requires at least one streaming mode"@,
    );
    let r = r.nonblank_each(
        o.streaming_modes.deep_view(),
        "$.streamingModes["@,
        "]"@,
        "Streaming mode must not be empty"@,
    );
    let r = r.issue_if(
        o.price_table@.len() == 0,
        "$.priceTable"@,
        "Current runner offer schema requires a comparable price table"@,
    );
    let r = price_rows_upto(r, o.price_table@, o.price_table@.len());
    let r = cache_claims_upto(r, o.cache_claims@, o.cache_claims@.len());
    let r = r.issue_if(
        o.privacy_tiers@.len() == 0,
        "$.privacyTiers"@,
        "Current runner offer schema requires at least one privacy tier"@,
    );
    let r = r.issue_if(
        o.verification_tiers@.len() == 0,
        "$.verificationTiers"@,
        "Current runner offer schema requires at least one verification tier"@,
    );
    let r = r.issue_if(
        o.region_hint matches Some(h) && blank(h@),
        "$.regionHint"@,
        "Region hint must not be empty when present"@,
    );
    let r = match o.validator_score_ref {
        Some(v) => r.reference(
            v@,
            "$.validatorScoreRef"@,
            "Validator score ref must not be empty when present"@,
            "Validator score ref is not a recognized bzz:// or local:// reference"@,
        ),
        None => r.warn_if(
            true,
            "$.validatorScoreRef"@,
            "Current runner offer schema should link validator reputation evidence"@,
        ),
    };
    let r = trimmed_reference(
        r,
        opt_view(o.terms_ref),
        "$.termsRef"@,
        "Current runner offer schema requires termsRef"@,
        "Terms ref is not a recognized bzz:// or local:// reference"@,
    );
    match present_text(opt_view(o.expires_at)) {
        Some(e) => match rfc3339_instant(e) {
            Some(t) => r.issue_if(not_after(t, now), "$.expiresAt"@, "Runner offer has expired"@),
            None => r.issue_if(true, "$.expiresAt"@, "expiresAt must be an RFC3339 timestamp"@),
        },
        None => r.issue_if(
            true,
            "$.expiresAt"@,
            "Current runner offer schema requires expiresAt"@,
        ),
    }
}

/// The findings of the runner-offer rules, in the order they are applied,
/// at time `now`.
pub open spec fn runner_offer_report(o: RunnerOfferV1, c: SignedContent, now: Instant) -> Report {
    let sig = opt_view(o.signature);
    let current = o.schema_version@ == RUNNER_OFFER_SCHEMA_VERSION@;
    let legacy = o.schema_version@ == LEGACY_RUNNER_OFFER_SCHEMA_VERSION@;
    let r = Report::empty();
    let r = r.issue_if(
        !(current || legacy),
        "$.schemaVersion"@,
        "Expected schemaVersion to be hivemind.runner_offer.v1"@,
    );
    let r = r.record_id(
        o.offer_id@,
        sig,
        c.canonical_id@,
        "$.offerId"@,
        "Offer id is required"@,
        "Offer id does not match canonical signed content"@,
    );
    let r = r.issue_if(blank(o.runner_id@), "$.runnerId"@, "Runner id is required"@);
    let r = r.signature(
        sig,
        c.dev_signature@,
        identity_view(c.identity_check),
        RUNNER_OFFER_SIGNATURE_MISMATCH@,
        "Runner offer is unsigned; verify runnerId and offerId through a trusted source"@,
    );
    runner_offer_tail(r, o, now)
}

/// The runner-offer rules after the signature rule, applied to the findings so far.
pub open spec fn runner_offer_tail(r: Report, o: RunnerOfferV1, now: Instant) -> Report {
    let current = o.schema_version@ == RUNNER_OFFER_SCHEMA_VERSION@;
    let r = r.reference(
        o.runner_descriptor_ref@,
        "$.runnerDescriptorRef"@,
        "Runner descriptor ref is required"@,
        "Runner descriptor ref is not a recognized bzz:// or local:// reference"@,
    );
    let r = r.issue_if(
        o.supported_capabilities@.len() == 0,
        "$.supportedCapabilities"@,
        "Offer must declare at least one supported capability"@,
    );
    let r = r.nonblank_each(
        o.supported_capabilities.deep_view(),
        "$.supportedCapabilities["@,
        "]"@,
        "Supported capability must not be empty"@,
    );
    let r = r.references(
        o.supported_package_refs.deep_view(),
        "$.supportedPackageRefs["@,
        "]"@,
        "Supported package ref must not be empty"@,
        "Supported package ref is not a recognized bzz:// or local:// reference"@,
    );
    let r = if current {
        runner_offer_current_rules(r, o, now)
    } else {
        r
    };
    let r = r.issue_if(
        lt_zero(o.pricing.input_token_price),
        "$.pricing.inputTokenPrice"@,
        "Input token price must not be negative"@,
    );
    let r = r.issue_if(
        lt_zero(o.pricing.output_token_price),
        "$.pricing.outputTokenPrice"@,
        "Output token price must not be negative"@,
    );
    let r = r.issue_if(
        blank(o.pricing.currency@),
        "$.pricing.currency"@,
        "Pricing currency is required"@,
    );
    let r = r.issue_if(
        outside_unit(o.service_level.availability_target),
        "$.serviceLevel.availabilityTarget"@,
        "Availability target must be between 0 and 1"@,
    );
    r.issue_if(
        outside_unit(o.reputation.validator_score),
        "$.reputation.validatorScore"@,
        "Validator score must be between 0 and 1"@,
    )
}

fn runner_offer_current_checks(f: &mut Findings, o: &RunnerOfferV1, now: Instant)
    ensures
        final(f)@ == runner_offer_current_rules(old(f)@, *o, now),
{
    current_checks_surfaces(f, o);
    current_checks_capacity(f, o);
    current_checks_terms(f, o, now);
}

fn current_checks_surfaces(f: &mut Findings, o: &RunnerOfferV1)
    ensures
        final(f)@ == current_rules_surfaces(old(f)@, *o),
{
    f.trimmed_reference(
        &o.identity,
        "$.identity",
        "Current runner offer schema requires identity",
        "Runner identity is not a recognized bzz:// or local:// reference",
    );
    let has_key = present_text_of(&o.public_key).is_some();
    f.warn_if(
        !has_key,
        "$.publicKey",
        "Current runner offer schema should include a public key or local-dev placeholder",
    );
    f.issue_if(
        o.supported_apis.len() == 0,
        "$.supportedApis",
        "Current runner offer schema requires at least one supported API",
    );
    f.issue_if(
        o.supported_modalities.len() == 0,
        "$.supportedModalities",
        "Current runner offer schema requires at least one supported modality",
    );
    f.issue_if(
        o.supported_package_kinds.len() == 0,
        "$.supportedPackageKinds",
        "Current runner offer schema requires at least one supported package kind",
    );
    f.nonblank_each(
        &o.supported_package_kinds,
        "$.supportedPackageKinds[",
        "]",
        "Supported package kind must not be empty",
    );
    f.issue_if(
        o.supported_model_formats.len() == 0,
        "$.supportedModelFormats",
        "Current runner offer schema requires at least one supported model format",
    );
    f.nonblank_each(
        &o.supported_model_formats,
        "$.supportedModelFormats[",
        "]",
        "Supported model format must not be empty",
    );
    f.issue_if(
        o.engines.len() == 0,
        "$.engines",
        "Current runner offer schema requires at least one execution engine",
    );
    f.nonblank_each(&o.engines, "$.engines[", "]", "Execution engine must not be empty");
}

fn current_checks_capacity(f: &mut Findings, o: &RunnerOfferV1)
    ensures
        final(f)@ == current_rules_capacity(old(f)@, *o),
{
    match &o.hardware {
        Some(h) => {
            f.required(
                h.accelerator.as_str(),
                "$.hardware.accelerator",
                "Hardware accelerator is required",
            );
            f.issue_if(
                h.gpu_memory_mb == Some(0u64),
                "$.hardware.gpuMemoryMB",
                "GPU memory must be greater than zero when present",
            );
            f.issue_if(
                h.cpu_threads == Some(0u32),
                "$.hardware.cpuThreads",
                "CPU thread count must be greater than zero when present",
            );
        },
        None => f.issue_if(true, "$.hardware", "Current runner offer schema requires hardware"),
    }
    match &o.memory {
        Some(m) => {
            f.issue_if(
                m.memory_mb == 0,
                "$.memory.memoryMB",
                "Memory capacity must be greater than zero",
            );
            f.issue_if(
                m.max_input_bytes == 0,
                "$.memory.maxInputBytes",
                "Max input bytes must be greater than zero",
            );
            f.issue_if(
                m.max_concurrent_jobs == 0,
                "$.memory.maxConcurrentJobs",
                "Max concurrent jobs must be greater than zero",
            );
        },
        None => f.issue_if(true, "$.memory", "Current runner offer schema requires memory"),
    }
    f.issue_if(
        o.max_context_tokens == Some(0u64),
        "$.maxContextTokens",
        "Max context tokens must be greater than zero when present",
    );
    f.issue_if(
        o.max_batch_size == Some(0u64),
        "$.maxBatchSize",
        "Max batch size must be greater than zero when present",
    );
}

fn current_checks_terms(f: &mut Findings, o: &RunnerOfferV1, now: Instant)
    ensures
        final(f)@ == current_rules_terms(old(f)@, *o, now),
{
    f.issue_if(
        o.streaming_modes.len() == 0,
        "$.streamingModes",
        "Current runner offer schema requires at least one streaming mode",
    );
    f.nonblank_each(&o.streaming_modes, "$.streamingModes[", "]", "Streaming mode must not be empty");
    f.issue_if(
        o.price_table.len() == 0,
        "$.priceTable",
        "Current runner offer schema requires a comparable price table",
    );
    f.price_rows(&o.price_table);
    f.cache_claims(&o.cache_claims);
    f.issue_if(
        o.privacy_tiers.len() == 0,
        "$.privacyTiers",
        "Current runner offer schema requires at least one privacy tier",
    );
    f.issue_if(
        o.verification_tiers.len() == 0,
        "$.verificationTiers",
        "Current runner offer schema requires at least one verification tier",
    );
    let region_blank = match &o.region_hint {
        Some(h) => is_blank(h.as_str()),
        None => false,
    };
    f.issue_if(region_blank, "$.regionHint", "Region hint must not be empty when present");
    match &o.validator_score_ref {
        Some(v) => f.reference(
            v.as_str(),
            "$.validatorScoreRef",
            "Validator score ref must not be empty when present",
            "Validator score ref is not a recognized bzz:// or local:// reference",
        ),
        None => f.warn_if(
            true,
            "$.validatorScoreRef",
            "Current runner offer schema should link validator reputation evidence",
        ),
    }
    f.trimmed_reference(
        &o.terms_ref,
        "$.termsRef",
        "Current runner offer schema requires termsRef",
        "Terms ref is not a recognized bzz:// or local:// reference",
    );
    match present_text_of(&o.expires_at) {
        Some(e) => match reached_by(parse_rfc3339(e), now) {
            Some(expired) => f.issue_if(expired, "$.expiresAt", "Runner offer has expired"),
            None => f.issue_if(true, "$.expiresAt", "expiresAt must be an RFC3339 timestamp"),
        },
        None => f.issue_if(true, "$.expiresAt", "Current runner offer schema requires expiresAt"),
    }
}

/// Checks a runner offer against the runner-offer rules at time `now`;
/// `content` and `verified_at` as for `verify_marketplace_listing`.
pub fn verify_runner_offer(
    offer: &RunnerOfferV1,
    content: &SignedContent,
    now: Instant,
    verified_at: String,
) -> (r: RunnerOfferVerificationV1)
    ensures
        r.schema_version@ == RUNNER_OFFER_VERIFICATION_SCHEMA_VERSION@,
        r.offer_id@ == offer.offer_id@,
        issues_view(r.issues@) == runner_offer_report(*offer, *content, now).issues,
        issues_view(r.warnings@) == runner_offer_report(*offer, *content, now).warnings,
        r.valid == runner_offer_report(*offer, *content, now).valid(),
        r.expected_signature matches Some(e) && e@ == expected_signature(
            opt_view(offer.signature),
            content.dev_signature@,
            identity_view(content.identity_check),
        ),
        r.verified_at@ == verified_at@,
{
    let o = offer;
    let mut f = Findings::new();
    let current = text_eq(o.schema_version.as_str(), RUNNER_OFFER_SCHEMA_VERSION);
    let legacy = text_eq(o.schema_version.as_str(), LEGACY_RUNNER_OFFER_SCHEMA_VERSION);
    f.issue_if(
        !(current || legacy),
        "$.schemaVersion",
        "Expected schemaVersion to be hivemind.runner_offer.v1",
    );
    f.record_id(
        o.offer_id.as_str(),
        &o.signature,
        content.canonical_id.as_str(),
        "$.offerId",
        "Offer id is required",
        "Offer id does not match canonical signed content",
    );
    f.required(o.runner_id.as_str(), "$.runnerId", "Runner id is required");
    let expected = f.signature(
        &o.signature,
        content,
        RUNNER_OFFER_SIGNATURE_MISMATCH,
        "Runner offer is unsigned; verify runnerId and offerId through a trusted source",
    );
    f.reference(
        o.runner_descriptor_ref.as_str(),
        "$.runnerDescriptorRef",
        "Runner descriptor ref is required",
        "Runner descriptor ref is not a recognized bzz:// or local:// reference",
    );
    f.issue_if(
        o.supported_capabilities.len() == 0,
        "$.supportedCapabilities",
        "Offer must declare at least one supported capability",
    );
    f.nonblank_each(
        &o.supported_capabilities,
        "$.supportedCapabilities[",
        "]",
        "Supported capability must not be empty",
    );
    f.references(
        &o.supported_package_refs,
        "$.supportedPackageRefs[",
        "]",
        "Supported package ref must not be empty",
        "Supported package ref is not a recognized bzz:// or local:// reference",
    );
    if current {
        runner_offer_current_checks(&mut f, o, now);
    }
    f.issue_if(
        f64_lt_zero(o.pricing.input_token_price),
        "$.pricing.inputTokenPrice",
        "Input token price must not be negative",
    );
    f.issue_if(
        f64_lt_zero(o.pricing.output_token_price),
        "$.pricing.outputTokenPrice",
        "Output token price must not be negative",
    );
    f.required(o.pricing.currency.as_str(), "$.pricing.currency", "Pricing currency is required");
    f.issue_if(
        f64_outside_unit(o.service_level.availability_target),
        "$.serviceLevel.availabilityTarget",
        "Availability target must be between 0 and 1",
    );
    f.issue_if(
        f64_outside_unit(o.reputation.validator_score),
        "$.reputation.validatorScore",
        "Validator score must be between 0 and 1",
    );
    let valid = f.is_valid();
    RunnerOfferVerificationV1 {
        schema_version: String::from_str(RUNNER_OFFER_VERIFICATION_SCHEMA_VERSION),
        offer_id: o.offer_id.clone(),
        valid,
        issues: f.issues,
        warnings: f.warnings,
        expected_signature: Some(expected),
        verified_at,
    }
}

/// Hardware of a resource offer; sizes in GB and bandwidth are IEEE 754 bits.
#[derive(Debug, Clone)]
pub struct HardwareResourceV1 {
    pub gpu_vendor: Option<String>,
    pub gpu_model: Option<String>,
    pub gpu_count: u32,
    pub vram_gb: Option<u64>,
    pub cpu_cores: Option<u32>,
    pub ram_gb: u64,
    pub disk_gb: Option<u64>,
    pub network_mbps: Option<u64>,
    pub driver_version: Option<String>,
    pub runtime_versions: Vec<String>,
}

/// Availability of a hardware offer.
#[derive(Debug, Clone)]
pub struct HardwareAvailabilityV1 {
    pub available_now: bool,
    pub queue_depth: u32,
    pub max_concurrent_jobs: u32,
    pub schedule_refs: Vec<String>,
}

/// Stake a miner puts behind an offer; `amount` is IEEE 754 bits.
#[derive(Debug, Clone)]
pub struct HardwareStakeV1 {
    pub amount: u64,
    pub currency: String,
    pub collateral_ref: Option<String>,
}

/// A miner's offer of hardware capacity.
#[derive(Debug, Clone)]
pub struct HardwareResourceOfferV1 {
    pub schema_version: String,
    pub offer_id: String,
    pub runner_id: String,
    pub operator: String,
    pub hardware: HardwareResourceV1,
    pub supported_execution_modes: Vec<HardwareExecutionModeV1>,
    pub supported_engines: Vec<String>,
    pub supported_apis: Vec<ApiSurface>,
    pub supported_modalities: Vec<Modality>,
    pub price_table: Vec<RunnerPriceEntryV1>,
    pub availability: HardwareAvailabilityV1,
    pub cache_claims: Vec<RunnerCacheClaimV1>,
    pub privacy_tiers: Vec<PrivacyTier>,
    pub verification_tiers: Vec<IntegrityTier>,
    pub trust_tier: MinerTrustTierV1,
    pub stake: Option<HardwareStakeV1>,
    pub benchmark_result_refs: Vec<String>,
    pub terms_ref: String,
    pub expires_at: String,
    pub signature: Option<String>,
}

#[derive(Debug, Clone)]
pub struct HardwareResourceOfferVerificationV1 {
    pub schema_version: String,
    pub offer_id: String,
    pub valid: bool,
    pub issues: Vec<MarketplaceVerificationIssueV1>,
    pub warnings: Vec<MarketplaceVerificationIssueV1>,
    pub expected_signature: Option<String>,
    pub verified_at: String,
}

/// The findings of the hardware-offer rules, in the order they are applied,
/// at time `now`.
pub open spec fn hardware_offer_report(
    o: HardwareResourceOfferV1,
    c: SignedContent,
    now: Instant,
) -> Report {
    let sig = opt_view(o.signature);
    let current = o.schema_version@ == HARDWARE_RESOURCE_OFFER_SCHEMA_VERSION@;
    let legacy = o.schema_version@ == LEGACY_HARDWARE_RESOURCE_OFFER_SCHEMA_VERSION@;
    let h = o.hardware;
    let r = Report::empty();
    let r = r.issue_if(
        !(current || legacy),
        "$.schemaVersion"@,
        "Expected schemaVersion to be hivemind.hardware_resource_offer.v1"@,
    );
    let r = r.record_id(
        o.offer_id@,
        sig,
        c.canonical_id@,
        "$.offerId"@,
        "Offer id is required"@,
        "Offer id does not match canonical signed content"@,
    );
    let r = r.issue_if(blank(o.runner_id@), "$.runnerId"@, "Runner id is required"@);
    let r = r.issue_if(blank(o.operator@), "$.operator"@, "Operator identity is required"@);
    let r = r.reference(
        o.terms_ref@,
        "$.termsRef"@,
        "Terms ref is required"@,
        "Terms ref is not a recognized bzz:// or local:// reference"@,
    );
    let r = r.issue_if(
        o.supported_execution_modes@.len() == 0,
        "$.supportedExecutionModes"@,
        "Hardware offer must declare at least one execution mode"@,
    );
    let r = r.issue_if(
        o.supported_apis@.len() == 0,
        "$.supportedApis"@,
        "Hardware offer must declare at least one supported API"@,
    );
    let r = r.issue_if(
        o.supported_modalities@.len() == 0,
        "$.supportedModalities"@,
        "Hardware offer must declare at least one supported modality"@,
    );
    let r = r.issue_if(
        o.privacy_tiers@.len() == 0,
        "$.privacyTiers"@,
        "Hardware offer must declare at least one privacy tier"@,
    );
    let r = r.issue_if(
        o.verification_tiers@.len() == 0,
        "$.verificationTiers"@,
        "Hardware offer must declare at least one verification tier"@,
    );
    let r = r.issue_if(
        h.gpu_count == 0 && (match h.cpu_cores {
            Some(c) => c == 0,
            None => true,
        }) && le_zero(h.ram_gb),
        "$.hardware"@,
        "Hardware offer must declare CPU, GPU, or RAM capacity"@,
    );
    let r = r.warn_if(
        h.gpu_count > 0 && (match h.vram_gb {
            Some(v) => le_zero(v),
            None => true,
        }),
        "$.hardware.vramGb"@,
        "GPU offers should declare VRAM for router capacity checks"@,
    );
    let r = r.issue_if(
        le_zero(h.ram_gb),
        "$.hardware.ramGb"@,
        "RAM capacity must be greater than zero"@,
    );
    let r = r.issue_if(
        o.availability.max_concurrent_jobs == 0,
        "$.availability.maxConcurrentJobs"@,
        "Maximum concurrent jobs must be greater than zero"@,
    );
    let r = price_rows_upto(r, o.price_table@, o.price_table@.len());
    let r = match o.stake {
        Some(st) => {
            let r = r.issue_if(
                lt_zero(st.amount),
                "$.stake.amount"@,
                "Stake amount must not be negative"@,
            );
            r.issue_if(
                blank(st.currency@),
                "$.stake.currency"@,
                "Stake currency is required when stake is present"@,
            )
        },
        None => r,
    };
    let r = match rfc3339_instant(o.expires_at@) {
        Some(t) => r.issue_if(not_after(t, now), "$.expiresAt"@, "Hardware offer has expired"@),
        None => r.issue_if(true, "$.expiresAt"@, "expiresAt must be an RFC3339 timestamp"@),
    };
    r.signature(
        sig,
        c.dev_signature@,
        identity_view(c.identity_check),
        "Hardware resource offer signature does not match canonical dev signature or Ed25519 operator identity envelope"@,
        "Hardware resource offer is unsigned; verify runnerId and operator through a trusted source"@,
    )
}

/// Checks a hardware resource offer against the hardware-offer rules at
/// time `now`; `content` and `verified_at` as for `verify_marketplace_listing`.
pub fn verify_hardware_resource_offer(
    offer: &HardwareResourceOfferV1,
    content: &SignedContent,
    now: Instant,
    verified_at: String,
) -> (r: HardwareResourceOfferVerificationV1)
    ensures
        r.schema_version@ == HARDWARE_RESOURCE_OFFER_VERIFICATION_SCHEMA_VERSION@,
        r.offer_id@ == offer.offer_id@,
        issues_view(r.issues@) == hardware_offer_report(*offer, *content, now).issues,
        issues_view(r.warnings@) == hardware_offer_report(*offer, *content, now).warnings,
        r.valid == hardware_offer_report(*offer, *content, now).valid(),
        r.expected_signature matches Some(e) && e@ == expected_signature(
            opt_view(offer.signature),
            content.dev_signature@,
            identity_view(content.identity_check),
        ),
        r.verified_at@ == verified_at@,
{
    let o = offer;
    let h = &o.hardware;
    let mut f = Findings::new();
    let current = text_eq(o.schema_version.as_str(), HARDWARE_RESOURCE_OFFER_SCHEMA_VERSION);
    let legacy = text_eq(o.schema_version.as_str(), LEGACY_HARDWARE_RESOURCE_OFFER_SCHEMA_VERSION);
    f.issue_if(
        !(current || legacy),
        "$.schemaVersion",
        "Expected schemaVersion to be hivemind.hardware_resource_offer.v1",
    );
    f.record_id(
        o.offer_id.as_str(),
        &o.signature,
        content.canonical_id.as_str(),
        "$.offerId",
        "Offer id is required",
        "Offer id does not match canonical signed content",
    );
    f.required(o.runner_id.as_str(), "$.runnerId", "Runner id is required");
    f.required(o.operator.as_str(), "$.operator", "Operator identity is required");
    f.reference(
        o.terms_ref.as_str(),
        "$.termsRef",
        "Terms ref is required",
        "Terms ref is not a recognized bzz:// or local:// reference",
    );
    f.issue_if(
        o.supported_execution_modes.len() == 0,
        "$.supportedExecutionModes",
        "Hardware offer must declare at least one execution mode",
    );
    f.issue_if(
        o.supported_apis.len() == 0,
        "$.supportedApis",
        "Hardware offer must declare at least one supported API",
    );
    f.issue_if(
        o.supported_modalities.len() == 0,
        "$.supportedModalities",
        "Hardware offer must declare at least one supported modality",
    );
    f.issue_if(
        o.privacy_tiers.len() == 0,
        "$.privacyTiers",
        "Hardware offer must declare at least one privacy tier",
    );
    f.issue_if(
        o.verification_tiers.len() == 0,
        "$.verificationTiers",
        "Hardware offer must declare at least one verification tier",
    );
    let no_cpu = match h.cpu_cores {
        Some(c) => c == 0,
        None => true,
    };
    let ram_empty = f64_le_zero(h.ram_gb);
    f.issue_if(
        h.gpu_count == 0 && no_cpu && ram_empty,
        "$.hardware",
        "Hardware offer must declare CPU, GPU, or RAM capacity",
    );
    let no_vram = match h.vram_gb {
        Some(v) => f64_le_zero(v),
        None => true,
    };
    f.warn_if(
        h.gpu_count > 0 && no_vram,
        "$.hardware.vramGb",
        "GPU offers should declare VRAM for router capacity checks",
    );
    f.issue_if(ram_empty, "$.hardware.ramGb", "RAM capacity must be greater than zero");
    f.issue_if(
        o.availability.max_concurrent_jobs == 0,
        "$.availability.maxConcurrentJobs",
        "Maximum concurrent jobs must be greater than zero",
    );
    f.price_rows(&o.price_table);
    match &o.stake {
        Some(st) => {
            f.issue_if(
                f64_lt_zero(st.amount),
                "$.stake.amount",
                "Stake amount must not be negative",
            );
            f.required(
                st.currency.as_str(),
                "$.stake.currency",
                "Stake currency is required when stake is present",
            );
        },
        None => {},
    }
    match reached_by(parse_rfc3339(o.expires_at.as_str()), now) {
        Some(expired) => f.issue_if(expired, "$.expiresAt", "Hardware offer has expired"),
        None => f.issue_if(true, "$.expiresAt", "expiresAt must be an RFC3339 timestamp"),
    }
    let expected = f.signature(
        &o.signature,
        content,
        "Hardware resource offer signature does not match canonical dev signature or Ed25519 operator identity envelope",
        "Hardware resource offer is unsigned; verify runnerId and operator through a trusted source",
    );
    let valid = f.is_valid();
    HardwareResourceOfferVerificationV1 {
        schema_version: String::from_str(HARDWARE_RESOURCE_OFFER_VERIFICATION_SCHEMA_VERSION),
        offer_id: o.offer_id.clone(),
        valid,
        issues: f.issues,
        warnings: f.warnings,
        expected_signature: Some(expected),
        verified_at,
    }
}


/// The price rows of an offer only append findings.
pub broadcast proof fn lemma_price_rows_keep(r: Report, rows: Seq<RunnerPriceEntryV1>, n: nat)
    ensures
        keeps_issues(r, #[trigger] price_rows_upto(r, rows, n)),
    decreases n,
{
    if n > 0 {
        lemma_price_rows_keep(r, rows, (n - 1) as nat);
    }
}

/// The cache claims of an offer only append findings.
pub broadcast proof fn lemma_cache_claims_keep(r: Report, claims: Seq<RunnerCacheClaimV1>, n: nat)
    ensures
        keeps_issues(r, #[trigger] cache_claims_upto(r, claims, n)),
    decreases n,
{
    if n > 0 {
        lemma_cache_claims_keep(r, claims, (n - 1) as nat);
    }
}

/// A runner offer whose signature is present, is not an identity envelope and
/// differs from the development signature of its signed content fails
/// verification: the findings hold the signature mismatch at `$.signature`,
/// and the expected signature reported is the development one. So an offer
/// edited after it was signed no longer verifies.
#[verifier::rlimit(100)]
#[verifier::spinoff_prover]
pub proof fn lemma_runner_offer_signature_mismatch(o: RunnerOfferV1, c: SignedContent, now: Instant)
    requires
        present_text(opt_view(o.signature)) matches Some(s) && s != c.dev_signature@,
        c.identity_check is None,
    ensures
        !runner_offer_report(o, c, now).valid(),
        exists|i: int|
            0 <= i < runner_offer_report(o, c, now).issues.len() && (#[trigger] runner_offer_report(
                o,
                c,
                now,
            ).issues[i]) == ("$.signature"@, RUNNER_OFFER_SIGNATURE_MISMATCH@),
        expected_signature(opt_view(o.signature), c.dev_signature@, identity_view(c.identity_check))
            == c.dev_signature@,
{
    let sig = opt_view(o.signature);
    let current = o.schema_version@ == RUNNER_OFFER_SCHEMA_VERSION@;
    let legacy = o.schema_version@ == LEGACY_RUNNER_OFFER_SCHEMA_VERSION@;
    let r = Report::empty().issue_if(
        !(current || legacy),
        "$.schemaVersion"@,
        "Expected schemaVersion to be hivemind.runner_offer.v1"@,
    );
    let r = r.record_id(
        o.offer_id@,
        sig,
        c.canonical_id@,
        "$.offerId"@,
        "Offer id is required"@,
        "Offer id does not match canonical signed content"@,
    );
    let r = r.issue_if(blank(o.runner_id@), "$.runnerId"@, "Runner id is required"@);
    let k = r.issues.len() as int;
    let signed = r.signature(
        sig,
        c.dev_signature@,
        identity_view(c.identity_check),
        RUNNER_OFFER_SIGNATURE_MISMATCH@,
        "Runner offer is unsigned; verify runnerId and offerId through a trusted source"@,
    );
    assert(signed.issues[k] == ("$.signature"@, RUNNER_OFFER_SIGNATURE_MISMATCH@));
    lemma_runner_offer_tail_keep(signed, o, now);
    let full = runner_offer_report(o, c, now);
    assert(full == runner_offer_tail(signed, o, now));
    assert(full.issues[k] == ("$.signature"@, RUNNER_OFFER_SIGNATURE_MISMATCH@));
}

/// The current-schema rules only append findings.
proof fn lemma_current_rules_keep(r: Report, o: RunnerOfferV1, now: Instant)
    ensures
        keeps_issues(r, runner_offer_current_rules(r, o, now)),
{
    broadcast use lemma_nonblank_keep, lemma_references_keep, lemma_price_rows_keep, lemma_cache_claims_keep;
    let a = current_rules_surfaces(r, o);
    let b = current_rules_capacity(a, o);
    assert(keeps_issues(r, a));
    assert(keeps_issues(a, b));
    assert(keeps_issues(r, b));
    let c = current_rules_terms(b, o, now);
    assert(keeps_issues(b, c));
}

/// The rules after the signature rule only append findings.
proof fn lemma_runner_offer_tail_keep(r: Report, o: RunnerOfferV1, now: Instant)
    ensures
        keeps_issues(r, runner_offer_tail(r, o, now)),
{
    broadcast use lemma_nonblank_keep, lemma_references_keep;
    lemma_current_rules_keep(r, o, now);
    let r1 = r.reference(
        o.runner_descriptor_ref@,
        "$.runnerDescriptorRef"@,
        "Runner descriptor ref is required"@,
        "Runner descriptor ref is not a recognized bzz:// or local:// reference"@,
    );
    let r2 = r1.issue_if(
        o.supported_capabilities@.len() == 0,
        "$.supportedCapabilities"@,
        "Offer must declare at least one supported capability"@,
    );
    let r3 = r2.nonblank_each(
        o.supported_capabilities.deep_view(),
        "$.supportedCapabilities["@,
        "]"@,
        "Supported capability must not be empty"@,
    );
    let r4 = r3.references(
        o.supported_package_refs.deep_view(),
        "$.supportedPackageRefs["@,
        "]"@,
        "Supported package ref must not be empty"@,
        "Supported package ref is not a recognized bzz:// or local:// reference"@,
    );
    assert(keeps_issues(r, r4));
    lemma_current_rules_keep(r4, o, now);
}


/// The identity envelope of a RunnerOfferV1's signature: context `runner-offer`, signed by
/// its runner.
pub fn runner_offer_envelope(offer: &RunnerOfferV1) -> (r: EnvelopeSubject)
    ensures
        r.context@ == "runner-offer"@,
        opt_view(r.signer) == Some(offer.runner_id@),
{
    envelope_subject("runner-offer", offer.runner_id.as_str())
}

/// The identity envelope of a HardwareResourceOfferV1's signature: context `hardware-resource-offer`, signed by
/// its operator.
pub fn hardware_resource_offer_envelope(offer: &HardwareResourceOfferV1) -> (r: EnvelopeSubject)
    ensures
        r.context@ == "hardware-resource-offer"@,
        opt_view(r.signer) == Some(offer.operator@),
{
    envelope_subject("hardware-resource-offer", offer.operator.as_str())
}


/// Puts on a RunnerOfferV1 a signature that `subject` made over its signed content,
/// with `offer_id` the canonical id of that content: refused, leaving the record
/// unchanged, when `subject` is not the record's offer runner.
pub fn seal_runner_offer(offer: &mut RunnerOfferV1, subject: &str, offer_id: String, signature: String) -> (ok: bool)
    ensures
        ok == (subject@ == old(offer).runner_id@),
        ok ==> *final(offer) == (RunnerOfferV1 { offer_id, signature: Some(signature), ..*old(offer) }),
        !ok ==> *final(offer) == *old(offer),
{
    if !text_eq(subject, offer.runner_id.as_str()) {
        return false;
    }
    offer.offer_id = offer_id;
    offer.signature = Some(signature);
    true
}


/// Puts on a HardwareResourceOfferV1 a signature that `subject` made over its signed content,
/// with `offer_id` the canonical id of that content: refused, leaving the record
/// unchanged, when `subject` is not the record's offer operator.
pub fn seal_hardware_resource_offer(offer: &mut HardwareResourceOfferV1, subject: &str, offer_id: String, signature: String) -> (ok: bool)
    ensures
        ok == (subject@ == old(offer).operator@),
        ok ==> *final(offer) == (HardwareResourceOfferV1 { offer_id, signature: Some(signature), ..*old(offer) }),
        !ok ==> *final(offer) == *old(offer),
{
    if !text_eq(subject, offer.operator.as_str()) {
        return false;
    }
    offer.offer_id = offer_id;
    offer.signature = Some(signature);
    true
}

} // verus!
