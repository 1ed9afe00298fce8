//! Offers built from what a runner can do: a runner offer for executing
//! packages and a hardware resource offer for renting capacity. Both are
//! returned unsigned, with an empty id, for the signer to complete.
use crate::ieee::feq;
use crate::ieee::f64_eq;
use crate::kinds::{ApiSurface, IntegrityTier, Modality, PrivacyTier, RunnerType};
use crate::offers::{HardwareAvailabilityV1, HardwareResourceOfferV1, HardwareResourceV1, PriceModel, PriceV1, RunnerCacheClaimV1, RunnerHardwareV1, RunnerMemoryV1, RunnerOfferV1, RunnerPriceEntryV1, RunnerPricingV1, RunnerReputationV1, RunnerServiceLevelV1, HARDWARE_RESOURCE_OFFER_SCHEMA_VERSION, RUNNER_OFFER_SCHEMA_VERSION};
use crate::text::{safe_component, safe_file_component};
use crate::tiers::{dedup_modes, execution_modes_from_capability, miner_trust_tier_for_capability, raw_execution_modes, trust_tier};
use vstd::prelude::*;

verus! {

/// What a runner can do, as its descriptor declares it.
#[derive(Debug, Clone)]
pub struct RunnerCapabilityV1 {
    pub runner_id: String,
    pub supported_apis: Vec<ApiSurface>,
    pub supported_modalities: Vec<Modality>,
    pub supported_package_kinds: Vec<String>,
    pub supported_model_formats: Vec<String>,
    pub engines: Vec<String>,
    pub hardware: RunnerHardwareV1,
    pub memory: RunnerMemoryV1,
    pub max_context_tokens: Option<u64>,
    pub max_batch_size: Option<u64>,
    pub streaming_modes: Vec<String>,
    pub price_table: Vec<RunnerPriceEntryV1>,
    pub cache_claims: Vec<RunnerCacheClaimV1>,
    pub privacy_tiers: Vec<PrivacyTier>,
    pub verification_tiers: Vec<IntegrityTier>,
    pub region_hint: Option<String>,
}

/// Pricing that states no price at all: zero per input and output token in
/// currency `none`.
pub open spec fn unpriced(p: RunnerPricingV1) -> bool {
    feq(p.input_token_price, 0) && feq(p.output_token_price, 0) && p.currency@ == "none"@
}

/// A price-table row that charges `amount` per token in a unit.
pub open spec fn token_row(e: RunnerPriceEntryV1, unit: Seq<char>, amount: u64, currency: Seq<char>) -> bool {
    &&& e.price_model == PriceModel::PerToken
    &&& e.unit@ == unit
    &&& e.price.amount == amount
    &&& e.price.currency@ == currency
}

fn token_entry(unit: &str, amount: u64, currency: &String) -> (r: RunnerPriceEntryV1)
    ensures
        token_row(r, unit@, amount, currency@),
{
    RunnerPriceEntryV1 {
        price_model: PriceModel::PerToken,
        unit: unit.to_string(),
        price: PriceV1 { amount, currency: currency.clone() },
    }
}

/// The price table of a runner offer: the capability's own table when the
/// pricing states no price and the capability has one; otherwise one row per
/// input token and one per output token at the pricing's prices.
pub fn runner_offer_price_table(pricing: &RunnerPricingV1, capability_table: Vec<RunnerPriceEntryV1>) -> (r: Vec<
    RunnerPriceEntryV1,
>)
    ensures
        unpriced(*pricing) && capability_table@.len() > 0 ==> r@ == capability_table@,
        !(unpriced(*pricing) && capability_table@.len() > 0) ==> {
            &&& r@.len() == 2
            &&& token_row(r@[0], "input_token"@, pricing.input_token_price, pricing.currency@)
            &&& token_row(r@[1], "output_token"@, pricing.output_token_price, pricing.currency@)
        },
{
    proof {
        reveal_strlit("none");
    }
    let none = crate::text::text_eq(pricing.currency.as_str(), "none");
    if f64_eq(pricing.input_token_price, 0) && f64_eq(pricing.output_token_price, 0) && none
        && capability_table.len() > 0 {
        return capability_table;
    }
    vec![
        token_entry("input_token", pricing.input_token_price, &pricing.currency),
        token_entry("output_token", pricing.output_token_price, &pricing.currency),
    ]
}

/// The offer of a runner to execute packages: the runner's identity and
/// references named after its id made safe for paths, its declared
/// capabilities, the price table above, and the given pricing, service level,
/// reputation and expiry. `descriptor_runner_id`, `runner_type` and
/// `capabilities` come from the runner's descriptor, `capability` is what it
/// declares it can do.
/// The runner offer that `offer_from_runner_descriptor` builds from these
/// arguments.
pub open spec fn built_runner_offer(
    r: RunnerOfferV1,
    descriptor_runner_id: Seq<char>,
    runner_type: RunnerType,
    capabilities: Vec<String>,
    capability: RunnerCapabilityV1,
    runner_descriptor_ref: Seq<char>,
    supported_package_refs: Vec<String>,
    pricing: RunnerPricingV1,
    service_level: RunnerServiceLevelV1,
    reputation: RunnerReputationV1,
    expires_at: Seq<char>,
) -> bool {
    &&& r.schema_version@ == RUNNER_OFFER_SCHEMA_VERSION@
    &&& r.offer_id@ == Seq::<char>::empty()
    &&& r.runner_id@ == descriptor_runner_id
    &&& r.identity matches Some(i) && i@ == "local://runner/"@ + safe_component(descriptor_runner_id)
    &&& r.public_key matches Some(k) && k@ == "local-dev-public-key-unavailable"@
    &&& r.runner_type == runner_type
    &&& r.runner_descriptor_ref@ == runner_descriptor_ref
    &&& r.supported_package_refs == supported_package_refs
    &&& r.supported_capabilities == capabilities
    &&& r.supported_apis == capability.supported_apis
    &&& r.supported_modalities == capability.supported_modalities
    &&& r.supported_package_kinds == capability.supported_package_kinds
    &&& r.supported_model_formats == capability.supported_model_formats
    &&& r.engines == capability.engines
    &&& r.hardware == Some(capability.hardware)
    &&& r.memory == Some(capability.memory)
    &&& r.max_context_tokens == capability.max_context_tokens
    &&& r.max_batch_size == capability.max_batch_size
    &&& r.streaming_modes == capability.streaming_modes
    &&& unpriced(pricing) && capability.price_table@.len() > 0 ==> r.price_table@ == capability.price_table@
    &&& !(unpriced(pricing) && capability.price_table@.len() > 0) ==> {
            &&& r.price_table@.len() == 2
            &&& token_row(r.price_table@[0], "input_token"@, pricing.input_token_price, pricing.currency@)
            &&& token_row(r.price_table@[1], "output_token"@, pricing.output_token_price, pricing.currency@)
        }
    &&& r.cache_claims == capability.cache_claims
    &&& r.privacy_tiers == capability.privacy_tiers
    &&& r.verification_tiers == capability.verification_tiers
    &&& r.region_hint == capability.region_hint
    &&& r.validator_score_ref matches Some(v) && v@ == "local://reputation/runner/"@ + safe_component(
            descriptor_runner_id,
        )
    &&& r.terms_ref matches Some(t) && t@ == "local://terms/runner-offer/"@ + safe_component(descriptor_runner_id)
    &&& r.expires_at matches Some(e) && e@ == expires_at
    &&& r.pricing == pricing
    &&& r.service_level == service_level
    &&& r.reputation == reputation
    &&& r.signature is None
}

pub fn offer_from_runner_descriptor(
    descriptor_runner_id: &str,
    runner_type: RunnerType,
    capabilities: Vec<String>,
    capability: RunnerCapabilityV1,
    runner_descriptor_ref: String,
    supported_package_refs: Vec<String>,
    pricing: RunnerPricingV1,
    service_level: RunnerServiceLevelV1,
    reputation: RunnerReputationV1,
    expires_at: String,
) -> (r: RunnerOfferV1)
    ensures
        built_runner_offer(
            r,
            descriptor_runner_id@,
            runner_type,
            capabilities,
            capability,
            runner_descriptor_ref@,
            supported_package_refs,
            pricing,
            service_level,
            reputation,
            expires_at@,
        ),
{
    let slug = safe_file_component(descriptor_runner_id);
    let price_table = runner_offer_price_table(&pricing, capability.price_table);
    let mut identity = String::from_str("local://runner/");
    identity.append(slug.as_str());
    let mut validator_score_ref = String::from_str("local://reputation/runner/");
    validator_score_ref.append(slug.as_str());
    let mut terms_ref = String::from_str("local://terms/runner-offer/");
    terms_ref.append(slug.as_str());
    RunnerOfferV1 {
        schema_version: String::from_str(RUNNER_OFFER_SCHEMA_VERSION),
        offer_id: String::new(),
        runner_id: descriptor_runner_id.to_string(),
        identity: Some(identity),
        public_key: Some(String::from_str("local-dev-public-key-unavailable")),
        runner_type,
        runner_descriptor_ref,
        supported_package_refs,
        supported_capabilities: capabilities,
        supported_apis: capability.supported_apis,
        supported_modalities: capability.supported_modalities,
        supported_package_kinds: capability.supported_package_kinds,
        supported_model_formats: capability.supported_model_formats,
        engines: capability.engines,
        hardware: Some(capability.hardware),
        memory: Some(capability.memory),
        max_context_tokens: capability.max_context_tokens,
        max_batch_size: capability.max_batch_size,
        streaming_modes: capability.streaming_modes,
        price_table,
        cache_claims: capability.cache_claims,
        privacy_tiers: capability.privacy_tiers,
        verification_tiers: capability.verification_tiers,
        region_hint: capability.region_hint,
        validator_score_ref: Some(validator_score_ref),
        terms_ref: Some(terms_ref),
        expires_at: Some(expires_at),
        pricing,
        service_level,
        reputation,
        signature: None,
    }
}

/// The price table of a hardware offer: the capability's own table, or,
/// when it has none, a per-second row of zero in `quote-required`.
pub fn hardware_offer_price_table(capability_table: Vec<RunnerPriceEntryV1>) -> (r: Vec<RunnerPriceEntryV1>)
    ensures
        capability_table@.len() > 0 ==> r@ == capability_table@,
        capability_table@.len() == 0 ==> {
            &&& r@.len() == 1
            &&& r@[0].price_model == PriceModel::PerSecond
            &&& r@[0].unit@ == "second"@
            &&& r@[0].price.amount == 0
            &&& r@[0].price.currency@ == "quote-required"@
        },
{
    if capability_table.len() > 0 {
        return capability_table;
    }
    vec![
        RunnerPriceEntryV1 {
            price_model: PriceModel::PerSecond,
            unit: String::from_str("second"),
            price: PriceV1 { amount: 0, currency: String::from_str("quote-required") },
        },
    ]
}

/// The hardware `hardware_resource_from_capability` gives: no vendor, an
/// unspecified GPU model for a GPU accelerator, one GPU when GPU memory is
/// declared, the given VRAM and RAM, the CPU threads as cores, no disk,
/// network or driver, and the engines as runtime versions.
pub open spec fn hardware_from(
    r: HardwareResourceV1,
    hardware: RunnerHardwareV1,
    engines: Seq<Seq<char>>,
    vram_gb: Option<u64>,
    ram_gb: u64,
) -> bool {
    &&& r.gpu_vendor is None
    &&& hardware.accelerator@ == "gpu"@ ==> (r.gpu_model matches Some(m) && m@ == "unspecified-gpu"@)
    &&& hardware.accelerator@ != "gpu"@ ==> r.gpu_model is None
    &&& r.gpu_count == (if hardware.gpu_memory_mb is Some { 1u32 } else { 0u32 })
    &&& r.vram_gb == vram_gb
    &&& r.cpu_cores == hardware.cpu_threads
    &&& r.ram_gb == ram_gb
    &&& r.disk_gb is None
    &&& r.network_mbps is None
    &&& r.driver_version is None
    &&& r.runtime_versions.deep_view() == engines
}

/// The hardware of a capability: an unspecified GPU model for a GPU
/// accelerator, one GPU when it declares GPU memory, its CPU threads as
/// cores, and its engines as runtime versions. `vram_gb` and `ram_gb` are the
/// IEEE 754 bit patterns of its GPU memory and its memory in MB divided by
/// 1024.
pub fn hardware_resource_from_capability(
    hardware: &RunnerHardwareV1,
    engines: Vec<String>,
    vram_gb: Option<u64>,
    ram_gb: u64,
) -> (r: HardwareResourceV1)
    ensures
        hardware_from(r, *hardware, engines.deep_view(), vram_gb, ram_gb),
{
    let gpu = crate::text::text_eq(hardware.accelerator.as_str(), "gpu");
    HardwareResourceV1 {
        gpu_vendor: None,
        gpu_model: if gpu {
            Some(String::from_str("unspecified-gpu"))
        } else {
            None
        },
        gpu_count: if hardware.gpu_memory_mb.is_some() {
            1
        } else {
            0
        },
        vram_gb,
        cpu_cores: hardware.cpu_threads,
        ram_gb,
        disk_gb: None,
        network_mbps: None,
        driver_version: None,
        runtime_versions: engines,
    }
}

/// The hardware resource offer that `hardware_resource_offer_from_capability`
/// builds from these arguments.
pub open spec fn built_hardware_offer(
    r: HardwareResourceOfferV1,
    capability: RunnerCapabilityV1,
    operator: Seq<char>,
    terms_ref: Seq<char>,
    expires_at: Seq<char>,
    vram_gb: Option<u64>,
    ram_gb: u64,
) -> bool {
    &&& hardware_from(r.hardware, capability.hardware, capability.engines.deep_view(), vram_gb, ram_gb)
    &&& r.schema_version@ == HARDWARE_RESOURCE_OFFER_SCHEMA_VERSION@
    &&& r.offer_id@ == Seq::<char>::empty()
    &&& r.runner_id == capability.runner_id
    &&& r.operator@ == operator
    &&& r.supported_execution_modes@ == dedup_modes(
            raw_execution_modes(capability.supported_modalities@, capability.supported_apis@),
        )
    &&& r.supported_engines == capability.engines
    &&& r.supported_apis == capability.supported_apis
    &&& r.supported_modalities == capability.supported_modalities
    &&& capability.price_table@.len() > 0 ==> r.price_table@ == capability.price_table@
    &&& capability.price_table@.len() == 0 ==> {
            &&& r.price_table@.len() == 1
            &&& r.price_table@[0].price_model == PriceModel::PerSecond
            &&& r.price_table@[0].unit@ == "second"@
            &&& r.price_table@[0].price.amount == 0
            &&& r.price_table@[0].price.currency@ == "quote-required"@
        }
    &&& r.availability.available_now
    &&& r.availability.queue_depth == 0
    &&& r.availability.max_concurrent_jobs == capability.memory.max_concurrent_jobs
    &&& r.availability.schedule_refs@.len() == 0
    &&& r.cache_claims == capability.cache_claims
    &&& r.privacy_tiers == capability.privacy_tiers
    &&& r.verification_tiers == capability.verification_tiers
    &&& r.trust_tier == trust_tier(capability.verification_tiers@, capability.privacy_tiers@)
    &&& r.stake is None
    &&& r.benchmark_result_refs@.len() == 0
    &&& r.terms_ref@ == terms_ref
    &&& r.expires_at@ == expires_at
    &&& r.signature is None
}

/// The hardware resource offer of a capability, by `operator`, under
/// `terms_ref`, expiring at `expires_at`: its hardware as above, the
/// execution modes and trust tier its capabilities give, its engines, APIs,
/// modalities, cache claims and tiers, available now with an empty queue and
/// its concurrency limit. `vram_gb` and `ram_gb` as for
/// `hardware_resource_from_capability`.
pub fn hardware_resource_offer_from_capability(
    capability: RunnerCapabilityV1,
    operator: String,
    terms_ref: String,
    expires_at: String,
    vram_gb: Option<u64>,
    ram_gb: u64,
) -> (r: HardwareResourceOfferV1)
    ensures
        built_hardware_offer(r, capability, operator@, terms_ref@, expires_at@, vram_gb, ram_gb),
{
    let engines_copy = crate::findings::copy_texts(&capability.engines);
    let hardware = hardware_resource_from_capability(&capability.hardware, engines_copy, vram_gb, ram_gb);
    let modes = execution_modes_from_capability(&capability.supported_modalities, &capability.supported_apis);
    let trust = miner_trust_tier_for_capability(&capability.verification_tiers, &capability.privacy_tiers);
    let max_concurrent_jobs = capability.memory.max_concurrent_jobs;
    let price_table = hardware_offer_price_table(capability.price_table);
    HardwareResourceOfferV1 {
        schema_version: String::from_str(HARDWARE_RESOURCE_OFFER_SCHEMA_VERSION),
        offer_id: String::new(),
        runner_id: capability.runner_id,
        operator,
        hardware,
        supported_execution_modes: modes,
        supported_engines: capability.engines,
        supported_apis: capability.supported_apis,
        supported_modalities: capability.supported_modalities,
        price_table,
        availability: HardwareAvailabilityV1 {
            available_now: true,
            queue_depth: 0,
            max_concurrent_jobs,
            schedule_refs: Vec::new(),
        },
        cache_claims: capability.cache_claims,
        privacy_tiers: capability.privacy_tiers,
        verification_tiers: capability.verification_tiers,
        trust_tier: trust,
        stake: None,
        benchmark_result_refs: Vec::new(),
        terms_ref,
        expires_at,
        signature: None,
    }
}


/// The availability target of the local runner's default offer: 0.99 as an
/// IEEE 754 bit pattern.
pub const DEFAULT_AVAILABILITY_TARGET: u64 = 0x3fef_ae14_7ae1_47ae;

/// The validator score of the local runner's default offer: 0.80 as an
/// IEEE 754 bit pattern.
pub const DEFAULT_VALIDATOR_SCORE: u64 = 0x3fe9_9999_9999_999a;

/// The local runner's default offer: its capabilities at no stated price
/// (zero in currency `none`), a 900 ms first-token target at 0.99
/// availability, and a 0.80 validator score with no completed jobs.
pub fn default_local_runner_offer(
    descriptor_runner_id: &str,
    runner_type: RunnerType,
    capabilities: Vec<String>,
    capability: RunnerCapabilityV1,
    supported_package_refs: Vec<String>,
    expires_at: String,
) -> (r: RunnerOfferV1)
    ensures
        built_runner_offer(
            r,
            descriptor_runner_id@,
            runner_type,
            capabilities,
            capability,
            "local://runner-descriptor/local-dev-runner"@,
            supported_package_refs,
            r.pricing,
            RunnerServiceLevelV1 { p95_first_token_ms: 900, availability_target: DEFAULT_AVAILABILITY_TARGET },
            RunnerReputationV1 { validator_score: DEFAULT_VALIDATOR_SCORE, completed_jobs: 0 },
            expires_at@,
        ),
        r.pricing.input_token_price == 0,
        r.pricing.output_token_price == 0,
        r.pricing.currency@ == "none"@,
{
    proof {
        reveal_strlit("none");
        assert(0u64 & 0x000F_FFFF_FFFF_FFFFu64 == 0u64) by (bit_vector);
        assert(feq(0, 0));
    }
    offer_from_runner_descriptor(
        descriptor_runner_id,
        runner_type,
        capabilities,
        capability,
        String::from_str("local://runner-descriptor/local-dev-runner"),
        supported_package_refs,
        RunnerPricingV1 { input_token_price: 0, output_token_price: 0, currency: String::from_str("none") },
        RunnerServiceLevelV1 { p95_first_token_ms: 900, availability_target: DEFAULT_AVAILABILITY_TARGET },
        RunnerReputationV1 { validator_score: DEFAULT_VALIDATOR_SCORE, completed_jobs: 0 },
        expires_at,
    )
}

/// The default hardware offer of a runner's capability by `operator`,
/// under the development terms.
pub fn default_hardware_resource_offer(
    capability: RunnerCapabilityV1,
    operator: String,
    expires_at: String,
    vram_gb: Option<u64>,
    ram_gb: u64,
) -> (r: HardwareResourceOfferV1)
    ensures
        built_hardware_offer(
            r,
            capability,
            operator@,
            "local://terms/hardware-resource-offer/dev"@,
            expires_at@,
            vram_gb,
            ram_gb,
        ),
{
    hardware_resource_offer_from_capability(
        capability,
        operator,
        String::from_str("local://terms/hardware-resource-offer/dev"),
        expires_at,
        vram_gb,
        ram_gb,
    )
}

} // verus!
