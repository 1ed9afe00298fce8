//! The closed vocabularies of the marketplace (listing kinds, pricing and
//! settlement modes, statuses, tiers, API surfaces, modalities, package
//! kinds) and the fixed mappings between them.
use crate::text::text_eq;
use vstd::prelude::*;

verus! {

#[derive(Debug, Clone, Copy, PartialEq, Eq, Structural)]
pub enum MarketplaceListingType {
    Package,
    Runner,
    Service,
    Validator,
    Benchmark,
    PackageLicense,
    PackageSubscription,
    HostedAiService,
    RunnerCapacity,
    GpuCapacity,
    BatchCapacity,
    ConfidentialRunner,
    FineTuningCapacity,
    ContainerLeaseExperimental,
    ValidatorService,
    DatasetLicense,
    VectorStoreService,
    BenchmarkBounty,
    ResearchGrant,
}

#[derive(Debug, Clone, Copy, PartialEq, Eq, Structural)]
pub enum PricingMode {
    Free,
    PayPerCall,
    PayPerToken,
    Subscription,
    Quote,
    StakeRewarded,
}

#[derive(Debug, Clone, Copy, PartialEq, Eq, Structural)]
pub enum ListingStatus {
    Active,
    Paused,
    Deprecated,
}

#[derive(Debug, Clone, Copy, PartialEq, Eq, Structural)]
pub enum SettlementModel {
    Free,
    DirectPayPerCall,
    Subscription,
    EscrowVerifiedJob,
    TokenGated,
    StakeRewarded,
}

#[derive(Debug, Clone, Copy, PartialEq, Eq, Structural)]
pub enum SettlementStatus {
    Authorized,
    Pending,
    Settled,
    PartiallySettled,
    Refunded,
    Disputed,
    DisputeRejected,
    Cancelled,
    Failed,
}

#[derive(Debug, Clone, Copy, PartialEq, Eq, Structural)]
pub enum PaymentAdapterKind {
    LocalDev,
    ExternalTransaction,
    Free,
}

#[derive(Debug, Clone, Copy, PartialEq, Eq, Structural)]
pub enum PaymentAuthorizationStatus {
    Authorized,
    Captured,
    Refunded,
    Rejected,
}

#[derive(Debug, Clone, Copy, PartialEq, Eq, Structural)]
pub enum EscrowStatusV1 {
    Created,
    Locked,
    Released,
    Refunded,
    Cancelled,
    Disputed,
    Expired,
}

#[derive(Debug, Clone, Copy, PartialEq, Eq, Structural)]
pub enum MarketplaceListingKindV2 {
    PackageLicense,
    PackageSubscription,
    HostedInference,
    GpuCapacity,
    BatchCapacity,
    ConfidentialRunner,
    ValidatorService,
    DatasetLicense,
    VectorStoreService,
    BenchmarkBounty,
    ResearchGrant,
}

#[derive(Debug, Clone, Copy, PartialEq, Eq, Structural)]
pub enum MinerTrustTierV1 {
    Open,
    Staked,
    Verified,
    Confidential,
    Cryptographic,
}

#[derive(Debug, Clone, Copy, PartialEq, Eq, Structural)]
pub enum HardwareExecutionModeV1 {
    PackageInference,
    BatchInference,
    EmbeddingBatch,
    FineTuneSmall,
    EvaluationRun,
    ContainerLeaseExperimental,
}

#[derive(Debug, Clone, Copy, PartialEq, Eq, Structural)]
pub enum SettlementResolutionAction {
    OpenDispute,
    Refund,
    RejectDispute,
}

#[derive(Debug, Clone, Copy, PartialEq, Eq, Structural)]
pub enum SlashingReasonKindV1 {
    FakeOutput,
    IncorrectBilling,
    PolicyViolation,
    RunnerFailure,
    Other,
}

/// Integrity (verification) tiers a runner can offer for its results.
#[derive(Debug, Clone, Copy, PartialEq, Eq, Structural)]
pub enum IntegrityTier {
    ReceiptOnly,
    ValidatorSpotCheck,
    RedundantExecution,
    DeterministicReplay,
    TeeAttested,
    ZkProofWhenSupported,
}

/// Privacy tiers a runner can offer for the data of a job.
#[derive(Debug, Clone, Copy, PartialEq, Eq, Structural)]
pub enum PrivacyTier {
    Standard,
    NoLog,
    LocalOnly,
    RedactedInput,
    TeeConfidential,
    SplitTrustRedundant,
    MpcExperimental,
    FheEncrypted,
    FheEncryptedInference,
    ZkVerifiedInference,
}

/// API surfaces a runner or listing exposes.
#[derive(Debug, Clone, Copy, PartialEq, Eq, Structural)]
pub enum ApiSurface {
    HivemindNative,
    OpenAiChatCompletions,
    OpenAiEmbeddings,
    OpenAiImages,
    OpenAiAudio,
    OpenAiRealtime,
    HuggingFaceInference,
    ImageUnderstanding,
    SpeechToText,
    TextToSpeech,
    VectorSearch,
    RagQuery,
    EvalRun,
    Batch,
    FineTune,
}

/// Input and output modalities.
#[derive(Debug, Clone, Copy, PartialEq, Eq, Structural)]
pub enum Modality {
    Text,
    Chat,
    Embedding,
    Image,
    Audio,
    Document,
    File,
    VectorSearch,
    StructuredOutput,
    ToolCall,
    EvaluationData,
}

/// Package kinds that the marketplace maps to listing types, APIs and
/// modalities; `Other` is any kind without a mapping of its own.
#[derive(Debug, Clone, Copy, PartialEq, Eq, Structural)]
pub enum PackageKind {
    Model,
    Dataset,
    VectorIndex,
    RagPipeline,
    Benchmark,
    EvalSuite,
    ScoringMethod,
    Service,
    ServiceDescriptor,
    ServiceAdapter,
    EmbeddingService,
    RerankerService,
    ImageGenerationService,
    ImageUnderstandingService,
    SpeechToTextService,
    TextToSpeechService,
    RealtimeSessionService,
    ResearchExperiment,
    Tool,
    ToolPack,
    Other,
}

/// Where a runner executes.
#[derive(Debug, Clone, Copy, PartialEq, Eq, Structural)]
pub enum RunnerType {
    Local,
    RemoteGpu,
    Marketplace,
}

/// The routing preference of a request.
#[derive(Debug, Clone, Copy, PartialEq, Eq, Structural)]
pub enum PolicyMode {
    Balanced,
    PrivacyFirst,
    SpeedFirst,
    CostFirst,
    QualityFirst,
    Developer,
}

/// How much of an execution a receipt discloses.
#[derive(Debug, Clone, Copy, PartialEq, Eq, Structural)]
pub enum ReceiptMode {
    HashOnly,
    EncryptedEvidence,
    PublicEvidence,
}

// ---------------------------------------------------------------------------
// Listing kinds
// ---------------------------------------------------------------------------

/// Listing types from before the concrete v0.2 types.
pub open spec fn legacy_listing_type(t: MarketplaceListingType) -> bool {
    matches!(
        t,
        MarketplaceListingType::Package | MarketplaceListingType::Runner
            | MarketplaceListingType::Service | MarketplaceListingType::Validator
            | MarketplaceListingType::Benchmark
    )
}

pub fn is_legacy_listing_type(t: MarketplaceListingType) -> (r: bool)
    ensures
        r == legacy_listing_type(t),
{
    match t {
        MarketplaceListingType::Package | MarketplaceListingType::Runner
        | MarketplaceListingType::Service | MarketplaceListingType::Validator
        | MarketplaceListingType::Benchmark => true,
        _ => false,
    }
}

/// The v2 listing kind of a v1 listing; service listings whose details name a
/// `vector_index` or `rag_pipeline` package kind are vector-store services.
pub open spec fn kind_v2_for(
    t: MarketplaceListingType,
    mode: PricingMode,
    details_package_kind: Option<Seq<char>>,
) -> MarketplaceListingKindV2 {
    match t {
        MarketplaceListingType::PackageSubscription => MarketplaceListingKindV2::PackageSubscription,
        MarketplaceListingType::Package | MarketplaceListingType::PackageLicense
        | MarketplaceListingType::Runner | MarketplaceListingType::ContainerLeaseExperimental
        | MarketplaceListingType::FineTuningCapacity => {
            if mode == PricingMode::Subscription {
                MarketplaceListingKindV2::PackageSubscription
            } else {
                MarketplaceListingKindV2::PackageLicense
            }
        },
        MarketplaceListingType::VectorStoreService => MarketplaceListingKindV2::VectorStoreService,
        MarketplaceListingType::Service | MarketplaceListingType::HostedAiService => {
            match details_package_kind {
                Some(k) => if k == "vector_index"@ || k == "rag_pipeline"@ {
                    MarketplaceListingKindV2::VectorStoreService
                } else {
                    MarketplaceListingKindV2::HostedInference
                },
                None => MarketplaceListingKindV2::HostedInference,
            }
        },
        MarketplaceListingType::RunnerCapacity | MarketplaceListingType::GpuCapacity => {
            MarketplaceListingKindV2::GpuCapacity
        },
        MarketplaceListingType::BatchCapacity => MarketplaceListingKindV2::BatchCapacity,
        MarketplaceListingType::ConfidentialRunner => MarketplaceListingKindV2::ConfidentialRunner,
        MarketplaceListingType::Validator | MarketplaceListingType::ValidatorService => {
            MarketplaceListingKindV2::ValidatorService
        },
        MarketplaceListingType::DatasetLicense => MarketplaceListingKindV2::DatasetLicense,
        MarketplaceListingType::Benchmark | MarketplaceListingType::BenchmarkBounty => {
            MarketplaceListingKindV2::BenchmarkBounty
        },
        MarketplaceListingType::ResearchGrant => MarketplaceListingKindV2::ResearchGrant,
    }
}

/// Maps a v1 listing type, its pricing mode and the `packageKind` string of
/// its details (when it has one) to the v2 listing kind.
pub fn marketplace_listing_kind_v2_from_v1(
    t: MarketplaceListingType,
    mode: PricingMode,
    details_package_kind: Option<&str>,
) -> (r: MarketplaceListingKindV2)
    ensures
        r == kind_v2_for(
            t,
            mode,
            match details_package_kind {
                Some(k) => Some(k@),
                None => None,
            },
        ),
{
    match t {
        MarketplaceListingType::PackageSubscription => MarketplaceListingKindV2::PackageSubscription,
        MarketplaceListingType::Package | MarketplaceListingType::PackageLicense
        | MarketplaceListingType::Runner | MarketplaceListingType::ContainerLeaseExperimental
        | MarketplaceListingType::FineTuningCapacity => {
            if mode == PricingMode::Subscription {
                MarketplaceListingKindV2::PackageSubscription
            } else {
                MarketplaceListingKindV2::PackageLicense
            }
        },
        MarketplaceListingType::VectorStoreService => MarketplaceListingKindV2::VectorStoreService,
        MarketplaceListingType::Service | MarketplaceListingType::HostedAiService => {
            match details_package_kind {
                Some(k) => if text_eq(k, "vector_index") || text_eq(
                    k,
                    "rag_pipeline",
                ) {
                    MarketplaceListingKindV2::VectorStoreService
                } else {
                    MarketplaceListingKindV2::HostedInference
                },
                None => MarketplaceListingKindV2::HostedInference,
            }
        },
        MarketplaceListingType::RunnerCapacity | MarketplaceListingType::GpuCapacity => {
            MarketplaceListingKindV2::GpuCapacity
        },
        MarketplaceListingType::BatchCapacity => MarketplaceListingKindV2::BatchCapacity,
        MarketplaceListingType::ConfidentialRunner => MarketplaceListingKindV2::ConfidentialRunner,
        MarketplaceListingType::Validator | MarketplaceListingType::ValidatorService => {
            MarketplaceListingKindV2::ValidatorService
        },
        MarketplaceListingType::DatasetLicense => MarketplaceListingKindV2::DatasetLicense,
        MarketplaceListingType::Benchmark | MarketplaceListingType::BenchmarkBounty => {
            MarketplaceListingKindV2::BenchmarkBounty
        },
        MarketplaceListingType::ResearchGrant => MarketplaceListingKindV2::ResearchGrant,
    }
}

/// The subject type a v2 listing of each kind sells.
pub open spec fn subject_type(kind: MarketplaceListingKindV2) -> Seq<char> {
    match kind {
        MarketplaceListingKindV2::PackageLicense | MarketplaceListingKindV2::PackageSubscription => "package"@,
        MarketplaceListingKindV2::HostedInference | MarketplaceListingKindV2::VectorStoreService => "service"@,
        MarketplaceListingKindV2::GpuCapacity | MarketplaceListingKindV2::ConfidentialRunner => "compute_capacity"@,
        MarketplaceListingKindV2::BatchCapacity => "batch_capacity"@,
        MarketplaceListingKindV2::ValidatorService => "validator_service"@,
        MarketplaceListingKindV2::DatasetLicense => "dataset"@,
        MarketplaceListingKindV2::BenchmarkBounty => "benchmark_bounty"@,
        MarketplaceListingKindV2::ResearchGrant => "research_grant"@,
    }
}

pub fn subject_type_for_listing_kind_v2(kind: MarketplaceListingKindV2) -> (r: &'static str)
    ensures
        r@ == subject_type(kind),
{
    match kind {
        MarketplaceListingKindV2::PackageLicense | MarketplaceListingKindV2::PackageSubscription => "package",
        MarketplaceListingKindV2::HostedInference | MarketplaceListingKindV2::VectorStoreService => "service",
        MarketplaceListingKindV2::GpuCapacity | MarketplaceListingKindV2::ConfidentialRunner => "compute_capacity",
        MarketplaceListingKindV2::BatchCapacity => "batch_capacity",
        MarketplaceListingKindV2::ValidatorService => "validator_service",
        MarketplaceListingKindV2::DatasetLicense => "dataset",
        MarketplaceListingKindV2::BenchmarkBounty => "benchmark_bounty",
        MarketplaceListingKindV2::ResearchGrant => "research_grant",
    }
}

/// Kinds whose settlement must be backed by an execution receipt.
pub open spec fn requires_receipt(kind: MarketplaceListingKindV2) -> bool {
    matches!(
        kind,
        MarketplaceListingKindV2::HostedInference | MarketplaceListingKindV2::GpuCapacity
            | MarketplaceListingKindV2::BatchCapacity | MarketplaceListingKindV2::ConfidentialRunner
            | MarketplaceListingKindV2::ValidatorService
            | MarketplaceListingKindV2::VectorStoreService
            | MarketplaceListingKindV2::BenchmarkBounty | MarketplaceListingKindV2::ResearchGrant
    )
}

pub fn listing_requires_receipt(kind: MarketplaceListingKindV2) -> (r: bool)
    ensures
        r == requires_receipt(kind),
{
    match kind {
        MarketplaceListingKindV2::HostedInference | MarketplaceListingKindV2::GpuCapacity
        | MarketplaceListingKindV2::BatchCapacity | MarketplaceListingKindV2::ConfidentialRunner
        | MarketplaceListingKindV2::ValidatorService | MarketplaceListingKindV2::VectorStoreService
        | MarketplaceListingKindV2::BenchmarkBounty | MarketplaceListingKindV2::ResearchGrant => true,
        _ => false,
    }
}

/// Kinds that sell capacity or a service and so should carry an expiry.
pub open spec fn expiring_kind(kind: MarketplaceListingKindV2) -> bool {
    matches!(
        kind,
        MarketplaceListingKindV2::GpuCapacity | MarketplaceListingKindV2::BatchCapacity
            | MarketplaceListingKindV2::ConfidentialRunner
            | MarketplaceListingKindV2::HostedInference | MarketplaceListingKindV2::ValidatorService
    )
}

pub fn is_expiring_kind(kind: MarketplaceListingKindV2) -> (r: bool)
    ensures
        r == expiring_kind(kind),
{
    match kind {
        MarketplaceListingKindV2::GpuCapacity | MarketplaceListingKindV2::BatchCapacity
        | MarketplaceListingKindV2::ConfidentialRunner | MarketplaceListingKindV2::HostedInference
        | MarketplaceListingKindV2::ValidatorService => true,
        _ => false,
    }
}

/// Kinds whose settlement terms allow prepayment.
pub open spec fn prepay_allowed(kind: MarketplaceListingKindV2) -> bool {
    matches!(
        kind,
        MarketplaceListingKindV2::PackageLicense | MarketplaceListingKindV2::PackageSubscription
            | MarketplaceListingKindV2::DatasetLicense
    )
}

pub fn listing_prepay_allowed(kind: MarketplaceListingKindV2) -> (r: bool)
    ensures
        r == prepay_allowed(kind),
{
    match kind {
        MarketplaceListingKindV2::PackageLicense | MarketplaceListingKindV2::PackageSubscription
        | MarketplaceListingKindV2::DatasetLicense => true,
        _ => false,
    }
}

/// Privacy tiers a v2 listing of each kind offers when its details name none.
pub open spec fn default_privacy_tiers(kind: MarketplaceListingKindV2) -> Seq<PrivacyTier> {
    match kind {
        MarketplaceListingKindV2::ConfidentialRunner => seq![PrivacyTier::TeeConfidential],
        MarketplaceListingKindV2::GpuCapacity | MarketplaceListingKindV2::BatchCapacity
        | MarketplaceListingKindV2::HostedInference | MarketplaceListingKindV2::ValidatorService
        | MarketplaceListingKindV2::VectorStoreService => seq![PrivacyTier::Standard, PrivacyTier::NoLog],
        _ => seq![PrivacyTier::Standard, PrivacyTier::LocalOnly],
    }
}

pub fn default_privacy_tiers_for_listing_kind_v2(kind: MarketplaceListingKindV2) -> (r: Vec<
    PrivacyTier,
>)
    ensures
        r@ == default_privacy_tiers(kind),
{
    let r = match kind {
        MarketplaceListingKindV2::ConfidentialRunner => vec![PrivacyTier::TeeConfidential],
        MarketplaceListingKindV2::GpuCapacity | MarketplaceListingKindV2::BatchCapacity
        | MarketplaceListingKindV2::HostedInference | MarketplaceListingKindV2::ValidatorService
        | MarketplaceListingKindV2::VectorStoreService => vec![PrivacyTier::Standard, PrivacyTier::NoLog],
        _ => vec![PrivacyTier::Standard, PrivacyTier::LocalOnly],
    };
    assert(r@ =~= default_privacy_tiers(kind));
    r
}

/// Verification tiers a v2 listing offers when its details name none:
/// receipts always, validator spot checks with validation evidence or for
/// validator, bounty, grant and confidential kinds, TEE attestation for
/// confidential runners.
pub open spec fn default_verification_tiers(
    kind: MarketplaceListingKindV2,
    has_validation_refs: bool,
) -> Seq<IntegrityTier> {
    let base = seq![IntegrityTier::ReceiptOnly];
    let spot = if has_validation_refs || matches!(
        kind,
        MarketplaceListingKindV2::ValidatorService | MarketplaceListingKindV2::BenchmarkBounty
            | MarketplaceListingKindV2::ResearchGrant | MarketplaceListingKindV2::ConfidentialRunner
    ) {
        base.push(IntegrityTier::ValidatorSpotCheck)
    } else {
        base
    };
    if kind == MarketplaceListingKindV2::ConfidentialRunner {
        spot.push(IntegrityTier::TeeAttested)
    } else {
        spot
    }
}

pub fn default_verification_tiers_for_listing_kind_v2(
    kind: MarketplaceListingKindV2,
    has_validation_refs: bool,
) -> (r: Vec<IntegrityTier>)
    ensures
        r@ == default_verification_tiers(kind, has_validation_refs),
{
    let mut tiers = vec![IntegrityTier::ReceiptOnly];
    let special = match kind {
        MarketplaceListingKindV2::ValidatorService | MarketplaceListingKindV2::BenchmarkBounty
        | MarketplaceListingKindV2::ResearchGrant | MarketplaceListingKindV2::ConfidentialRunner => true,
        _ => false,
    };
    if has_validation_refs || special {
        tiers.push(IntegrityTier::ValidatorSpotCheck);
    }
    if kind == MarketplaceListingKindV2::ConfidentialRunner {
        tiers.push(IntegrityTier::TeeAttested);
    }
    assert(tiers@ =~= default_verification_tiers(kind, has_validation_refs));
    tiers
}

// ---------------------------------------------------------------------------
// Pricing
// ---------------------------------------------------------------------------

/// The settlement model name of each pricing mode.
pub open spec fn settlement_model_name(mode: PricingMode) -> Seq<char> {
    match mode {
        PricingMode::Free => "free"@,
        PricingMode::PayPerCall | PricingMode::PayPerToken => "direct-pay-per-call"@,
        PricingMode::Subscription => "subscription"@,
        PricingMode::Quote => "escrow-verified-job"@,
        PricingMode::StakeRewarded => "stake-rewarded"@,
    }
}

pub fn settlement_model_for_pricing(mode: PricingMode) -> (r: &'static str)
    ensures
        r@ == settlement_model_name(mode),
{
    match mode {
        PricingMode::Free => "free",
        PricingMode::PayPerCall | PricingMode::PayPerToken => "direct-pay-per-call",
        PricingMode::Subscription => "subscription",
        PricingMode::Quote => "escrow-verified-job",
        PricingMode::StakeRewarded => "stake-rewarded",
    }
}

/// The unit a price of each pricing mode is quoted in.
pub open spec fn price_unit(mode: PricingMode) -> Seq<char> {
    match mode {
        PricingMode::Free => "execution"@,
        PricingMode::PayPerCall => "call"@,
        PricingMode::PayPerToken => "token"@,
        PricingMode::Subscription => "period"@,
        PricingMode::Quote => "quote"@,
        PricingMode::StakeRewarded => "stake-reward"@,
    }
}

pub fn price_unit_for_pricing(mode: PricingMode) -> (r: &'static str)
    ensures
        r@ == price_unit(mode),
{
    match mode {
        PricingMode::Free => "execution",
        PricingMode::PayPerCall => "call",
        PricingMode::PayPerToken => "token",
        PricingMode::Subscription => "period",
        PricingMode::Quote => "quote",
        PricingMode::StakeRewarded => "stake-reward",
    }
}

// ---------------------------------------------------------------------------
// Package kinds
// ---------------------------------------------------------------------------

/// The v1 listing type a registry entry of each package kind is listed as.
pub open spec fn listing_type_for_package(kind: PackageKind) -> MarketplaceListingType {
    match kind {
        PackageKind::Dataset => MarketplaceListingType::DatasetLicense,
        PackageKind::VectorIndex | PackageKind::RagPipeline => MarketplaceListingType::VectorStoreService,
        PackageKind::Benchmark | PackageKind::EvalSuite | PackageKind::ScoringMethod => MarketplaceListingType::BenchmarkBounty,
        PackageKind::Service | PackageKind::EmbeddingService | PackageKind::RerankerService
        | PackageKind::ImageGenerationService | PackageKind::ImageUnderstandingService
        | PackageKind::SpeechToTextService | PackageKind::TextToSpeechService
        | PackageKind::RealtimeSessionService | PackageKind::ServiceAdapter => MarketplaceListingType::HostedAiService,
        PackageKind::ResearchExperiment => MarketplaceListingType::ResearchGrant,
        _ => MarketplaceListingType::PackageLicense,
    }
}

pub fn marketplace_listing_type_for_entry(kind: PackageKind) -> (r: MarketplaceListingType)
    ensures
        r == listing_type_for_package(kind),
{
    match kind {
        PackageKind::Dataset => MarketplaceListingType::DatasetLicense,
        PackageKind::VectorIndex | PackageKind::RagPipeline => MarketplaceListingType::VectorStoreService,
        PackageKind::Benchmark | PackageKind::EvalSuite | PackageKind::ScoringMethod => MarketplaceListingType::BenchmarkBounty,
        PackageKind::Service | PackageKind::EmbeddingService | PackageKind::RerankerService
        | PackageKind::ImageGenerationService | PackageKind::ImageUnderstandingService
        | PackageKind::SpeechToTextService | PackageKind::TextToSpeechService
        | PackageKind::RealtimeSessionService | PackageKind::ServiceAdapter => MarketplaceListingType::HostedAiService,
        PackageKind::ResearchExperiment => MarketplaceListingType::ResearchGrant,
        _ => MarketplaceListingType::PackageLicense,
    }
}

/// The API surfaces a package of each kind is served through.
pub open spec fn package_api_surfaces(kind: PackageKind) -> Seq<ApiSurface> {
    match kind {
        PackageKind::EmbeddingService => seq![ApiSurface::OpenAiEmbeddings],
        PackageKind::ImageGenerationService => seq![ApiSurface::OpenAiImages],
        PackageKind::ImageUnderstandingService => seq![ApiSurface::ImageUnderstanding],
        PackageKind::SpeechToTextService => seq![ApiSurface::SpeechToText],
        PackageKind::TextToSpeechService => seq![ApiSurface::TextToSpeech],
        PackageKind::RealtimeSessionService => seq![ApiSurface::OpenAiRealtime],
        PackageKind::VectorIndex | PackageKind::RagPipeline => seq![ApiSurface::VectorSearch, ApiSurface::RagQuery],
        PackageKind::EvalSuite | PackageKind::ScoringMethod => seq![ApiSurface::EvalRun],
        PackageKind::Service | PackageKind::ServiceDescriptor | PackageKind::ServiceAdapter => seq![ApiSurface::HivemindNative],
        _ => seq![],
    }
}

pub fn api_surfaces_for_package_kind(kind: PackageKind) -> (r: Vec<ApiSurface>)
    ensures
        r@ == package_api_surfaces(kind),
{
    let r = match kind {
        PackageKind::EmbeddingService => vec![ApiSurface::OpenAiEmbeddings],
        PackageKind::ImageGenerationService => vec![ApiSurface::OpenAiImages],
        PackageKind::ImageUnderstandingService => vec![ApiSurface::ImageUnderstanding],
        PackageKind::SpeechToTextService => vec![ApiSurface::SpeechToText],
        PackageKind::TextToSpeechService => vec![ApiSurface::TextToSpeech],
        PackageKind::RealtimeSessionService => vec![ApiSurface::OpenAiRealtime],
        PackageKind::VectorIndex | PackageKind::RagPipeline => vec![ApiSurface::VectorSearch, ApiSurface::RagQuery],
        PackageKind::EvalSuite | PackageKind::ScoringMethod => vec![ApiSurface::EvalRun],
        PackageKind::Service | PackageKind::ServiceDescriptor | PackageKind::ServiceAdapter => vec![ApiSurface::HivemindNative],
        _ => Vec::new(),
    };
    assert(r@ =~= package_api_surfaces(kind));
    r
}

/// The modalities a package of each kind works with.
pub open spec fn package_modalities(kind: PackageKind) -> Seq<Modality> {
    match kind {
        PackageKind::Dataset => seq![Modality::Document, Modality::File],
        PackageKind::VectorIndex | PackageKind::RagPipeline => seq![Modality::VectorSearch],
        PackageKind::EmbeddingService => seq![Modality::Embedding, Modality::Text],
        PackageKind::ImageGenerationService | PackageKind::ImageUnderstandingService => seq![Modality::Image],
        PackageKind::SpeechToTextService | PackageKind::TextToSpeechService => seq![Modality::Audio],
        PackageKind::RealtimeSessionService => seq![Modality::Chat, Modality::Audio],
        PackageKind::Benchmark | PackageKind::EvalSuite | PackageKind::ScoringMethod => seq![Modality::EvaluationData],
        PackageKind::Tool | PackageKind::ToolPack => seq![Modality::ToolCall],
        _ => seq![],
    }
}

pub fn modalities_for_package_kind(kind: PackageKind) -> (r: Vec<Modality>)
    ensures
        r@ == package_modalities(kind),
{
    let r = match kind {
        PackageKind::Dataset => vec![Modality::Document, Modality::File],
        PackageKind::VectorIndex | PackageKind::RagPipeline => vec![Modality::VectorSearch],
        PackageKind::EmbeddingService => vec![Modality::Embedding, Modality::Text],
        PackageKind::ImageGenerationService | PackageKind::ImageUnderstandingService => vec![Modality::Image],
        PackageKind::SpeechToTextService | PackageKind::TextToSpeechService => vec![Modality::Audio],
        PackageKind::RealtimeSessionService => vec![Modality::Chat, Modality::Audio],
        PackageKind::Benchmark | PackageKind::EvalSuite | PackageKind::ScoringMethod => vec![Modality::EvaluationData],
        PackageKind::Tool | PackageKind::ToolPack => vec![Modality::ToolCall],
        _ => Vec::new(),
    };
    assert(r@ =~= package_modalities(kind));
    r
}

// ---------------------------------------------------------------------------
// Tasks and privacy
// ---------------------------------------------------------------------------

/// The modality of a task name, for the task names routing recognises.
pub open spec fn task_modality(task: Seq<char>) -> Option<Modality> {
    if task == "chat"@ || task == "completion"@ || task == "completions"@ {
        Some(Modality::Chat)
    } else if task == "embedding"@ || task == "embeddings"@ {
        Some(Modality::Embedding)
    } else if task == "classification"@ || task == "moderation"@ {
        Some(Modality::StructuredOutput)
    } else if task == "ocr"@ || task == "image"@ || task == "image-generation"@ || task
        == "image-edit"@ {
        Some(Modality::Image)
    } else if task == "audio-transcription"@ || task == "speech-to-text"@ || task
        == "text-to-speech"@ {
        Some(Modality::Audio)
    } else {
        None
    }
}

pub fn modality_from_task(task: &str) -> (r: Option<Modality>)
    ensures
        r == task_modality(task@),
{
    if text_eq(task, "chat") || text_eq(task, "completion") || text_eq(task, "completions") {
        Some(Modality::Chat)
    } else if text_eq(task, "embedding") || text_eq(task, "embeddings") {
        Some(Modality::Embedding)
    } else if text_eq(task, "classification") || text_eq(task, "moderation") {
        Some(Modality::StructuredOutput)
    } else if text_eq(task, "ocr") || text_eq(task, "image") || text_eq(task, "image-generation")
        || text_eq(task, "image-edit") {
        Some(Modality::Image)
    } else if text_eq(task, "audio-transcription") || text_eq(task, "speech-to-text") || text_eq(
        task,
        "text-to-speech",
    ) {
        Some(Modality::Audio)
    } else {
        None
    }
}

/// The privacy tier a request's receipt mode asks for.
pub open spec fn privacy_tier_for_receipt(mode: ReceiptMode) -> PrivacyTier {
    match mode {
        ReceiptMode::HashOnly => PrivacyTier::NoLog,
        ReceiptMode::EncryptedEvidence => PrivacyTier::RedactedInput,
        ReceiptMode::PublicEvidence => PrivacyTier::Standard,
    }
}

pub fn privacy_tier_from_execution_privacy(mode: ReceiptMode) -> (r: PrivacyTier)
    ensures
        r == privacy_tier_for_receipt(mode),
{
    match mode {
        ReceiptMode::HashOnly => PrivacyTier::NoLog,
        ReceiptMode::EncryptedEvidence => PrivacyTier::RedactedInput,
        ReceiptMode::PublicEvidence => PrivacyTier::Standard,
    }
}

} // verus!
