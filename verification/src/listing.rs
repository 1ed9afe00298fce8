//! Marketplace listings, v1 and v2, and the rules a listing must pass.
use crate::clock::{parse_rfc3339, rfc3339_instant};
use crate::findings::{envelope_subject, EnvelopeSubject, 
    copy_opt, copy_texts, expected_signature, identity_view, issues_view, opt_view, Findings,
    MarketplaceVerificationIssueV1, Report, SignedContent,
};
use crate::ieee::{f64_is_finite, f64_lt_zero, is_finite, lt_zero};
use crate::kinds::{
    default_privacy_tiers, default_privacy_tiers_for_listing_kind_v2, default_verification_tiers,
    default_verification_tiers_for_listing_kind_v2, kind_v2_for, marketplace_listing_kind_v2_from_v1,
    expiring_kind, is_expiring_kind, is_legacy_listing_type, legacy_listing_type,
    listing_requires_receipt, price_unit, price_unit_for_pricing, requires_receipt, subject_type,
    subject_type_for_listing_kind_v2, listing_type_for_package, package_api_surfaces, package_modalities, api_surfaces_for_package_kind, modalities_for_package_kind, marketplace_listing_type_for_entry, ApiSurface, IntegrityTier, ListingStatus,
    MarketplaceListingKindV2, MarketplaceListingType, Modality, PackageKind, PricingMode,
    PrivacyTier,
};
use crate::settlement::{merge_evidence_refs, merge_refs, push_evidence_ref, push_ref};
use crate::text::{blank, has_prefix, is_blank, safe_component, safe_file_component, starts_with, text_eq};
use vstd::prelude::*;

verus! {

pub const MARKETPLACE_LISTING_SCHEMA_VERSION: &'static str = "hivemind.marketplace_listing.v1";

pub const LEGACY_MARKETPLACE_LISTING_SCHEMA_VERSION: &'static str = "swarm-ai.marketplace.listing.v1";

pub const MARKETPLACE_LISTING_VERIFICATION_SCHEMA_VERSION: &'static str =
    "hivemind.marketplace_listing_verification.v1";

pub const MARKETPLACE_LISTING_V2_SCHEMA_VERSION: &'static str = "hivemind.marketplace_listing.v2";

pub const MARKETPLACE_LISTING_V2_VERIFICATION_SCHEMA_VERSION: &'static str =
    "hivemind.marketplace_listing_verification.v2";

/// Pricing of a v1 listing; `base_price` is the IEEE 754 bit pattern of the
/// price.
#[derive(Debug, Clone)]
pub struct PricingV1 {
    pub mode: PricingMode,
    pub currency: String,
    pub base_price: u64,
}

/// A displayable price: amount (IEEE 754 bits), currency and unit.
#[derive(Debug, Clone)]
pub struct PriceHintV1 {
    pub amount: u64,
    pub currency: String,
    pub unit: String,
}

/// A v1 marketplace listing, with the fields its rules read.
#[derive(Debug, Clone)]
pub struct MarketplaceListingV1 {
    pub schema_version: String,
    pub listing_id: String,
    pub listing_type: MarketplaceListingType,
    pub owner: String,
    pub package_id: String,
    pub package_ref: Option<String>,
    pub title: String,
    pub description_ref: Option<String>,
    pub pricing: PricingV1,
    pub terms_ref: Option<String>,
    pub evidence_refs: Vec<String>,
    pub validation_report_refs: Vec<String>,
    pub reputation_ref: Option<String>,
    pub status: ListingStatus,
    pub requires_license: bool,
    pub signature: Option<String>,
}

#[derive(Debug, Clone)]
pub struct MarketplaceListingVerificationV1 {
    pub schema_version: String,
    pub listing_id: String,
    pub valid: bool,
    pub issues: Vec<MarketplaceVerificationIssueV1>,
    pub warnings: Vec<MarketplaceVerificationIssueV1>,
    pub expected_signature: Option<String>,
    pub verified_at: String,
}

/// The price hint of a listing: its base price and currency, in the unit of
/// its pricing mode.
pub fn price_hint(listing: &MarketplaceListingV1) -> (r: PriceHintV1)
    ensures
        r.amount == listing.pricing.base_price,
        r.currency@ == listing.pricing.currency@,
        r.unit@ == price_unit(listing.pricing.mode),
{
    PriceHintV1 {
        amount: listing.pricing.base_price,
        currency: listing.pricing.currency.clone(),
        unit: String::from_str(price_unit_for_pricing(listing.pricing.mode)),
    }
}

/// The findings of the v1 listing rules, in the order they are applied.
pub open spec fn listing_report(l: MarketplaceListingV1, c: SignedContent) -> Report {
    let sig = opt_view(l.signature);
    let current = l.schema_version@ == MARKETPLACE_LISTING_SCHEMA_VERSION@;
    let legacy = l.schema_version@ == LEGACY_MARKETPLACE_LISTING_SCHEMA_VERSION@;
    let r = Report::empty();
    let r = r.issue_if(
        !(current || legacy),
        "$.schemaVersion"@,
        "Expected schemaVersion to be hivemind.marketplace_listing.v1"@,
    );
    let r = r.warn_if(
        current && legacy_listing_type(l.listing_type),
        "$.listingType"@,
        "Current marketplace listing should use a v0.2 concrete listing type"@,
    );
    let r = r.issue_if(
        current && l.evidence_refs@.len() == 0,
        "$.evidenceRefs"@,
        "Current marketplace listing schema requires evidenceRefs"@,
    );
    let r = r.record_id(
        l.listing_id@,
        sig,
        c.canonical_id@,
        "$.listingId"@,
        "Listing id is required"@,
        "Listing id does not match canonical signed content"@,
    );
    let r = r.issue_if(blank(l.owner@), "$.owner"@, "Listing owner is required"@);
    let r = r.issue_if(blank(l.package_id@), "$.packageId"@, "Package id is required"@);
    let r = r.issue_if(blank(l.title@), "$.title"@, "Listing title is required"@);
    let r = match l.package_ref {
        Some(p) => if blank(p@) {
            r.issue_if(true, "$.packageRef"@, "Package ref must not be empty when present"@)
        } else {
            r.warn_if(
                !has_prefix(p@, "bzz://"@),
                "$.packageRef"@,
                "Listing packageRef is not a bzz:// reference"@,
            )
        },
        None => r,
    };
    let r = r.optional_reference(
        opt_view(l.description_ref),
        "$.descriptionRef"@,
        "Description ref must not be empty when present"@,
        "Description ref is not a recognized bzz:// or local:// reference"@,
    );
    let r = r.references(
        l.evidence_refs.deep_view(),
        "$.evidenceRefs["@,
        "]"@,
        "Evidence reference must not be empty"@,
        "Evidence reference is not a recognized storage or audit reference"@,
    );
    let r = r.references(
        l.validation_report_refs.deep_view(),
        "$.validationReportRefs["@,
        "]"@,
        "Validation report reference must not be empty"@,
        "Validation report reference is not a recognized storage or audit reference"@,
    );
    let r = r.optional_reference(
        opt_view(l.reputation_ref),
        "$.reputationRef"@,
        "Reputation ref must not be empty when present"@,
        "Reputation ref is not a recognized storage or audit reference"@,
    );
    let r = r.issue_if(
        lt_zero(l.pricing.base_price),
        "$.pricing.basePrice"@,
        "Base price must not be negative"@,
    );
    let r = r.issue_if(
        blank(l.pricing.currency@),
        "$.pricing.currency"@,
        "Pricing currency is required"@,
    );
    let r = r.warn_if(
        l.requires_license && l.pricing.mode == PricingMode::Free,
        "$.pricing.mode"@,
        "Licensed listings usually require quote, subscription, token-gated, or paid pricing"@,
    );
    r.signature(
        sig,
        c.dev_signature@,
        identity_view(c.identity_check),
        "Marketplace listing signature does not match canonical dev signature or Ed25519 identity envelope"@,
        "Marketplace listing is unsigned; verify owner and listingId through a trusted source"@,
    )
}

/// Checks a v1 listing against the listing rules. `content` carries the
/// canonical id and development signature of the listing's signing value and,
/// for an identity-enveloped signature, the envelope check; `verified_at` is
/// the time of the check.
pub fn verify_marketplace_listing(
    listing: &MarketplaceListingV1,
    content: &SignedContent,
    verified_at: String,
) -> (r: MarketplaceListingVerificationV1)
    ensures
        r.schema_version@ == MARKETPLACE_LISTING_VERIFICATION_SCHEMA_VERSION@,
        r.listing_id@ == listing.listing_id@,
        issues_view(r.issues@) == listing_report(*listing, *content).issues,
        issues_view(r.warnings@) == listing_report(*listing, *content).warnings,
        r.valid == listing_report(*listing, *content).valid(),
        r.expected_signature matches Some(e) && e@ == expected_signature(
            opt_view(listing.signature),
            content.dev_signature@,
            identity_view(content.identity_check),
        ),
        r.verified_at@ == verified_at@,
{
    let l = listing;
    let mut f = Findings::new();
    let current = text_eq(l.schema_version.as_str(), MARKETPLACE_LISTING_SCHEMA_VERSION);
    let legacy = text_eq(l.schema_version.as_str(), LEGACY_MARKETPLACE_LISTING_SCHEMA_VERSION);
    f.issue_if(
        !(current || legacy),
        "$.schemaVersion",
        "Expected schemaVersion to be hivemind.marketplace_listing.v1",
    );
    f.warn_if(
        current && is_legacy_listing_type(l.listing_type),
        "$.listingType",
        "Current marketplace listing should use a v0.2 concrete listing type",
    );
    f.issue_if(
        current && l.evidence_refs.len() == 0,
        "$.evidenceRefs",
        "Current marketplace listing schema requires evidenceRefs",
    );
    f.record_id(
        l.listing_id.as_str(),
        &l.signature,
        content.canonical_id.as_str(),
        "$.listingId",
        "Listing id is required",
        "Listing id does not match canonical signed content",
    );
    f.required(l.owner.as_str(), "$.owner", "Listing owner is required");
    f.required(l.package_id.as_str(), "$.packageId", "Package id is required");
    f.required(l.title.as_str(), "$.title", "Listing title is required");
    match &l.package_ref {
        Some(p) => {
            if is_blank(p.as_str()) {
                f.issue_if(true, "$.packageRef", "Package ref must not be empty when present");
            } else {
                let bzz = starts_with(p.as_str(), "bzz://");
                f.warn_if(!bzz, "$.packageRef", "Listing packageRef is not a bzz:// reference");
            }
        },
        None => {},
    }
    f.optional_reference(
        &l.description_ref,
        "$.descriptionRef",
        "Description ref must not be empty when present",
        "Description ref is not a recognized bzz:// or local:// reference",
    );
    f.references(
        &l.evidence_refs,
        "$.evidenceRefs[",
        "]",
        "Evidence reference must not be empty",
        "Evidence reference is not a recognized storage or audit reference",
    );
    f.references(
        &l.validation_report_refs,
        "$.validationReportRefs[",
        "]",
        "Validation report reference must not be empty",
        "Validation report reference is not a recognized storage or audit reference",
    );
    f.optional_reference(
        &l.reputation_ref,
        "$.reputationRef",
        "Reputation ref must not be empty when present",
        "Reputation ref is not a recognized storage or audit reference",
    );
    f.issue_if(
        f64_lt_zero(l.pricing.base_price),
        "$.pricing.basePrice",
        "Base price must not be negative",
    );
    f.required(l.pricing.currency.as_str(), "$.pricing.currency", "Pricing currency is required");
    f.warn_if(
        l.requires_license && l.pricing.mode == PricingMode::Free,
        "$.pricing.mode",
        "Licensed listings usually require quote, subscription, token-gated, or paid pricing",
    );
    let expected = f.signature(
        &l.signature,
        content,
        "Marketplace listing signature does not match canonical dev signature or Ed25519 identity envelope",
        "Marketplace listing is unsigned; verify owner and listingId through a trusted source",
    );
    let valid = f.is_valid();
    MarketplaceListingVerificationV1 {
        schema_version: String::from_str(MARKETPLACE_LISTING_VERIFICATION_SCHEMA_VERSION),
        listing_id: l.listing_id.clone(),
        valid,
        issues: f.issues,
        warnings: f.warnings,
        expected_signature: Some(expected),
        verified_at,
    }
}

/// The subject a v2 listing sells.
#[derive(Debug, Clone)]
pub struct MarketplaceListingSubjectV2 {
    pub subject_type: String,
    pub subject_ref: String,
    pub package_id: Option<String>,
    pub package_kind: Option<PackageKind>,
    pub api_surfaces: Vec<ApiSurface>,
    pub modalities: Vec<Modality>,
}

/// Price model of a v2 listing; prices are IEEE 754 bit patterns.
#[derive(Debug, Clone)]
pub struct MarketplacePriceModelV2 {
    pub mode: PricingMode,
    pub currency: String,
    pub unit: String,
    pub base_price: u64,
    pub price_hints: Vec<PriceHintV1>,
}

/// Service level of a v2 listing; `availability_target` is an IEEE 754 bit
/// pattern.
#[derive(Debug, Clone)]
pub struct MarketplaceServiceLevelV2 {
    pub availability_target: Option<u64>,
    pub p95_first_output_ms: Option<u64>,
    pub max_queue_depth: Option<u32>,
    pub regions: Vec<String>,
}

/// A v2 marketplace listing, with the fields its rules read.
/// `settlement_requires_receipt` is the `requiresReceipt` entry of the
/// settlement terms when that entry is a boolean.
#[derive(Debug, Clone)]
pub struct MarketplaceListingV2 {
    pub schema_version: String,
    pub object_kind: String,
    pub listing_id: String,
    pub listing_type: MarketplaceListingKindV2,
    pub seller: String,
    pub subject: MarketplaceListingSubjectV2,
    pub title: String,
    pub description_ref: Option<String>,
    pub price_model: MarketplacePriceModelV2,
    pub service_level: MarketplaceServiceLevelV2,
    pub privacy_tiers: Vec<PrivacyTier>,
    pub verification_tiers: Vec<IntegrityTier>,
    pub settlement_requires_receipt: Option<bool>,
    pub evidence_refs: Vec<String>,
    pub validation_report_refs: Vec<String>,
    pub reputation_ref: Option<String>,
    pub expires_at: Option<String>,
    pub source_listing_id: Option<String>,
    pub signature: Option<String>,
}

#[derive(Debug, Clone)]
pub struct MarketplaceListingV2VerificationV1 {
    pub schema_version: String,
    pub listing_id: String,
    pub valid: bool,
    pub issues: Vec<MarketplaceVerificationIssueV1>,
    pub warnings: Vec<MarketplaceVerificationIssueV1>,
    pub expected_signature: Option<String>,
    pub verified_at: String,
}

/// The findings of the v2 listing rules, in the order they are applied.
pub open spec fn listing_v2_report(l: MarketplaceListingV2, c: SignedContent) -> Report {
    let sig = opt_view(l.signature);
    let r = Report::empty();
    let r = r.issue_if(
        l.schema_version@ != MARKETPLACE_LISTING_V2_SCHEMA_VERSION@,
        "$.schemaVersion"@,
        "Expected schemaVersion to be hivemind.marketplace_listing.v2"@,
    );
    let r = r.issue_if(
        l.object_kind@ != "marketplace_listing"@,
        "$.objectKind"@,
        "Expected objectKind to be marketplace_listing"@,
    );
    let r = r.record_id(
        l.listing_id@,
        sig,
        c.canonical_id@,
        "$.listingId"@,
        "Listing id is required"@,
        "Listing id does not match canonical signed content"@,
    );
    let r = r.issue_if(blank(l.seller@), "$.seller"@, "Listing seller is required"@);
    let r = r.issue_if(blank(l.title@), "$.title"@, "Listing title is required"@);
    let r = r.reference(
        l.subject.subject_ref@,
        "$.subject.subjectRef"@,
        "Listing subjectRef is required"@,
        "Listing subjectRef is not a recognized storage or audit reference"@,
    );
    let r = r.issue_if(
        l.subject.subject_type@ != subject_type(l.listing_type),
        "$.subject.subjectType"@,
        "Listing subjectType must match listingType"@,
    );
    let r = r.issue_if(
        blank(l.price_model.currency@),
        "$.priceModel.currency"@,
        "Price model currency is required"@,
    );
    let r = r.issue_if(
        !is_finite(l.price_model.base_price) || lt_zero(l.price_model.base_price),
        "$.priceModel.basePrice"@,
        "Price model basePrice must be a finite non-negative number"@,
    );
    let r = r.issue_if(
        blank(l.price_model.unit@),
        "$.priceModel.unit"@,
        "Price model unit is required"@,
    );
    let r = r.issue_if(
        l.privacy_tiers@.len() == 0,
        "$.privacyTiers"@,
        "MarketplaceListingV2 must declare supported privacy tiers"@,
    );
    let r = r.issue_if(
        l.verification_tiers@.len() == 0,
        "$.verificationTiers"@,
        "MarketplaceListingV2 must declare supported verification tiers"@,
    );
    let r = r.issue_if(
        l.evidence_refs@.len() == 0,
        "$.evidenceRefs"@,
        "MarketplaceListingV2 requires evidenceRefs"@,
    );
    let r = r.references(
        l.evidence_refs.deep_view(),
        "$.evidenceRefs["@,
        "]"@,
        "Evidence reference must not be empty"@,
        "Evidence reference is not a recognized storage or audit reference"@,
    );
    let r = r.references(
        l.validation_report_refs.deep_view(),
        "$.validationReportRefs["@,
        "]"@,
        "Validation report reference must not be empty"@,
        "Validation report reference is not a recognized storage or audit reference"@,
    );
    let r = match l.expires_at {
        Some(e) => r.issue_if(
            rfc3339_instant(e@) is None,
            "$.expiresAt"@,
            "Listing expiresAt must be an RFC3339 timestamp when present"@,
        ),
        None => r.warn_if(
            expiring_kind(l.listing_type),
            "$.expiresAt"@,
            "Service and capacity listings should expire or refresh to avoid stale prices"@,
        ),
    };
    let r = r.issue_if(
        requires_receipt(l.listing_type) && l.settlement_requires_receipt != Some(true),
        "$.settlementTerms.requiresReceipt"@,
        "Execution, validator, and bounty listings must require receipt-backed settlement"@,
    );
    r.signature(
        sig,
        c.dev_signature@,
        identity_view(c.identity_check),
        "MarketplaceListingV2 signature does not match canonical dev signature or Ed25519 identity envelope"@,
        "MarketplaceListingV2 is unsigned; verify seller and listingId through a trusted source"@,
    )
}

/// Checks a v2 listing against the v2 listing rules; `content` and
/// `verified_at` as for `verify_marketplace_listing`.
pub fn verify_marketplace_listing_v2(
    listing: &MarketplaceListingV2,
    content: &SignedContent,
    verified_at: String,
) -> (r: MarketplaceListingV2VerificationV1)
    ensures
        r.schema_version@ == MARKETPLACE_LISTING_V2_VERIFICATION_SCHEMA_VERSION@,
        r.listing_id@ == listing.listing_id@,
        issues_view(r.issues@) == listing_v2_report(*listing, *content).issues,
        issues_view(r.warnings@) == listing_v2_report(*listing, *content).warnings,
        r.valid == listing_v2_report(*listing, *content).valid(),
        r.expected_signature matches Some(e) && e@ == expected_signature(
            opt_view(listing.signature),
            content.dev_signature@,
            identity_view(content.identity_check),
        ),
        r.verified_at@ == verified_at@,
{
    let l = listing;
    let mut f = Findings::new();
    f.issue_if(
        !text_eq(l.schema_version.as_str(), MARKETPLACE_LISTING_V2_SCHEMA_VERSION),
        "$.schemaVersion",
        "Expected schemaVersion to be hivemind.marketplace_listing.v2",
    );
    f.issue_if(
        !text_eq(l.object_kind.as_str(), "marketplace_listing"),
        "$.objectKind",
        "Expected objectKind to be marketplace_listing",
    );
    f.record_id(
        l.listing_id.as_str(),
        &l.signature,
        content.canonical_id.as_str(),
        "$.listingId",
        "Listing id is required",
        "Listing id does not match canonical signed content",
    );
    f.required(l.seller.as_str(), "$.seller", "Listing seller is required");
    f.required(l.title.as_str(), "$.title", "Listing title is required");
    f.reference(
        l.subject.subject_ref.as_str(),
        "$.subject.subjectRef",
        "Listing subjectRef is required",
        "Listing subjectRef is not a recognized storage or audit reference",
    );
    f.issue_if(
        !text_eq(l.subject.subject_type.as_str(), subject_type_for_listing_kind_v2(l.listing_type)),
        "$.subject.subjectType",
        "Listing subjectType must match listingType",
    );
    f.required(
        l.price_model.currency.as_str(),
        "$.priceModel.currency",
        "Price model currency is required",
    );
    f.issue_if(
        !f64_is_finite(l.price_model.base_price) || f64_lt_zero(l.price_model.base_price),
        "$.priceModel.basePrice",
        "Price model basePrice must be a finite non-negative number",
    );
    f.required(l.price_model.unit.as_str(), "$.priceModel.unit", "Price model unit is required");
    f.issue_if(
        l.privacy_tiers.len() == 0,
        "$.privacyTiers",
        "MarketplaceListingV2 must declare supported privacy tiers",
    );
    f.issue_if(
        l.verification_tiers.len() == 0,
        "$.verificationTiers",
        "MarketplaceListingV2 must declare supported verification tiers",
    );
    f.issue_if(
        l.evidence_refs.len() == 0,
        "$.evidenceRefs",
        "MarketplaceListingV2 requires evidenceRefs",
    );
    f.references(
        &l.evidence_refs,
        "$.evidenceRefs[",
        "]",
        "Evidence reference must not be empty",
        "Evidence reference is not a recognized storage or audit reference",
    );
    f.references(
        &l.validation_report_refs,
        "$.validationReportRefs[",
        "]",
        "Validation report reference must not be empty",
        "Validation report reference is not a recognized storage or audit reference",
    );
    match &l.expires_at {
        Some(e) => {
            let parsed = parse_rfc3339(e.as_str());
            f.issue_if(
                parsed.is_none(),
                "$.expiresAt",
                "Listing expiresAt must be an RFC3339 timestamp when present",
            );
        },
        None => {
            f.warn_if(
                is_expiring_kind(l.listing_type),
                "$.expiresAt",
                "Service and capacity listings should expire or refresh to avoid stale prices",
            );
        },
    }
    let receipt_backed = match l.settlement_requires_receipt {
        Some(b) => b,
        None => false,
    };
    f.issue_if(
        listing_requires_receipt(l.listing_type) && !receipt_backed,
        "$.settlementTerms.requiresReceipt",
        "Execution, validator, and bounty listings must require receipt-backed settlement",
    );
    let expected = f.signature(
        &l.signature,
        content,
        "MarketplaceListingV2 signature does not match canonical dev signature or Ed25519 identity envelope",
        "MarketplaceListingV2 is unsigned; verify seller and listingId through a trusted source",
    );
    let valid = f.is_valid();
    MarketplaceListingV2VerificationV1 {
        schema_version: String::from_str(MARKETPLACE_LISTING_V2_VERIFICATION_SCHEMA_VERSION),
        listing_id: l.listing_id.clone(),
        valid,
        issues: f.issues,
        warnings: f.warnings,
        expected_signature: Some(expected),
        verified_at,
    }
}

// ---------------------------------------------------------------------------
// From v1 to v2

/// What the conversion of a v1 listing reads of its free-form details: the
/// text at `packageKind` and its reading as a package kind, the text at
/// `subjectRef`, the recognised entries of the `supportedApis`,
/// `modalities`, `privacyTiers` and `verificationTiers` arrays (`None` where
/// the entry is not an array), the `serviceLevel` numbers (the availability
/// target as IEEE 754 bits), the texts of its `regions` array, and the text
/// at `expiresAt`.
#[derive(Debug, Clone)]
pub struct ListingV1Details {
    pub package_kind_text: Option<String>,
    pub package_kind: Option<PackageKind>,
    pub subject_ref: Option<String>,
    pub supported_apis: Option<Vec<ApiSurface>>,
    pub modalities: Option<Vec<Modality>>,
    pub availability_target: Option<u64>,
    pub p95_first_output_ms: Option<u64>,
    pub max_queue_depth: Option<u64>,
    pub regions: Option<Vec<String>>,
    pub privacy_tiers: Option<Vec<PrivacyTier>>,
    pub verification_tiers: Option<Vec<IntegrityTier>>,
    pub expires_at: Option<String>,
}

/// The texts that are not blank, in order.
pub open spec fn nonblank_texts(s: Seq<Seq<char>>) -> Seq<Seq<char>> {
    s.filter(|t: Seq<char>| !blank(t))
}

fn keep_nonblank(v: &Vec<String>) -> (r: Vec<String>)
    ensures
        r.deep_view() == nonblank_texts(v.deep_view()),
{
    let mut r: Vec<String> = Vec::new();
    let mut i: usize = 0;
    while i < v.len()
        invariant
            i <= v.len(),
            r.deep_view() == nonblank_texts(v.deep_view().subrange(0, i as int)),
        decreases v.len() - i,
    {
        let ghost before = r.deep_view();
        let ghost pre = v.deep_view().subrange(0, i as int);
        assert(v.deep_view().subrange(0, i + 1) =~= pre.push(v.deep_view()[i as int]));
        proof {
            pre.lemma_filter_push(v.deep_view()[i as int], |t: Seq<char>| !blank(t));
        }
        if !is_blank(v[i].as_str()) {
            r.push(v[i].clone());
            assert(r.deep_view() =~= before.push(v.deep_view()[i as int]));
        }
        i = i + 1;
    }
    assert(v.deep_view().subrange(0, i as int) =~= v.deep_view());
    r
}

/// The v2 kind of a v1 listing.
pub open spec fn v2_kind(l: MarketplaceListingV1, d: ListingV1Details) -> MarketplaceListingKindV2 {
    kind_v2_for(l.listing_type, l.pricing.mode, opt_view(d.package_kind_text))
}

/// Converts a v1 listing to a v2 listing with the facts read from its
/// details. The subject is the package reference, else the details'
/// subject reference, else a local reference under the listing; tiers not
/// given in the details take the defaults of the v2 kind. The listing is
/// returned unsigned, with an empty id, for the signer to complete.
pub fn marketplace_listing_v2_from_v1(listing: &MarketplaceListingV1, details: &ListingV1Details) -> (r:
    MarketplaceListingV2)
    ensures
        r.schema_version@ == MARKETPLACE_LISTING_V2_SCHEMA_VERSION@,
        r.object_kind@ == "marketplace_listing"@,
        r.listing_id@ == Seq::<char>::empty(),
        r.listing_type == v2_kind(*listing, *details),
        r.seller@ == listing.owner@,
        r.subject.subject_type@ == subject_type(v2_kind(*listing, *details)),
        r.subject.subject_ref@ == match listing.package_ref {
            Some(p) => p@,
            None => match details.subject_ref {
                Some(x) => x@,
                None => "local://marketplace/listings/"@ + listing.listing_id@ + "/subject"@,
            },
        },
        opt_view(r.subject.package_id) == Some(listing.package_id@),
        r.subject.package_kind == details.package_kind,
        r.subject.api_surfaces@ == match details.supported_apis {
            Some(v) => v@,
            None => seq![],
        },
        r.subject.modalities@ == match details.modalities {
            Some(v) => v@,
            None => seq![],
        },
        r.title@ == listing.title@,
        opt_view(r.description_ref) == opt_view(listing.description_ref),
        r.price_model.mode == listing.pricing.mode,
        r.price_model.currency@ == listing.pricing.currency@,
        r.price_model.unit@ == price_unit(listing.pricing.mode),
        r.price_model.base_price == listing.pricing.base_price,
        r.price_model.price_hints@.len() == 1,
        r.price_model.price_hints@[0].amount == listing.pricing.base_price,
        r.price_model.price_hints@[0].currency@ == listing.pricing.currency@,
        r.price_model.price_hints@[0].unit@ == price_unit(listing.pricing.mode),
        r.service_level.availability_target == details.availability_target,
        r.service_level.p95_first_output_ms == details.p95_first_output_ms,
        r.service_level.max_queue_depth == match details.max_queue_depth {
            Some(q) => if q <= u32::MAX {
                Some(q as u32)
            } else {
                None
            },
            None => None,
        },
        r.service_level.regions.deep_view() == match details.regions {
            Some(v) => nonblank_texts(v.deep_view()),
            None => seq![],
        },
        r.privacy_tiers@ == match details.privacy_tiers {
            Some(v) => v@,
            None => default_privacy_tiers(v2_kind(*listing, *details)),
        },
        r.verification_tiers@ == match details.verification_tiers {
            Some(v) => v@,
            None => default_verification_tiers(
                v2_kind(*listing, *details),
                listing.validation_report_refs@.len() > 0,
            ),
        },
        r.settlement_requires_receipt == Some(requires_receipt(v2_kind(*listing, *details))),
        r.evidence_refs.deep_view() == listing.evidence_refs.deep_view(),
        r.validation_report_refs.deep_view() == listing.validation_report_refs.deep_view(),
        opt_view(r.reputation_ref) == opt_view(listing.reputation_ref),
        opt_view(r.expires_at) == opt_view(details.expires_at),
        opt_view(r.source_listing_id) == Some(listing.listing_id@),
        r.signature is None,
{
    let kind_text: Option<&str> = match &details.package_kind_text {
        Some(k) => Some(k.as_str()),
        None => None,
    };
    let kind = marketplace_listing_kind_v2_from_v1(listing.listing_type, listing.pricing.mode, kind_text);
    let subject_ref = match &listing.package_ref {
        Some(p) => p.clone(),
        None => match &details.subject_ref {
            Some(x) => x.clone(),
            None => {
                let mut s = String::from_str("local://marketplace/listings/");
                s.append(listing.listing_id.as_str());
                s.append("/subject");
                s
            },
        },
    };
    let api_surfaces = match &details.supported_apis {
        Some(v) => v.clone(),
        None => Vec::new(),
    };
    let modalities = match &details.modalities {
        Some(v) => v.clone(),
        None => Vec::new(),
    };
    let hint = price_hint(listing);
    let unit = hint.unit.clone();
    let mut hints: Vec<PriceHintV1> = Vec::new();
    hints.push(hint);
    let max_queue_depth = match details.max_queue_depth {
        Some(q) => if q <= 4294967295u64 {
            Some(q as u32)
        } else {
            None
        },
        None => None,
    };
    let regions = match &details.regions {
        Some(v) => keep_nonblank(v),
        None => Vec::new(),
    };
    let privacy_tiers = match &details.privacy_tiers {
        Some(v) => v.clone(),
        None => default_privacy_tiers_for_listing_kind_v2(kind),
    };
    let verification_tiers = match &details.verification_tiers {
        Some(v) => v.clone(),
        None => default_verification_tiers_for_listing_kind_v2(
            kind,
            listing.validation_report_refs.len() > 0,
        ),
    };
    MarketplaceListingV2 {
        schema_version: String::from_str(MARKETPLACE_LISTING_V2_SCHEMA_VERSION),
        object_kind: String::from_str("marketplace_listing"),
        listing_id: String::new(),
        listing_type: kind,
        seller: listing.owner.clone(),
        subject: MarketplaceListingSubjectV2 {
            subject_type: String::from_str(subject_type_for_listing_kind_v2(kind)),
            subject_ref,
            package_id: Some(listing.package_id.clone()),
            package_kind: details.package_kind,
            api_surfaces,
            modalities,
        },
        title: listing.title.clone(),
        description_ref: copy_opt(&listing.description_ref),
        price_model: MarketplacePriceModelV2 {
            mode: listing.pricing.mode,
            currency: listing.pricing.currency.clone(),
            unit,
            base_price: listing.pricing.base_price,
            price_hints: hints,
        },
        service_level: MarketplaceServiceLevelV2 {
            availability_target: details.availability_target,
            p95_first_output_ms: details.p95_first_output_ms,
            max_queue_depth,
            regions,
        },
        privacy_tiers,
        verification_tiers,
        settlement_requires_receipt: Some(listing_requires_receipt(kind)),
        evidence_refs: copy_texts(&listing.evidence_refs),
        validation_report_refs: copy_texts(&listing.validation_report_refs),
        reputation_ref: copy_opt(&listing.reputation_ref),
        expires_at: copy_opt(&details.expires_at),
        source_listing_id: Some(listing.listing_id.clone()),
        signature: None,
    }
}


// ---------------------------------------------------------------------------
// Listings of registry entries

/// What a listing reads of a package registry entry: its id, name and kind;
/// its first package reference and that package's manifest hash, if it has a
/// package; whether its license is the open license, and the license's URL;
/// its publisher's profile reference; the evaluation ids of its benchmark
/// scores; and whether it has a validator score.
#[derive(Debug, Clone)]
pub struct RegistryEntryFacts {
    pub package_id: String,
    pub name: String,
    pub kind: PackageKind,
    pub first_package: Option<(String, String)>,
    pub open_license: bool,
    pub license_url: Option<String>,
    pub publisher_profile_ref: Option<String>,
    pub evaluation_ids: Vec<String>,
    pub has_validator_score: bool,
}

/// The evaluation references of benchmark scores.
pub open spec fn evaluation_refs(ids: Seq<Seq<char>>) -> Seq<Seq<char>> {
    ids.map_values(|id: Seq<char>| "local://evaluation/"@ + id)
}

/// The evidence of a registry listing: the package reference, its manifest
/// hash, the publisher's profile and each benchmark evaluation, each trimmed
/// and listed once.
pub open spec fn entry_evidence_refs(e: RegistryEntryFacts, package_ref: Seq<char>, manifest_hash: Seq<char>) -> Seq<
    Seq<char>,
> {
    let s = push_ref(seq![], package_ref);
    let s = push_ref(s, "sha256://"@ + manifest_hash);
    let s = match e.publisher_profile_ref {
        Some(p) => push_ref(s, p@),
        None => s,
    };
    merge_refs(s, evaluation_refs(e.evaluation_ids.deep_view()))
}

/// The validation evidence of a registry listing: the package's validation
/// record, when the entry has a validator score.
pub open spec fn entry_validation_refs(e: RegistryEntryFacts) -> Seq<Seq<char>> {
    if e.has_validator_score {
        push_ref(seq![], "local://validation/package/"@ + safe_component(e.package_id@))
    } else {
        seq![]
    }
}

/// The reputation record of a registry listing, when the entry has a
/// validator score.
pub open spec fn entry_reputation_ref(e: RegistryEntryFacts) -> Option<Seq<char>> {
    if e.has_validator_score {
        Some("local://reputation/package/"@ + safe_component(e.package_id@))
    } else {
        None
    }
}

fn prefixed(prefix: &str, value: &str) -> (r: String)
    ensures
        r@ == prefix@ + value@,
{
    let mut r = String::from_str(prefix);
    r.append(value);
    r
}

/// The evidence references of a registry listing.
pub fn marketplace_listing_evidence_refs(entry: &RegistryEntryFacts, package_ref: &str, manifest_hash: &str) -> (r:
    Vec<String>)
    ensures
        r.deep_view() == entry_evidence_refs(*entry, package_ref@, manifest_hash@),
{
    let mut refs: Vec<String> = Vec::new();
    assert(refs.deep_view() =~= Seq::<Seq<char>>::empty());
    push_evidence_ref(&mut refs, package_ref);
    let hash_ref = prefixed("sha256://", manifest_hash);
    push_evidence_ref(&mut refs, hash_ref.as_str());
    match &entry.publisher_profile_ref {
        Some(p) => push_evidence_ref(&mut refs, p.as_str()),
        None => {},
    }
    let mut candidates: Vec<String> = Vec::new();
    let mut i: usize = 0;
    while i < entry.evaluation_ids.len()
        invariant
            i <= entry.evaluation_ids.len(),
            candidates.deep_view() =~= evaluation_refs(entry.evaluation_ids.deep_view().subrange(0, i as int)),
        decreases entry.evaluation_ids.len() - i,
    {
        let ghost before = candidates.deep_view();
        let c = prefixed("local://evaluation/", entry.evaluation_ids[i].as_str());
        candidates.push(c);
        assert(candidates.deep_view() =~= before.push(c@));
        assert(entry.evaluation_ids.deep_view().subrange(0, i + 1) =~= entry.evaluation_ids.deep_view().subrange(
            0,
            i as int,
        ).push(entry.evaluation_ids.deep_view()[i as int]));
        i = i + 1;
    }
    assert(entry.evaluation_ids.deep_view().subrange(0, i as int) =~= entry.evaluation_ids.deep_view());
    merge_evidence_refs(&mut refs, &candidates);
    refs
}

/// The validation references of a registry listing.
pub fn marketplace_listing_validation_refs(entry: &RegistryEntryFacts) -> (r: Vec<String>)
    ensures
        r.deep_view() == entry_validation_refs(*entry),
{
    let mut refs: Vec<String> = Vec::new();
    assert(refs.deep_view() =~= Seq::<Seq<char>>::empty());
    if entry.has_validator_score {
        let slug = safe_file_component(entry.package_id.as_str());
        let v = prefixed("local://validation/package/", slug.as_str());
        push_evidence_ref(&mut refs, v.as_str());
    }
    refs
}

/// The reputation reference of a registry listing.
pub fn marketplace_listing_reputation_ref(entry: &RegistryEntryFacts) -> (r: Option<String>)
    ensures
        opt_view(r) == entry_reputation_ref(*entry),
{
    if entry.has_validator_score {
        let slug = safe_file_component(entry.package_id.as_str());
        Some(prefixed("local://reputation/package/", slug.as_str()))
    } else {
        None
    }
}

/// The listing of a registry entry by `owner`: none for an entry without a
/// package; otherwise an active listing of the entry's first package, of the
/// listing type of its kind, titled with its name, free under the open
/// license and quoted under any other (which then requires a license), priced
/// at zero in `none`, with the license URL as terms and the evidence,
/// validation and reputation references above. The listing is returned
/// unsigned, with an empty id.
pub fn listing_from_registry_entry(entry: &RegistryEntryFacts, owner: String) -> (r: Option<MarketplaceListingV1>)
    ensures
        entry.first_package is None <==> r is None,
        r matches Some(l) ==> {
            let (package_ref, manifest_hash) = entry.first_package->0;
            &&& l.schema_version@ == MARKETPLACE_LISTING_SCHEMA_VERSION@
            &&& l.listing_id@ == Seq::<char>::empty()
            &&& l.listing_type == listing_type_for_package(entry.kind)
            &&& l.owner@ == owner@
            &&& l.package_id@ == entry.package_id@
            &&& opt_view(l.package_ref) == Some(package_ref@)
            &&& l.title@ == entry.name@
            &&& l.description_ref is None
            &&& l.pricing.mode == (if entry.open_license { PricingMode::Free } else { PricingMode::Quote })
            &&& l.pricing.currency@ == "none"@
            &&& l.pricing.base_price == 0
            &&& opt_view(l.terms_ref) == opt_view(entry.license_url)
            &&& l.evidence_refs.deep_view() == entry_evidence_refs(*entry, package_ref@, manifest_hash@)
            &&& l.validation_report_refs.deep_view() == entry_validation_refs(*entry)
            &&& opt_view(l.reputation_ref) == entry_reputation_ref(*entry)
            &&& l.status == ListingStatus::Active
            &&& l.requires_license == !entry.open_license
            &&& l.signature is None
        },
{
    match &entry.first_package {
        None => None,
        Some((package_ref, manifest_hash)) => {
            let requires_license = !entry.open_license;
            let mode = if requires_license {
                PricingMode::Quote
            } else {
                PricingMode::Free
            };
            Some(
                MarketplaceListingV1 {
                    schema_version: String::from_str(MARKETPLACE_LISTING_SCHEMA_VERSION),
                    listing_id: String::new(),
                    listing_type: marketplace_listing_type_for_entry(entry.kind),
                    owner,
                    package_id: entry.package_id.clone(),
                    package_ref: Some(package_ref.clone()),
                    title: entry.name.clone(),
                    description_ref: None,
                    pricing: PricingV1 { mode, currency: String::from_str("none"), base_price: 0 },
                    terms_ref: copy_opt(&entry.license_url),
                    evidence_refs: marketplace_listing_evidence_refs(entry, package_ref.as_str(), manifest_hash.as_str()),
                    validation_report_refs: marketplace_listing_validation_refs(entry),
                    reputation_ref: marketplace_listing_reputation_ref(entry),
                    status: ListingStatus::Active,
                    requires_license,
                    signature: None,
                },
            )
        },
    }
}

/// The v2 listing of a registry entry by a seller: the entry's v1 listing,
/// carrying `listing_id` (the canonical id of that v1 listing) as its id,
/// converted to v2 with the entry's package kind, and the API surfaces and
/// modalities of that kind as the subject's. `None` for an entry without a
/// package reference. The v2 listing is returned unsigned, with an empty id,
/// for the signer to complete.
pub fn listing_v2_from_registry_entry(entry: &RegistryEntryFacts, seller_id: String, listing_id: String) -> (r:
    Option<MarketplaceListingV2>)
    ensures
        entry.first_package is None <==> r is None,
        r matches Some(v) ==> {
            let (package_ref, manifest_hash) = entry.first_package->0;
            let mode = if entry.open_license { PricingMode::Free } else { PricingMode::Quote };
            let kind = kind_v2_for(listing_type_for_package(entry.kind), mode, None);
            &&& v.schema_version@ == MARKETPLACE_LISTING_V2_SCHEMA_VERSION@
            &&& v.listing_id@ == Seq::<char>::empty()
            &&& v.listing_type == kind
            &&& v.seller@ == seller_id@
            &&& v.subject.subject_type@ == subject_type(kind)
            &&& v.subject.subject_ref@ == package_ref@
            &&& opt_view(v.subject.package_id) == Some(entry.package_id@)
            &&& v.subject.package_kind == Some(entry.kind)
            &&& v.subject.api_surfaces@ == package_api_surfaces(entry.kind)
            &&& v.subject.modalities@ == package_modalities(entry.kind)
            &&& v.title@ == entry.name@
            &&& v.price_model.mode == mode
            &&& v.price_model.base_price == 0
            &&& v.privacy_tiers@ == default_privacy_tiers(kind)
            &&& v.verification_tiers@ == default_verification_tiers(kind, entry_validation_refs(*entry).len() > 0)
            &&& v.settlement_requires_receipt == Some(requires_receipt(kind))
            &&& v.evidence_refs.deep_view() == entry_evidence_refs(*entry, package_ref@, manifest_hash@)
            &&& v.validation_report_refs.deep_view() == entry_validation_refs(*entry)
            &&& opt_view(v.reputation_ref) == entry_reputation_ref(*entry)
            &&& v.expires_at is None
            &&& opt_view(v.source_listing_id) == Some(listing_id@)
            &&& v.signature is None
        },
{
    let mut listing = match listing_from_registry_entry(entry, seller_id) {
        Some(l) => l,
        None => return None,
    };
    listing.listing_id = listing_id;
    let details = ListingV1Details {
        package_kind_text: None,
        package_kind: Some(entry.kind),
        subject_ref: None,
        supported_apis: None,
        modalities: None,
        availability_target: None,
        p95_first_output_ms: None,
        max_queue_depth: None,
        regions: None,
        privacy_tiers: None,
        verification_tiers: None,
        expires_at: None,
    };
    let mut v = marketplace_listing_v2_from_v1(&listing, &details);
    v.subject.api_surfaces = api_surfaces_for_package_kind(entry.kind);
    v.subject.modalities = modalities_for_package_kind(entry.kind);
    Some(v)
}

/// The listing of a registry entry by a seller.
pub fn open_listing_from_registry_entry(entry: &RegistryEntryFacts, seller_id: String) -> (r: Option<
    MarketplaceListingV1,
>)
    ensures
        entry.first_package is None <==> r is None,
        r matches Some(l) ==> l.owner@ == seller_id@ && l.package_id@ == entry.package_id@
            && l.requires_license == !entry.open_license && l.signature is None,
{
    listing_from_registry_entry(entry, seller_id)
}


/// The identity envelope of a MarketplaceListingV1's signature: context `marketplace-listing`, signed by
/// its owner.
pub fn marketplace_listing_envelope(listing: &MarketplaceListingV1) -> (r: EnvelopeSubject)
    ensures
        r.context@ == "marketplace-listing"@,
        opt_view(r.signer) == Some(listing.owner@),
{
    envelope_subject("marketplace-listing", listing.owner.as_str())
}

/// The identity envelope of a MarketplaceListingV2's signature: context `marketplace-listing-v2`, signed by
/// its seller.
pub fn marketplace_listing_v2_envelope(listing: &MarketplaceListingV2) -> (r: EnvelopeSubject)
    ensures
        r.context@ == "marketplace-listing-v2"@,
        opt_view(r.signer) == Some(listing.seller@),
{
    envelope_subject("marketplace-listing-v2", listing.seller.as_str())
}


/// Puts on a MarketplaceListingV1 a signature that `subject` made over its signed content,
/// with `listing_id` the canonical id of that content: refused, leaving the record
/// unchanged, when `subject` is not the record's listing owner.
pub fn seal_marketplace_listing(listing: &mut MarketplaceListingV1, subject: &str, listing_id: String, signature: String) -> (ok: bool)
    ensures
        ok == (subject@ == old(listing).owner@),
        ok ==> *final(listing) == (MarketplaceListingV1 { listing_id, signature: Some(signature), ..*old(listing) }),
        !ok ==> *final(listing) == *old(listing),
{
    if !text_eq(subject, listing.owner.as_str()) {
        return false;
    }
    listing.listing_id = listing_id;
    listing.signature = Some(signature);
    true
}

/// Puts on a MarketplaceListingV2 a signature that `subject` made over its signed content,
/// with `listing_id` the canonical id of that content: refused, leaving the record
/// unchanged, when `subject` is not the record's listing seller.
pub fn seal_marketplace_listing_v2(listing: &mut MarketplaceListingV2, subject: &str, listing_id: String, signature: String) -> (ok: bool)
    ensures
        ok == (subject@ == old(listing).seller@),
        ok ==> *final(listing) == (MarketplaceListingV2 { listing_id, signature: Some(signature), ..*old(listing) }),
        !ok ==> *final(listing) == *old(listing),
{
    if !text_eq(subject, listing.seller.as_str()) {
        return false;
    }
    listing.listing_id = listing_id;
    listing.signature = Some(signature);
    true
}

} // verus!
