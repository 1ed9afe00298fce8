use hivemind_market::findings::{IdentitySignatureCheck, MarketplaceVerificationIssueV1, SignedContent};
use hivemind_market::kinds::{
    ApiSurface, IntegrityTier, ListingStatus, MarketplaceListingKindV2, MarketplaceListingType,
    Modality, PackageKind, PricingMode, PrivacyTier,
};
use hivemind_market::listing::{
    listing_from_registry_entry, listing_v2_from_registry_entry, marketplace_listing_envelope,
    marketplace_listing_v2_envelope, open_listing_from_registry_entry, seal_marketplace_listing,
    seal_marketplace_listing_v2, RegistryEntryFacts,
    marketplace_listing_v2_from_v1, price_hint, verify_marketplace_listing,
    verify_marketplace_listing_v2, ListingV1Details, MarketplaceListingV1, MarketplaceListingV2,
    PricingV1, LEGACY_MARKETPLACE_LISTING_SCHEMA_VERSION, MARKETPLACE_LISTING_SCHEMA_VERSION,
    MARKETPLACE_LISTING_V2_SCHEMA_VERSION, MARKETPLACE_LISTING_VERIFICATION_SCHEMA_VERSION,
};

fn content(id: &str, signature: &str) -> SignedContent {
    SignedContent {
        canonical_id: id.to_string(),
        dev_signature: signature.to_string(),
        identity_check: None,
    }
}

fn identity(payload_hash: &str, issues: Vec<MarketplaceVerificationIssueV1>) -> SignedContent {
    SignedContent {
        canonical_id: "listing-1".to_string(),
        dev_signature: "dev-marketplace-listing-signature-v1:1".to_string(),
        identity_check: Some(IdentitySignatureCheck { payload_hash: payload_hash.to_string(), issues }),
    }
}

/// The listing a registry entry of a model package gives its owner.
fn listing(requires_license: bool) -> MarketplaceListingV1 {
    MarketplaceListingV1 {
        schema_version: MARKETPLACE_LISTING_SCHEMA_VERSION.to_string(),
        listing_id: "listing-1".to_string(),
        listing_type: if requires_license {
            MarketplaceListingType::PackageLicense
        } else {
            MarketplaceListingType::Package
        },
        owner: "0xOwner".to_string(),
        package_id: "hivemind/pkg".to_string(),
        package_ref: Some("bzz://pkg".to_string()),
        title: "Package".to_string(),
        description_ref: None,
        pricing: PricingV1 {
            mode: if requires_license { PricingMode::Quote } else { PricingMode::Free },
            currency: "USD".to_string(),
            base_price: 0.0f64.to_bits(),
        },
        terms_ref: None,
        evidence_refs: vec!["bzz://pkg".to_string(), "sha256://manifest".to_string()],
        validation_report_refs: vec!["local://validation/hivemind/pkg".to_string()],
        reputation_ref: Some("local://reputation/hivemind/pkg".to_string()),
        status: ListingStatus::Active,
        requires_license,
        signature: Some("dev-marketplace-listing-signature-v1:1".to_string()),
    }
}

fn signed() -> SignedContent {
    content("listing-1", "dev-marketplace-listing-signature-v1:1")
}

fn model_details() -> ListingV1Details {
    ListingV1Details {
        package_kind_text: Some("model".to_string()),
        package_kind: Some(PackageKind::Model),
        subject_ref: None,
        supported_apis: Some(vec![ApiSurface::HivemindNative]),
        modalities: Some(vec![Modality::Chat]),
        availability_target: None,
        p95_first_output_ms: None,
        max_queue_depth: None,
        regions: None,
        privacy_tiers: None,
        verification_tiers: None,
        expires_at: None,
    }
}

fn sign_v2(l: &mut MarketplaceListingV2, tag: &str) -> SignedContent {
    l.listing_id = format!("listing-v2-{tag}");
    l.signature = Some(format!("dev-marketplace-listing-v2-signature-v1:{tag}"));
    content(&l.listing_id, &format!("dev-marketplace-listing-v2-signature-v1:{tag}"))
}

#[test]
fn commercial_license_listing_verifies() {
    let l = listing(true);
    assert_eq!(l.listing_type, MarketplaceListingType::PackageLicense);
    assert!(l.requires_license);
    assert_eq!(l.pricing.mode, PricingMode::Quote);
    let v = verify_marketplace_listing(&l, &signed(), "t".to_string());
    assert!(v.valid, "{v:#?}");
    assert!(v.warnings.is_empty(), "{v:#?}");
    assert_eq!(v.expected_signature.as_deref(), l.signature.as_deref());
}

#[test]
fn marketplace_listing_v2_separates_package_license_contract() {
    let l = listing(true);
    let mut listing_v2 = marketplace_listing_v2_from_v1(&l, &model_details());
    let c = sign_v2(&mut listing_v2, "1");
    let verification = verify_marketplace_listing_v2(&listing_v2, &c, "t".to_string());

    assert_eq!(listing_v2.schema_version, MARKETPLACE_LISTING_V2_SCHEMA_VERSION);
    assert_eq!(listing_v2.listing_type, MarketplaceListingKindV2::PackageLicense);
    assert_eq!(listing_v2.subject.subject_type, "package");
    assert_eq!(listing_v2.subject.subject_ref, "bzz://pkg");
    assert!(listing_v2.privacy_tiers.contains(&PrivacyTier::LocalOnly));
    assert!(listing_v2.verification_tiers.contains(&IntegrityTier::ValidatorSpotCheck));
    assert_eq!(listing_v2.settlement_requires_receipt, Some(false));
    assert_eq!(listing_v2.source_listing_id.as_deref(), Some("listing-1"));
    assert!(verification.valid, "{verification:#?}");
}

#[test]
fn identity_signed_marketplace_listing_v2_verifies_and_detects_tampering() {
    let l = listing(false);
    let mut listing_v2 = marketplace_listing_v2_from_v1(&l, &model_details());
    listing_v2.listing_id = "listing-v2-identity".to_string();
    listing_v2.signature = Some("ed25519-envelope:0xOwner".to_string());
    let good = SignedContent {
        canonical_id: "listing-v2-identity".to_string(),
        dev_signature: "dev".to_string(),
        identity_check: Some(IdentitySignatureCheck { payload_hash: "h".to_string(), issues: Vec::new() }),
    };
    let verification = verify_marketplace_listing_v2(&listing_v2, &good, "t".to_string());
    assert_eq!(listing_v2.seller, "0xOwner");
    assert!(verification.valid, "{verification:#?}");

    listing_v2.title = "Tampered v2 listing".to_string();
    let tampered_content = SignedContent {
        canonical_id: "listing-v2-tampered".to_string(),
        dev_signature: "dev".to_string(),
        identity_check: Some(IdentitySignatureCheck {
            payload_hash: "h2".to_string(),
            issues: vec![MarketplaceVerificationIssueV1 {
                path: "$.payloadHash".to_string(),
                message: "payload hash mismatch".to_string(),
            }],
        }),
    };
    let tampered = verify_marketplace_listing_v2(&listing_v2, &tampered_content, "t".to_string());
    assert!(!tampered.valid);
    assert!(tampered
        .issues
        .iter()
        .any(|issue| issue.path == "$.listingId" || issue.path == "$.signature.payloadHash"));
}

#[test]
fn legacy_marketplace_listing_schema_version_still_verifies_without_v02_fields() {
    let mut l = listing(false);
    l.schema_version = LEGACY_MARKETPLACE_LISTING_SCHEMA_VERSION.to_string();
    l.listing_type = MarketplaceListingType::Package;
    l.evidence_refs = Vec::new();
    l.validation_report_refs = Vec::new();
    l.reputation_ref = None;

    let verification = verify_marketplace_listing(&l, &signed(), "t".to_string());

    assert!(verification.valid, "{verification:#?}");
    assert_eq!(verification.schema_version, MARKETPLACE_LISTING_VERIFICATION_SCHEMA_VERSION);
}

#[test]
fn current_listing_requires_evidence_refs() {
    let mut l = listing(false);
    l.evidence_refs = Vec::new();
    let verification = verify_marketplace_listing(&l, &signed(), "t".to_string());
    assert!(!verification.valid);
    assert!(verification.issues.iter().any(|issue| issue.path == "$.evidenceRefs"));
    let mut l = listing(false);
    l.evidence_refs.push("ftp://elsewhere".to_string());
    l.evidence_refs.push("  ".to_string());
    let verification = verify_marketplace_listing(&l, &signed(), "t".to_string());
    assert!(verification.warnings.iter().any(|warning| warning.path == "$.evidenceRefs[2]"));
    assert!(verification.issues.iter().any(|issue| issue.path == "$.evidenceRefs[3]"));
}

#[test]
fn identity_signed_marketplace_listing_verifies() {
    let mut l = listing(false);
    l.signature = Some("ed25519-envelope:0xOwner".to_string());
    let verification = verify_marketplace_listing(&l, &identity("abc", Vec::new()), "t".to_string());
    assert!(verification.valid, "{verification:#?}");
    assert!(verification.expected_signature.as_deref().unwrap().starts_with("ed25519-payload-hash:"));
}

#[test]
fn unsigned_marketplace_listing_remains_valid_with_warning() {
    let mut l = listing(false);
    l.signature = None;
    let verification = verify_marketplace_listing(&l, &signed(), "t".to_string());
    assert!(verification.valid, "{verification:#?}");
    assert!(verification.warnings.iter().any(|warning| warning.path == "$.signature"));
}

#[test]
fn rejects_tampered_identity_signed_marketplace_listing() {
    let mut l = listing(false);
    l.signature = Some("ed25519-envelope:0xOwner".to_string());
    l.title = "Impostor listing".to_string();
    let tampered = SignedContent {
        canonical_id: "listing-impostor".to_string(),
        dev_signature: "dev".to_string(),
        identity_check: Some(IdentitySignatureCheck {
            payload_hash: "bad".to_string(),
            issues: vec![MarketplaceVerificationIssueV1 {
                path: "$.payloadHash".to_string(),
                message: "payload hash mismatch".to_string(),
            }],
        }),
    };
    let verification = verify_marketplace_listing(&l, &tampered, "t".to_string());
    assert!(!verification.valid);
    assert!(verification
        .issues
        .iter()
        .any(|issue| issue.path == "$.listingId" || issue.path == "$.signature.payloadHash"));
}

#[test]
fn price_hint_reports_base_price_and_currency() {
    let mut l = listing(true);
    l.pricing.base_price = 0.5f64.to_bits();
    let hint = price_hint(&l);
    assert_eq!(hint.amount, 0.5f64.to_bits());
    assert_eq!(hint.currency, "USD");
}

fn registry_entry(open_license: bool) -> RegistryEntryFacts {
    RegistryEntryFacts {
        package_id: "hivemind/test".to_string(),
        name: "Test".to_string(),
        kind: PackageKind::Model,
        first_package: Some(("bzz://pkg".to_string(), "0".repeat(64))),
        open_license,
        license_url: None,
        publisher_profile_ref: None,
        evaluation_ids: Vec::new(),
        has_validator_score: true,
    }
}

#[test]
fn commercial_listing_requires_license() {
    let entry = registry_entry(false);
    let mut listing = listing_from_registry_entry(&entry, "0xOwner".to_string()).unwrap();

    assert_eq!(listing.schema_version, MARKETPLACE_LISTING_SCHEMA_VERSION);
    assert_eq!(listing.listing_type, MarketplaceListingType::PackageLicense);
    assert!(listing.requires_license);
    assert_eq!(listing.pricing.mode, PricingMode::Quote);
    assert!(listing
        .evidence_refs
        .iter()
        .any(|reference| reference.starts_with("bzz://") || reference.starts_with("sha256://")));
    assert!(listing.reputation_ref.is_some());
    assert!(listing.listing_id.is_empty());
    assert!(listing.signature.is_none());
    listing.listing_id = "listing-test".to_string();
    listing.signature = Some("dev-marketplace-listing-signature-v1:test".to_string());
    let v = verify_marketplace_listing(
        &listing,
        &content("listing-test", "dev-marketplace-listing-signature-v1:test"),
        "t".to_string(),
    );
    assert!(v.valid, "{v:#?}");
}

#[test]
fn registry_listing_collects_evidence_once_in_order() {
    let mut entry = registry_entry(true);
    entry.publisher_profile_ref = Some(" bzz://publisher ".to_string());
    entry.evaluation_ids = vec!["eval-1".to_string(), "eval-1".to_string(), "eval-2".to_string()];
    entry.license_url = Some("https://license.example".to_string());
    let listing = open_listing_from_registry_entry(&entry, "seller".to_string()).unwrap();
    assert_eq!(listing.pricing.mode, PricingMode::Free);
    assert!(!listing.requires_license);
    assert_eq!(listing.owner, "seller");
    assert_eq!(listing.terms_ref.as_deref(), Some("https://license.example"));
    assert_eq!(
        listing.evidence_refs,
        vec![
            "bzz://pkg".to_string(),
            format!("sha256://{}", "0".repeat(64)),
            "bzz://publisher".to_string(),
            "local://evaluation/eval-1".to_string(),
            "local://evaluation/eval-2".to_string(),
        ]
    );
    assert_eq!(listing.validation_report_refs, vec!["local://validation/package/hivemind-test".to_string()]);
    assert_eq!(listing.reputation_ref.as_deref(), Some("local://reputation/package/hivemind-test"));
}

#[test]
fn registry_entry_without_package_has_no_listing() {
    let mut entry = registry_entry(true);
    entry.first_package = None;
    assert!(listing_from_registry_entry(&entry, "0xOwner".to_string()).is_none());
    let mut entry = registry_entry(true);
    entry.has_validator_score = false;
    let listing = listing_from_registry_entry(&entry, "0xOwner".to_string()).unwrap();
    assert!(listing.validation_report_refs.is_empty());
    assert!(listing.reputation_ref.is_none());
    entry.kind = PackageKind::Dataset;
    let listing = listing_from_registry_entry(&entry, "0xOwner".to_string()).unwrap();
    assert_eq!(listing.listing_type, MarketplaceListingType::DatasetLicense);
}

#[test]
fn marketplace_listing_v2_separates_vector_service_from_package_license() {
    let mut entry = registry_entry(true);
    entry.kind = PackageKind::VectorIndex;

    let mut listing_v2 =
        listing_v2_from_registry_entry(&entry, "0xOwner".to_string(), "listing-v1".to_string()).unwrap();
    assert!(seal_marketplace_listing_v2(
        &mut listing_v2,
        "0xOwner",
        "listing-v2-vector".to_string(),
        "dev-marketplace-listing-v2-signature-v1:vector".to_string(),
    ));
    let verification = verify_marketplace_listing_v2(
        &listing_v2,
        &content("listing-v2-vector", "dev-marketplace-listing-v2-signature-v1:vector"),
        "t".to_string(),
    );

    assert_eq!(listing_v2.listing_type, MarketplaceListingKindV2::VectorStoreService);
    assert_eq!(listing_v2.subject.subject_type, "service");
    assert!(listing_v2.subject.api_surfaces.contains(&ApiSurface::VectorSearch));
    assert!(listing_v2.subject.modalities.contains(&Modality::VectorSearch));
    assert_eq!(listing_v2.settlement_requires_receipt, Some(true));
    assert!(verification.valid, "{verification:#?}");
}

#[test]
fn registry_listing_v2_carries_the_entry_kind_and_source_listing() {
    let entry = registry_entry(false);
    let v = listing_v2_from_registry_entry(&entry, "seller".to_string(), "listing-v1".to_string()).unwrap();
    assert_eq!(v.listing_type, MarketplaceListingKindV2::PackageLicense);
    assert_eq!(v.seller, "seller");
    assert_eq!(v.subject.package_kind, Some(PackageKind::Model));
    assert_eq!(v.subject.subject_ref, "bzz://pkg");
    assert_eq!(v.source_listing_id.as_deref(), Some("listing-v1"));
    assert!(v.listing_id.is_empty());
    assert!(v.signature.is_none());
    let mut empty = registry_entry(true);
    empty.first_package = None;
    assert!(listing_v2_from_registry_entry(&empty, "seller".to_string(), "x".to_string()).is_none());
}

#[test]
fn sealing_a_listing_requires_its_owner() {
    let entry = registry_entry(true);
    let mut l = listing_from_registry_entry(&entry, "0xOwner".to_string()).unwrap();
    let before = l.clone();
    assert!(!seal_marketplace_listing(&mut l, "0xSomeoneElse", "id".to_string(), "sig".to_string()));
    assert_eq!(l.listing_id, before.listing_id);
    assert_eq!(l.signature, before.signature);
    assert!(seal_marketplace_listing(&mut l, "0xOwner", "listing-test".to_string(), "sig".to_string()));
    assert_eq!(l.listing_id, "listing-test");
    assert_eq!(l.signature.as_deref(), Some("sig"));
    assert_eq!(l.title, before.title);
    let e = marketplace_listing_envelope(&l);
    assert_eq!(e.context, "marketplace-listing");
    assert_eq!(e.signer.as_deref(), Some("0xOwner"));
    let v2 = marketplace_listing_v2_from_v1(&l, &model_details());
    let e2 = marketplace_listing_v2_envelope(&v2);
    assert_eq!(e2.context, "marketplace-listing-v2");
    assert_eq!(e2.signer.as_deref(), Some("0xOwner"));
}
