use hivemind_market::findings::{IdentitySignatureCheck, MarketplaceVerificationIssueV1, SignedContent};
use hivemind_market::kinds::{SettlementResolutionAction, SettlementStatus, SlashingReasonKindV1};
use hivemind_market::refund::{
    build_refund_record, finish_refund_build, verify_refund_record, RefundBuildRequestV1,
    RefundRecordV1, REFUND_BUILD_REQUEST_SCHEMA_VERSION, REFUND_RECORD_SCHEMA_VERSION,
};
use hivemind_market::settlement::{
    merge_evidence_refs, open_settlement_dispute, push_evidence_ref, refund_settlement,
    seal_settlement_event, settlement_event_envelope, settlement_resolution_envelope,
    reject_settlement_dispute, settlement_resolution_reason, settlement_status_reason,
    verify_settlement_event, verify_settlement_resolution, DisputeFacts, SettlementEventV1,
    SettlementResolutionV1, LEGACY_SETTLEMENT_EVENT_SCHEMA_VERSION, SETTLEMENT_EVENT_SCHEMA_VERSION,
    SETTLEMENT_EVENT_VERIFICATION_SCHEMA_VERSION,
};
use hivemind_market::slashing::{
    build_slashing_record, finish_slashing_build, slashing_correctness_assessment_is_actionable,
    verify_slashing_record, CorrectnessFacts, SlashingBuildRequestV1, SlashingRecordV1,
    SLASHING_BUILD_REQUEST_SCHEMA_VERSION,
};

fn content(id: &str, signature: &str) -> SignedContent {
    SignedContent {
        canonical_id: id.to_string(),
        dev_signature: signature.to_string(),
        identity_check: None,
    }
}

fn settlement() -> SettlementEventV1 {
    SettlementEventV1 {
        schema_version: "hivemind.settlement_event.v1".to_string(),
        settlement_id: "settlement-1".to_string(),
        job_id: Some("job-1".to_string()),
        request_id: "req-1".to_string(),
        receipt_id: "receipt-1".to_string(),
        quote_id: Some("quote-1".to_string()),
        payment_authorization_id: None,
        payment_ref: None,
        package_ref: "bzz://pkg".to_string(),
        runner_id: "runner-1".to_string(),
        payer: "0xUser".to_string(),
        payee: "runner-1".to_string(),
        amount: 0.25f64.to_bits(),
        currency: "USD".to_string(),
        asset: Some("USD".to_string()),
        status: SettlementStatus::Settled,
        reason: Some("settled from receipt and service quote".to_string()),
        evidence_refs: vec!["bzz://receipt".to_string()],
        created_at: Some("2026-06-01T00:00:00Z".to_string()),
        occurred_at: "2026-06-01T00:00:00Z".to_string(),
        receipt_ref: Some("bzz://receipt".to_string()),
        signature: Some("dev-settlement-signature-v1:1".to_string()),
    }
}

fn settlement_content() -> SignedContent {
    content("settlement-1", "dev-settlement-signature-v1:1")
}

fn dispute(evidence: &[&str]) -> DisputeFacts {
    DisputeFacts {
        dispute_id: "dispute-1".to_string(),
        receipt_id: "receipt-1".to_string(),
        request_id: "req-1".to_string(),
        package_ref: "bzz://pkg".to_string(),
        runner_id: "runner-1".to_string(),
        evidence_refs: evidence.iter().map(|e| e.to_string()).collect(),
        verified: true,
    }
}

fn sign_settlement(s: &mut SettlementEventV1, tag: &str) -> SignedContent {
    s.settlement_id = format!("settlement-{tag}");
    s.signature = Some(format!("dev-settlement-signature-v1:{tag}"));
    content(&format!("settlement-{tag}"), &format!("dev-settlement-signature-v1:{tag}"))
}

fn sign_resolution(r: &mut SettlementResolutionV1, tag: &str) -> SignedContent {
    r.resolution_id = format!("resolution-{tag}");
    r.signature = Some(format!("dev-settlement-resolution-signature-v1:{tag}"));
    content(&format!("resolution-{tag}"), &format!("dev-settlement-resolution-signature-v1:{tag}"))
}

const NOW: &str = "2026-06-02T00:00:00Z";

#[test]
fn opens_dispute_and_refunds_settlement() {
    let base = settlement();
    assert!(verify_settlement_event(&base, &settlement_content(), NOW.to_string()).valid);
    let dispute = dispute(&["bzz://evidence"]);

    let disputed = open_settlement_dispute(
        &base,
        &dispute,
        "market-operator".to_string(),
        "needs review".to_string(),
        NOW.to_string(),
    );
    assert!(disputed.issues.is_empty(), "{disputed:#?}");
    assert_eq!(disputed.updated_settlement.as_ref().unwrap().status, SettlementStatus::Disputed);

    let rejected = reject_settlement_dispute(
        disputed.updated_settlement.as_ref().unwrap(),
        &dispute,
        "market-operator".to_string(),
        "claim rejected".to_string(),
        NOW.to_string(),
    );
    assert!(rejected.issues.is_empty(), "{rejected:#?}");
    let rejected_settlement = rejected.updated_settlement.as_ref().unwrap();
    assert_eq!(rejected_settlement.status, SettlementStatus::DisputeRejected);
    assert!(rejected_settlement.reason.as_deref().unwrap().contains("claim rejected"));
    assert_eq!(rejected.resolution.as_ref().unwrap().action, SettlementResolutionAction::RejectDispute);

    let refund = refund_settlement(
        disputed.updated_settlement.as_ref().unwrap(),
        &dispute,
        "market-operator".to_string(),
        "refund approved".to_string(),
        NOW.to_string(),
    );
    assert!(refund.issues.is_empty(), "{refund:#?}");
    let refunded = refund.updated_settlement.as_ref().unwrap();
    assert_eq!(refunded.status, SettlementStatus::Refunded);
    assert!(refunded.evidence_refs.iter().any(|reference| reference == "bzz://evidence"));
    assert_eq!(refund.resolution.as_ref().unwrap().action, SettlementResolutionAction::Refund);

    let mut resolution = disputed.resolution.clone().unwrap();
    let resolution_content = sign_resolution(&mut resolution, "open");
    let verification = verify_settlement_resolution(&resolution, &resolution_content, NOW.to_string());
    assert!(verification.valid, "{verification:#?}");
    assert!(verification.expected_signature.is_some());
    let mut updated = disputed.updated_settlement.clone().unwrap();
    let updated_content = sign_settlement(&mut updated, "disputed");
    assert!(verify_settlement_event(&updated, &updated_content, NOW.to_string()).valid);
}

#[test]
fn rejects_dispute_for_wrong_receipt() {
    let base = settlement();
    let mut other = dispute(&[]);
    other.receipt_id = "other-receipt".to_string();
    other.request_id = "other-request".to_string();

    let result = open_settlement_dispute(
        &base,
        &other,
        "market-operator".to_string(),
        "bad evidence".to_string(),
        NOW.to_string(),
    );

    assert!(!result.issues.is_empty());
    assert!(result.updated_settlement.is_none());
    assert!(result.resolution.is_none());
    assert!(result.issues.iter().any(|issue| issue.path == "$.dispute.receiptId"));
}

#[test]
fn refunded_settlement_cannot_be_disputed_again() {
    let dispute = dispute(&["bzz://evidence"]);
    let disputed = open_settlement_dispute(
        &settlement(),
        &dispute,
        "op".to_string(),
        "needs review".to_string(),
        NOW.to_string(),
    );
    let refund = refund_settlement(
        disputed.updated_settlement.as_ref().unwrap(),
        &dispute,
        "op".to_string(),
        "refund approved".to_string(),
        NOW.to_string(),
    );
    let refunded = refund.updated_settlement.unwrap();
    let again = open_settlement_dispute(&refunded, &dispute, "op".to_string(), "again".to_string(), NOW.to_string());
    assert!(again.updated_settlement.is_none());
    assert!(again.issues.iter().any(|issue| issue.path == "$.settlement.status"));
    let twice = refund_settlement(&refunded, &dispute, "op".to_string(), "again".to_string(), NOW.to_string());
    assert!(twice.updated_settlement.is_none());
    assert!(twice.issues.iter().any(|issue| issue.path == "$.settlement.status"));
}

#[test]
fn only_disputed_settlements_can_be_refunded() {
    let result = refund_settlement(
        &settlement(),
        &dispute(&[]),
        "op".to_string(),
        "refund".to_string(),
        NOW.to_string(),
    );
    assert!(result.resolution.is_none());
    assert!(result
        .issues
        .iter()
        .any(|issue| issue.path == "$.settlement.status" && issue.message == "Only disputed settlements can be refunded"));
}

#[test]
fn unverified_dispute_and_missing_resolver_are_refused() {
    let mut d = dispute(&[]);
    d.verified = false;
    let result = open_settlement_dispute(&settlement(), &d, "  ".to_string(), "r".to_string(), NOW.to_string());
    assert!(result.resolution.is_none());
    assert!(result.issues.iter().any(|issue| issue.path == "$.dispute"));
    assert!(result.issues.iter().any(|issue| issue.path == "$.resolvedBy"));
}

#[test]
fn resolution_reason_labels_status_and_keeps_reason() {
    assert_eq!(settlement_resolution_reason(SettlementStatus::Refunded, "  refund approved "), "refunded: refund approved");
    assert_eq!(settlement_resolution_reason(SettlementStatus::Disputed, "   "), "dispute opened");
    assert_eq!(
        settlement_status_reason(SettlementStatus::Settled, true, true),
        "settled from verified receipt and payment authorization"
    );
    assert_eq!(settlement_status_reason(SettlementStatus::Settled, false, true), "settled from receipt and service quote");
    assert_eq!(settlement_status_reason(SettlementStatus::Settled, false, false), "settled from receipt billing estimate");
    assert_eq!(settlement_status_reason(SettlementStatus::Pending, false, false), "pending settlement");
}

#[test]
fn evidence_refs_are_trimmed_and_kept_once() {
    let mut refs = vec!["bzz://a".to_string()];
    push_evidence_ref(&mut refs, "  bzz://b ");
    push_evidence_ref(&mut refs, "bzz://a");
    push_evidence_ref(&mut refs, "   ");
    assert_eq!(refs, vec!["bzz://a".to_string(), "bzz://b".to_string()]);
    merge_evidence_refs(
        &mut refs,
        &vec!["bzz://c".to_string(), " bzz://b".to_string(), "bzz://c".to_string(), String::new()],
    );
    assert_eq!(refs, vec!["bzz://a".to_string(), "bzz://b".to_string(), "bzz://c".to_string()]);
}

fn tampered_envelope() -> SignedContent {
    SignedContent {
        canonical_id: "changed".to_string(),
        dev_signature: "dev".to_string(),
        identity_check: Some(IdentitySignatureCheck {
            payload_hash: "h2".to_string(),
            issues: vec![MarketplaceVerificationIssueV1 {
                path: "$.payloadHash".to_string(),
                message: "payload hash mismatch".to_string(),
            }],
        }),
    }
}

fn good_envelope(id: &str) -> SignedContent {
    SignedContent {
        canonical_id: id.to_string(),
        dev_signature: "dev".to_string(),
        identity_check: Some(IdentitySignatureCheck { payload_hash: "h".to_string(), issues: Vec::new() }),
    }
}

#[test]
fn identity_signed_settlement_event_verifies() {
    let mut s = settlement();
    s.signature = Some("ed25519-envelope:runner".to_string());
    let v = verify_settlement_event(&s, &good_envelope("settlement-1"), NOW.to_string());
    assert!(v.valid, "{v:#?}");
    assert_eq!(v.expected_signature.as_deref(), Some("ed25519-payload-hash:h"));
}

#[test]
fn rejects_tampered_identity_signed_settlement_event() {
    let mut s = settlement();
    s.signature = Some("ed25519-envelope:runner".to_string());
    s.amount = 99.0f64.to_bits();
    let v = verify_settlement_event(&s, &tampered_envelope(), NOW.to_string());
    assert!(!v.valid);
    assert!(v.issues.iter().any(|issue| issue.path == "$.settlementId" || issue.path == "$.signature.payloadHash"));
}

#[test]
fn legacy_settlement_event_schema_version_still_verifies() {
    let mut s = settlement();
    s.schema_version = LEGACY_SETTLEMENT_EVENT_SCHEMA_VERSION.to_string();
    s.job_id = None;
    s.asset = None;
    s.reason = None;
    s.evidence_refs = Vec::new();
    s.created_at = None;
    let v = verify_settlement_event(&s, &settlement_content(), NOW.to_string());
    assert!(v.valid, "{v:#?}");
    assert_eq!(v.schema_version, SETTLEMENT_EVENT_VERIFICATION_SCHEMA_VERSION);
    s.schema_version = SETTLEMENT_EVENT_SCHEMA_VERSION.to_string();
    let v = verify_settlement_event(&s, &settlement_content(), NOW.to_string());
    assert!(!v.valid);
    for path in ["$.jobId", "$.asset", "$.reason", "$.evidenceRefs", "$.createdAt"] {
        assert!(v.issues.iter().any(|issue| issue.path == path), "{path}");
    }
}

fn opened_resolution() -> SettlementResolutionV1 {
    let disputed = open_settlement_dispute(
        &settlement(),
        &dispute(&["bzz://evidence"]),
        "market-operator".to_string(),
        "needs review".to_string(),
        NOW.to_string(),
    );
    disputed.resolution.unwrap()
}

#[test]
fn identity_signed_settlement_resolution_verifies() {
    let mut r = opened_resolution();
    r.resolution_id = "resolution-identity".to_string();
    r.signature = Some("ed25519-envelope:market-operator".to_string());
    let v = verify_settlement_resolution(&r, &good_envelope("resolution-identity"), NOW.to_string());
    assert!(v.valid, "{v:#?}");
    assert_eq!(v.expected_signature.as_deref(), Some("ed25519-payload-hash:h"));
}

#[test]
fn rejects_tampered_identity_signed_settlement_resolution() {
    let mut r = opened_resolution();
    r.resolution_id = "resolution-identity".to_string();
    r.signature = Some("ed25519-envelope:market-operator".to_string());
    r.reason = "tampered".to_string();
    let v = verify_settlement_resolution(&r, &tampered_envelope(), NOW.to_string());
    assert!(!v.valid);
    assert!(v.issues.iter().any(|issue| issue.path == "$.resolutionId" || issue.path == "$.signature.payloadHash"));
}

#[test]
fn unsigned_settlement_is_valid_with_warning_and_dev_mismatch_is_an_issue() {
    let mut s = settlement();
    s.signature = None;
    let v = verify_settlement_event(&s, &settlement_content(), NOW.to_string());
    assert!(v.valid);
    assert!(v.warnings.iter().any(|w| w.path == "$.signature"));
    s.signature = Some("dev-settlement-signature-v1:other".to_string());
    let v = verify_settlement_event(&s, &settlement_content(), NOW.to_string());
    assert!(!v.valid);
    assert!(v.issues.iter().any(|i| i.path == "$.signature"));
    s.signature = Some("dev-settlement-signature-v1:1".to_string());
    s.occurred_at = "yesterday".to_string();
    let v = verify_settlement_event(&s, &settlement_content(), NOW.to_string());
    assert!(v.issues.iter().any(|i| i.path == "$.occurredAt"));
}

fn refunded_flow() -> (SettlementEventV1, SettlementResolutionV1, DisputeFacts, SignedContent, SignedContent) {
    let dispute = dispute(&["bzz://evidence"]);
    let disputed = open_settlement_dispute(
        &settlement(),
        &dispute,
        "market-operator".to_string(),
        "needs review".to_string(),
        NOW.to_string(),
    );
    let mut disputed_settlement = disputed.updated_settlement.unwrap();
    let _ = sign_settlement(&mut disputed_settlement, "disputed");
    let refund = refund_settlement(
        &disputed_settlement,
        &dispute,
        "market-operator".to_string(),
        "refund approved".to_string(),
        NOW.to_string(),
    );
    let mut s = refund.updated_settlement.unwrap();
    let sc = sign_settlement(&mut s, "refunded");
    let mut r = refund.resolution.unwrap();
    let rc = sign_resolution(&mut r, "refund");
    (s, r, dispute, sc, rc)
}

#[test]
fn refund_record_builds_from_refunded_settlement_and_resolution() {
    let (s, r, dispute, sc, rc) = refunded_flow();
    let request = RefundBuildRequestV1 {
        schema_version: REFUND_BUILD_REQUEST_SCHEMA_VERSION.to_string(),
        settlement: s.clone(),
        resolution: r.clone(),
        dispute: Some(dispute.clone()),
        refunded_by: "market-operator".to_string(),
        refund_ref: Some("local://refund/refund-1".to_string()),
        reason: None,
        evidence_refs: vec!["local://operator/refund-approved".to_string()],
        occurred_at: Some("2026-06-05T00:00:00Z".to_string()),
    };
    let draft = build_refund_record(&request, &sc, &rc, false, NOW.to_string(), NOW.to_string());
    assert!(draft.issues.is_empty(), "{draft:#?}");
    assert!(draft.settlement_verification.valid);
    assert!(draft.resolution_verification.valid);
    let mut record: RefundRecordV1 = draft.refund.clone().unwrap();
    assert_eq!(record.schema_version, REFUND_RECORD_SCHEMA_VERSION);
    assert_eq!(record.settlement_id, s.settlement_id);
    assert_eq!(record.resolution_id, r.resolution_id);
    assert_eq!(record.dispute_id.as_deref(), Some(dispute.dispute_id.as_str()));
    assert_eq!(record.refunded_by, "market-operator");
    assert_eq!(record.refund_ref.as_deref(), Some("local://refund/refund-1"));
    assert_eq!(record.occurred_at, "2026-06-05T00:00:00Z");
    assert!(record.evidence_refs.iter().any(|reference| reference == "local://operator/refund-approved"));
    assert!(record.evidence_refs.iter().any(|reference| reference == "bzz://evidence"));

    record.refund_id = "refund-1".to_string();
    record.signature = Some("dev-refund-record-signature-v1:1".to_string());
    let record_content = content("refund-1", "dev-refund-record-signature-v1:1");
    let verification = verify_refund_record(&record, &record_content, NOW.to_string());
    assert!(verification.valid, "{verification:#?}");
    let result = finish_refund_build(draft, Some((record.clone(), verification)), NOW.to_string());
    assert!(result.verification.valid);
    assert!(result.refund.unwrap().refund_id.starts_with("refund-"));
}

#[test]
fn refund_record_rejects_non_refund_resolution() {
    let dispute = dispute(&["bzz://evidence"]);
    let disputed = open_settlement_dispute(
        &settlement(),
        &dispute,
        "market-operator".to_string(),
        "needs review".to_string(),
        NOW.to_string(),
    );
    let mut s = disputed.updated_settlement.unwrap();
    let sc = sign_settlement(&mut s, "d");
    let mut r = disputed.resolution.unwrap();
    let rc = sign_resolution(&mut r, "d");
    let request = RefundBuildRequestV1 {
        schema_version: REFUND_BUILD_REQUEST_SCHEMA_VERSION.to_string(),
        settlement: s,
        resolution: r,
        dispute: Some(dispute),
        refunded_by: "market-operator".to_string(),
        refund_ref: None,
        reason: None,
        evidence_refs: Vec::new(),
        occurred_at: None,
    };
    let draft = build_refund_record(&request, &sc, &rc, false, NOW.to_string(), NOW.to_string());
    assert!(!draft.issues.is_empty());
    assert!(draft.refund.is_none());
    assert!(draft
        .issues
        .iter()
        .any(|issue| issue.path == "$.settlement.status" || issue.path == "$.resolution.action"));
    let result = finish_refund_build(draft, None, NOW.to_string());
    assert!(!result.verification.valid);
    assert!(result.refund.is_none());
}

fn failed_correctness() -> CorrectnessFacts {
    CorrectnessFacts {
        receipt_id: "receipt-1".to_string(),
        receipt_verified: true,
        failed_methods: vec!["validator-spot-check".to_string()],
        validation_refs: vec!["bzz://validator-report".to_string()],
    }
}

fn missing_correctness() -> CorrectnessFacts {
    CorrectnessFacts {
        receipt_id: "receipt-1".to_string(),
        receipt_verified: true,
        failed_methods: Vec::new(),
        validation_refs: Vec::new(),
    }
}

#[test]
fn slashing_record_requires_disputed_settlement_and_failed_correctness_evidence() {
    let dispute = dispute(&["bzz://validator-report"]);
    let disputed = open_settlement_dispute(
        &settlement(),
        &dispute,
        "market-operator".to_string(),
        "needs review".to_string(),
        NOW.to_string(),
    );
    let mut disputed_settlement = disputed.updated_settlement.unwrap();
    let sc = sign_settlement(&mut disputed_settlement, "disputed");
    let request = SlashingBuildRequestV1 {
        schema_version: SLASHING_BUILD_REQUEST_SCHEMA_VERSION.to_string(),
        settlement: disputed_settlement.clone(),
        dispute: dispute.clone(),
        correctness_assessment: failed_correctness(),
        slashed_by: "market-operator".to_string(),
        amount: 0.001f64.to_bits(),
        currency: Some(disputed_settlement.currency.clone()),
        stake_ref: Some("local://stake/runner-1".to_string()),
        reason_kind: SlashingReasonKindV1::FakeOutput,
        reason: "validator evidence confirmed output mismatch".to_string(),
        evidence_refs: vec!["local://governance/slashing-policy-v1".to_string()],
        occurred_at: Some("2026-06-05T00:00:00Z".to_string()),
    };
    let draft = build_slashing_record(&request, &sc, NOW.to_string(), NOW.to_string());
    assert!(draft.issues.is_empty(), "{draft:#?}");
    assert!(draft.correctness_assessment_accepted);
    assert!(draft.settlement_verification.valid);
    let mut slashing: SlashingRecordV1 = draft.slashing.clone().unwrap();
    assert_eq!(slashing.settlement_id, disputed_settlement.settlement_id);
    assert_eq!(slashing.dispute_id, dispute.dispute_id);
    assert_eq!(slashing.slashed_party, "runner-1");
    assert_eq!(slashing.slashed_by, "market-operator");
    assert_eq!(slashing.failed_methods, vec!["validator-spot-check".to_string()]);
    slashing.slashing_id = "slashing-1".to_string();
    slashing.signature = Some("dev-slashing-record-signature-v1:1".to_string());
    let verification =
        verify_slashing_record(&slashing, &content("slashing-1", "dev-slashing-record-signature-v1:1"), NOW.to_string());
    assert!(verification.valid, "{verification:#?}");
    let result = finish_slashing_build(draft, Some((slashing, verification)), NOW.to_string());
    assert!(result.verification.valid);
    assert!(result.slashing.unwrap().slashing_id.starts_with("slashing-"));
}

#[test]
fn slashing_record_rejects_missing_correctness_evidence() {
    let dispute = dispute(&["bzz://validator-report"]);
    let disputed = open_settlement_dispute(
        &settlement(),
        &dispute,
        "market-operator".to_string(),
        "needs review".to_string(),
        NOW.to_string(),
    );
    let mut disputed_settlement = disputed.updated_settlement.unwrap();
    let sc = sign_settlement(&mut disputed_settlement, "disputed");
    let request = SlashingBuildRequestV1 {
        schema_version: SLASHING_BUILD_REQUEST_SCHEMA_VERSION.to_string(),
        settlement: disputed_settlement,
        dispute,
        correctness_assessment: missing_correctness(),
        slashed_by: "market-operator".to_string(),
        amount: 0.001f64.to_bits(),
        currency: None,
        stake_ref: Some("local://stake/runner-1".to_string()),
        reason_kind: SlashingReasonKindV1::FakeOutput,
        reason: "attempted slash without failed validator evidence".to_string(),
        evidence_refs: Vec::new(),
        occurred_at: None,
    };
    let draft = build_slashing_record(&request, &sc, NOW.to_string(), NOW.to_string());
    assert!(draft.slashing.is_none());
    assert!(!draft.correctness_assessment_accepted);
    assert!(draft.issues.iter().any(|issue| {
        issue.path == "$.correctnessAssessment" && issue.message.contains("missing evidence alone is not enough")
    }));
    let result = finish_slashing_build(draft, None, NOW.to_string());
    assert!(!result.verification.valid);
    assert!(result.slashing.is_none());
}

#[test]
fn correctness_assessment_needs_verified_receipt_failures_and_evidence() {
    assert!(slashing_correctness_assessment_is_actionable(&failed_correctness()));
    assert!(!slashing_correctness_assessment_is_actionable(&missing_correctness()));
    let mut unverified = failed_correctness();
    unverified.receipt_verified = false;
    assert!(!slashing_correctness_assessment_is_actionable(&unverified));
    let mut no_refs = failed_correctness();
    no_refs.validation_refs.clear();
    assert!(!slashing_correctness_assessment_is_actionable(&no_refs));
}

#[test]
fn settlement_event_edited_after_signing_no_longer_verifies() {
    let mut s = settlement();
    let content = settlement_content();
    assert!(verify_settlement_event(&s, &content, "t".to_string()).valid);
    s.amount = 2.0f64.to_bits();
    let changed = SignedContent {
        canonical_id: "settlement-2".to_string(),
        dev_signature: "dev-settlement-signature-v1:2".to_string(),
        identity_check: None,
    };
    let v = verify_settlement_event(&s, &changed, "t".to_string());
    assert!(!v.valid);
    assert!(v.issues.iter().any(|i| i.path == "$.signature"));
    assert!(v.issues.iter().any(|i| i.path == "$.settlementId"));
}

#[test]
fn settlement_is_sealed_only_by_its_payee() {
    let mut s = settlement();
    let payee = s.payee.clone();
    assert!(!seal_settlement_event(&mut s, "not-the-payee", "x".to_string(), "y".to_string()));
    assert_eq!(s.settlement_id, settlement().settlement_id);
    assert!(seal_settlement_event(&mut s, &payee, "settlement-9".to_string(), "sig".to_string()));
    assert_eq!(s.settlement_id, "settlement-9");
    assert_eq!(s.signature.as_deref(), Some("sig"));
    let e = settlement_event_envelope(&s);
    assert_eq!(e.context, "settlement-event");
    assert_eq!(e.signer, Some(payee));
    let r = settlement_resolution_envelope(&opened_resolution());
    assert_eq!(r.context, "settlement-resolution");
    assert_eq!(r.signer, Some(opened_resolution().resolved_by));
}
