//! Slashing records: the penalty of a runner whose disputed settlement is
//! backed by failed correctness checks. The rules for building one from a
//! request, and the verification of a slashing record.
use crate::clock::{parse_rfc3339, rfc3339_instant};
use crate::findings::{envelope_subject, EnvelopeSubject, append_texts, copy_opt, copy_texts, expected_signature, identity_view, lemma_issue_count, opt_view, push_text, Findings, Report, SignedContent};
use crate::ieee::{f64_gt, f64_le_zero, gt, le_zero};
use crate::kinds::{SettlementStatus, SlashingReasonKindV1};
use crate::settlement::{as_settlement_issues, settlement_event_report, settlement_issues_view, verify_settlement_event, DisputeFacts, SettlementEventV1, SettlementEventVerificationV1, SettlementVerificationIssueV1, SettlementView};
use crate::text::{blank, is_blank, looks_like_marketplace_ref, marketplace_ref, text_eq};
use crate::text_order::{same_texts, sort_dedup_texts, strictly_sorted};
use vstd::prelude::*;

verus! {

pub const SLASHING_RECORD_SCHEMA_VERSION: &'static str = "hivemind.slashing_record.v1";

pub const SLASHING_RECORD_VERIFICATION_SCHEMA_VERSION: &'static str =
    "hivemind.slashing_record_verification.v1";

pub const SLASHING_BUILD_REQUEST_SCHEMA_VERSION: &'static str =
    "hivemind.slashing_build_request.v1";

pub const SLASHING_BUILD_RESULT_SCHEMA_VERSION: &'static str = "hivemind.slashing_build_result.v1";

/// What slashing reads of a receipt correctness assessment: the receipt it
/// assessed, whether the receipt itself verified, the names of the
/// correctness methods that failed, and the validation evidence.
#[derive(Debug, Clone)]
pub struct CorrectnessFacts {
    pub receipt_id: String,
    pub receipt_verified: bool,
    pub failed_methods: Vec<String>,
    pub validation_refs: Vec<String>,
}

/// A request to slash the runner of a disputed settlement. `amount` is the
/// IEEE 754 bit pattern of the amount.
#[derive(Debug, Clone)]
pub struct SlashingBuildRequestV1 {
    pub schema_version: String,
    pub settlement: SettlementEventV1,
    pub dispute: DisputeFacts,
    pub correctness_assessment: CorrectnessFacts,
    pub slashed_by: String,
    pub amount: u64,
    pub currency: Option<String>,
    pub stake_ref: Option<String>,
    pub reason_kind: SlashingReasonKindV1,
    pub reason: String,
    pub evidence_refs: Vec<String>,
    pub occurred_at: Option<String>,
}

/// A slashing record. `amount` is the IEEE 754 bit pattern of the amount.
#[derive(Debug, Clone)]
pub struct SlashingRecordV1 {
    pub schema_version: String,
    pub slashing_id: String,
    pub settlement_id: String,
    pub dispute_id: String,
    pub receipt_id: String,
    pub job_id: Option<String>,
    pub runner_id: String,
    pub slashed_party: String,
    pub slashed_by: String,
    pub amount: u64,
    pub currency: String,
    pub stake_ref: Option<String>,
    pub reason_kind: SlashingReasonKindV1,
    pub reason: String,
    pub evidence_refs: Vec<String>,
    pub correctness_assessment_ref: Option<String>,
    pub failed_methods: Vec<String>,
    pub occurred_at: String,
    pub signature: Option<String>,
}

/// What the verification of a slashing record found.
#[derive(Debug, Clone)]
pub struct SlashingRecordVerificationV1 {
    pub schema_version: String,
    pub slashing_id: Option<String>,
    pub valid: bool,
    pub issues: Vec<SettlementVerificationIssueV1>,
    pub warnings: Vec<SettlementVerificationIssueV1>,
    pub expected_signature: Option<String>,
    pub verified_at: String,
}

/// The outcome of a slashing request before signing.
#[derive(Debug, Clone)]
pub struct SlashingBuildDraftV1 {
    pub issues: Vec<SettlementVerificationIssueV1>,
    pub warnings: Vec<SettlementVerificationIssueV1>,
    pub slashing: Option<SlashingRecordV1>,
    pub settlement_verification: SettlementEventVerificationV1,
    pub correctness_assessment_accepted: bool,
}

/// The result of a slashing request.
#[derive(Debug, Clone)]
pub struct SlashingBuildResultV1 {
    pub schema_version: String,
    pub slashing: Option<SlashingRecordV1>,
    pub verification: SlashingRecordVerificationV1,
    pub settlement_verification: SettlementEventVerificationV1,
    pub correctness_assessment_accepted: bool,
}

/// A slashing record as texts and values.
pub struct SlashingView {
    pub schema_version: Seq<char>,
    pub slashing_id: Seq<char>,
    pub settlement_id: Seq<char>,
    pub dispute_id: Seq<char>,
    pub receipt_id: Seq<char>,
    pub job_id: Option<Seq<char>>,
    pub runner_id: Seq<char>,
    pub slashed_party: Seq<char>,
    pub slashed_by: Seq<char>,
    pub amount: u64,
    pub currency: Seq<char>,
    pub stake_ref: Option<Seq<char>>,
    pub reason_kind: SlashingReasonKindV1,
    pub reason: Seq<char>,
    pub evidence_refs: Seq<Seq<char>>,
    pub correctness_assessment_ref: Option<Seq<char>>,
    pub failed_methods: Seq<Seq<char>>,
    pub occurred_at: Seq<char>,
    pub signature: Option<Seq<char>>,
}

impl View for SlashingRecordV1 {
    type V = SlashingView;

    open spec fn view(&self) -> SlashingView {
        SlashingView {
            schema_version: self.schema_version@,
            slashing_id: self.slashing_id@,
            settlement_id: self.settlement_id@,
            dispute_id: self.dispute_id@,
            receipt_id: self.receipt_id@,
            job_id: opt_view(self.job_id),
            runner_id: self.runner_id@,
            slashed_party: self.slashed_party@,
            slashed_by: self.slashed_by@,
            amount: self.amount,
            currency: self.currency@,
            stake_ref: opt_view(self.stake_ref),
            reason_kind: self.reason_kind,
            reason: self.reason@,
            evidence_refs: self.evidence_refs.deep_view(),
            correctness_assessment_ref: opt_view(self.correctness_assessment_ref),
            failed_methods: self.failed_methods.deep_view(),
            occurred_at: self.occurred_at@,
            signature: opt_view(self.signature),
        }
    }
}

// ---------------------------------------------------------------------------
// Source consistency

/// The rules that tie a slashing to the settlement, the dispute and the
/// correctness assessment it rests on.
pub open spec fn slashing_source_report(
    r: Report,
    s: SettlementView,
    d: DisputeFacts,
    a: CorrectnessFacts,
) -> Report {
    let r = r.issue_if(
        d.receipt_id@ != s.receipt_id,
        "$.dispute.receiptId"@,
        "Dispute receiptId must match settlement receiptId"@,
    );
    let r = r.issue_if(
        d.request_id@ != s.request_id,
        "$.dispute.requestId"@,
        "Dispute requestId must match settlement requestId"@,
    );
    let r = r.issue_if(
        d.package_ref@ != s.package_ref,
        "$.dispute.packageRef"@,
        "Dispute packageRef must match settlement packageRef"@,
    );
    let r = r.issue_if(
        d.runner_id@ != s.runner_id,
        "$.dispute.runnerId"@,
        "Dispute runnerId must match settlement runnerId"@,
    );
    r.issue_if(
        a.receipt_id@ != s.receipt_id,
        "$.correctnessAssessment.receiptId"@,
        "Correctness assessment receiptId must match settlement receiptId"@,
    )
}

/// Applies the rules that tie a slashing to its settlement, dispute and
/// correctness assessment.
pub fn verify_slashing_source_matches(
    settlement: &SettlementEventV1,
    dispute: &DisputeFacts,
    assessment: &CorrectnessFacts,
    f: &mut Findings,
)
    ensures
        final(f)@ == slashing_source_report(old(f)@, settlement@, *dispute, *assessment),
{
    f.issue_if(
        !text_eq(dispute.receipt_id.as_str(), settlement.receipt_id.as_str()),
        "$.dispute.receiptId",
        "Dispute receiptId must match settlement receiptId",
    );
    f.issue_if(
        !text_eq(dispute.request_id.as_str(), settlement.request_id.as_str()),
        "$.dispute.requestId",
        "Dispute requestId must match settlement requestId",
    );
    f.issue_if(
        !text_eq(dispute.package_ref.as_str(), settlement.package_ref.as_str()),
        "$.dispute.packageRef",
        "Dispute packageRef must match settlement packageRef",
    );
    f.issue_if(
        !text_eq(dispute.runner_id.as_str(), settlement.runner_id.as_str()),
        "$.dispute.runnerId",
        "Dispute runnerId must match settlement runnerId",
    );
    f.issue_if(
        !text_eq(assessment.receipt_id.as_str(), settlement.receipt_id.as_str()),
        "$.correctnessAssessment.receiptId",
        "Correctness assessment receiptId must match settlement receiptId",
    );
}

/// An assessment can back a slashing when the receipt verified and there are
/// both failed correctness methods and validation evidence: missing evidence
/// alone is not enough.
pub open spec fn actionable(a: CorrectnessFacts) -> bool {
    a.receipt_verified && a.failed_methods@.len() > 0 && a.validation_refs@.len() > 0
}

pub fn slashing_correctness_assessment_is_actionable(assessment: &CorrectnessFacts) -> (r: bool)
    ensures
        r == actionable(*assessment),
{
    assessment.receipt_verified && assessment.failed_methods.len() > 0
        && assessment.validation_refs.len() > 0
}

// ---------------------------------------------------------------------------
// Slashing record verification

pub open spec fn slashing_required_report(r: Report, v: SlashingView) -> Report {
    let r = r.issue_if(blank(v.settlement_id), "$.settlementId"@, "Settlement id is required"@);
    let r = r.issue_if(blank(v.dispute_id), "$.disputeId"@, "Dispute id is required"@);
    let r = r.issue_if(blank(v.receipt_id), "$.receiptId"@, "Receipt id is required"@);
    let r = r.issue_if(blank(v.runner_id), "$.runnerId"@, "Runner id is required"@);
    let r = r.issue_if(blank(v.slashed_party), "$.slashedParty"@, "Slashed party is required"@);
    let r = r.issue_if(blank(v.slashed_by), "$.slashedBy"@, "Slasher identity is required"@);
    r.issue_if(blank(v.currency), "$.currency"@, "Currency is required"@)
}

/// The findings of the slashing record rules, in the order they are applied.
pub open spec fn slashing_record_report(v: SlashingView, c: SignedContent) -> Report {
    let r = Report::empty();
    let r = r.issue_if(
        v.schema_version != SLASHING_RECORD_SCHEMA_VERSION@,
        "$.schemaVersion"@,
        "Expected schemaVersion to be hivemind.slashing_record.v1"@,
    );
    let r = r.record_id(
        v.slashing_id,
        v.signature,
        c.canonical_id@,
        "$.slashingId"@,
        "Slashing id is required"@,
        "Slashing id does not match canonical signed content"@,
    );
    let r = slashing_required_report(r, v);
    let r = r.issue_if(le_zero(v.amount), "$.amount"@, "Slashing amount must be greater than zero"@);
    let r = r.warn_if(blank(v.reason), "$.reason"@, "Slashing reason is empty"@);
    let r = r.issue_if(
        v.evidence_refs.len() == 0,
        "$.evidenceRefs"@,
        "Slashing requires signed dispute, settlement, and validator evidence refs"@,
    );
    let r = r.references(
        v.evidence_refs,
        "$.evidenceRefs["@,
        "]"@,
        "Evidence reference must not be empty"@,
        "Evidence reference is not a recognized storage or audit reference"@,
    );
    let r = r.issue_if(
        v.failed_methods.len() == 0,
        "$.failedMethods"@,
        "Slashing record must include failed correctness methods"@,
    );
    let r = match v.correctness_assessment_ref {
        Some(x) => if blank(x) {
            r.issue_if(
                true,
                "$.correctnessAssessmentRef"@,
                "Correctness assessment ref must not be empty when present"@,
            )
        } else {
            r.warn_if(
                !marketplace_ref(x),
                "$.correctnessAssessmentRef"@,
                "Correctness assessment ref is not a recognized storage or audit reference"@,
            )
        },
        None => r.warn_if(
            true,
            "$.correctnessAssessmentRef"@,
            "Slashing record has no correctnessAssessmentRef"@,
        ),
    };
    let r = r.warn_if(
        v.stake_ref matches Some(x) && !marketplace_ref(x),
        "$.stakeRef"@,
        "Stake ref is not a recognized storage or audit reference"@,
    );
    let r = r.issue_if(
        rfc3339_instant(v.occurred_at) is None,
        "$.occurredAt"@,
        "Slashing timestamp must be RFC3339"@,
    );
    r.signature(
        v.signature,
        c.dev_signature@,
        identity_view(c.identity_check),
        "Slashing signature does not match canonical dev signature or Ed25519 identity envelope"@,
        "Slashing record is unsigned; verify slashingId through a trusted source"@,
    )
}

fn slashing_required(f: &mut Findings, v: &SlashingRecordV1)
    ensures
        final(f)@ == slashing_required_report(old(f)@, v@),
{
    f.required(v.settlement_id.as_str(), "$.settlementId", "Settlement id is required");
    f.required(v.dispute_id.as_str(), "$.disputeId", "Dispute id is required");
    f.required(v.receipt_id.as_str(), "$.receiptId", "Receipt id is required");
    f.required(v.runner_id.as_str(), "$.runnerId", "Runner id is required");
    f.required(v.slashed_party.as_str(), "$.slashedParty", "Slashed party is required");
    f.required(v.slashed_by.as_str(), "$.slashedBy", "Slasher identity is required");
    f.required(v.currency.as_str(), "$.currency", "Currency is required");
}

/// Checks a slashing record against the slashing rules. `content` carries
/// the canonical id and development signature of the record's signing value
/// and, for an identity-enveloped signature, the envelope check (signed by
/// the slasher); `verified_at` is the time of the check.
pub fn verify_slashing_record(
    record: &SlashingRecordV1,
    content: &SignedContent,
    verified_at: String,
) -> (r: SlashingRecordVerificationV1)
    ensures
        r.schema_version@ == SLASHING_RECORD_VERIFICATION_SCHEMA_VERSION@,
        r.slashing_id matches Some(id) && id@ == record.slashing_id@,
        settlement_issues_view(r.issues@) == slashing_record_report(record@, *content).issues,
        settlement_issues_view(r.warnings@) == slashing_record_report(record@, *content).warnings,
        r.valid == slashing_record_report(record@, *content).valid(),
        r.expected_signature matches Some(e) && e@ == expected_signature(
            opt_view(record.signature),
            content.dev_signature@,
            identity_view(content.identity_check),
        ),
        r.verified_at@ == verified_at@,
{
    let v = record;
    let mut f = Findings::new();
    f.issue_if(
        !text_eq(v.schema_version.as_str(), SLASHING_RECORD_SCHEMA_VERSION),
        "$.schemaVersion",
        "Expected schemaVersion to be hivemind.slashing_record.v1",
    );
    f.record_id(
        v.slashing_id.as_str(),
        &v.signature,
        content.canonical_id.as_str(),
        "$.slashingId",
        "Slashing id is required",
        "Slashing id does not match canonical signed content",
    );
    slashing_required(&mut f, v);
    f.issue_if(f64_le_zero(v.amount), "$.amount", "Slashing amount must be greater than zero");
    let reason_blank = is_blank(v.reason.as_str());
    f.warn_if(reason_blank, "$.reason", "Slashing reason is empty");
    f.issue_if(
        v.evidence_refs.len() == 0,
        "$.evidenceRefs",
        "Slashing requires signed dispute, settlement, and validator evidence refs",
    );
    f.references(
        &v.evidence_refs,
        "$.evidenceRefs[",
        "]",
        "Evidence reference must not be empty",
        "Evidence reference is not a recognized storage or audit reference",
    );
    f.issue_if(
        v.failed_methods.len() == 0,
        "$.failedMethods",
        "Slashing record must include failed correctness methods",
    );
    match &v.correctness_assessment_ref {
        Some(x) => {
            if is_blank(x.as_str()) {
                f.issue_if(
                    true,
                    "$.correctnessAssessmentRef",
                    "Correctness assessment ref must not be empty when present",
                );
            } else {
                f.warn_if(
                    !looks_like_marketplace_ref(x.as_str()),
                    "$.correctnessAssessmentRef",
                    "Correctness assessment ref is not a recognized storage or audit reference",
                );
            }
        },
        None => f.warn_if(
            true,
            "$.correctnessAssessmentRef",
            "Slashing record has no correctnessAssessmentRef",
        ),
    }
    let odd_stake = match &v.stake_ref {
        Some(x) => !looks_like_marketplace_ref(x.as_str()),
        None => false,
    };
    f.warn_if(odd_stake, "$.stakeRef", "Stake ref is not a recognized storage or audit reference");
    f.issue_if(
        parse_rfc3339(v.occurred_at.as_str()).is_none(),
        "$.occurredAt",
        "Slashing timestamp must be RFC3339",
    );
    let expected = f.signature(
        &v.signature,
        content,
        "Slashing signature does not match canonical dev signature or Ed25519 identity envelope",
        "Slashing record is unsigned; verify slashingId through a trusted source",
    );
    let valid = f.is_valid();
    SlashingRecordVerificationV1 {
        schema_version: String::from_str(SLASHING_RECORD_VERIFICATION_SCHEMA_VERSION),
        slashing_id: Some(v.slashing_id.clone()),
        valid,
        issues: as_settlement_issues(f.issues),
        warnings: as_settlement_issues(f.warnings),
        expected_signature: Some(expected),
        verified_at,
    }
}

// ---------------------------------------------------------------------------
// Building a slashing record

/// The currency of a slashing: the requested one, else the settlement's.
pub open spec fn slashing_currency(req: SlashingBuildRequestV1) -> Seq<char> {
    match req.currency {
        Some(c) => c@,
        None => req.settlement.currency@,
    }
}

/// The findings of a slashing request, in the order the rules are applied;
/// `settlement_valid` is the outcome of checking the cited settlement.
pub open spec fn slashing_build_report(req: SlashingBuildRequestV1, settlement_valid: bool) -> Report {
    let s = req.settlement@;
    let r = Report::empty();
    let r = r.issue_if(
        req.schema_version@ != SLASHING_BUILD_REQUEST_SCHEMA_VERSION@,
        "$.schemaVersion"@,
        "Expected schemaVersion to be hivemind.slashing_build_request.v1"@,
    );
    let r = r.issue_if(
        !settlement_valid,
        "$.settlement"@,
        "Settlement must verify before a slashing record can be created"@,
    );
    let r = r.issue_if(
        !req.dispute.verified,
        "$.dispute"@,
        "Dispute evidence must verify before a slashing record can be created"@,
    );
    let r = r.issue_if(
        s.status != SettlementStatus::Disputed,
        "$.settlement.status"@,
        "Slashing requires an open disputed settlement as the appeal path"@,
    );
    let r = slashing_source_report(r, s, req.dispute, req.correctness_assessment);
    let r = r.issue_if(
        !actionable(req.correctness_assessment),
        "$.correctnessAssessment"@,
        "Slashing requires valid receipt verification plus failed validator/proof evidence; missing evidence alone is not enough"@,
    );
    let r = r.issue_if(blank(req.slashed_by@), "$.slashedBy"@, "Slasher identity is required"@);
    let r = r.issue_if(
        le_zero(req.amount),
        "$.amount"@,
        "Slashing amount must be greater than zero"@,
    );
    let r = r.warn_if(
        gt(req.amount, s.amount),
        "$.amount"@,
        "Slashing amount is greater than the original settlement amount; confirm stake policy allows this"@,
    );
    let r = r.warn_if(blank(req.reason@), "$.reason"@, "Slashing reason is empty"@);
    let currency = slashing_currency(req);
    let r = r.issue_if(blank(currency), "$.currency"@, "Currency is required"@);
    let r = r.warn_if(
        currency != s.currency,
        "$.currency"@,
        "Slashing currency differs from settlement currency"@,
    );
    match req.stake_ref {
        Some(x) => if blank(x@) {
            r.issue_if(true, "$.stakeRef"@, "Stake ref must not be empty when present"@)
        } else {
            r.warn_if(
                !marketplace_ref(x@),
                "$.stakeRef"@,
                "Stake ref is not a recognized storage or audit reference"@,
            )
        },
        None => r.warn_if(
            true,
            "$.stakeRef"@,
            "Slashing record has no stakeRef; treat as policy/audit evidence, not collateral movement"@,
        ),
    }
}

/// The evidence a slashing record gathers, before sorting: the request's own
/// references, the settlement, the dispute, the correctness assessment, the
/// dispute's evidence and the assessment's validation evidence.
pub open spec fn slashing_evidence_candidates(req: SlashingBuildRequestV1) -> Seq<Seq<char>> {
    req.evidence_refs.deep_view() + seq![
        "local://marketplace/settlement/"@ + req.settlement.settlement_id@,
        "local://dispute/"@ + req.dispute.dispute_id@,
        "local://receipt-correctness/"@ + req.correctness_assessment.receipt_id@,
    ] + req.dispute.evidence_refs.deep_view() + req.correctness_assessment.validation_refs.deep_view()
}

/// The unsigned slashing record a passing request produces at `now`: the
/// settlement's payee is the slashed party.
pub open spec fn slashing_draft(v: SlashingView, req: SlashingBuildRequestV1, now: Seq<char>) -> bool {
    let s = req.settlement@;
    &&& v.schema_version == SLASHING_RECORD_SCHEMA_VERSION@
    &&& v.slashing_id == Seq::<char>::empty()
    &&& v.settlement_id == s.settlement_id
    &&& v.dispute_id == req.dispute.dispute_id@
    &&& v.receipt_id == s.receipt_id
    &&& v.job_id == s.job_id
    &&& v.runner_id == s.runner_id
    &&& v.slashed_party == s.payee
    &&& v.slashed_by == req.slashed_by@
    &&& v.amount == req.amount
    &&& v.currency == slashing_currency(req)
    &&& v.stake_ref == opt_view(req.stake_ref)
    &&& v.reason_kind == req.reason_kind
    &&& v.reason == req.reason@
    &&& strictly_sorted(v.evidence_refs)
    &&& same_texts(v.evidence_refs, slashing_evidence_candidates(req))
    &&& v.correctness_assessment_ref == Some(
        "local://receipt-correctness/"@ + req.correctness_assessment.receipt_id@,
    )
    &&& strictly_sorted(v.failed_methods)
    &&& same_texts(v.failed_methods, req.correctness_assessment.failed_methods.deep_view())
    &&& v.occurred_at == match req.occurred_at {
        Some(t) => t@,
        None => now,
    }
    &&& v.signature is None
}

fn slashing_build_findings(req: &SlashingBuildRequestV1, settlement_valid: bool) -> (f: Findings)
    ensures
        f@ == slashing_build_report(*req, settlement_valid),
{
    let s = &req.settlement;
    let mut f = Findings::new();
    f.issue_if(
        !text_eq(req.schema_version.as_str(), SLASHING_BUILD_REQUEST_SCHEMA_VERSION),
        "$.schemaVersion",
        "Expected schemaVersion to be hivemind.slashing_build_request.v1",
    );
    f.issue_if(
        !settlement_valid,
        "$.settlement",
        "Settlement must verify before a slashing record can be created",
    );
    f.issue_if(
        !req.dispute.verified,
        "$.dispute",
        "Dispute evidence must verify before a slashing record can be created",
    );
    f.issue_if(
        s.status != SettlementStatus::Disputed,
        "$.settlement.status",
        "Slashing requires an open disputed settlement as the appeal path",
    );
    verify_slashing_source_matches(s, &req.dispute, &req.correctness_assessment, &mut f);
    f.issue_if(
        !slashing_correctness_assessment_is_actionable(&req.correctness_assessment),
        "$.correctnessAssessment",
        "Slashing requires valid receipt verification plus failed validator/proof evidence; missing evidence alone is not enough",
    );
    f.required(req.slashed_by.as_str(), "$.slashedBy", "Slasher identity is required");
    f.issue_if(f64_le_zero(req.amount), "$.amount", "Slashing amount must be greater than zero");
    f.warn_if(
        f64_gt(req.amount, s.amount),
        "$.amount",
        "Slashing amount is greater than the original settlement amount; confirm stake policy allows this",
    );
    let reason_blank = is_blank(req.reason.as_str());
    f.warn_if(reason_blank, "$.reason", "Slashing reason is empty");
    let currency = match &req.currency {
        Some(c) => c.as_str(),
        None => s.currency.as_str(),
    };
    f.required(currency, "$.currency", "Currency is required");
    f.warn_if(
        !text_eq(currency, s.currency.as_str()),
        "$.currency",
        "Slashing currency differs from settlement currency",
    );
    match &req.stake_ref {
        Some(x) => {
            if is_blank(x.as_str()) {
                f.issue_if(true, "$.stakeRef", "Stake ref must not be empty when present");
            } else {
                f.warn_if(
                    !looks_like_marketplace_ref(x.as_str()),
                    "$.stakeRef",
                    "Stake ref is not a recognized storage or audit reference",
                );
            }
        },
        None => f.warn_if(
            true,
            "$.stakeRef",
            "Slashing record has no stakeRef; treat as policy/audit evidence, not collateral movement",
        ),
    }
    f
}

/// The evidence references of a slashing, gathered in the order the record
/// lists their sources (not yet sorted).
pub fn slashing_evidence_refs(req: &SlashingBuildRequestV1) -> (r: Vec<String>)
    ensures
        r.deep_view() == slashing_evidence_candidates(*req),
{
    let mut refs = copy_texts(&req.evidence_refs);
    let mut a = String::from_str("local://marketplace/settlement/");
    a.append(req.settlement.settlement_id.as_str());
    push_text(&mut refs, a.as_str());
    let mut b = String::from_str("local://dispute/");
    b.append(req.dispute.dispute_id.as_str());
    push_text(&mut refs, b.as_str());
    let mut c = String::from_str("local://receipt-correctness/");
    c.append(req.correctness_assessment.receipt_id.as_str());
    push_text(&mut refs, c.as_str());
    append_texts(&mut refs, &req.dispute.evidence_refs);
    append_texts(&mut refs, &req.correctness_assessment.validation_refs);
    assert(refs.deep_view() =~= slashing_evidence_candidates(*req));
    refs
}

fn slashing_record_draft(req: &SlashingBuildRequestV1, now: &str) -> (r: SlashingRecordV1)
    ensures
        slashing_draft(r@, *req, now@),
{
    let s = &req.settlement;
    let gathered = slashing_evidence_refs(req);
    let evidence_refs = sort_dedup_texts(&gathered);
    let failed_methods = sort_dedup_texts(&req.correctness_assessment.failed_methods);
    let currency = match &req.currency {
        Some(c) => c.clone(),
        None => s.currency.clone(),
    };
    let mut assessment_ref = String::from_str("local://receipt-correctness/");
    assessment_ref.append(req.correctness_assessment.receipt_id.as_str());
    let occurred_at = match &req.occurred_at {
        Some(t) => t.clone(),
        None => String::from_str(now),
    };
    SlashingRecordV1 {
        schema_version: String::from_str(SLASHING_RECORD_SCHEMA_VERSION),
        slashing_id: String::new(),
        settlement_id: s.settlement_id.clone(),
        dispute_id: req.dispute.dispute_id.clone(),
        receipt_id: s.receipt_id.clone(),
        job_id: copy_opt(&s.job_id),
        runner_id: s.runner_id.clone(),
        slashed_party: s.payee.clone(),
        slashed_by: req.slashed_by.clone(),
        amount: req.amount,
        currency,
        stake_ref: copy_opt(&req.stake_ref),
        reason_kind: req.reason_kind,
        reason: req.reason.clone(),
        evidence_refs,
        correctness_assessment_ref: Some(assessment_ref),
        failed_methods,
        occurred_at,
        signature: None,
    }
}

/// Decides a slashing request: the cited settlement is checked (with its
/// signed-content facts), the slashing is tied to the settlement, the dispute
/// and the correctness assessment, and, when nothing is at issue, the
/// slashing record to be signed is drafted at `now`.
pub fn build_slashing_record(
    request: &SlashingBuildRequestV1,
    settlement_content: &SignedContent,
    now: String,
    verified_at: String,
) -> (r: SlashingBuildDraftV1)
    ensures
        r.settlement_verification.valid == settlement_event_report(
            request.settlement,
            *settlement_content,
        ).valid(),
        r.correctness_assessment_accepted == actionable(request.correctness_assessment),
        settlement_issues_view(r.issues@) == slashing_build_report(
            *request,
            r.settlement_verification.valid,
        ).issues,
        settlement_issues_view(r.warnings@) == slashing_build_report(
            *request,
            r.settlement_verification.valid,
        ).warnings,
        r.slashing is Some <==> r.issues.len() == 0,
        r.slashing matches Some(rec) ==> slashing_draft(rec@, *request, now@),
{
    let sv = verify_settlement_event(&request.settlement, settlement_content, verified_at);
    let f = slashing_build_findings(request, sv.valid);
    let accepted = slashing_correctness_assessment_is_actionable(&request.correctness_assessment);
    let slashing = if f.is_valid() {
        Some(slashing_record_draft(request, now.as_str()))
    } else {
        None
    };
    SlashingBuildDraftV1 {
        issues: as_settlement_issues(f.issues),
        warnings: as_settlement_issues(f.warnings),
        slashing,
        settlement_verification: sv,
        correctness_assessment_accepted: accepted,
    }
}

/// Completes a slashing request once the drafted record was signed: with a
/// signed record and its verification, the verification carries the
/// request's warnings after its own; without one, the request's findings
/// make a failed verification at `verified_at`.
pub fn finish_slashing_build(
    draft: SlashingBuildDraftV1,
    signed: Option<(SlashingRecordV1, SlashingRecordVerificationV1)>,
    verified_at: String,
) -> (r: SlashingBuildResultV1)
    ensures
        r.schema_version@ == SLASHING_BUILD_RESULT_SCHEMA_VERSION@,
        r.settlement_verification == draft.settlement_verification,
        r.correctness_assessment_accepted == draft.correctness_assessment_accepted,
        match signed {
            Some((rec, v)) => {
                &&& r.slashing matches Some(x) && x@ == rec@
                &&& r.verification.schema_version@ == v.schema_version@
                &&& opt_view(r.verification.slashing_id) == opt_view(v.slashing_id)
                &&& settlement_issues_view(r.verification.issues@) == settlement_issues_view(v.issues@)
                &&& settlement_issues_view(r.verification.warnings@) == settlement_issues_view(v.warnings@)
                    + settlement_issues_view(draft.warnings@)
                &&& r.verification.valid == (v.valid && v.issues.len() == 0)
                &&& opt_view(r.verification.expected_signature) == opt_view(v.expected_signature)
                &&& r.verification.verified_at@ == v.verified_at@
            },
            None => {
                &&& r.slashing is None
                &&& r.verification.schema_version@ == SLASHING_RECORD_VERIFICATION_SCHEMA_VERSION@
                &&& r.verification.slashing_id is None
                &&& !r.verification.valid
                &&& settlement_issues_view(r.verification.issues@) == settlement_issues_view(draft.issues@)
                &&& settlement_issues_view(r.verification.warnings@) == settlement_issues_view(draft.warnings@)
                &&& r.verification.expected_signature is None
                &&& r.verification.verified_at@ == verified_at@
            },
        },
{
    let SlashingBuildDraftV1 {
        issues,
        warnings,
        slashing: _,
        settlement_verification,
        correctness_assessment_accepted,
    } = draft;
    match signed {
        Some((rec, v)) => {
            let SlashingRecordVerificationV1 {
                schema_version,
                slashing_id,
                valid,
                issues: record_issues,
                warnings: record_warnings,
                expected_signature,
                verified_at: record_verified_at,
            } = v;
            let mut all_warnings = record_warnings;
            let mut extra = warnings;
            let ghost w0 = settlement_issues_view(all_warnings@);
            let ghost w1 = settlement_issues_view(extra@);
            all_warnings.append(&mut extra);
            assert(settlement_issues_view(all_warnings@) =~= w0 + w1);
            let valid = valid && record_issues.len() == 0;
            SlashingBuildResultV1 {
                schema_version: String::from_str(SLASHING_BUILD_RESULT_SCHEMA_VERSION),
                slashing: Some(rec),
                verification: SlashingRecordVerificationV1 {
                    schema_version,
                    slashing_id,
                    valid,
                    issues: record_issues,
                    warnings: all_warnings,
                    expected_signature,
                    verified_at: record_verified_at,
                },
                settlement_verification,
                correctness_assessment_accepted,
            }
        },
        None => SlashingBuildResultV1 {
            schema_version: String::from_str(SLASHING_BUILD_RESULT_SCHEMA_VERSION),
            slashing: None,
            verification: SlashingRecordVerificationV1 {
                schema_version: String::from_str(SLASHING_RECORD_VERIFICATION_SCHEMA_VERSION),
                slashing_id: None,
                valid: false,
                issues,
                warnings,
                expected_signature: None,
                verified_at,
            },
            settlement_verification,
            correctness_assessment_accepted,
        },
    }
}

/// A slashing is only drafted for a settlement that verified and is under an
/// open dispute, on verified dispute evidence about the same receipt,
/// request, package and runner, backed by an actionable correctness
/// assessment of that receipt, by a named slasher, for a positive amount.
#[verifier::rlimit(80)]
pub proof fn lemma_slashing_build_preconditions(req: SlashingBuildRequestV1, settlement_valid: bool)
    requires
        slashing_build_report(req, settlement_valid).valid(),
    ensures
        settlement_valid,
        req.dispute.verified,
        req.settlement.status == SettlementStatus::Disputed,
        req.dispute.receipt_id@ == req.settlement.receipt_id@,
        req.dispute.request_id@ == req.settlement.request_id@,
        req.dispute.package_ref@ == req.settlement.package_ref@,
        req.dispute.runner_id@ == req.settlement.runner_id@,
        req.correctness_assessment.receipt_id@ == req.settlement.receipt_id@,
        actionable(req.correctness_assessment),
        !blank(req.slashed_by@),
        !le_zero(req.amount),
        !blank(slashing_currency(req)),
{
    let s = req.settlement@;
    let d = req.dispute;
    let a = req.correctness_assessment;
    let r0 = Report::empty();
    let c1 = req.schema_version@ != SLASHING_BUILD_REQUEST_SCHEMA_VERSION@;
    let r1 = r0.issue_if(c1, "$.schemaVersion"@, "Expected schemaVersion to be hivemind.slashing_build_request.v1"@);
    lemma_issue_count(r0, c1, "$.schemaVersion"@, "Expected schemaVersion to be hivemind.slashing_build_request.v1"@);
    let r2 = r1.issue_if(!settlement_valid, "$.settlement"@, "Settlement must verify before a slashing record can be created"@);
    lemma_issue_count(r1, !settlement_valid, "$.settlement"@, "Settlement must verify before a slashing record can be created"@);
    let r3 = r2.issue_if(!d.verified, "$.dispute"@, "Dispute evidence must verify before a slashing record can be created"@);
    lemma_issue_count(r2, !d.verified, "$.dispute"@, "Dispute evidence must verify before a slashing record can be created"@);
    let c4 = s.status != SettlementStatus::Disputed;
    let r4 = r3.issue_if(c4, "$.settlement.status"@, "Slashing requires an open disputed settlement as the appeal path"@);
    lemma_issue_count(r3, c4, "$.settlement.status"@, "Slashing requires an open disputed settlement as the appeal path"@);
    let c5 = d.receipt_id@ != s.receipt_id;
    let r5 = r4.issue_if(c5, "$.dispute.receiptId"@, "Dispute receiptId must match settlement receiptId"@);
    lemma_issue_count(r4, c5, "$.dispute.receiptId"@, "Dispute receiptId must match settlement receiptId"@);
    let c6 = d.request_id@ != s.request_id;
    let r6 = r5.issue_if(c6, "$.dispute.requestId"@, "Dispute requestId must match settlement requestId"@);
    lemma_issue_count(r5, c6, "$.dispute.requestId"@, "Dispute requestId must match settlement requestId"@);
    let c7 = d.package_ref@ != s.package_ref;
    let r7 = r6.issue_if(c7, "$.dispute.packageRef"@, "Dispute packageRef must match settlement packageRef"@);
    lemma_issue_count(r6, c7, "$.dispute.packageRef"@, "Dispute packageRef must match settlement packageRef"@);
    let c8 = d.runner_id@ != s.runner_id;
    let r8 = r7.issue_if(c8, "$.dispute.runnerId"@, "Dispute runnerId must match settlement runnerId"@);
    lemma_issue_count(r7, c8, "$.dispute.runnerId"@, "Dispute runnerId must match settlement runnerId"@);
    let c9 = a.receipt_id@ != s.receipt_id;
    let r9 = r8.issue_if(c9, "$.correctnessAssessment.receiptId"@, "Correctness assessment receiptId must match settlement receiptId"@);
    lemma_issue_count(r8, c9, "$.correctnessAssessment.receiptId"@, "Correctness assessment receiptId must match settlement receiptId"@);
    assert(r9 == slashing_source_report(r4, s, d, a));
    let c10 = !actionable(a);
    let m10 = "Slashing requires valid receipt verification plus failed validator/proof evidence; missing evidence alone is not enough"@;
    let r10 = r9.issue_if(c10, "$.correctnessAssessment"@, m10);
    lemma_issue_count(r9, c10, "$.correctnessAssessment"@, m10);
    let c11 = blank(req.slashed_by@);
    let r11 = r10.issue_if(c11, "$.slashedBy"@, "Slasher identity is required"@);
    lemma_issue_count(r10, c11, "$.slashedBy"@, "Slasher identity is required"@);
    let c12 = le_zero(req.amount);
    let r12 = r11.issue_if(c12, "$.amount"@, "Slashing amount must be greater than zero"@);
    lemma_issue_count(r11, c12, "$.amount"@, "Slashing amount must be greater than zero"@);
    let c13 = gt(req.amount, s.amount);
    let m13 = "Slashing amount is greater than the original settlement amount; confirm stake policy allows this"@;
    let r13 = r12.warn_if(c13, "$.amount"@, m13);
    lemma_issue_count(r12, c13, "$.amount"@, m13);
    let c14 = blank(req.reason@);
    let r14 = r13.warn_if(c14, "$.reason"@, "Slashing reason is empty"@);
    lemma_issue_count(r13, c14, "$.reason"@, "Slashing reason is empty"@);
    let currency = slashing_currency(req);
    let c15 = blank(currency);
    let r15 = r14.issue_if(c15, "$.currency"@, "Currency is required"@);
    lemma_issue_count(r14, c15, "$.currency"@, "Currency is required"@);
    let c16 = currency != s.currency;
    let r16 = r15.warn_if(c16, "$.currency"@, "Slashing currency differs from settlement currency"@);
    lemma_issue_count(r15, c16, "$.currency"@, "Slashing currency differs from settlement currency"@);
    match req.stake_ref {
        Some(x) => {
            if blank(x@) {
                lemma_issue_count(r16, true, "$.stakeRef"@, "Stake ref must not be empty when present"@);
            } else {
                lemma_issue_count(r16, !marketplace_ref(x@), "$.stakeRef"@, "Stake ref is not a recognized storage or audit reference"@);
            }
        },
        None => {
            lemma_issue_count(r16, true, "$.stakeRef"@, "Slashing record has no stakeRef; treat as policy/audit evidence, not collateral movement"@);
        },
    }
}


/// The identity envelope of a SlashingRecordV1's signature: context `slashing-record`, signed by
/// whoever slashed.
pub fn slashing_record_envelope(record: &SlashingRecordV1) -> (r: EnvelopeSubject)
    ensures
        r.context@ == "slashing-record"@,
        opt_view(r.signer) == Some(record.slashed_by@),
{
    envelope_subject("slashing-record", record.slashed_by.as_str())
}


/// Puts on a SlashingRecordV1 a signature that `subject` made over its signed content,
/// with `slashing_id` the canonical id of that content: refused, leaving the record
/// unchanged, when `subject` is not the record's slasher.
pub fn seal_slashing_record(record: &mut SlashingRecordV1, subject: &str, slashing_id: String, signature: String) -> (ok: bool)
    ensures
        ok == (subject@ == old(record).slashed_by@),
        ok ==> *final(record) == (SlashingRecordV1 { slashing_id, signature: Some(signature), ..*old(record) }),
        !ok ==> *final(record) == *old(record),
{
    if !text_eq(subject, record.slashed_by.as_str()) {
        return false;
    }
    record.slashing_id = slashing_id;
    record.signature = Some(signature);
    true
}


/// A drafted slashing record cites all of the request's evidence: the
/// request's own references, the settlement, the dispute, the correctness
/// assessment, every evidence reference of the dispute and every validation
/// reference of the correctness assessment.
pub proof fn lemma_slashing_draft_cites_all_evidence(v: SlashingView, req: SlashingBuildRequestV1, now: Seq<char>)
    requires
        slashing_draft(v, req, now),
    ensures
        forall|k: int|
            0 <= k < req.correctness_assessment.validation_refs.len() ==> v.evidence_refs.contains(
                #[trigger] req.correctness_assessment.validation_refs@[k]@,
            ),
        forall|k: int|
            0 <= k < req.dispute.evidence_refs.len() ==> v.evidence_refs.contains(
                #[trigger] req.dispute.evidence_refs@[k]@,
            ),
        forall|k: int|
            0 <= k < req.evidence_refs.len() ==> v.evidence_refs.contains(#[trigger] req.evidence_refs@[k]@),
        v.evidence_refs.contains("local://marketplace/settlement/"@ + req.settlement.settlement_id@),
        v.evidence_refs.contains("local://dispute/"@ + req.dispute.dispute_id@),
        v.evidence_refs.contains("local://receipt-correctness/"@ + req.correctness_assessment.receipt_id@),
{
    let c = slashing_evidence_candidates(req);
    let a = req.evidence_refs.deep_view();
    let d = req.dispute.evidence_refs.deep_view();
    let w = req.correctness_assessment.validation_refs.deep_view();
    let m: int = a.len() as int;
    let n: int = m + 3;
    assert forall|k: int| 0 <= k < w.len() implies v.evidence_refs.contains(
        #[trigger] req.correctness_assessment.validation_refs@[k]@,
    ) by {
        assert(c[n + d.len() + k] == w[k]);
        assert(c.contains(w[k]));
    }
    assert forall|k: int| 0 <= k < d.len() implies v.evidence_refs.contains(
        #[trigger] req.dispute.evidence_refs@[k]@,
    ) by {
        assert(c[n + k] == d[k]);
        assert(c.contains(d[k]));
    }
    assert forall|k: int| 0 <= k < a.len() implies v.evidence_refs.contains(#[trigger] req.evidence_refs@[k]@) by {
        assert(c[k] == a[k]);
        assert(c.contains(a[k]));
    }
    assert(c[m] == "local://marketplace/settlement/"@ + req.settlement.settlement_id@);
    assert(c[m + 1] == "local://dispute/"@ + req.dispute.dispute_id@);
    assert(c[m + 2] == "local://receipt-correctness/"@ + req.correctness_assessment.receipt_id@);
}

} // verus!
