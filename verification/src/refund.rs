//! Refund records: the rules that tie a refund to a refunded settlement and
//! the resolution that refunded it, the building of a refund record from a
//! request, and the verification of a refund record.
use crate::clock::{parse_rfc3339, rfc3339_instant};
use crate::findings::{envelope_subject, EnvelopeSubject, lemma_issue_count, append_texts, copy_opt, copy_texts, push_text, expected_signature, identity_view, issues_view, opt_view, Findings, MarketplaceVerificationIssueV1, Report, SignedContent};
use crate::ieee::{f64_le_zero, le_zero};
use crate::kinds::{SettlementResolutionAction, SettlementStatus};
use crate::settlement::{verify_settlement_event, verify_settlement_resolution, DisputeFacts, ResolutionView, SettlementEventV1, SettlementEventVerificationV1, SettlementResolutionV1, SettlementResolutionVerificationV1, SettlementView, settlement_event_report, resolution_report};
use crate::text::{blank, has_prefix, is_blank, looks_like_marketplace_ref, marketplace_ref, starts_with, text_eq};
use crate::text_order::{same_texts, sort_dedup_texts, strictly_sorted};
use vstd::prelude::*;

verus! {

pub const REFUND_RECORD_SCHEMA_VERSION: &'static str = "hivemind.refund_record.v1";

pub const REFUND_RECORD_VERIFICATION_SCHEMA_VERSION: &'static str =
    "hivemind.refund_record_verification.v1";

pub const REFUND_BUILD_REQUEST_SCHEMA_VERSION: &'static str = "hivemind.refund_build_request.v1";

pub const REFUND_BUILD_RESULT_SCHEMA_VERSION: &'static str = "hivemind.refund_build_result.v1";

/// A request to record the refund of a settlement.
#[derive(Debug, Clone)]
pub struct RefundBuildRequestV1 {
    pub schema_version: String,
    pub settlement: SettlementEventV1,
    pub resolution: SettlementResolutionV1,
    pub dispute: Option<DisputeFacts>,
    pub refunded_by: String,
    pub refund_ref: Option<String>,
    pub reason: Option<String>,
    pub evidence_refs: Vec<String>,
    pub occurred_at: Option<String>,
}

/// A refund record. `amount` is the IEEE 754 bit pattern of the amount.
#[derive(Debug, Clone)]
pub struct RefundRecordV1 {
    pub schema_version: String,
    pub refund_id: String,
    pub settlement_id: String,
    pub source_settlement_id: String,
    pub resolution_id: String,
    pub dispute_id: Option<String>,
    pub receipt_id: String,
    pub job_id: Option<String>,
    pub request_id: String,
    pub quote_id: Option<String>,
    pub payment_authorization_id: Option<String>,
    pub package_ref: String,
    pub runner_id: String,
    pub payer: String,
    pub payee: String,
    pub refunded_by: String,
    pub amount: u64,
    pub currency: String,
    pub asset: Option<String>,
    pub refund_ref: Option<String>,
    pub evidence_refs: Vec<String>,
    pub reason: String,
    pub occurred_at: String,
    pub signature: Option<String>,
}

/// What the verification of a refund record found.
#[derive(Debug, Clone)]
pub struct RefundRecordVerificationV1 {
    pub schema_version: String,
    pub refund_id: Option<String>,
    pub valid: bool,
    pub issues: Vec<MarketplaceVerificationIssueV1>,
    pub warnings: Vec<MarketplaceVerificationIssueV1>,
    pub expected_signature: Option<String>,
    pub verified_at: String,
}

/// The outcome of a refund request before signing: its findings, the checks
/// of the settlement and resolution it cites, and, when nothing is at issue,
/// the refund record to be signed (empty id, no signature).
#[derive(Debug, Clone)]
pub struct RefundBuildDraftV1 {
    pub issues: Vec<MarketplaceVerificationIssueV1>,
    pub warnings: Vec<MarketplaceVerificationIssueV1>,
    pub refund: Option<RefundRecordV1>,
    pub settlement_verification: SettlementEventVerificationV1,
    pub resolution_verification: SettlementResolutionVerificationV1,
}

/// The result of a refund request.
#[derive(Debug, Clone)]
pub struct RefundBuildResultV1 {
    pub schema_version: String,
    pub refund: Option<RefundRecordV1>,
    pub verification: RefundRecordVerificationV1,
    pub settlement_verification: SettlementEventVerificationV1,
    pub resolution_verification: SettlementResolutionVerificationV1,
}

// ---------------------------------------------------------------------------
// Source consistency

/// The rules that tie a refund to the settlement it refunds, the resolution
/// that refunded it and, when given, the dispute. `amounts_differ` is whether
/// the resolution's and the settlement's amounts differ by more than 1e-7.
pub open spec fn refund_source_report(
    r: Report,
    s: SettlementView,
    res: ResolutionView,
    dispute: Option<DisputeFacts>,
    amounts_differ: bool,
) -> Report {
    let r = r.issue_if(
        s.status != SettlementStatus::Refunded,
        "$.settlement.status"@,
        "Refund record requires a refunded settlement"@,
    );
    let r = r.issue_if(
        res.action != SettlementResolutionAction::Refund,
        "$.resolution.action"@,
        "Refund record requires a refund settlement resolution"@,
    );
    let r = r.issue_if(
        res.new_status != SettlementStatus::Refunded,
        "$.resolution.newStatus"@,
        "Refund settlement resolution must end in refunded status"@,
    );
    let r = r.issue_if(
        blank(res.settlement_id),
        "$.resolution.settlementId"@,
        "Refund resolution requires source settlementId"@,
    );
    let r = r.issue_if(
        res.receipt_id != s.receipt_id,
        "$.resolution.receiptId"@,
        "Refund resolution receiptId must match refunded settlement"@,
    );
    let r = r.issue_if(
        amounts_differ,
        "$.resolution.amount"@,
        "Refund resolution amount must match refunded settlement amount"@,
    );
    let r = r.issue_if(
        res.currency != s.currency,
        "$.resolution.currency"@,
        "Refund resolution currency must match refunded settlement currency"@,
    );
    let r = r.issue_if(
        blank(res.resolved_by),
        "$.resolution.resolvedBy"@,
        "Refund resolution requires resolvedBy"@,
    );
    let r = r.warn_if(
        blank(res.reason),
        "$.resolution.reason"@,
        "Refund resolution reason is empty"@,
    );
    match dispute {
        Some(d) => {
            let r = r.issue_if(
                d.dispute_id@ != res.dispute_id,
                "$.dispute.disputeId"@,
                "Dispute id must match refund resolution disputeId"@,
            );
            let r = r.issue_if(
                d.receipt_id@ != s.receipt_id,
                "$.dispute.receiptId"@,
                "Dispute receiptId must match refunded settlement receiptId"@,
            );
            let r = r.issue_if(
                d.request_id@ != s.request_id,
                "$.dispute.requestId"@,
                "Dispute requestId must match refunded settlement requestId"@,
            );
            let r = r.issue_if(
                d.package_ref@ != s.package_ref,
                "$.dispute.packageRef"@,
                "Dispute packageRef must match refunded settlement packageRef"@,
            );
            r.issue_if(
                d.runner_id@ != s.runner_id,
                "$.dispute.runnerId"@,
                "Dispute runnerId must match refunded settlement runnerId"@,
            )
        },
        None => r.warn_if(
            !blank(res.dispute_id),
            "$.dispute"@,
            "Refund record was built without embedded dispute evidence; verify disputeId separately"@,
        ),
    }
}

/// Applies the rules that tie a refund to its settlement, resolution and
/// dispute. `amounts_differ` is whether the resolution's and the settlement's
/// amounts differ by more than 1e-7.
pub fn verify_refund_source_matches(
    settlement: &SettlementEventV1,
    resolution: &SettlementResolutionV1,
    dispute: &Option<DisputeFacts>,
    amounts_differ: bool,
    f: &mut Findings,
)
    ensures
        final(f)@ == refund_source_report(
            old(f)@,
            settlement@,
            resolution@,
            *dispute,
            amounts_differ,
        ),
{
    f.issue_if(
        settlement.status != SettlementStatus::Refunded,
        "$.settlement.status",
        "Refund record requires a refunded settlement",
    );
    f.issue_if(
        resolution.action != SettlementResolutionAction::Refund,
        "$.resolution.action",
        "Refund record requires a refund settlement resolution",
    );
    f.issue_if(
        resolution.new_status != SettlementStatus::Refunded,
        "$.resolution.newStatus",
        "Refund settlement resolution must end in refunded status",
    );
    f.required(
        resolution.settlement_id.as_str(),
        "$.resolution.settlementId",
        "Refund resolution requires source settlementId",
    );
    f.issue_if(
        !text_eq(resolution.receipt_id.as_str(), settlement.receipt_id.as_str()),
        "$.resolution.receiptId",
        "Refund resolution receiptId must match refunded settlement",
    );
    f.issue_if(
        amounts_differ,
        "$.resolution.amount",
        "Refund resolution amount must match refunded settlement amount",
    );
    f.issue_if(
        !text_eq(resolution.currency.as_str(), settlement.currency.as_str()),
        "$.resolution.currency",
        "Refund resolution currency must match refunded settlement currency",
    );
    f.required(
        resolution.resolved_by.as_str(),
        "$.resolution.resolvedBy",
        "Refund resolution requires resolvedBy",
    );
    let reason_blank = is_blank(resolution.reason.as_str());
    f.warn_if(reason_blank, "$.resolution.reason", "Refund resolution reason is empty");
    match dispute {
        Some(d) => {
            f.issue_if(
                !text_eq(d.dispute_id.as_str(), resolution.dispute_id.as_str()),
                "$.dispute.disputeId",
                "Dispute id must match refund resolution disputeId",
            );
            f.issue_if(
                !text_eq(d.receipt_id.as_str(), settlement.receipt_id.as_str()),
                "$.dispute.receiptId",
                "Dispute receiptId must match refunded settlement receiptId",
            );
            f.issue_if(
                !text_eq(d.request_id.as_str(), settlement.request_id.as_str()),
                "$.dispute.requestId",
                "Dispute requestId must match refunded settlement requestId",
            );
            f.issue_if(
                !text_eq(d.package_ref.as_str(), settlement.package_ref.as_str()),
                "$.dispute.packageRef",
                "Dispute packageRef must match refunded settlement packageRef",
            );
            f.issue_if(
                !text_eq(d.runner_id.as_str(), settlement.runner_id.as_str()),
                "$.dispute.runnerId",
                "Dispute runnerId must match refunded settlement runnerId",
            );
        },
        None => {
            let cited = !is_blank(resolution.dispute_id.as_str());
            f.warn_if(
                cited,
                "$.dispute",
                "Refund record was built without embedded dispute evidence; verify disputeId separately",
            );
        },
    }
}

// ---------------------------------------------------------------------------
// Refund record verification

/// A refund record as texts and values.
pub struct RefundView {
    pub schema_version: Seq<char>,
    pub refund_id: Seq<char>,
    pub settlement_id: Seq<char>,
    pub source_settlement_id: Seq<char>,
    pub resolution_id: Seq<char>,
    pub dispute_id: Option<Seq<char>>,
    pub receipt_id: Seq<char>,
    pub job_id: Option<Seq<char>>,
    pub request_id: Seq<char>,
    pub quote_id: Option<Seq<char>>,
    pub payment_authorization_id: Option<Seq<char>>,
    pub package_ref: Seq<char>,
    pub runner_id: Seq<char>,
    pub payer: Seq<char>,
    pub payee: Seq<char>,
    pub refunded_by: Seq<char>,
    pub amount: u64,
    pub currency: Seq<char>,
    pub asset: Option<Seq<char>>,
    pub refund_ref: Option<Seq<char>>,
    pub evidence_refs: Seq<Seq<char>>,
    pub reason: Seq<char>,
    pub occurred_at: Seq<char>,
    pub signature: Option<Seq<char>>,
}

impl View for RefundRecordV1 {
    type V = RefundView;

    open spec fn view(&self) -> RefundView {
        RefundView {
            schema_version: self.schema_version@,
            refund_id: self.refund_id@,
            settlement_id: self.settlement_id@,
            source_settlement_id: self.source_settlement_id@,
            resolution_id: self.resolution_id@,
            dispute_id: opt_view(self.dispute_id),
            receipt_id: self.receipt_id@,
            job_id: opt_view(self.job_id),
            request_id: self.request_id@,
            quote_id: opt_view(self.quote_id),
            payment_authorization_id: opt_view(self.payment_authorization_id),
            package_ref: self.package_ref@,
            runner_id: self.runner_id@,
            payer: self.payer@,
            payee: self.payee@,
            refunded_by: self.refunded_by@,
            amount: self.amount,
            currency: self.currency@,
            asset: opt_view(self.asset),
            refund_ref: opt_view(self.refund_ref),
            evidence_refs: self.evidence_refs.deep_view(),
            reason: self.reason@,
            occurred_at: self.occurred_at@,
            signature: opt_view(self.signature),
        }
    }
}

/// The required fields of a refund record.
pub open spec fn refund_required_report(r: Report, v: RefundView) -> Report {
    let r = r.issue_if(blank(v.settlement_id), "$.settlementId"@, "Settlement id is required"@);
    let r = r.issue_if(
        blank(v.source_settlement_id),
        "$.sourceSettlementId"@,
        "Source settlement id is required"@,
    );
    let r = r.issue_if(blank(v.resolution_id), "$.resolutionId"@, "Resolution id is required"@);
    let r = r.issue_if(blank(v.receipt_id), "$.receiptId"@, "Receipt id is required"@);
    let r = r.issue_if(blank(v.request_id), "$.requestId"@, "Request id is required"@);
    let r = r.issue_if(blank(v.package_ref), "$.packageRef"@, "Package ref is required"@);
    let r = r.issue_if(blank(v.runner_id), "$.runnerId"@, "Runner id is required"@);
    let r = r.issue_if(blank(v.payer), "$.payer"@, "Payer is required"@);
    let r = r.issue_if(blank(v.payee), "$.payee"@, "Payee is required"@);
    let r = r.issue_if(blank(v.refunded_by), "$.refundedBy"@, "RefundedBy is required"@);
    let r = r.issue_if(blank(v.currency), "$.currency"@, "Currency is required"@);
    r.issue_if(blank(v.reason), "$.reason"@, "Reason is required"@)
}

/// The findings of the refund record rules, in the order they are applied.
pub open spec fn refund_record_report(v: RefundView, c: SignedContent) -> Report {
    let r = Report::empty();
    let r = r.issue_if(
        v.schema_version != REFUND_RECORD_SCHEMA_VERSION@,
        "$.schemaVersion"@,
        "Expected schemaVersion to be hivemind.refund_record.v1"@,
    );
    let r = r.record_id(
        v.refund_id,
        v.signature,
        c.canonical_id@,
        "$.refundId"@,
        "Refund id is required"@,
        "Refund id does not match canonical signed content"@,
    );
    let r = refund_required_report(r, v);
    let r = r.issue_if(le_zero(v.amount), "$.amount"@, "Refund amount must be greater than zero"@);
    let r = match v.asset {
        Some(a) => if blank(a) {
            r.issue_if(true, "$.asset"@, "Refund asset is empty"@)
        } else {
            r.issue_if(a != v.currency, "$.asset"@, "Refund asset must match currency"@)
        },
        None => r.issue_if(
            true,
            "$.asset"@,
            "Refund record requires asset for settlement compatibility"@,
        ),
    };
    let r = r.warn_if(
        !has_prefix(v.package_ref, "bzz://"@),
        "$.packageRef"@,
        "Refund packageRef is not a bzz:// reference"@,
    );
    let r = r.issue_if(
        v.evidence_refs.len() == 0,
        "$.evidenceRefs"@,
        "Refund record requires settlement, resolution, and dispute evidence refs"@,
    );
    let r = r.references(
        v.evidence_refs,
        "$.evidenceRefs["@,
        "]"@,
        "Evidence reference must not be empty"@,
        "Evidence reference is not a recognized marketplace reference"@,
    );
    let r = r.warn_if(
        v.refund_ref matches Some(x) && !marketplace_ref(x),
        "$.refundRef"@,
        "Refund ref is not a recognized marketplace reference"@,
    );
    let r = r.issue_if(
        rfc3339_instant(v.occurred_at) is None,
        "$.occurredAt"@,
        "Refund timestamp must be RFC3339"@,
    );
    r.signature(
        v.signature,
        c.dev_signature@,
        identity_view(c.identity_check),
        "Refund signature does not match canonical dev signature or Ed25519 identity envelope"@,
        "Refund record is unsigned; verify refundId through a trusted source"@,
    )
}

fn refund_required(f: &mut Findings, v: &RefundRecordV1)
    ensures
        final(f)@ == refund_required_report(old(f)@, v@),
{
    f.required(v.settlement_id.as_str(), "$.settlementId", "Settlement id is required");
    f.required(
        v.source_settlement_id.as_str(),
        "$.sourceSettlementId",
        "Source settlement id is required",
    );
    f.required(v.resolution_id.as_str(), "$.resolutionId", "Resolution id is required");
    f.required(v.receipt_id.as_str(), "$.receiptId", "Receipt id is required");
    f.required(v.request_id.as_str(), "$.requestId", "Request id is required");
    f.required(v.package_ref.as_str(), "$.packageRef", "Package ref is required");
    f.required(v.runner_id.as_str(), "$.runnerId", "Runner id is required");
    f.required(v.payer.as_str(), "$.payer", "Payer is required");
    f.required(v.payee.as_str(), "$.payee", "Payee is required");
    f.required(v.refunded_by.as_str(), "$.refundedBy", "RefundedBy is required");
    f.required(v.currency.as_str(), "$.currency", "Currency is required");
    f.required(v.reason.as_str(), "$.reason", "Reason is required");
}

/// Checks a refund record against the refund rules. `content` carries the
/// canonical id and development signature of the record's signing value and,
/// for an identity-enveloped signature, the envelope check (signed by the
/// refunder); `verified_at` is the time of the check.
pub fn verify_refund_record(
    record: &RefundRecordV1,
    content: &SignedContent,
    verified_at: String,
) -> (r: RefundRecordVerificationV1)
    ensures
        r.schema_version@ == REFUND_RECORD_VERIFICATION_SCHEMA_VERSION@,
        r.refund_id matches Some(id) && id@ == record.refund_id@,
        issues_view(r.issues@) == refund_record_report(record@, *content).issues,
        issues_view(r.warnings@) == refund_record_report(record@, *content).warnings,
        r.valid == refund_record_report(record@, *content).valid(),
        r.expected_signature matches Some(e) && e@ == expected_signature(
            opt_view(record.signature),
            content.dev_signature@,
            identity_view(content.identity_check),
        ),
        r.verified_at@ == verified_at@,
{
    let v = record;
    let mut f = Findings::new();
    f.issue_if(
        !text_eq(v.schema_version.as_str(), REFUND_RECORD_SCHEMA_VERSION),
        "$.schemaVersion",
        "Expected schemaVersion to be hivemind.refund_record.v1",
    );
    f.record_id(
        v.refund_id.as_str(),
        &v.signature,
        content.canonical_id.as_str(),
        "$.refundId",
        "Refund id is required",
        "Refund id does not match canonical signed content",
    );
    refund_required(&mut f, v);
    f.issue_if(f64_le_zero(v.amount), "$.amount", "Refund amount must be greater than zero");
    match &v.asset {
        Some(a) => {
            if is_blank(a.as_str()) {
                f.issue_if(true, "$.asset", "Refund asset is empty");
            } else {
                f.issue_if(
                    !text_eq(a.as_str(), v.currency.as_str()),
                    "$.asset",
                    "Refund asset must match currency",
                );
            }
        },
        None => f.issue_if(
            true,
            "$.asset",
            "Refund record requires asset for settlement compatibility",
        ),
    }
    f.warn_if(
        !starts_with(v.package_ref.as_str(), "bzz://"),
        "$.packageRef",
        "Refund packageRef is not a bzz:// reference",
    );
    f.issue_if(
        v.evidence_refs.len() == 0,
        "$.evidenceRefs",
        "Refund record requires settlement, resolution, and dispute evidence refs",
    );
    f.references(
        &v.evidence_refs,
        "$.evidenceRefs[",
        "]",
        "Evidence reference must not be empty",
        "Evidence reference is not a recognized marketplace reference",
    );
    let odd_ref = match &v.refund_ref {
        Some(x) => !looks_like_marketplace_ref(x.as_str()),
        None => false,
    };
    f.warn_if(odd_ref, "$.refundRef", "Refund ref is not a recognized marketplace reference");
    f.issue_if(
        parse_rfc3339(v.occurred_at.as_str()).is_none(),
        "$.occurredAt",
        "Refund timestamp must be RFC3339",
    );
    let expected = f.signature(
        &v.signature,
        content,
        "Refund signature does not match canonical dev signature or Ed25519 identity envelope",
        "Refund record is unsigned; verify refundId through a trusted source",
    );
    let valid = f.is_valid();
    RefundRecordVerificationV1 {
        schema_version: String::from_str(REFUND_RECORD_VERIFICATION_SCHEMA_VERSION),
        refund_id: Some(v.refund_id.clone()),
        valid,
        issues: f.issues,
        warnings: f.warnings,
        expected_signature: Some(expected),
        verified_at,
    }
}

// ---------------------------------------------------------------------------
// Building a refund record

/// The findings of a refund request, in the order the rules are applied;
/// `settlement_valid` and `resolution_valid` are the outcomes of checking the
/// cited settlement and resolution.
pub open spec fn refund_build_report(
    req: RefundBuildRequestV1,
    settlement_valid: bool,
    resolution_valid: bool,
    amounts_differ: bool,
) -> Report {
    let r = Report::empty();
    let r = r.issue_if(
        req.schema_version@ != REFUND_BUILD_REQUEST_SCHEMA_VERSION@,
        "$.schemaVersion"@,
        "Expected schemaVersion to be hivemind.refund_build_request.v1"@,
    );
    let r = r.issue_if(
        !settlement_valid,
        "$.settlement"@,
        "Refund record requires a valid settlement event"@,
    );
    let r = r.issue_if(
        !resolution_valid,
        "$.resolution"@,
        "Refund record requires a valid settlement resolution"@,
    );
    let r = r.issue_if(
        req.dispute matches Some(d) && !d.verified,
        "$.dispute"@,
        "Refund dispute evidence must verify"@,
    );
    let r = refund_source_report(r, req.settlement@, req.resolution@, req.dispute, amounts_differ);
    let r = if blank(req.refunded_by@) {
        r.issue_if(true, "$.refundedBy"@, "Refund record requires refundedBy"@)
    } else {
        r.issue_if(
            req.refunded_by@ != req.resolution.resolved_by@,
            "$.refundedBy"@,
            "RefundedBy must match settlement resolution resolvedBy"@,
        )
    };
    let r = match req.refund_ref {
        Some(x) => if blank(x@) {
            r.issue_if(true, "$.refundRef"@, "Refund ref must not be empty when present"@)
        } else {
            r.warn_if(
                !marketplace_ref(x@),
                "$.refundRef"@,
                "Refund ref is not a recognized marketplace reference"@,
            )
        },
        None => r.warn_if(
            true,
            "$.refundRef"@,
            "Refund record has no refundRef; treat as local audit evidence, not payment finality"@,
        ),
    };
    r.issue_if(
        req.occurred_at matches Some(t) && rfc3339_instant(t@) is None,
        "$.occurredAt"@,
        "Refund timestamp must be RFC3339"@,
    )
}

/// The dispute a refund cites: the embedded dispute's id when it is not
/// blank, else the resolution's dispute id when that is not blank.
pub open spec fn refund_dispute_refs(req: RefundBuildRequestV1) -> Seq<Seq<char>> {
    if req.dispute matches Some(d) && !blank(d.dispute_id@) {
        seq!["local://dispute/"@ + req.dispute.unwrap().dispute_id@]
    } else if !blank(req.resolution.dispute_id@) {
        seq!["local://dispute/"@ + req.resolution.dispute_id@]
    } else {
        seq![]
    }
}

/// The evidence a refund record gathers, before sorting: the request's own
/// references, the settlement and the resolution, the dispute, the refund
/// reference, the settlement's evidence and the dispute's evidence.
pub open spec fn refund_evidence_candidates(req: RefundBuildRequestV1) -> Seq<Seq<char>> {
    req.evidence_refs.deep_view() + seq![
        "local://marketplace/settlement/"@ + req.settlement.settlement_id@,
        "local://marketplace/resolution/"@ + req.resolution.resolution_id@,
    ] + refund_dispute_refs(req) + match req.refund_ref {
        Some(x) => seq![x@],
        None => seq![],
    } + req.settlement.evidence_refs.deep_view() + match req.dispute {
        Some(d) => d.evidence_refs.deep_view(),
        None => seq![],
    }
}

/// The unsigned refund record a passing request produces at `now`.
pub open spec fn refund_draft(v: RefundView, req: RefundBuildRequestV1, now: Seq<char>) -> bool {
    let s = req.settlement@;
    let res = req.resolution@;
    &&& v.schema_version == REFUND_RECORD_SCHEMA_VERSION@
    &&& v.refund_id == Seq::<char>::empty()
    &&& v.settlement_id == s.settlement_id
    &&& v.source_settlement_id == res.settlement_id
    &&& v.resolution_id == res.resolution_id
    &&& v.dispute_id == if blank(res.dispute_id) {
        None
    } else {
        Some(res.dispute_id)
    }
    &&& v.receipt_id == s.receipt_id
    &&& v.job_id == s.job_id
    &&& v.request_id == s.request_id
    &&& v.quote_id == s.quote_id
    &&& v.payment_authorization_id == s.payment_authorization_id
    &&& v.package_ref == s.package_ref
    &&& v.runner_id == s.runner_id
    &&& v.payer == s.payer
    &&& v.payee == s.payee
    &&& v.refunded_by == req.refunded_by@
    &&& v.amount == s.amount
    &&& v.currency == s.currency
    &&& v.asset == s.asset
    &&& v.refund_ref == opt_view(req.refund_ref)
    &&& strictly_sorted(v.evidence_refs)
    &&& same_texts(v.evidence_refs, refund_evidence_candidates(req))
    &&& v.reason == match req.reason {
        Some(x) => if blank(x@) {
            res.reason
        } else {
            x@
        },
        None => res.reason,
    }
    &&& v.occurred_at == match req.occurred_at {
        Some(t) => t@,
        None => now,
    }
    &&& v.signature is None
}

fn refund_build_findings(
    req: &RefundBuildRequestV1,
    settlement_valid: bool,
    resolution_valid: bool,
    amounts_differ: bool,
) -> (f: Findings)
    ensures
        f@ == refund_build_report(*req, settlement_valid, resolution_valid, amounts_differ),
{
    let mut f = Findings::new();
    f.issue_if(
        !text_eq(req.schema_version.as_str(), REFUND_BUILD_REQUEST_SCHEMA_VERSION),
        "$.schemaVersion",
        "Expected schemaVersion to be hivemind.refund_build_request.v1",
    );
    f.issue_if(!settlement_valid, "$.settlement", "Refund record requires a valid settlement event");
    f.issue_if(
        !resolution_valid,
        "$.resolution",
        "Refund record requires a valid settlement resolution",
    );
    let dispute_failed = match &req.dispute {
        Some(d) => !d.verified,
        None => false,
    };
    f.issue_if(dispute_failed, "$.dispute", "Refund dispute evidence must verify");
    verify_refund_source_matches(&req.settlement, &req.resolution, &req.dispute, amounts_differ, &mut f);
    if is_blank(req.refunded_by.as_str()) {
        f.issue_if(true, "$.refundedBy", "Refund record requires refundedBy");
    } else {
        f.issue_if(
            !text_eq(req.refunded_by.as_str(), req.resolution.resolved_by.as_str()),
            "$.refundedBy",
            "RefundedBy must match settlement resolution resolvedBy",
        );
    }
    match &req.refund_ref {
        Some(x) => {
            if is_blank(x.as_str()) {
                f.issue_if(true, "$.refundRef", "Refund ref must not be empty when present");
            } else {
                f.warn_if(
                    !looks_like_marketplace_ref(x.as_str()),
                    "$.refundRef",
                    "Refund ref is not a recognized marketplace reference",
                );
            }
        },
        None => f.warn_if(
            true,
            "$.refundRef",
            "Refund record has no refundRef; treat as local audit evidence, not payment finality",
        ),
    }
    let bad_time = match &req.occurred_at {
        Some(t) => parse_rfc3339(t.as_str()).is_none(),
        None => false,
    };
    f.issue_if(bad_time, "$.occurredAt", "Refund timestamp must be RFC3339");
    f
}

/// The evidence references of a refund, gathered in the order the record
/// lists their sources (not yet sorted).
pub fn refund_evidence_refs(req: &RefundBuildRequestV1) -> (r: Vec<String>)
    ensures
        r.deep_view() == refund_evidence_candidates(*req),
{
    let mut refs = copy_texts(&req.evidence_refs);
    let mut s = String::from_str("local://marketplace/settlement/");
    s.append(req.settlement.settlement_id.as_str());
    push_text(&mut refs, s.as_str());
    let mut r = String::from_str("local://marketplace/resolution/");
    r.append(req.resolution.resolution_id.as_str());
    push_text(&mut refs, r.as_str());
    let ghost after_ids = refs.deep_view();
    let embedded = match &req.dispute {
        Some(d) => !is_blank(d.dispute_id.as_str()),
        None => false,
    };
    if embedded {
        let mut d = String::from_str("local://dispute/");
        match &req.dispute {
            Some(x) => d.append(x.dispute_id.as_str()),
            None => {},
        }
        push_text(&mut refs, d.as_str());
    } else if !is_blank(req.resolution.dispute_id.as_str()) {
        let mut d = String::from_str("local://dispute/");
        d.append(req.resolution.dispute_id.as_str());
        push_text(&mut refs, d.as_str());
    }
    assert(refs.deep_view() =~= after_ids + refund_dispute_refs(*req));
    let ghost after_dispute = refs.deep_view();
    match &req.refund_ref {
        Some(x) => push_text(&mut refs, x.as_str()),
        None => {},
    }
    assert(refs.deep_view() =~= after_dispute + match req.refund_ref {
        Some(x) => seq![x@],
        None => seq![],
    });
    append_texts(&mut refs, &req.settlement.evidence_refs);
    let ghost after_settlement = refs.deep_view();
    match &req.dispute {
        Some(d) => append_texts(&mut refs, &d.evidence_refs),
        None => {},
    }
    assert(refs.deep_view() =~= after_settlement + match req.dispute {
        Some(d) => d.evidence_refs.deep_view(),
        None => seq![],
    });
    assert(refs.deep_view() =~= refund_evidence_candidates(*req));
    refs
}

fn refund_record_draft(req: &RefundBuildRequestV1, now: &str) -> (r: RefundRecordV1)
    ensures
        refund_draft(r@, *req, now@),
{
    let s = &req.settlement;
    let res = &req.resolution;
    let gathered = refund_evidence_refs(req);
    let evidence_refs = sort_dedup_texts(&gathered);
    let dispute_id = if is_blank(res.dispute_id.as_str()) {
        None
    } else {
        Some(res.dispute_id.clone())
    };
    let reason = match &req.reason {
        Some(x) => if is_blank(x.as_str()) {
            res.reason.clone()
        } else {
            x.clone()
        },
        None => res.reason.clone(),
    };
    let occurred_at = match &req.occurred_at {
        Some(t) => t.clone(),
        None => String::from_str(now),
    };
    RefundRecordV1 {
        schema_version: String::from_str(REFUND_RECORD_SCHEMA_VERSION),
        refund_id: String::new(),
        settlement_id: s.settlement_id.clone(),
        source_settlement_id: res.settlement_id.clone(),
        resolution_id: res.resolution_id.clone(),
        dispute_id,
        receipt_id: s.receipt_id.clone(),
        job_id: copy_opt(&s.job_id),
        request_id: s.request_id.clone(),
        quote_id: copy_opt(&s.quote_id),
        payment_authorization_id: copy_opt(&s.payment_authorization_id),
        package_ref: s.package_ref.clone(),
        runner_id: s.runner_id.clone(),
        payer: s.payer.clone(),
        payee: s.payee.clone(),
        refunded_by: req.refunded_by.clone(),
        amount: s.amount,
        currency: s.currency.clone(),
        asset: copy_opt(&s.asset),
        refund_ref: copy_opt(&req.refund_ref),
        evidence_refs,
        reason,
        occurred_at,
        signature: None,
    }
}

/// Decides a refund request: the cited settlement and resolution are checked
/// (with the signed-content facts of each), the refund is tied to them, and,
/// when nothing is at issue, the refund record to be signed is drafted at
/// `now`. `amounts_differ` is whether the resolution's and the settlement's
/// amounts differ by more than 1e-7.
pub fn build_refund_record(
    request: &RefundBuildRequestV1,
    settlement_content: &SignedContent,
    resolution_content: &SignedContent,
    amounts_differ: bool,
    now: String,
    verified_at: String,
) -> (r: RefundBuildDraftV1)
    ensures
        r.settlement_verification.valid == settlement_event_report(
            request.settlement,
            *settlement_content,
        ).valid(),
        r.resolution_verification.valid == resolution_report(
            request.resolution@,
            *resolution_content,
        ).valid(),
        issues_view(r.issues@) == refund_build_report(
            *request,
            r.settlement_verification.valid,
            r.resolution_verification.valid,
            amounts_differ,
        ).issues,
        issues_view(r.warnings@) == refund_build_report(
            *request,
            r.settlement_verification.valid,
            r.resolution_verification.valid,
            amounts_differ,
        ).warnings,
        r.refund is Some <==> r.issues.len() == 0,
        r.refund matches Some(rec) ==> refund_draft(rec@, *request, now@),
{
    let sv = verify_settlement_event(&request.settlement, settlement_content, verified_at.clone());
    let rv = verify_settlement_resolution(&request.resolution, resolution_content, verified_at);
    let f = refund_build_findings(request, sv.valid, rv.valid, amounts_differ);
    let refund = if f.is_valid() {
        Some(refund_record_draft(request, now.as_str()))
    } else {
        None
    };
    RefundBuildDraftV1 {
        issues: f.issues,
        warnings: f.warnings,
        refund,
        settlement_verification: sv,
        resolution_verification: rv,
    }
}

/// Completes a refund request once the drafted record was signed: with a
/// signed record and its verification, the verification carries the
/// request's warnings after its own; without one, the request's findings
/// make a failed verification at `verified_at`.
pub fn finish_refund_build(
    draft: RefundBuildDraftV1,
    signed: Option<(RefundRecordV1, RefundRecordVerificationV1)>,
    verified_at: String,
) -> (r: RefundBuildResultV1)
    ensures
        r.schema_version@ == REFUND_BUILD_RESULT_SCHEMA_VERSION@,
        r.settlement_verification == draft.settlement_verification,
        r.resolution_verification == draft.resolution_verification,
        match signed {
            Some((rec, v)) => {
                &&& r.refund matches Some(x) && x@ == rec@
                &&& r.verification.schema_version@ == v.schema_version@
                &&& opt_view(r.verification.refund_id) == opt_view(v.refund_id)
                &&& issues_view(r.verification.issues@) == issues_view(v.issues@)
                &&& issues_view(r.verification.warnings@) == issues_view(v.warnings@)
                    + issues_view(draft.warnings@)
                &&& r.verification.valid == (v.valid && v.issues.len() == 0)
                &&& opt_view(r.verification.expected_signature) == opt_view(v.expected_signature)
                &&& r.verification.verified_at@ == v.verified_at@
            },
            None => {
                &&& r.refund is None
                &&& r.verification.schema_version@ == REFUND_RECORD_VERIFICATION_SCHEMA_VERSION@
                &&& r.verification.refund_id is None
                &&& !r.verification.valid
                &&& issues_view(r.verification.issues@) == issues_view(draft.issues@)
                &&& issues_view(r.verification.warnings@) == issues_view(draft.warnings@)
                &&& r.verification.expected_signature is None
                &&& r.verification.verified_at@ == verified_at@
            },
        },
{
    let RefundBuildDraftV1 { issues, warnings, refund: _, settlement_verification, resolution_verification } = draft;
    match signed {
        Some((rec, v)) => {
            let RefundRecordVerificationV1 {
                schema_version,
                refund_id,
                valid,
                issues: record_issues,
                warnings: record_warnings,
                expected_signature,
                verified_at: record_verified_at,
            } = v;
            let mut all_warnings = record_warnings;
            let mut extra = warnings;
            let ghost w0 = issues_view(all_warnings@);
            let ghost w1 = issues_view(extra@);
            all_warnings.append(&mut extra);
            assert(issues_view(all_warnings@) =~= w0 + w1);
            let valid = valid && record_issues.len() == 0;
            RefundBuildResultV1 {
                schema_version: String::from_str(REFUND_BUILD_RESULT_SCHEMA_VERSION),
                refund: Some(rec),
                verification: RefundRecordVerificationV1 {
                    schema_version,
                    refund_id,
                    valid,
                    issues: record_issues,
                    warnings: all_warnings,
                    expected_signature,
                    verified_at: record_verified_at,
                },
                settlement_verification,
                resolution_verification,
            }
        },
        None => RefundBuildResultV1 {
            schema_version: String::from_str(REFUND_BUILD_RESULT_SCHEMA_VERSION),
            refund: None,
            verification: RefundRecordVerificationV1 {
                schema_version: String::from_str(REFUND_RECORD_VERIFICATION_SCHEMA_VERSION),
                refund_id: None,
                valid: false,
                issues,
                warnings,
                expected_signature: None,
                verified_at,
            },
            settlement_verification,
            resolution_verification,
        },
    }
}

/// A refund is only drafted for a refunded settlement, from a refund
/// resolution that ended in the refunded status, about the same receipt and
/// currency, by the resolver who resolved it, after the settlement and the
/// resolution both verified.
pub proof fn lemma_refund_build_preconditions(
    req: RefundBuildRequestV1,
    settlement_valid: bool,
    resolution_valid: bool,
    amounts_differ: bool,
)
    requires
        refund_build_report(req, settlement_valid, resolution_valid, amounts_differ).valid(),
    ensures
        settlement_valid,
        resolution_valid,
        !amounts_differ,
        req.settlement.status == SettlementStatus::Refunded,
        req.resolution.action == SettlementResolutionAction::Refund,
        req.resolution.new_status == SettlementStatus::Refunded,
        req.resolution.receipt_id@ == req.settlement.receipt_id@,
        req.resolution.currency@ == req.settlement.currency@,
        !blank(req.refunded_by@),
        req.refunded_by@ == req.resolution.resolved_by@,
        req.dispute matches Some(d) ==> d.verified && d.dispute_id@ == req.resolution.dispute_id@,
{
    let r0 = Report::empty();
    let r1 = r0.issue_if(
        req.schema_version@ != REFUND_BUILD_REQUEST_SCHEMA_VERSION@,
        "$.schemaVersion"@,
        "Expected schemaVersion to be hivemind.refund_build_request.v1"@,
    );
    let r2 = r1.issue_if(!settlement_valid, "$.settlement"@, "Refund record requires a valid settlement event"@);
    let r3 = r2.issue_if(!resolution_valid, "$.resolution"@, "Refund record requires a valid settlement resolution"@);
    let r4 = r3.issue_if(
        req.dispute matches Some(d) && !d.verified,
        "$.dispute"@,
        "Refund dispute evidence must verify"@,
    );
    let r5 = refund_source_report(r4, req.settlement@, req.resolution@, req.dispute, amounts_differ);
    lemma_issues_grow_source(r4, req.settlement@, req.resolution@, req.dispute, amounts_differ);
}

/// The rules only ever add findings, so a passing result passed every rule.
proof fn lemma_issues_grow_source(
    r: Report,
    s: SettlementView,
    res: ResolutionView,
    dispute: Option<DisputeFacts>,
    amounts_differ: bool,
)
    ensures
        refund_source_report(r, s, res, dispute, amounts_differ).issues.len() >= r.issues.len(),
        refund_source_report(r, s, res, dispute, amounts_differ).issues.len() == r.issues.len()
            ==> {
            &&& s.status == SettlementStatus::Refunded
            &&& res.action == SettlementResolutionAction::Refund
            &&& res.new_status == SettlementStatus::Refunded
            &&& res.receipt_id == s.receipt_id
            &&& !amounts_differ
            &&& res.currency == s.currency
            &&& dispute matches Some(d) ==> d.dispute_id@ == res.dispute_id
        },
{
    let c1 = s.status != SettlementStatus::Refunded;
    let r1 = r.issue_if(c1, "$.settlement.status"@, "Refund record requires a refunded settlement"@);
    lemma_issue_count(r, c1, "$.settlement.status"@, "Refund record requires a refunded settlement"@);
    let c2 = res.action != SettlementResolutionAction::Refund;
    let r2 = r1.issue_if(c2, "$.resolution.action"@, "Refund record requires a refund settlement resolution"@);
    lemma_issue_count(r1, c2, "$.resolution.action"@, "Refund record requires a refund settlement resolution"@);
    let c3 = res.new_status != SettlementStatus::Refunded;
    let r3 = r2.issue_if(c3, "$.resolution.newStatus"@, "Refund settlement resolution must end in refunded status"@);
    lemma_issue_count(r2, c3, "$.resolution.newStatus"@, "Refund settlement resolution must end in refunded status"@);
    let c4 = blank(res.settlement_id);
    let r4 = r3.issue_if(c4, "$.resolution.settlementId"@, "Refund resolution requires source settlementId"@);
    lemma_issue_count(r3, c4, "$.resolution.settlementId"@, "Refund resolution requires source settlementId"@);
    let c5 = res.receipt_id != s.receipt_id;
    let r5 = r4.issue_if(c5, "$.resolution.receiptId"@, "Refund resolution receiptId must match refunded settlement"@);
    lemma_issue_count(r4, c5, "$.resolution.receiptId"@, "Refund resolution receiptId must match refunded settlement"@);
    let r6 = r5.issue_if(amounts_differ, "$.resolution.amount"@, "Refund resolution amount must match refunded settlement amount"@);
    lemma_issue_count(r5, amounts_differ, "$.resolution.amount"@, "Refund resolution amount must match refunded settlement amount"@);
    let c7 = res.currency != s.currency;
    let r7 = r6.issue_if(c7, "$.resolution.currency"@, "Refund resolution currency must match refunded settlement currency"@);
    lemma_issue_count(r6, c7, "$.resolution.currency"@, "Refund resolution currency must match refunded settlement currency"@);
    let c8 = blank(res.resolved_by);
    let r8 = r7.issue_if(c8, "$.resolution.resolvedBy"@, "Refund resolution requires resolvedBy"@);
    lemma_issue_count(r7, c8, "$.resolution.resolvedBy"@, "Refund resolution requires resolvedBy"@);
    let r9 = r8.warn_if(blank(res.reason), "$.resolution.reason"@, "Refund resolution reason is empty"@);
    lemma_issue_count(r8, blank(res.reason), "$.resolution.reason"@, "Refund resolution reason is empty"@);
    match dispute {
        Some(d) => {
            let c10 = d.dispute_id@ != res.dispute_id;
            let r10 = r9.issue_if(c10, "$.dispute.disputeId"@, "Dispute id must match refund resolution disputeId"@);
            lemma_issue_count(r9, c10, "$.dispute.disputeId"@, "Dispute id must match refund resolution disputeId"@);
            let c11 = d.receipt_id@ != s.receipt_id;
            let r11 = r10.issue_if(c11, "$.dispute.receiptId"@, "Dispute receiptId must match refunded settlement receiptId"@);
            lemma_issue_count(r10, c11, "$.dispute.receiptId"@, "Dispute receiptId must match refunded settlement receiptId"@);
            let c12 = d.request_id@ != s.request_id;
            let r12 = r11.issue_if(c12, "$.dispute.requestId"@, "Dispute requestId must match refunded settlement requestId"@);
            lemma_issue_count(r11, c12, "$.dispute.requestId"@, "Dispute requestId must match refunded settlement requestId"@);
            let c13 = d.package_ref@ != s.package_ref;
            let r13 = r12.issue_if(c13, "$.dispute.packageRef"@, "Dispute packageRef must match refunded settlement packageRef"@);
            lemma_issue_count(r12, c13, "$.dispute.packageRef"@, "Dispute packageRef must match refunded settlement packageRef"@);
            let c14 = d.runner_id@ != s.runner_id;
            lemma_issue_count(r13, c14, "$.dispute.runnerId"@, "Dispute runnerId must match refunded settlement runnerId"@);
            assert(refund_source_report(r, s, res, dispute, amounts_differ) == r13.issue_if(c14, "$.dispute.runnerId"@, "Dispute runnerId must match refunded settlement runnerId"@));
        },
        None => {
            let c10 = !blank(res.dispute_id);
            lemma_issue_count(r9, c10, "$.dispute"@, "Refund record was built without embedded dispute evidence; verify disputeId separately"@);
            assert(refund_source_report(r, s, res, dispute, amounts_differ) == r9.warn_if(c10, "$.dispute"@, "Refund record was built without embedded dispute evidence; verify disputeId separately"@));
        },
    }
}

/// A drafted refund record cites the settlement and the resolution it was
/// built from, lists its evidence in ascending order, and lists nothing twice.
pub proof fn lemma_refund_draft_evidence(v: RefundView, req: RefundBuildRequestV1, now: Seq<char>)
    requires
        refund_draft(v, req, now),
    ensures
        v.evidence_refs.contains("local://marketplace/settlement/"@ + req.settlement.settlement_id@),
        v.evidence_refs.contains("local://marketplace/resolution/"@ + req.resolution.resolution_id@),
        forall|i: int, j: int| 0 <= i < j < v.evidence_refs.len() ==> v.evidence_refs[i] != v.evidence_refs[j],
{
    let c = refund_evidence_candidates(req);
    let n: int = req.evidence_refs.deep_view().len() as int;
    assert(c[n] == "local://marketplace/settlement/"@ + req.settlement.settlement_id@);
    assert(c[n + 1] == "local://marketplace/resolution/"@ + req.resolution.resolution_id@);
    assert(c.contains(c[n]));
    assert(c.contains(c[n + 1]));
    assert forall|i: int, j: int| 0 <= i < j < v.evidence_refs.len() implies v.evidence_refs[i] != v.evidence_refs[j] by {
        assert(crate::text_order::text_lt(v.evidence_refs[i], v.evidence_refs[j]));
        crate::text_order::lemma_text_lt_irreflexive(v.evidence_refs[i]);
    }
}


/// The identity envelope of a RefundRecordV1's signature: context `refund-record`, signed by
/// whoever refunded.
pub fn refund_record_envelope(record: &RefundRecordV1) -> (r: EnvelopeSubject)
    ensures
        r.context@ == "refund-record"@,
        opt_view(r.signer) == Some(record.refunded_by@),
{
    envelope_subject("refund-record", record.refunded_by.as_str())
}


/// Puts on a RefundRecordV1 a signature that `subject` made over its signed content,
/// with `refund_id` the canonical id of that content: refused, leaving the record
/// unchanged, when `subject` is not the record's refunder.
pub fn seal_refund_record(record: &mut RefundRecordV1, subject: &str, refund_id: String, signature: String) -> (ok: bool)
    ensures
        ok == (subject@ == old(record).refunded_by@),
        ok ==> *final(record) == (RefundRecordV1 { refund_id, signature: Some(signature), ..*old(record) }),
        !ok ==> *final(record) == *old(record),
{
    if !text_eq(subject, record.refunded_by.as_str()) {
        return false;
    }
    record.refund_id = refund_id;
    record.signature = Some(signature);
    true
}

} // verus!
