//! Escrow records: funds locked under a payment authorization until a
//! settlement releases them. Creating an escrow, the rules an escrow record
//! must pass (alone, against its authorization and against its quote), and
//! the release of an escrow for a settled settlement.
use crate::clock::{out_of_order, passed_before, parse_rfc3339, rfc3339_instant, Instant};
use crate::findings::{envelope_subject, EnvelopeSubject, copy_opt, copy_texts, opt_text_eq, expected_signature, identity_view, issues_view, lemma_issue_count, opt_view, Findings, MarketplaceVerificationIssueV1, Report, SignedContent};
use crate::ieee::{f64_le_zero, le_zero};
use crate::kinds::{EscrowStatusV1, PaymentAdapterKind, SettlementStatus};
use crate::payment::{payment_authorization_report, verify_payment_authorization, AuthorizationView, PaymentAuthorizationV1, PaymentAuthorizationVerificationV1, PaymentQuoteCheck};
use crate::quote::{before, service_quote_report, verify_service_quote, ServiceQuoteV1};
use crate::settlement::{merge_evidence_refs, merge_refs, push_evidence_ref, push_ref, settlement_event_report, settlement_issues_view, verify_settlement_event, SettlementEventV1, SettlementEventVerificationV1, SettlementView};
use crate::text::{blank, has_prefix, is_blank, looks_like_marketplace_ref, marketplace_ref, starts_with, text_eq, trim, trimmed};
use vstd::prelude::*;

verus! {

pub const ESCROW_RECORD_SCHEMA_VERSION: &'static str = "hivemind.escrow_record.v1";

pub const ESCROW_RECORD_VERIFICATION_SCHEMA_VERSION: &'static str =
    "hivemind.escrow_record_verification.v1";

pub const ESCROW_RELEASE_REQUEST_SCHEMA_VERSION: &'static str =
    "hivemind.escrow_release_request.v1";

pub const ESCROW_RELEASE_RESULT_SCHEMA_VERSION: &'static str = "hivemind.escrow_release_result.v1";

/// An escrow record. `amount` is the IEEE 754 bit pattern of the amount.
#[derive(Debug, Clone)]
pub struct EscrowRecordV1 {
    pub schema_version: String,
    pub escrow_id: String,
    pub authorization_id: String,
    pub quote_id: String,
    pub job_id: Option<String>,
    pub request_id: String,
    pub offer_id: String,
    pub runner_id: String,
    pub package_ref: String,
    pub payer: String,
    pub payee: String,
    pub amount: u64,
    pub currency: String,
    pub asset: Option<String>,
    pub adapter: PaymentAdapterKind,
    pub status: EscrowStatusV1,
    pub custodian: String,
    pub payment_ref: Option<String>,
    pub escrow_ref: Option<String>,
    pub settlement_id: Option<String>,
    pub evidence_refs: Vec<String>,
    pub created_at: String,
    pub expires_at: String,
    pub locked_at: Option<String>,
    pub released_at: Option<String>,
    pub refunded_at: Option<String>,
    pub cancelled_at: Option<String>,
    pub reason: Option<String>,
    pub signature: Option<String>,
}

/// What the verification of an escrow record found.
#[derive(Debug, Clone)]
pub struct EscrowRecordVerificationV1 {
    pub schema_version: String,
    pub escrow_id: String,
    pub valid: bool,
    pub issues: Vec<MarketplaceVerificationIssueV1>,
    pub warnings: Vec<MarketplaceVerificationIssueV1>,
    pub payment_authorization_verification: Option<PaymentAuthorizationVerificationV1>,
    pub expected_signature: Option<String>,
    pub verified_at: String,
}

/// A request to release an escrow for a settlement.
#[derive(Debug, Clone)]
pub struct EscrowReleaseRequestV1 {
    pub schema_version: String,
    pub escrow: EscrowRecordV1,
    pub settlement: SettlementEventV1,
    pub released_by: String,
    pub reason: Option<String>,
    pub evidence_refs: Vec<String>,
}

/// The result of an escrow release.
#[derive(Debug, Clone)]
pub struct EscrowReleaseResultV1 {
    pub schema_version: String,
    pub escrow: Option<EscrowRecordV1>,
    pub valid: bool,
    pub issues: Vec<MarketplaceVerificationIssueV1>,
    pub warnings: Vec<MarketplaceVerificationIssueV1>,
    pub escrow_verification: EscrowRecordVerificationV1,
    pub settlement_verification: SettlementEventVerificationV1,
    pub verified_at: String,
}

/// The payment authorization an escrow is checked against, with what the
/// check needs beside it: its signed-content facts, and the floating-point
/// facts: whether its amount exceeds its maximum plus 1e-7, and whether the
/// escrow's amount differs from its amount by more than 1e-7.
#[derive(Debug, Clone)]
pub struct EscrowAuthorizationCheck {
    pub authorization: PaymentAuthorizationV1,
    pub content: SignedContent,
    pub exceeds_max: bool,
    pub amount_differs: bool,
}

/// The service quote an escrow is checked against: the quote as its
/// authorization is checked against it, and whether the escrow's amount
/// differs from the quote's estimated cost by more than 1e-7.
#[derive(Debug, Clone)]
pub struct EscrowQuoteCheck {
    pub quote: PaymentQuoteCheck,
    pub amount_differs: bool,
}

/// An escrow record as texts and values.
pub struct EscrowView {
    pub schema_version: Seq<char>,
    pub escrow_id: Seq<char>,
    pub authorization_id: Seq<char>,
    pub quote_id: Seq<char>,
    pub job_id: Option<Seq<char>>,
    pub request_id: Seq<char>,
    pub offer_id: Seq<char>,
    pub runner_id: Seq<char>,
    pub package_ref: Seq<char>,
    pub payer: Seq<char>,
    pub payee: Seq<char>,
    pub amount: u64,
    pub currency: Seq<char>,
    pub asset: Option<Seq<char>>,
    pub adapter: PaymentAdapterKind,
    pub status: EscrowStatusV1,
    pub custodian: Seq<char>,
    pub payment_ref: Option<Seq<char>>,
    pub escrow_ref: Option<Seq<char>>,
    pub settlement_id: Option<Seq<char>>,
    pub evidence_refs: Seq<Seq<char>>,
    pub created_at: Seq<char>,
    pub expires_at: Seq<char>,
    pub locked_at: Option<Seq<char>>,
    pub released_at: Option<Seq<char>>,
    pub refunded_at: Option<Seq<char>>,
    pub cancelled_at: Option<Seq<char>>,
    pub reason: Option<Seq<char>>,
    pub signature: Option<Seq<char>>,
}

impl View for EscrowRecordV1 {
    type V = EscrowView;

    open spec fn view(&self) -> EscrowView {
        EscrowView {
            schema_version: self.schema_version@,
            escrow_id: self.escrow_id@,
            authorization_id: self.authorization_id@,
            quote_id: self.quote_id@,
            job_id: opt_view(self.job_id),
            request_id: self.request_id@,
            offer_id: self.offer_id@,
            runner_id: self.runner_id@,
            package_ref: self.package_ref@,
            payer: self.payer@,
            payee: self.payee@,
            amount: self.amount,
            currency: self.currency@,
            asset: opt_view(self.asset),
            adapter: self.adapter,
            status: self.status,
            custodian: self.custodian@,
            payment_ref: opt_view(self.payment_ref),
            escrow_ref: opt_view(self.escrow_ref),
            settlement_id: opt_view(self.settlement_id),
            evidence_refs: self.evidence_refs.deep_view(),
            created_at: self.created_at@,
            expires_at: self.expires_at@,
            locked_at: opt_view(self.locked_at),
            released_at: opt_view(self.released_at),
            refunded_at: opt_view(self.refunded_at),
            cancelled_at: opt_view(self.cancelled_at),
            reason: opt_view(self.reason),
            signature: opt_view(self.signature),
        }
    }
}

// ---------------------------------------------------------------------------
// Escrow record rules

pub open spec fn escrow_required_report(r: Report, e: EscrowView) -> Report {
    let r = r.issue_if(
        blank(e.authorization_id),
        "$.authorizationId"@,
        "Payment authorization id is required"@,
    );
    let r = r.issue_if(blank(e.quote_id), "$.quoteId"@, "Quote id is required"@);
    let r = r.issue_if(blank(e.request_id), "$.requestId"@, "Request id is required"@);
    let r = r.issue_if(blank(e.offer_id), "$.offerId"@, "Offer id is required"@);
    let r = r.issue_if(blank(e.runner_id), "$.runnerId"@, "Runner id is required"@);
    let r = r.issue_if(blank(e.package_ref), "$.packageRef"@, "Package ref is required"@);
    let r = r.issue_if(blank(e.payer), "$.payer"@, "Payer is required"@);
    let r = r.issue_if(blank(e.payee), "$.payee"@, "Payee is required"@);
    let r = r.issue_if(blank(e.currency), "$.currency"@, "Currency is required"@);
    r.issue_if(blank(e.custodian), "$.custodian"@, "Escrow custodian is required"@)
}

/// The amount, asset and reference rules of an escrow.
pub open spec fn escrow_terms_report(r: Report, e: EscrowView) -> Report {
    let r = r.issue_if(le_zero(e.amount), "$.amount"@, "Escrow amount must be greater than zero"@);
    let r = match e.asset {
        Some(a) => if blank(a) {
            r.issue_if(true, "$.asset"@, "Escrow asset is empty"@)
        } else {
            r.issue_if(a != e.currency, "$.asset"@, "Escrow asset must match currency"@)
        },
        None => r.issue_if(
            true,
            "$.asset"@,
            "Escrow record requires asset for review-4 settlement compatibility"@,
        ),
    };
    let r = r.warn_if(
        !has_prefix(e.package_ref, "bzz://"@),
        "$.packageRef"@,
        "Escrow packageRef is not a bzz:// reference"@,
    );
    let r = r.issue_if(
        e.evidence_refs.len() == 0,
        "$.evidenceRefs"@,
        "Escrow record requires authorization/payment evidence refs"@,
    );
    let r = r.references(
        e.evidence_refs,
        "$.evidenceRefs["@,
        "]"@,
        "Evidence reference must not be empty"@,
        "Evidence reference is not a recognized marketplace reference"@,
    );
    let r = r.optional_reference(
        e.escrow_ref,
        "$.escrowRef"@,
        "Escrow ref is empty"@,
        "Escrow ref is not a recognized marketplace reference"@,
    );
    r.warn_if(
        e.payment_ref matches Some(p) && !marketplace_ref(p),
        "$.paymentRef"@,
        "Payment ref is not a recognized marketplace reference"@,
    )
}

/// An optional timestamp that is present but unparsable.
pub open spec fn bad_time(t: Option<Seq<char>>) -> bool {
    t matches Some(x) && rfc3339_instant(x) is None
}

/// Whether an escrow in this status still holds funds, so that its expiry
/// matters.
pub open spec fn holds_funds(s: EscrowStatusV1) -> bool {
    s == EscrowStatusV1::Created || s == EscrowStatusV1::Locked || s == EscrowStatusV1::Disputed
}

/// The time rules of an escrow, judged at `now`.
pub open spec fn escrow_time_report(r: Report, e: EscrowView, now: Instant) -> Report {
    let created = rfc3339_instant(e.created_at);
    let expires = rfc3339_instant(e.expires_at);
    let r = r.issue_if(created is None, "$.createdAt"@, "Escrow createdAt timestamp must be RFC3339"@);
    let r = r.issue_if(expires is None, "$.expiresAt"@, "Escrow expiration must be RFC3339"@);
    let r = match (created, expires) {
        (Some(c), Some(x)) => {
            let r = r.issue_if(
                before(x, c),
                "$.createdAt"@,
                "Escrow createdAt timestamp is after expiration"@,
            );
            r.issue_if(holds_funds(e.status) && before(x, now), "$.expiresAt"@, "Escrow has expired"@)
        },
        _ => r,
    };
    let r = r.issue_if(
        bad_time(e.locked_at),
        "$.lockedAt"@,
        "Escrow lockedAt timestamp must be RFC3339"@,
    );
    let r = r.issue_if(
        bad_time(e.released_at),
        "$.releasedAt"@,
        "Escrow releasedAt timestamp must be RFC3339"@,
    );
    let r = r.issue_if(
        bad_time(e.refunded_at),
        "$.refundedAt"@,
        "Escrow refundedAt timestamp must be RFC3339"@,
    );
    r.issue_if(
        bad_time(e.cancelled_at),
        "$.cancelledAt"@,
        "Escrow cancelledAt timestamp must be RFC3339"@,
    )
}

/// What each escrow status requires of the record.
pub open spec fn escrow_status_report(r: Report, e: EscrowView) -> Report {
    match e.status {
        EscrowStatusV1::Locked => r.issue_if(
            e.locked_at is None,
            "$.lockedAt"@,
            "Locked escrow records require lockedAt"@,
        ),
        EscrowStatusV1::Released => {
            let r = r.issue_if(
                e.released_at is None,
                "$.releasedAt"@,
                "Released escrow records require releasedAt"@,
            );
            r.issue_if(
                match e.settlement_id {
                    Some(s) => blank(s),
                    None => true,
                },
                "$.settlementId"@,
                "Released escrow records require settlementId"@,
            )
        },
        EscrowStatusV1::Refunded => r.issue_if(
            e.refunded_at is None,
            "$.refundedAt"@,
            "Refunded escrow records require refundedAt"@,
        ),
        EscrowStatusV1::Cancelled => r.issue_if(
            e.cancelled_at is None,
            "$.cancelledAt"@,
            "Cancelled escrow records require cancelledAt"@,
        ),
        EscrowStatusV1::Disputed => r.warn_if(
            e.evidence_refs.len() < 2,
            "$.evidenceRefs"@,
            "Disputed escrow records should include dispute evidence refs"@,
        ),
        _ => r,
    }
}

/// The rules that hold an escrow to its payment authorization.
pub open spec fn escrow_authorization_match_report(
    r: Report,
    e: EscrowView,
    a: AuthorizationView,
    amount_differs: bool,
) -> Report {
    escrow_authorization_terms_report(escrow_authorization_ids_report(r, e, a), e, a, amount_differs)
}

/// The rules that hold an escrow's identifiers to its payment authorization.
pub open spec fn escrow_authorization_ids_report(r: Report, e: EscrowView, a: AuthorizationView) -> Report {
    let r = r.issue_if(
        e.authorization_id != a.authorization_id,
        "$.authorizationId"@,
        "Escrow authorizationId must match payment authorization"@,
    );
    let r = r.issue_if(e.quote_id != a.quote_id, "$.quoteId"@, "Escrow quoteId must match payment authorization"@);
    let r = r.issue_if(
        e.request_id != a.request_id,
        "$.requestId"@,
        "Escrow requestId must match payment authorization"@,
    );
    let r = r.issue_if(e.offer_id != a.offer_id, "$.offerId"@, "Escrow offerId must match payment authorization"@);
    let r = r.issue_if(
        e.runner_id != a.runner_id,
        "$.runnerId"@,
        "Escrow runnerId must match payment authorization"@,
    );
    let r = r.issue_if(
        e.package_ref != a.package_ref,
        "$.packageRef"@,
        "Escrow packageRef must match payment authorization"@,
    );
    let r = r.issue_if(e.payer != a.payer, "$.payer"@, "Escrow payer must match payment authorization"@);
    let r = r.issue_if(e.payee != a.payee, "$.payee"@, "Escrow payee must match payment authorization"@);
    let r = r.issue_if(
        e.currency != a.currency,
        "$.currency"@,
        "Escrow currency must match payment authorization"@,
    );
    r.issue_if(
        e.expires_at != a.expires_at,
        "$.expiresAt"@,
        "Escrow expiresAt must match payment authorization"@,
    )
}

/// The rules that hold an escrow's job, amount, asset, adapter and
/// references to its payment authorization.
pub open spec fn escrow_authorization_terms_report(
    r: Report,
    e: EscrowView,
    a: AuthorizationView,
    amount_differs: bool,
) -> Report {
    let r = r.issue_if(e.job_id != a.job_id, "$.jobId"@, "Escrow jobId must match payment authorization"@);
    let r = r.issue_if(
        amount_differs,
        "$.amount"@,
        "Escrow amount must match payment authorization amount"@,
    );
    let r = r.issue_if(
        e.asset != a.asset,
        "$.asset"@,
        "Escrow asset must match payment authorization asset"@,
    );
    let r = r.issue_if(
        e.adapter != a.adapter,
        "$.adapter"@,
        "Escrow adapter must match payment authorization adapter"@,
    );
    let r = match a.escrow_ref {
        Some(x) => r.issue_if(
            e.escrow_ref != Some(x),
            "$.escrowRef"@,
            "Escrow ref must match payment authorization escrowRef"@,
        ),
        None => r.warn_if(
            true,
            "$.authorization.escrowRef"@,
            "Payment authorization did not include escrowRef; link escrow by authorizationId"@,
        ),
    };
    r.issue_if(
        e.payment_ref matches Some(p) && a.payment_ref matches Some(q) && p != q,
        "$.paymentRef"@,
        "Escrow paymentRef must match payment authorization paymentRef"@,
    )
}

/// The rules that hold an escrow to its service quote.
pub open spec fn escrow_quote_match_report(r: Report, e: EscrowView, q: ServiceQuoteV1, amount_differs: bool) -> Report {
    let r = r.issue_if(e.quote_id != q.quote_id@, "$.quoteId"@, "Escrow quoteId must match service quote"@);
    let r = r.issue_if(e.request_id != q.request_id@, "$.requestId"@, "Escrow requestId must match service quote"@);
    let r = r.issue_if(e.offer_id != q.offer_id@, "$.offerId"@, "Escrow offerId must match service quote"@);
    let r = r.issue_if(e.runner_id != q.runner_id@, "$.runnerId"@, "Escrow runnerId must match service quote"@);
    let r = r.issue_if(
        e.package_ref != q.package_ref@,
        "$.packageRef"@,
        "Escrow packageRef must match service quote"@,
    );
    let r = r.issue_if(e.currency != q.currency@, "$.currency"@, "Escrow currency must match service quote"@);
    let r = r.issue_if(
        e.expires_at != q.expires_at@,
        "$.expiresAt"@,
        "Escrow expiresAt must match service quote"@,
    );
    let r = r.issue_if(
        q.job_id matches Some(j) && e.job_id != Some(j@),
        "$.jobId"@,
        "Escrow jobId must match service quote jobId"@,
    );
    r.issue_if(amount_differs, "$.amount"@, "Escrow amount must match service quote estimatedCost"@)
}

pub open spec fn quote_of(q: Option<EscrowQuoteCheck>) -> Option<PaymentQuoteCheck> {
    match q {
        Some(x) => Some(x.quote),
        None => None,
    }
}

/// The findings of the escrow record rules, in the order they are applied.
pub open spec fn escrow_record_report(
    e: EscrowView,
    c: SignedContent,
    authorization: Option<EscrowAuthorizationCheck>,
    quote: Option<EscrowQuoteCheck>,
    now: Instant,
) -> Report {
    let r = Report::empty().issue_if(
        e.schema_version != ESCROW_RECORD_SCHEMA_VERSION@,
        "$.schemaVersion"@,
        "Expected schemaVersion to be hivemind.escrow_record.v1"@,
    );
    let r = r.record_id(
        e.escrow_id,
        e.signature,
        c.canonical_id@,
        "$.escrowId"@,
        "Escrow id is required"@,
        "Escrow id does not match canonical signed content"@,
    );
    let r = escrow_required_report(r, e);
    let r = escrow_terms_report(r, e);
    let r = escrow_time_report(r, e, now);
    let r = escrow_status_report(r, e);
    let r = match authorization {
        Some(a) => {
            let r = r.issue_if(
                !payment_authorization_report(
                    a.authorization@,
                    a.content,
                    quote_of(quote),
                    a.exceeds_max,
                    now,
                ).valid(),
                "$.authorization"@,
                "Referenced payment authorization does not verify"@,
            );
            escrow_authorization_match_report(r, e, a.authorization@, a.amount_differs)
        },
        None => r,
    };
    let r = match quote {
        Some(q) => {
            let r = r.issue_if(
                !service_quote_report(
                    q.quote.quote,
                    q.quote.content,
                    None,
                    q.quote.price_estimate_differs,
                    now,
                ).valid(),
                "$.quote"@,
                "Referenced service quote does not verify"@,
            );
            escrow_quote_match_report(r, e, q.quote.quote, q.amount_differs)
        },
        None => r,
    };
    r.signature(
        e.signature,
        c.dev_signature@,
        identity_view(c.identity_check),
        "Escrow signature does not match canonical dev signature or Ed25519 identity envelope"@,
        "Escrow record is unsigned; verify escrowId through a trusted source"@,
    )
}

fn escrow_required(f: &mut Findings, e: &EscrowRecordV1)
    ensures
        final(f)@ == escrow_required_report(old(f)@, e@),
{
    f.required(e.authorization_id.as_str(), "$.authorizationId", "Payment authorization id is required");
    f.required(e.quote_id.as_str(), "$.quoteId", "Quote id is required");
    f.required(e.request_id.as_str(), "$.requestId", "Request id is required");
    f.required(e.offer_id.as_str(), "$.offerId", "Offer id is required");
    f.required(e.runner_id.as_str(), "$.runnerId", "Runner id is required");
    f.required(e.package_ref.as_str(), "$.packageRef", "Package ref is required");
    f.required(e.payer.as_str(), "$.payer", "Payer is required");
    f.required(e.payee.as_str(), "$.payee", "Payee is required");
    f.required(e.currency.as_str(), "$.currency", "Currency is required");
    f.required(e.custodian.as_str(), "$.custodian", "Escrow custodian is required");
}

fn escrow_terms(f: &mut Findings, e: &EscrowRecordV1)
    ensures
        final(f)@ == escrow_terms_report(old(f)@, e@),
{
    f.issue_if(f64_le_zero(e.amount), "$.amount", "Escrow amount must be greater than zero");
    match &e.asset {
        Some(a) => {
            if is_blank(a.as_str()) {
                f.issue_if(true, "$.asset", "Escrow asset is empty");
            } else {
                f.issue_if(
                    !text_eq(a.as_str(), e.currency.as_str()),
                    "$.asset",
                    "Escrow asset must match currency",
                );
            }
        },
        None => f.issue_if(
            true,
            "$.asset",
            "Escrow record requires asset for review-4 settlement compatibility",
        ),
    }
    f.warn_if(
        !starts_with(e.package_ref.as_str(), "bzz://"),
        "$.packageRef",
        "Escrow packageRef is not a bzz:// reference",
    );
    f.issue_if(
        e.evidence_refs.len() == 0,
        "$.evidenceRefs",
        "Escrow record requires authorization/payment evidence refs",
    );
    f.references(
        &e.evidence_refs,
        "$.evidenceRefs[",
        "]",
        "Evidence reference must not be empty",
        "Evidence reference is not a recognized marketplace reference",
    );
    f.optional_reference(
        &e.escrow_ref,
        "$.escrowRef",
        "Escrow ref is empty",
        "Escrow ref is not a recognized marketplace reference",
    );
    let odd_payment = match &e.payment_ref {
        Some(p) => !looks_like_marketplace_ref(p.as_str()),
        None => false,
    };
    f.warn_if(odd_payment, "$.paymentRef", "Payment ref is not a recognized marketplace reference");
}

fn bad_time_of(t: &Option<String>) -> (r: bool)
    ensures
        r == bad_time(opt_view(*t)),
{
    match t {
        Some(x) => parse_rfc3339(x.as_str()).is_none(),
        None => false,
    }
}

fn escrow_time(f: &mut Findings, e: &EscrowRecordV1, now: Instant)
    ensures
        final(f)@ == escrow_time_report(old(f)@, e@, now),
{
    let created = parse_rfc3339(e.created_at.as_str());
    let expires = parse_rfc3339(e.expires_at.as_str());
    f.issue_if(created.is_none(), "$.createdAt", "Escrow createdAt timestamp must be RFC3339");
    f.issue_if(expires.is_none(), "$.expiresAt", "Escrow expiration must be RFC3339");
    f.issue_if(
        out_of_order(created, expires),
        "$.createdAt",
        "Escrow createdAt timestamp is after expiration",
    );
    if created.is_some() {
        let holding = e.status == EscrowStatusV1::Created || e.status == EscrowStatusV1::Locked
            || e.status == EscrowStatusV1::Disputed;
        let expired = passed_before(expires, now) == Some(true);
        f.issue_if(holding && expired, "$.expiresAt", "Escrow has expired");
    }
    f.issue_if(bad_time_of(&e.locked_at), "$.lockedAt", "Escrow lockedAt timestamp must be RFC3339");
    f.issue_if(
        bad_time_of(&e.released_at),
        "$.releasedAt",
        "Escrow releasedAt timestamp must be RFC3339",
    );
    f.issue_if(
        bad_time_of(&e.refunded_at),
        "$.refundedAt",
        "Escrow refundedAt timestamp must be RFC3339",
    );
    f.issue_if(
        bad_time_of(&e.cancelled_at),
        "$.cancelledAt",
        "Escrow cancelledAt timestamp must be RFC3339",
    );
}

fn escrow_status(f: &mut Findings, e: &EscrowRecordV1)
    ensures
        final(f)@ == escrow_status_report(old(f)@, e@),
{
    match e.status {
        EscrowStatusV1::Locked => f.issue_if(
            e.locked_at.is_none(),
            "$.lockedAt",
            "Locked escrow records require lockedAt",
        ),
        EscrowStatusV1::Released => {
            f.issue_if(
                e.released_at.is_none(),
                "$.releasedAt",
                "Released escrow records require releasedAt",
            );
            let missing = match &e.settlement_id {
                Some(s) => is_blank(s.as_str()),
                None => true,
            };
            f.issue_if(missing, "$.settlementId", "Released escrow records require settlementId");
        },
        EscrowStatusV1::Refunded => f.issue_if(
            e.refunded_at.is_none(),
            "$.refundedAt",
            "Refunded escrow records require refundedAt",
        ),
        EscrowStatusV1::Cancelled => f.issue_if(
            e.cancelled_at.is_none(),
            "$.cancelledAt",
            "Cancelled escrow records require cancelledAt",
        ),
        EscrowStatusV1::Disputed => f.warn_if(
            e.evidence_refs.len() < 2,
            "$.evidenceRefs",
            "Disputed escrow records should include dispute evidence refs",
        ),
        _ => {},
    }
}

fn escrow_authorization_ids(e: &EscrowRecordV1, a: &PaymentAuthorizationV1, f: &mut Findings)
    ensures
        final(f)@ == escrow_authorization_ids_report(old(f)@, e@, a@),
{
    f.issue_if(
        !text_eq(e.authorization_id.as_str(), a.authorization_id.as_str()),
        "$.authorizationId",
        "Escrow authorizationId must match payment authorization",
    );
    f.issue_if(
        !text_eq(e.quote_id.as_str(), a.quote_id.as_str()),
        "$.quoteId",
        "Escrow quoteId must match payment authorization",
    );
    f.issue_if(
        !text_eq(e.request_id.as_str(), a.request_id.as_str()),
        "$.requestId",
        "Escrow requestId must match payment authorization",
    );
    f.issue_if(
        !text_eq(e.offer_id.as_str(), a.offer_id.as_str()),
        "$.offerId",
        "Escrow offerId must match payment authorization",
    );
    f.issue_if(
        !text_eq(e.runner_id.as_str(), a.runner_id.as_str()),
        "$.runnerId",
        "Escrow runnerId must match payment authorization",
    );
    f.issue_if(
        !text_eq(e.package_ref.as_str(), a.package_ref.as_str()),
        "$.packageRef",
        "Escrow packageRef must match payment authorization",
    );
    f.issue_if(
        !text_eq(e.payer.as_str(), a.payer.as_str()),
        "$.payer",
        "Escrow payer must match payment authorization",
    );
    f.issue_if(
        !text_eq(e.payee.as_str(), a.payee.as_str()),
        "$.payee",
        "Escrow payee must match payment authorization",
    );
    f.issue_if(
        !text_eq(e.currency.as_str(), a.currency.as_str()),
        "$.currency",
        "Escrow currency must match payment authorization",
    );
    f.issue_if(
        !text_eq(e.expires_at.as_str(), a.expires_at.as_str()),
        "$.expiresAt",
        "Escrow expiresAt must match payment authorization",
    );
}

/// Applies the rules that hold an escrow to its payment authorization.
/// `amount_differs` is whether the two amounts differ by more than 1e-7.
pub fn verify_escrow_matches_authorization(
    e: &EscrowRecordV1,
    a: &PaymentAuthorizationV1,
    amount_differs: bool,
    f: &mut Findings,
)
    ensures
        final(f)@ == escrow_authorization_match_report(old(f)@, e@, a@, amount_differs),
{
    escrow_authorization_ids(e, a, f);
    f.issue_if(
        !opt_text_eq(&e.job_id, &a.job_id),
        "$.jobId",
        "Escrow jobId must match payment authorization",
    );
    f.issue_if(amount_differs, "$.amount", "Escrow amount must match payment authorization amount");
    f.issue_if(
        !opt_text_eq(&e.asset, &a.asset),
        "$.asset",
        "Escrow asset must match payment authorization asset",
    );
    f.issue_if(
        e.adapter != a.adapter,
        "$.adapter",
        "Escrow adapter must match payment authorization adapter",
    );
    match &a.escrow_ref {
        Some(_) => f.issue_if(
            !opt_text_eq(&e.escrow_ref, &a.escrow_ref),
            "$.escrowRef",
            "Escrow ref must match payment authorization escrowRef",
        ),
        None => f.warn_if(
            true,
            "$.authorization.escrowRef",
            "Payment authorization did not include escrowRef; link escrow by authorizationId",
        ),
    }
    let payment_mismatch = match (&e.payment_ref, &a.payment_ref) {
        (Some(p), Some(q)) => !text_eq(p.as_str(), q.as_str()),
        _ => false,
    };
    f.issue_if(
        payment_mismatch,
        "$.paymentRef",
        "Escrow paymentRef must match payment authorization paymentRef",
    );
}

/// Applies the rules that hold an escrow to its service quote.
/// `amount_differs` is whether the escrow's amount differs from the quote's
/// estimated cost by more than 1e-7.
pub fn verify_escrow_matches_quote(
    e: &EscrowRecordV1,
    q: &ServiceQuoteV1,
    amount_differs: bool,
    f: &mut Findings,
)
    ensures
        final(f)@ == escrow_quote_match_report(old(f)@, e@, *q, amount_differs),
{
    f.issue_if(
        !text_eq(e.quote_id.as_str(), q.quote_id.as_str()),
        "$.quoteId",
        "Escrow quoteId must match service quote",
    );
    f.issue_if(
        !text_eq(e.request_id.as_str(), q.request_id.as_str()),
        "$.requestId",
        "Escrow requestId must match service quote",
    );
    f.issue_if(
        !text_eq(e.offer_id.as_str(), q.offer_id.as_str()),
        "$.offerId",
        "Escrow offerId must match service quote",
    );
    f.issue_if(
        !text_eq(e.runner_id.as_str(), q.runner_id.as_str()),
        "$.runnerId",
        "Escrow runnerId must match service quote",
    );
    f.issue_if(
        !text_eq(e.package_ref.as_str(), q.package_ref.as_str()),
        "$.packageRef",
        "Escrow packageRef must match service quote",
    );
    f.issue_if(
        !text_eq(e.currency.as_str(), q.currency.as_str()),
        "$.currency",
        "Escrow currency must match service quote",
    );
    f.issue_if(
        !text_eq(e.expires_at.as_str(), q.expires_at.as_str()),
        "$.expiresAt",
        "Escrow expiresAt must match service quote",
    );
    let job_mismatch = match &q.job_id {
        Some(j) => match &e.job_id {
            Some(k) => !text_eq(k.as_str(), j.as_str()),
            None => true,
        },
        None => false,
    };
    f.issue_if(job_mismatch, "$.jobId", "Escrow jobId must match service quote jobId");
    f.issue_if(amount_differs, "$.amount", "Escrow amount must match service quote estimatedCost");
}


/// `v` is the verification of the escrow's payment authorization `a`, checked
/// against the escrow's quote when one is given, at `now`.
pub open spec fn authorization_verification_of(
    v: PaymentAuthorizationVerificationV1,
    a: EscrowAuthorizationCheck,
    quote: Option<EscrowQuoteCheck>,
    now: Instant,
) -> bool {
    let q = match quote {
        Some(q) => Some(q.quote),
        None => None,
    };
    let report = payment_authorization_report(a.authorization@, a.content, q, a.exceeds_max, now);
    &&& v.authorization_id@ == a.authorization.authorization_id@
    &&& v.valid == report.valid()
    &&& issues_view(v.issues@) == report.issues
    &&& issues_view(v.warnings@) == report.warnings
}

fn escrow_findings(
    e: &EscrowRecordV1,
    c: &SignedContent,
    authorization: Option<&EscrowAuthorizationCheck>,
    quote: Option<&EscrowQuoteCheck>,
    now: Instant,
    verified_at: &String,
) -> (r: (Findings, Option<PaymentAuthorizationVerificationV1>, String))
    ensures
        r.0@ == escrow_record_report(
            e@,
            *c,
            match authorization { Some(a) => Some(*a), None => None },
            match quote { Some(q) => Some(*q), None => None },
            now,
        ),
        match r.1 {
            Some(v) => authorization matches Some(a) && authorization_verification_of(
                v,
                *a,
                match quote { Some(q) => Some(*q), None => None },
                now,
            ),
            None => authorization is None,
        },
        r.2@ == expected_signature(e@.signature, c.dev_signature@, identity_view(c.identity_check)),
{
    let mut f = Findings::new();
    f.issue_if(
        !text_eq(e.schema_version.as_str(), ESCROW_RECORD_SCHEMA_VERSION),
        "$.schemaVersion",
        "Expected schemaVersion to be hivemind.escrow_record.v1",
    );
    f.record_id(
        e.escrow_id.as_str(),
        &e.signature,
        c.canonical_id.as_str(),
        "$.escrowId",
        "Escrow id is required",
        "Escrow id does not match canonical signed content",
    );
    escrow_required(&mut f, e);
    escrow_terms(&mut f, e);
    escrow_time(&mut f, e, now);
    escrow_status(&mut f, e);
    let quote_check: Option<&PaymentQuoteCheck> = match quote {
        Some(q) => Some(&q.quote),
        None => None,
    };
    let pav = match authorization {
        Some(a) => {
            let v = verify_payment_authorization(
                &a.authorization,
                &a.content,
                quote_check,
                a.exceeds_max,
                now,
                verified_at.clone(),
            );
            f.issue_if(!v.valid, "$.authorization", "Referenced payment authorization does not verify");
            verify_escrow_matches_authorization(e, &a.authorization, a.amount_differs, &mut f);
            Some(v)
        },
        None => None,
    };
    match quote {
        Some(q) => {
            let qv = verify_service_quote(
                &q.quote.quote,
                &q.quote.content,
                None,
                q.quote.price_estimate_differs,
                now,
                verified_at.clone(),
            );
            f.issue_if(!qv.valid, "$.quote", "Referenced service quote does not verify");
            verify_escrow_matches_quote(e, &q.quote.quote, q.amount_differs, &mut f);
        },
        None => {},
    }
    let expected = f.signature(
        &e.signature,
        c,
        "Escrow signature does not match canonical dev signature or Ed25519 identity envelope",
        "Escrow record is unsigned; verify escrowId through a trusted source",
    );
    (f, pav, expected)
}

/// Checks an escrow record against the escrow rules and, when given, against
/// its payment authorization and its service quote. `content` carries the
/// canonical id and development signature of the record's signing value and,
/// for an identity-enveloped signature, the envelope check (signed by the
/// custodian); `now` is the time expiry is judged against and `verified_at`
/// the time of the check.
pub fn verify_escrow_record(
    escrow: &EscrowRecordV1,
    content: &SignedContent,
    authorization: Option<&EscrowAuthorizationCheck>,
    quote: Option<&EscrowQuoteCheck>,
    now: Instant,
    verified_at: String,
) -> (r: EscrowRecordVerificationV1)
    ensures
        r.schema_version@ == ESCROW_RECORD_VERIFICATION_SCHEMA_VERSION@,
        r.escrow_id@ == escrow.escrow_id@,
        issues_view(r.issues@) == escrow_record_report(
            escrow@,
            *content,
            match authorization { Some(a) => Some(*a), None => None },
            match quote { Some(q) => Some(*q), None => None },
            now,
        ).issues,
        issues_view(r.warnings@) == escrow_record_report(
            escrow@,
            *content,
            match authorization { Some(a) => Some(*a), None => None },
            match quote { Some(q) => Some(*q), None => None },
            now,
        ).warnings,
        r.valid == escrow_record_report(
            escrow@,
            *content,
            match authorization { Some(a) => Some(*a), None => None },
            match quote { Some(q) => Some(*q), None => None },
            now,
        ).valid(),
        match r.payment_authorization_verification {
            Some(v) => authorization matches Some(a) && authorization_verification_of(
                v,
                *a,
                match quote { Some(q) => Some(*q), None => None },
                now,
            ),
            None => authorization is None,
        },
        r.expected_signature matches Some(e) && e@ == expected_signature(
            escrow@.signature,
            content.dev_signature@,
            identity_view(content.identity_check),
        ),
        r.verified_at@ == verified_at@,
{
    let (f, pav, expected) = escrow_findings(escrow, content, authorization, quote, now, &verified_at);
    let valid = f.is_valid();
    EscrowRecordVerificationV1 {
        schema_version: String::from_str(ESCROW_RECORD_VERIFICATION_SCHEMA_VERSION),
        escrow_id: escrow.escrow_id.clone(),
        valid,
        issues: f.issues,
        warnings: f.warnings,
        payment_authorization_verification: pav,
        expected_signature: Some(expected),
        verified_at,
    }
}

// ---------------------------------------------------------------------------
// Creating an escrow

/// The escrow reference of an authorization: its own, else a local one
/// named after the authorization.
pub open spec fn escrow_ref_for(a: AuthorizationView) -> Seq<char> {
    match a.escrow_ref {
        Some(e) => e,
        None => "local://escrow/"@ + a.authorization_id,
    }
}

/// The evidence an escrow created from an authorization starts with: the
/// authorization, the quote when given, the payment reference, the escrow
/// reference, then the caller's references; each trimmed, without blanks or
/// repeats.
pub open spec fn escrow_evidence(
    a: AuthorizationView,
    quote_id: Option<Seq<char>>,
    extra: Seq<Seq<char>>,
) -> Seq<Seq<char>> {
    let r = push_ref(seq![], "local://payment-authorization/"@ + a.authorization_id);
    let r = match quote_id {
        Some(q) => push_ref(r, "local://quote/"@ + q),
        None => r,
    };
    let r = match a.payment_ref {
        Some(p) => push_ref(r, p),
        None => r,
    };
    let r = push_ref(r, escrow_ref_for(a));
    merge_refs(r, extra)
}

/// The escrow record a custodian creates for an authorization at `now`,
/// before signing: locked, with the authorization's terms.
pub open spec fn created_escrow(
    a: AuthorizationView,
    quote_id: Option<Seq<char>>,
    custodian: Seq<char>,
    extra: Seq<Seq<char>>,
    now: Seq<char>,
) -> EscrowView {
    EscrowView {
        schema_version: ESCROW_RECORD_SCHEMA_VERSION@,
        escrow_id: seq![],
        authorization_id: a.authorization_id,
        quote_id: a.quote_id,
        job_id: a.job_id,
        request_id: a.request_id,
        offer_id: a.offer_id,
        runner_id: a.runner_id,
        package_ref: a.package_ref,
        payer: a.payer,
        payee: a.payee,
        amount: a.amount,
        currency: a.currency,
        asset: a.asset,
        adapter: a.adapter,
        status: EscrowStatusV1::Locked,
        custodian,
        payment_ref: a.payment_ref,
        escrow_ref: Some(escrow_ref_for(a)),
        settlement_id: None,
        evidence_refs: escrow_evidence(a, quote_id, extra),
        created_at: now,
        expires_at: a.expires_at,
        locked_at: Some(now),
        released_at: None,
        refunded_at: None,
        cancelled_at: None,
        reason: Some("funds locked for verified settlement"@),
        signature: None,
    }
}

/// Creates the escrow record that locks the funds of an authorization at
/// `now`, citing the quote when given. The record is returned unsigned.
pub fn create_escrow_record(
    authorization: &PaymentAuthorizationV1,
    quote: Option<&ServiceQuoteV1>,
    custodian: String,
    evidence_refs: Vec<String>,
    now: String,
) -> (r: EscrowRecordV1)
    ensures
        r@ == created_escrow(
            authorization@,
            match quote { Some(q) => Some(q.quote_id@), None => None },
            custodian@,
            evidence_refs.deep_view(),
            now@,
        ),
{
    let a = authorization;
    let escrow_ref = match &a.escrow_ref {
        Some(e) => e.clone(),
        None => {
            let mut e = String::from_str("local://escrow/");
            e.append(a.authorization_id.as_str());
            e
        },
    };
    let mut refs: Vec<String> = Vec::new();
    let mut pa = String::from_str("local://payment-authorization/");
    pa.append(a.authorization_id.as_str());
    proof {
        assert(refs.deep_view() =~= Seq::<Seq<char>>::empty());
    }
    push_evidence_ref(&mut refs, pa.as_str());
    match quote {
        Some(q) => {
            let mut qr = String::from_str("local://quote/");
            qr.append(q.quote_id.as_str());
            push_evidence_ref(&mut refs, qr.as_str());
        },
        None => {},
    }
    match &a.payment_ref {
        Some(p) => push_evidence_ref(&mut refs, p.as_str()),
        None => {},
    }
    push_evidence_ref(&mut refs, escrow_ref.as_str());
    merge_evidence_refs(&mut refs, &evidence_refs);
    EscrowRecordV1 {
        schema_version: String::from_str(ESCROW_RECORD_SCHEMA_VERSION),
        escrow_id: String::new(),
        authorization_id: a.authorization_id.clone(),
        quote_id: a.quote_id.clone(),
        job_id: copy_opt(&a.job_id),
        request_id: a.request_id.clone(),
        offer_id: a.offer_id.clone(),
        runner_id: a.runner_id.clone(),
        package_ref: a.package_ref.clone(),
        payer: a.payer.clone(),
        payee: a.payee.clone(),
        amount: a.amount,
        currency: a.currency.clone(),
        asset: copy_opt(&a.asset),
        adapter: a.adapter,
        status: EscrowStatusV1::Locked,
        custodian,
        payment_ref: copy_opt(&a.payment_ref),
        escrow_ref: Some(escrow_ref),
        settlement_id: None,
        evidence_refs: refs,
        created_at: now.clone(),
        expires_at: a.expires_at.clone(),
        locked_at: Some(now),
        released_at: None,
        refunded_at: None,
        cancelled_at: None,
        reason: Some(String::from_str("funds locked for verified settlement")),
        signature: None,
    }
}

// ---------------------------------------------------------------------------
// Releasing an escrow

/// An optional text, trimmed, with absence read as empty.
pub open spec fn trimmed_or_empty(o: Option<Seq<char>>) -> Seq<char> {
    match o {
        Some(t) => trimmed(t),
        None => seq![],
    }
}

/// The rules under which an escrow can be released for a settlement:
/// the escrow is locked or disputed, the settlement is settled, and the
/// settlement is for the escrow's authorization, quote, job, request,
/// package, runner, payer, payee, currency, amount and asset.
/// `amounts_differ` is whether the amounts differ by more than 1e-7.
pub open spec fn release_report(r: Report, e: EscrowView, s: SettlementView, amounts_differ: bool) -> Report {
    let r = r.issue_if(
        !(e.status == EscrowStatusV1::Locked || e.status == EscrowStatusV1::Disputed),
        "$.escrow.status"@,
        "Only locked or disputed escrow records can be released"@,
    );
    let r = r.issue_if(
        s.status != SettlementStatus::Settled,
        "$.settlement.status"@,
        "Escrow release requires a settled settlement event"@,
    );
    let r = r.issue_if(
        trimmed_or_empty(s.payment_authorization_id) != e.authorization_id,
        "$.settlement.paymentAuthorizationId"@,
        "Settlement paymentAuthorizationId must match escrow authorizationId"@,
    );
    let r = r.issue_if(
        trimmed_or_empty(s.quote_id) != e.quote_id,
        "$.settlement.quoteId"@,
        "Settlement quoteId must match escrow quoteId"@,
    );
    let r = r.issue_if(s.job_id != e.job_id, "$.settlement.jobId"@, "Settlement jobId must match escrow jobId"@);
    release_parties_report(r, e, s, amounts_differ)
}

pub open spec fn release_parties_report(r: Report, e: EscrowView, s: SettlementView, amounts_differ: bool) -> Report {
    let r = r.issue_if(
        s.request_id != e.request_id,
        "$.settlement.requestId"@,
        "Settlement requestId must match escrow requestId"@,
    );
    let r = r.issue_if(
        s.package_ref != e.package_ref,
        "$.settlement.packageRef"@,
        "Settlement packageRef must match escrow packageRef"@,
    );
    let r = r.issue_if(
        s.runner_id != e.runner_id,
        "$.settlement.runnerId"@,
        "Settlement runnerId must match escrow runnerId"@,
    );
    let r = r.issue_if(s.payer != e.payer, "$.settlement.payer"@, "Settlement payer must match escrow payer"@);
    let r = r.issue_if(s.payee != e.payee, "$.settlement.payee"@, "Settlement payee must match escrow payee"@);
    let r = r.issue_if(
        s.currency != e.currency,
        "$.settlement.currency"@,
        "Settlement currency must match escrow currency"@,
    );
    let r = r.issue_if(
        amounts_differ,
        "$.settlement.amount"@,
        "Settlement amount must match escrow amount"@,
    );
    r.issue_if(s.asset != e.asset, "$.settlement.asset"@, "Settlement asset must match escrow asset"@)
}

fn trimmed_or_empty_of(o: &Option<String>) -> (r: &str)
    ensures
        r@ == trimmed_or_empty(opt_view(*o)),
{
    match o {
        Some(t) => trim(t.as_str()),
        None => {
            proof {
                reveal_strlit("");
            }
            ""
        },
    }
}

fn release_parties(f: &mut Findings, e: &EscrowRecordV1, s: &SettlementEventV1, amounts_differ: bool)
    ensures
        final(f)@ == release_parties_report(old(f)@, e@, s@, amounts_differ),
{
    f.issue_if(
        !text_eq(s.request_id.as_str(), e.request_id.as_str()),
        "$.settlement.requestId",
        "Settlement requestId must match escrow requestId",
    );
    f.issue_if(
        !text_eq(s.package_ref.as_str(), e.package_ref.as_str()),
        "$.settlement.packageRef",
        "Settlement packageRef must match escrow packageRef",
    );
    f.issue_if(
        !text_eq(s.runner_id.as_str(), e.runner_id.as_str()),
        "$.settlement.runnerId",
        "Settlement runnerId must match escrow runnerId",
    );
    f.issue_if(
        !text_eq(s.payer.as_str(), e.payer.as_str()),
        "$.settlement.payer",
        "Settlement payer must match escrow payer",
    );
    f.issue_if(
        !text_eq(s.payee.as_str(), e.payee.as_str()),
        "$.settlement.payee",
        "Settlement payee must match escrow payee",
    );
    f.issue_if(
        !text_eq(s.currency.as_str(), e.currency.as_str()),
        "$.settlement.currency",
        "Settlement currency must match escrow currency",
    );
    f.issue_if(amounts_differ, "$.settlement.amount", "Settlement amount must match escrow amount");
    f.issue_if(
        !opt_text_eq(&s.asset, &e.asset),
        "$.settlement.asset",
        "Settlement asset must match escrow asset",
    );
}

/// Applies the rules under which an escrow can be released for a settlement.
/// `amounts_differ` is whether the amounts differ by more than 1e-7.
pub fn verify_escrow_can_release_for_settlement(
    escrow: &EscrowRecordV1,
    settlement: &SettlementEventV1,
    amounts_differ: bool,
    f: &mut Findings,
)
    ensures
        final(f)@ == release_report(old(f)@, escrow@, settlement@, amounts_differ),
{
    let e = escrow;
    let s = settlement;
    f.issue_if(
        !(e.status == EscrowStatusV1::Locked || e.status == EscrowStatusV1::Disputed),
        "$.escrow.status",
        "Only locked or disputed escrow records can be released",
    );
    f.issue_if(
        s.status != SettlementStatus::Settled,
        "$.settlement.status",
        "Escrow release requires a settled settlement event",
    );
    f.issue_if(
        !text_eq(trimmed_or_empty_of(&s.payment_authorization_id), e.authorization_id.as_str()),
        "$.settlement.paymentAuthorizationId",
        "Settlement paymentAuthorizationId must match escrow authorizationId",
    );
    f.issue_if(
        !text_eq(trimmed_or_empty_of(&s.quote_id), e.quote_id.as_str()),
        "$.settlement.quoteId",
        "Settlement quoteId must match escrow quoteId",
    );
    f.issue_if(
        !opt_text_eq(&s.job_id, &e.job_id),
        "$.settlement.jobId",
        "Settlement jobId must match escrow jobId",
    );
    release_parties(f, e, s, amounts_differ);
}

/// The findings of an escrow release request; `escrow_valid` and
/// `settlement_valid` are the outcomes of checking the escrow and the
/// settlement.
pub open spec fn release_request_report(
    req: EscrowReleaseRequestV1,
    escrow_valid: bool,
    settlement_valid: bool,
    amounts_differ: bool,
) -> Report {
    let r = Report::empty().issue_if(
        req.schema_version@ != ESCROW_RELEASE_REQUEST_SCHEMA_VERSION@,
        "$.schemaVersion"@,
        "Expected schemaVersion to be hivemind.escrow_release_request.v1"@,
    );
    let r = r.issue_if(blank(req.released_by@), "$.releasedBy"@, "Escrow release requires releasedBy"@);
    let r = r.issue_if(!escrow_valid, "$.escrow"@, "Escrow record must verify before release"@);
    let r = r.issue_if(
        !settlement_valid,
        "$.settlement"@,
        "Settlement event must verify before escrow release"@,
    );
    release_report(r, req.escrow@, req.settlement@, amounts_differ)
}

/// The escrow after its release for a settlement at `now`, before signing:
/// released, citing the settlement, with the release reason (the requested
/// one when not blank) and the settlement and the request's references added
/// to its evidence.
pub open spec fn released_escrow(
    e: EscrowView,
    s: SettlementView,
    reason: Option<Seq<char>>,
    extra: Seq<Seq<char>>,
    now: Seq<char>,
) -> EscrowView {
    EscrowView {
        escrow_id: seq![],
        status: EscrowStatusV1::Released,
        settlement_id: Some(s.settlement_id),
        released_at: Some(now),
        reason: Some(
            if reason matches Some(x) && !blank(x) {
                reason.unwrap()
            } else {
                "released for verified settlement"@
            },
        ),
        evidence_refs: merge_refs(
            push_ref(e.evidence_refs, "local://settlement/"@ + s.settlement_id),
            extra,
        ),
        signature: None,
        ..e
    }
}

/// The outcome of an escrow release before signing: the findings, the checks
/// of the escrow and the settlement, and, when nothing is at issue, the
/// released escrow to be signed.
#[derive(Debug, Clone)]
pub struct EscrowReleaseDraftV1 {
    pub issues: Vec<MarketplaceVerificationIssueV1>,
    pub warnings: Vec<MarketplaceVerificationIssueV1>,
    pub escrow: Option<EscrowRecordV1>,
    pub escrow_verification: EscrowRecordVerificationV1,
    pub settlement_verification: SettlementEventVerificationV1,
}

fn released_escrow_record(req: &EscrowReleaseRequestV1, now: &str) -> (r: EscrowRecordV1)
    ensures
        r@ == released_escrow(
            req.escrow@,
            req.settlement@,
            opt_view(req.reason),
            req.evidence_refs.deep_view(),
            now@,
        ),
{
    let e = &req.escrow;
    let mut refs = copy_texts(&e.evidence_refs);
    let mut sref = String::from_str("local://settlement/");
    sref.append(req.settlement.settlement_id.as_str());
    push_evidence_ref(&mut refs, sref.as_str());
    merge_evidence_refs(&mut refs, &req.evidence_refs);
    let reason = match &req.reason {
        Some(x) => if is_blank(x.as_str()) {
            String::from_str("released for verified settlement")
        } else {
            x.clone()
        },
        None => String::from_str("released for verified settlement"),
    };
    EscrowRecordV1 {
        schema_version: e.schema_version.clone(),
        escrow_id: String::new(),
        authorization_id: e.authorization_id.clone(),
        quote_id: e.quote_id.clone(),
        job_id: copy_opt(&e.job_id),
        request_id: e.request_id.clone(),
        offer_id: e.offer_id.clone(),
        runner_id: e.runner_id.clone(),
        package_ref: e.package_ref.clone(),
        payer: e.payer.clone(),
        payee: e.payee.clone(),
        amount: e.amount,
        currency: e.currency.clone(),
        asset: copy_opt(&e.asset),
        adapter: e.adapter,
        status: EscrowStatusV1::Released,
        custodian: e.custodian.clone(),
        payment_ref: copy_opt(&e.payment_ref),
        escrow_ref: copy_opt(&e.escrow_ref),
        settlement_id: Some(req.settlement.settlement_id.clone()),
        evidence_refs: refs,
        created_at: e.created_at.clone(),
        expires_at: e.expires_at.clone(),
        locked_at: copy_opt(&e.locked_at),
        released_at: Some(String::from_str(now)),
        refunded_at: copy_opt(&e.refunded_at),
        cancelled_at: copy_opt(&e.cancelled_at),
        reason: Some(reason),
        signature: None,
    }
}

/// Decides an escrow release: the escrow and the settlement are checked
/// (with their signed-content facts, at `now`), the release rules applied,
/// and, when nothing is at issue, the released escrow (released at
/// `released_at`) is returned to be signed. When something is at issue, the
/// escrow check's warnings follow the release's own. `amounts_differ` is
/// whether the settlement's and the escrow's amounts differ by more than
/// 1e-7.
pub fn release_escrow_for_settlement(
    request: &EscrowReleaseRequestV1,
    escrow_content: &SignedContent,
    settlement_content: &SignedContent,
    amounts_differ: bool,
    now: Instant,
    released_at: String,
    verified_at: String,
) -> (r: EscrowReleaseDraftV1)
    ensures
        r.escrow_verification.valid == escrow_record_report(
            request.escrow@,
            *escrow_content,
            None,
            None,
            now,
        ).valid(),
        issues_view(r.escrow_verification.warnings@) == escrow_record_report(
            request.escrow@,
            *escrow_content,
            None,
            None,
            now,
        ).warnings,
        issues_view(r.escrow_verification.issues@) == escrow_record_report(
            request.escrow@,
            *escrow_content,
            None,
            None,
            now,
        ).issues,
        r.settlement_verification.valid == settlement_event_report(
            request.settlement,
            *settlement_content,
        ).valid(),
        settlement_issues_view(r.settlement_verification.issues@) == settlement_event_report(
            request.settlement,
            *settlement_content,
        ).issues,
        settlement_issues_view(r.settlement_verification.warnings@) == settlement_event_report(
            request.settlement,
            *settlement_content,
        ).warnings,
        issues_view(r.issues@) == release_request_report(
            *request,
            r.escrow_verification.valid,
            r.settlement_verification.valid,
            amounts_differ,
        ).issues,
        issues_view(r.warnings@) == release_request_report(
            *request,
            r.escrow_verification.valid,
            r.settlement_verification.valid,
            amounts_differ,
        ).warnings + if r.issues.len() == 0 {
            Seq::<(Seq<char>, Seq<char>)>::empty()
        } else {
            issues_view(r.escrow_verification.warnings@)
        },
        r.escrow is Some <==> r.issues.len() == 0,
        r.escrow matches Some(x) ==> x@ == released_escrow(
            request.escrow@,
            request.settlement@,
            opt_view(request.reason),
            request.evidence_refs.deep_view(),
            released_at@,
        ),
{
    let mut f = Findings::new();
    f.issue_if(
        !text_eq(request.schema_version.as_str(), ESCROW_RELEASE_REQUEST_SCHEMA_VERSION),
        "$.schemaVersion",
        "Expected schemaVersion to be hivemind.escrow_release_request.v1",
    );
    f.required(request.released_by.as_str(), "$.releasedBy", "Escrow release requires releasedBy");
    let ev = verify_escrow_record(&request.escrow, escrow_content, None, None, now, verified_at.clone());
    f.issue_if(!ev.valid, "$.escrow", "Escrow record must verify before release");
    let sv = verify_settlement_event(&request.settlement, settlement_content, verified_at);
    f.issue_if(!sv.valid, "$.settlement", "Settlement event must verify before escrow release");
    verify_escrow_can_release_for_settlement(&request.escrow, &request.settlement, amounts_differ, &mut f);
    let Findings { issues, warnings } = f;
    let mut warnings = warnings;
    let escrow = if issues.len() == 0 {
        Some(released_escrow_record(request, released_at.as_str()))
    } else {
        let ghost w0 = issues_view(warnings@);
        let mut more = crate::findings::copy_issues(&ev.warnings);
        warnings.append(&mut more);
        assert(issues_view(warnings@) =~= w0 + issues_view(ev.warnings@));
        None
    };
    proof {
        if issues.len() == 0 {
            assert(issues_view(warnings@) =~= issues_view(warnings@) + Seq::<(Seq<char>, Seq<char>)>::empty());
        }
    }
    EscrowReleaseDraftV1 {
        issues,
        warnings,
        escrow,
        escrow_verification: ev,
        settlement_verification: sv,
    }
}

/// Completes an escrow release once the released escrow was signed: with the
/// signed escrow and its verification, that verification is the release's;
/// without one, the check of the escrow as it was. The release is valid when
/// there is a released escrow, nothing was at issue, and its verification
/// passed.
pub fn finish_escrow_release(
    draft: EscrowReleaseDraftV1,
    signed: Option<(EscrowRecordV1, EscrowRecordVerificationV1)>,
    verified_at: String,
) -> (r: EscrowReleaseResultV1)
    ensures
        r.schema_version@ == ESCROW_RELEASE_RESULT_SCHEMA_VERSION@,
        r.issues@ == draft.issues@,
        r.warnings@ == draft.warnings@,
        r.settlement_verification == draft.settlement_verification,
        r.verified_at@ == verified_at@,
        match signed {
            Some((x, v)) => {
                &&& r.escrow matches Some(y) && y@ == x@
                &&& r.escrow_verification == v
                &&& r.valid == (draft.issues.len() == 0 && v.valid)
            },
            None => {
                &&& r.escrow is None
                &&& r.escrow_verification == draft.escrow_verification
                &&& !r.valid
            },
        },
{
    let EscrowReleaseDraftV1 { issues, warnings, escrow: _, escrow_verification, settlement_verification } = draft;
    match signed {
        Some((x, v)) => {
            let valid = issues.len() == 0 && v.valid;
            EscrowReleaseResultV1 {
                schema_version: String::from_str(ESCROW_RELEASE_RESULT_SCHEMA_VERSION),
                escrow: Some(x),
                valid,
                issues,
                warnings,
                escrow_verification: v,
                settlement_verification,
                verified_at,
            }
        },
        None => EscrowReleaseResultV1 {
            schema_version: String::from_str(ESCROW_RELEASE_RESULT_SCHEMA_VERSION),
            escrow: None,
            valid: false,
            issues,
            warnings,
            escrow_verification,
            settlement_verification,
            verified_at,
        },
    }
}

/// An escrow is only released when the release is requested by someone, the
/// escrow and the settlement both verified, the escrow still holds the funds
/// (locked or disputed), the settlement is settled, and the settlement is for
/// the escrow's authorization, quote, job, request, package, runner, payer,
/// payee, currency, amount and asset.
#[verifier::rlimit(80)]
pub proof fn lemma_release_preconditions(
    req: EscrowReleaseRequestV1,
    escrow_valid: bool,
    settlement_valid: bool,
    amounts_differ: bool,
)
    requires
        release_request_report(req, escrow_valid, settlement_valid, amounts_differ).valid(),
    ensures
        !blank(req.released_by@),
        escrow_valid,
        settlement_valid,
        req.escrow.status == EscrowStatusV1::Locked || req.escrow.status == EscrowStatusV1::Disputed,
        req.settlement.status == SettlementStatus::Settled,
        trimmed_or_empty(opt_view(req.settlement.payment_authorization_id)) == req.escrow.authorization_id@,
        trimmed_or_empty(opt_view(req.settlement.quote_id)) == req.escrow.quote_id@,
        opt_view(req.settlement.job_id) == opt_view(req.escrow.job_id),
        req.settlement.request_id@ == req.escrow.request_id@,
        req.settlement.package_ref@ == req.escrow.package_ref@,
        req.settlement.runner_id@ == req.escrow.runner_id@,
        req.settlement.payer@ == req.escrow.payer@,
        req.settlement.payee@ == req.escrow.payee@,
        req.settlement.currency@ == req.escrow.currency@,
        !amounts_differ,
        opt_view(req.settlement.asset) == opt_view(req.escrow.asset),
{
    let e = req.escrow@;
    let st = req.settlement@;
    let r0 = Report::empty();
    let c1 = req.schema_version@ != ESCROW_RELEASE_REQUEST_SCHEMA_VERSION@;
    let r1 = r0.issue_if(c1, "$.schemaVersion"@, "Expected schemaVersion to be hivemind.escrow_release_request.v1"@);
    lemma_issue_count(r0, c1, "$.schemaVersion"@, "Expected schemaVersion to be hivemind.escrow_release_request.v1"@);
    let c2 = blank(req.released_by@);
    let r2 = r1.issue_if(c2, "$.releasedBy"@, "Escrow release requires releasedBy"@);
    lemma_issue_count(r1, c2, "$.releasedBy"@, "Escrow release requires releasedBy"@);
    let r3 = r2.issue_if(!escrow_valid, "$.escrow"@, "Escrow record must verify before release"@);
    lemma_issue_count(r2, !escrow_valid, "$.escrow"@, "Escrow record must verify before release"@);
    let r4 = r3.issue_if(!settlement_valid, "$.settlement"@, "Settlement event must verify before escrow release"@);
    lemma_issue_count(r3, !settlement_valid, "$.settlement"@, "Settlement event must verify before escrow release"@);
    let c5 = !(e.status == EscrowStatusV1::Locked || e.status == EscrowStatusV1::Disputed);
    let r5 = r4.issue_if(c5, "$.escrow.status"@, "Only locked or disputed escrow records can be released"@);
    lemma_issue_count(r4, c5, "$.escrow.status"@, "Only locked or disputed escrow records can be released"@);
    let c6 = st.status != SettlementStatus::Settled;
    let r6 = r5.issue_if(c6, "$.settlement.status"@, "Escrow release requires a settled settlement event"@);
    lemma_issue_count(r5, c6, "$.settlement.status"@, "Escrow release requires a settled settlement event"@);
    let c7 = trimmed_or_empty(st.payment_authorization_id) != e.authorization_id;
    let r7 = r6.issue_if(c7, "$.settlement.paymentAuthorizationId"@, "Settlement paymentAuthorizationId must match escrow authorizationId"@);
    lemma_issue_count(r6, c7, "$.settlement.paymentAuthorizationId"@, "Settlement paymentAuthorizationId must match escrow authorizationId"@);
    let c8 = trimmed_or_empty(st.quote_id) != e.quote_id;
    let r8 = r7.issue_if(c8, "$.settlement.quoteId"@, "Settlement quoteId must match escrow quoteId"@);
    lemma_issue_count(r7, c8, "$.settlement.quoteId"@, "Settlement quoteId must match escrow quoteId"@);
    let c9 = st.job_id != e.job_id;
    let r9 = r8.issue_if(c9, "$.settlement.jobId"@, "Settlement jobId must match escrow jobId"@);
    lemma_issue_count(r8, c9, "$.settlement.jobId"@, "Settlement jobId must match escrow jobId"@);
    let c10 = st.request_id != e.request_id;
    let r10 = r9.issue_if(c10, "$.settlement.requestId"@, "Settlement requestId must match escrow requestId"@);
    lemma_issue_count(r9, c10, "$.settlement.requestId"@, "Settlement requestId must match escrow requestId"@);
    let c11 = st.package_ref != e.package_ref;
    let r11 = r10.issue_if(c11, "$.settlement.packageRef"@, "Settlement packageRef must match escrow packageRef"@);
    lemma_issue_count(r10, c11, "$.settlement.packageRef"@, "Settlement packageRef must match escrow packageRef"@);
    let c12 = st.runner_id != e.runner_id;
    let r12 = r11.issue_if(c12, "$.settlement.runnerId"@, "Settlement runnerId must match escrow runnerId"@);
    lemma_issue_count(r11, c12, "$.settlement.runnerId"@, "Settlement runnerId must match escrow runnerId"@);
    let c13 = st.payer != e.payer;
    let r13 = r12.issue_if(c13, "$.settlement.payer"@, "Settlement payer must match escrow payer"@);
    lemma_issue_count(r12, c13, "$.settlement.payer"@, "Settlement payer must match escrow payer"@);
    let c14 = st.payee != e.payee;
    let r14 = r13.issue_if(c14, "$.settlement.payee"@, "Settlement payee must match escrow payee"@);
    lemma_issue_count(r13, c14, "$.settlement.payee"@, "Settlement payee must match escrow payee"@);
    let c15 = st.currency != e.currency;
    let r15 = r14.issue_if(c15, "$.settlement.currency"@, "Settlement currency must match escrow currency"@);
    lemma_issue_count(r14, c15, "$.settlement.currency"@, "Settlement currency must match escrow currency"@);
    let r16 = r15.issue_if(amounts_differ, "$.settlement.amount"@, "Settlement amount must match escrow amount"@);
    lemma_issue_count(r15, amounts_differ, "$.settlement.amount"@, "Settlement amount must match escrow amount"@);
    let c17 = st.asset != e.asset;
    lemma_issue_count(r16, c17, "$.settlement.asset"@, "Settlement asset must match escrow asset"@);
}

/// A released escrow is marked released for the settlement, at the release
/// time, keeps every evidence reference it had, in place, cites the
/// settlement, and cites every non-blank evidence reference of the release
/// request (trimmed).
pub proof fn lemma_released_escrow(
    e: EscrowView,
    s: SettlementView,
    reason: Option<Seq<char>>,
    extra: Seq<Seq<char>>,
    now: Seq<char>,
)
    ensures
        ({
            let x = released_escrow(e, s, reason, extra, now);
            &&& x.status == EscrowStatusV1::Released
            &&& x.settlement_id == Some(s.settlement_id)
            &&& x.released_at == Some(now)
            &&& x.amount == e.amount
            &&& x.payer == e.payer && x.payee == e.payee
            &&& forall|i: int| 0 <= i < e.evidence_refs.len() ==> #[trigger] x.evidence_refs[i] == e.evidence_refs[i]
            &&& x.evidence_refs.contains(trimmed("local://settlement/"@ + s.settlement_id))
            &&& forall|k: int|
                0 <= k < extra.len() && !blank(#[trigger] extra[k]) ==> x.evidence_refs.contains(
                    trimmed(extra[k]),
                )
        }),
{
    let t = "local://settlement/"@ + s.settlement_id;
    let pushed = push_ref(e.evidence_refs, t);
    crate::settlement::lemma_merge_refs(pushed, extra);
    crate::settlement::lemma_push_ref_facts(e.evidence_refs, t);
    assert(!blank(t)) by {
        reveal_strlit("local://settlement/");
        assert(t[0] == 'l');
    }
    let x = released_escrow(e, s, reason, extra, now);
    let j = choose|j: int| 0 <= j < pushed.len() && pushed[j] == trimmed(t);
    assert(x.evidence_refs[j] == trimmed(t));
    assert forall|i: int| 0 <= i < e.evidence_refs.len() implies #[trigger] x.evidence_refs[i] == e.evidence_refs[i] by {
        assert(pushed[i] == e.evidence_refs[i]);
    }
}

/// A new escrow is locked, holds its authorization's amount between the same
/// payer and payee, cites the authorization, and lists no evidence reference
/// twice.
pub proof fn lemma_created_escrow(
    a: AuthorizationView,
    quote_id: Option<Seq<char>>,
    custodian: Seq<char>,
    extra: Seq<Seq<char>>,
    now: Seq<char>,
)
    ensures
        ({
            let x = created_escrow(a, quote_id, custodian, extra, now);
            &&& x.status == EscrowStatusV1::Locked
            &&& x.amount == a.amount && x.payer == a.payer && x.payee == a.payee
            &&& x.evidence_refs.contains(trimmed("local://payment-authorization/"@ + a.authorization_id))
            &&& crate::settlement::distinct_refs(x.evidence_refs)
        }),
{
    let t = "local://payment-authorization/"@ + a.authorization_id;
    let empty = Seq::<Seq<char>>::empty();
    crate::settlement::lemma_push_ref_facts(empty, t);
    assert(!blank(t)) by {
        reveal_strlit("local://payment-authorization/");
        assert(t[0] == 'l');
    }
    let r0 = push_ref(empty, t);
    assert(crate::settlement::distinct_refs(empty));
    let r1 = match quote_id {
        Some(q) => push_ref(r0, "local://quote/"@ + q),
        None => r0,
    };
    match quote_id {
        Some(q) => crate::settlement::lemma_push_ref_facts(r0, "local://quote/"@ + q),
        None => {},
    }
    let r2 = match a.payment_ref {
        Some(p) => push_ref(r1, p),
        None => r1,
    };
    match a.payment_ref {
        Some(p) => crate::settlement::lemma_push_ref_facts(r1, p),
        None => {},
    }
    let r3 = push_ref(r2, escrow_ref_for(a));
    crate::settlement::lemma_push_ref_facts(r2, escrow_ref_for(a));
    crate::settlement::lemma_merge_refs(r3, extra);
    let x = created_escrow(a, quote_id, custodian, extra, now);
    let j0 = choose|j: int| 0 <= j < r0.len() && r0[j] == trimmed(t);
    assert(r1[j0] == trimmed(t));
    assert(r2[j0] == trimmed(t));
    assert(r3[j0] == trimmed(t));
    assert(x.evidence_refs[j0] == trimmed(t));
}


/// The identity envelope of a EscrowRecordV1's signature: context `escrow-record`, signed by
/// its custodian.
pub fn escrow_record_envelope(escrow: &EscrowRecordV1) -> (r: EnvelopeSubject)
    ensures
        r.context@ == "escrow-record"@,
        opt_view(r.signer) == Some(escrow.custodian@),
{
    envelope_subject("escrow-record", escrow.custodian.as_str())
}


/// Puts on a EscrowRecordV1 a signature that `subject` made over its signed content,
/// with `escrow_id` the canonical id of that content: refused, leaving the record
/// unchanged, when `subject` is not the record's custodian.
pub fn seal_escrow_record(escrow: &mut EscrowRecordV1, subject: &str, escrow_id: String, signature: String) -> (ok: bool)
    ensures
        ok == (subject@ == old(escrow).custodian@),
        ok ==> *final(escrow) == (EscrowRecordV1 { escrow_id, signature: Some(signature), ..*old(escrow) }),
        !ok ==> *final(escrow) == *old(escrow),
{
    if !text_eq(subject, escrow.custodian.as_str()) {
        return false;
    }
    escrow.escrow_id = escrow_id;
    escrow.signature = Some(signature);
    true
}

} // verus!
