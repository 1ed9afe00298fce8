//! Settling a verified execution receipt: the settlement event a receipt,
//! its quote and its payment authorization produce, and the rules that must
//! pass before a receipt is settled.
use crate::clock::{parse_rfc3339, passed_before, rfc3339_instant, Instant};
use crate::findings::{copy_opt, opt_view, present_text, present_text_of, Findings, Report};
use crate::ieee::{f64_gt_zero, gt_zero};
use crate::kinds::SettlementStatus;
use crate::payment::{payment_authorization_report, verify_payment_authorization, AuthorizationCheck, PaymentAuthorizationV1, PaymentAuthorizationVerificationV1, PaymentQuoteCheck};
use crate::quote::{before, payment_authorization_job_id, quote_job_id, service_quote_report, verify_service_quote, ServiceQuoteV1};
use crate::settlement::{distinct_refs, lemma_merge_refs, lemma_push_ref_facts, as_settlement_issues, merge_evidence_refs, merge_refs, push_evidence_ref, push_ref, settlement_issues_view, settlement_status_reason, status_reason, SettlementEventV1, SettlementVerificationIssueV1, SettlementView, SETTLEMENT_EVENT_SCHEMA_VERSION};
use crate::text::{blank, is_blank, is_settlement_receipt_ref, settlement_receipt_ref, text_eq, trim, trimmed, lemma_trimmed_empty};
use vstd::prelude::*;

verus! {

/// What settlement reads of an execution receipt: its identifiers, its
/// billing estimate (`billing_estimated_cost` as IEEE 754 bits) and whether
/// the receipt itself verified.
#[derive(Debug, Clone)]
pub struct ReceiptFacts {
    pub receipt_id: String,
    pub request_id: String,
    pub package_ref: String,
    pub runner_id: String,
    pub billing_currency: String,
    pub billing_estimated_cost: u64,
    pub verified: bool,
}

/// The job a settlement belongs to: the quote's job, else the
/// authorization's own (trimmed, when not blank), else one named after the
/// receipt's trimmed request id when that is not blank.
pub open spec fn settlement_job(
    r: ReceiptFacts,
    quote: Option<ServiceQuoteV1>,
    authorization: Option<PaymentAuthorizationV1>,
) -> Option<Seq<char>> {
    let from_quote = match quote {
        Some(q) => quote_job_id(q),
        None => None,
    };
    match from_quote {
        Some(j) => Some(j),
        None => {
            let from_authorization = match authorization {
                Some(a) => present_text(opt_view(a.job_id)),
                None => None,
            };
            match from_authorization {
                Some(j) => Some(j),
                None => if blank(r.request_id@) {
                    None
                } else {
                    Some("job-for-"@ + trimmed(r.request_id@))
                },
            }
        },
    }
}

/// The job a settlement of this receipt belongs to.
pub fn settlement_job_id(
    receipt: &ReceiptFacts,
    quote: Option<&ServiceQuoteV1>,
    authorization: Option<&PaymentAuthorizationV1>,
) -> (r: Option<String>)
    ensures
        opt_view(r) == settlement_job(
            *receipt,
            match quote { Some(q) => Some(*q), None => None },
            match authorization { Some(a) => Some(*a), None => None },
        ),
{
    let from_quote = match quote {
        Some(q) => payment_authorization_job_id(q),
        None => None,
    };
    if from_quote.is_some() {
        return from_quote;
    }
    let from_authorization = match authorization {
        Some(a) => match present_text_of(&a.job_id) {
            Some(j) => Some(j.to_string()),
            None => None,
        },
        None => None,
    };
    if from_authorization.is_some() {
        return from_authorization;
    }
    proof {
        lemma_trimmed_empty(receipt.request_id@);
    }
    let request_id = trim(receipt.request_id.as_str());
    if request_id.unicode_len() == 0 {
        None
    } else {
        let mut j = String::from_str("job-for-");
        j.append(request_id);
        Some(j)
    }
}

/// The evidence a settlement of a receipt cites, in order: the receipt
/// reference (or the receipt by id), the quote by id, its quote reference and
/// evidence from its details, then the payment authorization by id, its
/// payment reference and its escrow reference; each trimmed, without blanks
/// or repeats.
pub open spec fn settlement_evidence(
    r: ReceiptFacts,
    quote: Option<ServiceQuoteV1>,
    authorization: Option<PaymentAuthorizationV1>,
    receipt_ref: Option<Seq<char>>,
) -> Seq<Seq<char>> {
    let e = seq![];
    let e = match receipt_ref {
        Some(x) => push_ref(e, x),
        None => if blank(r.receipt_id@) {
            e
        } else {
            push_ref(e, "local://receipt/"@ + r.receipt_id@)
        },
    };
    let e = match quote {
        Some(q) => {
            let e = if blank(q.quote_id@) {
                e
            } else {
                push_ref(e, "local://quote/"@ + q.quote_id@)
            };
            let e = match present_text(opt_view(q.details_quote_ref)) {
                Some(x) => push_ref(e, x),
                None => e,
            };
            merge_refs(e, q.details_evidence_refs.deep_view())
        },
        None => e,
    };
    match authorization {
        Some(a) => {
            let e = if blank(a.authorization_id@) {
                e
            } else {
                push_ref(e, "local://payment-authorization/"@ + a.authorization_id@)
            };
            let e = match opt_view(a.payment_ref) {
                Some(x) => push_ref(e, x),
                None => e,
            };
            match opt_view(a.escrow_ref) {
                Some(x) => push_ref(e, x),
                None => e,
            }
        },
        None => e,
    }
}

/// The evidence references of a settlement of this receipt.
pub fn settlement_evidence_refs(
    receipt: &ReceiptFacts,
    quote: Option<&ServiceQuoteV1>,
    authorization: Option<&PaymentAuthorizationV1>,
    receipt_ref: &Option<String>,
) -> (r: Vec<String>)
    ensures
        r.deep_view() == settlement_evidence(
            *receipt,
            match quote { Some(q) => Some(*q), None => None },
            match authorization { Some(a) => Some(*a), None => None },
            opt_view(*receipt_ref),
        ),
{
    let mut e: Vec<String> = Vec::new();
    proof {
        assert(e.deep_view() =~= Seq::<Seq<char>>::empty());
    }
    match receipt_ref {
        Some(x) => push_evidence_ref(&mut e, x.as_str()),
        None => {
            if !is_blank(receipt.receipt_id.as_str()) {
                let mut x = String::from_str("local://receipt/");
                x.append(receipt.receipt_id.as_str());
                push_evidence_ref(&mut e, x.as_str());
            }
        },
    }
    match quote {
        Some(q) => {
            if !is_blank(q.quote_id.as_str()) {
                let mut x = String::from_str("local://quote/");
                x.append(q.quote_id.as_str());
                push_evidence_ref(&mut e, x.as_str());
            }
            match present_text_of(&q.details_quote_ref) {
                Some(x) => push_evidence_ref(&mut e, x),
                None => {},
            }
            merge_evidence_refs(&mut e, &q.details_evidence_refs);
        },
        None => {},
    }
    match authorization {
        Some(a) => {
            if !is_blank(a.authorization_id.as_str()) {
                let mut x = String::from_str("local://payment-authorization/");
                x.append(a.authorization_id.as_str());
                push_evidence_ref(&mut e, x.as_str());
            }
            match &a.payment_ref {
                Some(x) => push_evidence_ref(&mut e, x.as_str()),
                None => {},
            }
            match &a.escrow_ref {
                Some(x) => push_evidence_ref(&mut e, x.as_str()),
                None => {},
            }
        },
        None => {},
    }
    e
}

/// The settlement of a receipt at `now`, before signing: settled, for the
/// quote's cost and currency when there is a quote (else the receipt's
/// billing estimate), between payer and payee.
pub open spec fn receipt_settlement(
    r: ReceiptFacts,
    quote: Option<ServiceQuoteV1>,
    authorization: Option<PaymentAuthorizationV1>,
    payer: Seq<char>,
    payee: Seq<char>,
    receipt_ref: Option<Seq<char>>,
    now: Seq<char>,
) -> SettlementView {
    let currency = match quote {
        Some(q) => q.currency@,
        None => r.billing_currency@,
    };
    SettlementView {
        schema_version: SETTLEMENT_EVENT_SCHEMA_VERSION@,
        settlement_id: seq![],
        job_id: settlement_job(r, quote, authorization),
        request_id: r.request_id@,
        receipt_id: r.receipt_id@,
        quote_id: match quote {
            Some(q) => Some(q.quote_id@),
            None => None,
        },
        payment_authorization_id: match authorization {
            Some(a) => Some(a.authorization_id@),
            None => None,
        },
        payment_ref: match authorization {
            Some(a) => opt_view(a.payment_ref),
            None => None,
        },
        package_ref: r.package_ref@,
        runner_id: r.runner_id@,
        payer,
        payee,
        amount: match quote {
            Some(q) => q.estimated_cost,
            None => r.billing_estimated_cost,
        },
        currency,
        asset: Some(currency),
        status: SettlementStatus::Settled,
        reason: Some(status_reason(SettlementStatus::Settled, authorization is Some, quote is Some)),
        evidence_refs: settlement_evidence(r, quote, authorization, receipt_ref),
        created_at: Some(now),
        occurred_at: now,
        receipt_ref,
        signature: None,
    }
}

/// The settlement event of a receipt, its quote and its payment
/// authorization at `now`. The event is returned unsigned.
pub fn settlement_from_receipt_with_payment(
    receipt: &ReceiptFacts,
    quote: Option<&ServiceQuoteV1>,
    authorization: Option<&PaymentAuthorizationV1>,
    payer: String,
    payee: String,
    receipt_ref: Option<String>,
    now: String,
) -> (r: SettlementEventV1)
    ensures
        r@ == receipt_settlement(
            *receipt,
            match quote { Some(q) => Some(*q), None => None },
            match authorization { Some(a) => Some(*a), None => None },
            payer@,
            payee@,
            opt_view(receipt_ref),
            now@,
        ),
{
    let (quote_id, amount, currency) = match quote {
        Some(q) => (Some(q.quote_id.clone()), q.estimated_cost, q.currency.clone()),
        None => (None, receipt.billing_estimated_cost, receipt.billing_currency.clone()),
    };
    let job_id = settlement_job_id(receipt, quote, authorization);
    let evidence_refs = settlement_evidence_refs(receipt, quote, authorization, &receipt_ref);
    let reason = settlement_status_reason(SettlementStatus::Settled, authorization.is_some(), quote.is_some());
    let (payment_authorization_id, payment_ref) = match authorization {
        Some(a) => (Some(a.authorization_id.clone()), copy_opt(&a.payment_ref)),
        None => (None, None),
    };
    SettlementEventV1 {
        schema_version: String::from_str(SETTLEMENT_EVENT_SCHEMA_VERSION),
        settlement_id: String::new(),
        job_id,
        request_id: receipt.request_id.clone(),
        receipt_id: receipt.receipt_id.clone(),
        quote_id,
        payment_authorization_id,
        payment_ref,
        package_ref: receipt.package_ref.clone(),
        runner_id: receipt.runner_id.clone(),
        payer,
        payee,
        amount,
        currency: currency.clone(),
        asset: Some(currency),
        status: SettlementStatus::Settled,
        reason: Some(reason),
        evidence_refs,
        created_at: Some(now.clone()),
        occurred_at: now,
        receipt_ref,
        signature: None,
    }
}

/// The outcome of settling a receipt before signing: the findings, the
/// check of the payment authorization when one was given, and, when nothing
/// is at issue, the settlement event to be signed.
#[derive(Debug, Clone)]
pub struct SettlementBuildDraftV1 {
    pub issues: Vec<SettlementVerificationIssueV1>,
    pub warnings: Vec<SettlementVerificationIssueV1>,
    pub settlement: Option<SettlementEventV1>,
    pub payment_authorization_verification: Option<PaymentAuthorizationVerificationV1>,
}

pub open spec fn quote_check_of(q: Option<PaymentQuoteCheck>) -> Option<ServiceQuoteV1> {
    match q {
        Some(x) => Some(x.quote),
        None => None,
    }
}

pub open spec fn authorization_of(a: Option<AuthorizationCheck>) -> Option<PaymentAuthorizationV1> {
    match a {
        Some(x) => Some(x.authorization),
        None => None,
    }
}

/// The rules on the quote a receipt is settled under, judged at `now`.
pub open spec fn settle_quote_report(r: Report, rc: ReceiptFacts, x: PaymentQuoteCheck, now: Instant) -> Report {
    let q = x.quote;
    let r = r.issue_if(
        !service_quote_report(q, x.content, None, x.price_estimate_differs, now).valid(),
        "$.quote"@,
        "Service quote must verify before settlement"@,
    );
    let r = r.issue_if(
        q.request_id@ != rc.request_id@,
        "$.quote.requestId"@,
        "Quote requestId must match receipt requestId"@,
    );
    let r = r.issue_if(
        q.package_ref@ != rc.package_ref@,
        "$.quote.packageRef"@,
        "Quote packageRef must match receipt packageRef"@,
    );
    let r = r.issue_if(
        q.runner_id@ != rc.runner_id@,
        "$.quote.runnerId"@,
        "Quote runnerId must match receipt runnerId"@,
    );
    match rfc3339_instant(q.expires_at@) {
        Some(t) => r.issue_if(
            before(t, now),
            "$.quote.expiresAt"@,
            "Quote is expired and cannot be settled"@,
        ),
        None => r.issue_if(true, "$.quote.expiresAt"@, "Quote expiration must be RFC3339"@),
    }
}

/// The rules on the payment authorization a receipt is settled under.
pub open spec fn settle_payment_report(
    r: Report,
    rc: ReceiptFacts,
    a: PaymentAuthorizationV1,
    payer: Seq<char>,
    payee: Seq<char>,
) -> Report {
    let r = r.issue_if(
        a.request_id@ != rc.request_id@,
        "$.paymentAuthorization.requestId"@,
        "Payment authorization requestId must match receipt requestId"@,
    );
    let r = r.issue_if(
        a.package_ref@ != rc.package_ref@,
        "$.paymentAuthorization.packageRef"@,
        "Payment authorization packageRef must match receipt packageRef"@,
    );
    let r = r.issue_if(
        a.runner_id@ != rc.runner_id@,
        "$.paymentAuthorization.runnerId"@,
        "Payment authorization runnerId must match receipt runnerId"@,
    );
    let r = r.issue_if(
        a.payer@ != payer,
        "$.paymentAuthorization.payer"@,
        "Payment authorization payer must match settlement payer"@,
    );
    r.issue_if(
        a.payee@ != payee,
        "$.paymentAuthorization.payee"@,
        "Payment authorization payee must match settlement payee"@,
    )
}

/// The findings of settling a receipt, in the order the rules are applied.
pub open spec fn settle_receipt_report(
    rc: ReceiptFacts,
    quote: Option<PaymentQuoteCheck>,
    authorization: Option<AuthorizationCheck>,
    payer: Seq<char>,
    payee: Seq<char>,
    receipt_ref: Option<Seq<char>>,
    now: Instant,
) -> Report {
    let r = Report::empty();
    let r = r.issue_if(!rc.verified, "$.receipt"@, "Receipt must verify before settlement"@);
    let r = r.issue_if(blank(payer), "$.payer"@, "Payer is required"@);
    let r = r.issue_if(blank(payee), "$.payee"@, "Payee is required"@);
    let r = r.warn_if(
        receipt_ref matches Some(x) && !settlement_receipt_ref(x),
        "$.receiptRef"@,
        "Receipt reference is not a recognized bzz:// or local:// reference"@,
    );
    let r = match quote {
        Some(x) => settle_quote_report(r, rc, x, now),
        None => r.warn_if(
            rc.billing_currency@ == "none"@ && gt_zero(rc.billing_estimated_cost),
            "$.receipt.billing"@,
            "Receipt has a positive estimated cost without a marketplace quote"@,
        ),
    };
    let r = r.issue_if(
        authorization matches Some(a) && !payment_authorization_report(
            a.authorization@,
            a.content,
            quote,
            a.exceeds_max,
            now,
        ).valid(),
        "$.paymentAuthorization"@,
        "Payment authorization must verify before settlement"@,
    );
    match authorization {
        Some(a) => settle_payment_report(r, rc, a.authorization, payer, payee),
        None => r.warn_if(
            quote matches Some(x) && gt_zero(x.quote.estimated_cost),
            "$.paymentAuthorization"@,
            "Positive-cost quote settled without a payment authorization"@,
        ),
    }
}

fn settle_quote(f: &mut Findings, rc: &ReceiptFacts, x: &PaymentQuoteCheck, now: Instant, verified_at: String)
    ensures
        final(f)@ == settle_quote_report(old(f)@, *rc, *x, now),
{
    let q = &x.quote;
    let v = verify_service_quote(q, &x.content, None, x.price_estimate_differs, now, verified_at);
    f.issue_if(!v.valid, "$.quote", "Service quote must verify before settlement");
    f.issue_if(
        !text_eq(q.request_id.as_str(), rc.request_id.as_str()),
        "$.quote.requestId",
        "Quote requestId must match receipt requestId",
    );
    f.issue_if(
        !text_eq(q.package_ref.as_str(), rc.package_ref.as_str()),
        "$.quote.packageRef",
        "Quote packageRef must match receipt packageRef",
    );
    f.issue_if(
        !text_eq(q.runner_id.as_str(), rc.runner_id.as_str()),
        "$.quote.runnerId",
        "Quote runnerId must match receipt runnerId",
    );
    match passed_before(parse_rfc3339(q.expires_at.as_str()), now) {
        Some(expired) => f.issue_if(
            expired,
            "$.quote.expiresAt",
            "Quote is expired and cannot be settled",
        ),
        None => f.issue_if(true, "$.quote.expiresAt", "Quote expiration must be RFC3339"),
    }
}

fn settle_payment(f: &mut Findings, rc: &ReceiptFacts, a: &PaymentAuthorizationV1, payer: &str, payee: &str)
    ensures
        final(f)@ == settle_payment_report(old(f)@, *rc, *a, payer@, payee@),
{
    f.issue_if(
        !text_eq(a.request_id.as_str(), rc.request_id.as_str()),
        "$.paymentAuthorization.requestId",
        "Payment authorization requestId must match receipt requestId",
    );
    f.issue_if(
        !text_eq(a.package_ref.as_str(), rc.package_ref.as_str()),
        "$.paymentAuthorization.packageRef",
        "Payment authorization packageRef must match receipt packageRef",
    );
    f.issue_if(
        !text_eq(a.runner_id.as_str(), rc.runner_id.as_str()),
        "$.paymentAuthorization.runnerId",
        "Payment authorization runnerId must match receipt runnerId",
    );
    f.issue_if(
        !text_eq(a.payer.as_str(), payer),
        "$.paymentAuthorization.payer",
        "Payment authorization payer must match settlement payer",
    );
    f.issue_if(
        !text_eq(a.payee.as_str(), payee),
        "$.paymentAuthorization.payee",
        "Payment authorization payee must match settlement payee",
    );
}

/// Settles a verified receipt: the receipt, the quote and the payment
/// authorization (each with its check facts) are checked and matched, and,
/// when nothing is at issue, the settlement event at `now_text` is returned to
/// be signed. `now` is the time expiry is judged against.
pub fn settlement_from_verified_receipt_with_payment(
    receipt: &ReceiptFacts,
    quote: Option<&PaymentQuoteCheck>,
    authorization: Option<&AuthorizationCheck>,
    payer: String,
    payee: String,
    receipt_ref: Option<String>,
    now: Instant,
    now_text: String,
    verified_at: String,
) -> (r: SettlementBuildDraftV1)
    ensures
        settlement_issues_view(r.issues@) == settle_receipt_report(
            *receipt,
            match quote { Some(q) => Some(*q), None => None },
            match authorization { Some(a) => Some(*a), None => None },
            payer@,
            payee@,
            opt_view(receipt_ref),
            now,
        ).issues,
        settlement_issues_view(r.warnings@) == settle_receipt_report(
            *receipt,
            match quote { Some(q) => Some(*q), None => None },
            match authorization { Some(a) => Some(*a), None => None },
            payer@,
            payee@,
            opt_view(receipt_ref),
            now,
        ).warnings,
        r.payment_authorization_verification is Some <==> authorization is Some,
        r.settlement is Some <==> r.issues.len() == 0,
        r.settlement matches Some(s) ==> s@ == receipt_settlement(
            *receipt,
            quote_check_of(match quote { Some(q) => Some(*q), None => None }),
            authorization_of(match authorization { Some(a) => Some(*a), None => None }),
            payer@,
            payee@,
            opt_view(receipt_ref),
            now_text@,
        ),
{
    let mut f = Findings::new();
    f.issue_if(!receipt.verified, "$.receipt", "Receipt must verify before settlement");
    f.required(payer.as_str(), "$.payer", "Payer is required");
    f.required(payee.as_str(), "$.payee", "Payee is required");
    let odd_ref = match &receipt_ref {
        Some(x) => !is_settlement_receipt_ref(x.as_str()),
        None => false,
    };
    f.warn_if(odd_ref, "$.receiptRef", "Receipt reference is not a recognized bzz:// or local:// reference");
    match quote {
        Some(x) => settle_quote(&mut f, receipt, x, now, verified_at.clone()),
        None => {
            let unquoted = text_eq(receipt.billing_currency.as_str(), "none") && f64_gt_zero(
                receipt.billing_estimated_cost,
            );
            f.warn_if(
                unquoted,
                "$.receipt.billing",
                "Receipt has a positive estimated cost without a marketplace quote",
            );
        },
    }
    let pav = match authorization {
        Some(a) => Some(
            verify_payment_authorization(&a.authorization, &a.content, quote, a.exceeds_max, now, verified_at),
        ),
        None => None,
    };
    let failed = match &pav {
        Some(v) => !v.valid,
        None => false,
    };
    f.issue_if(failed, "$.paymentAuthorization", "Payment authorization must verify before settlement");
    match authorization {
        Some(a) => settle_payment(&mut f, receipt, &a.authorization, payer.as_str(), payee.as_str()),
        None => {
            let unpaid = match quote {
                Some(x) => f64_gt_zero(x.quote.estimated_cost),
                None => false,
            };
            f.warn_if(
                unpaid,
                "$.paymentAuthorization",
                "Positive-cost quote settled without a payment authorization",
            );
        },
    }
    let settlement = if f.is_valid() {
        let q: Option<&ServiceQuoteV1> = match quote {
            Some(x) => Some(&x.quote),
            None => None,
        };
        let a: Option<&PaymentAuthorizationV1> = match authorization {
            Some(x) => Some(&x.authorization),
            None => None,
        };
        Some(settlement_from_receipt_with_payment(receipt, q, a, payer, payee, receipt_ref, now_text))
    } else {
        None
    };
    SettlementBuildDraftV1 {
        issues: as_settlement_issues(f.issues),
        warnings: as_settlement_issues(f.warnings),
        settlement,
        payment_authorization_verification: pav,
    }
}


/// The evidence of a settlement built from a receipt lists no reference
/// twice, whatever the receipt, quote, authorization and receipt reference.
pub proof fn lemma_settlement_evidence_distinct(
    r: ReceiptFacts,
    quote: Option<ServiceQuoteV1>,
    authorization: Option<PaymentAuthorizationV1>,
    receipt_ref: Option<Seq<char>>,
)
    ensures
        distinct_refs(settlement_evidence(r, quote, authorization, receipt_ref)),
{
    let e = Seq::<Seq<char>>::empty();
    let e = match receipt_ref {
        Some(x) => {
            lemma_push_ref_facts(e, x);
            push_ref(e, x)
        },
        None => if blank(r.receipt_id@) {
            e
        } else {
            lemma_push_ref_facts(e, "local://receipt/"@ + r.receipt_id@);
            push_ref(e, "local://receipt/"@ + r.receipt_id@)
        },
    };
    let e = match quote {
        Some(q) => {
            let e = if blank(q.quote_id@) {
                e
            } else {
                lemma_push_ref_facts(e, "local://quote/"@ + q.quote_id@);
                push_ref(e, "local://quote/"@ + q.quote_id@)
            };
            let e = match present_text(opt_view(q.details_quote_ref)) {
                Some(x) => {
                    lemma_push_ref_facts(e, x);
                    push_ref(e, x)
                },
                None => e,
            };
            lemma_merge_refs(e, q.details_evidence_refs.deep_view());
            merge_refs(e, q.details_evidence_refs.deep_view())
        },
        None => e,
    };
    assert(distinct_refs(e));
    match authorization {
        Some(a) => {
            let e = if blank(a.authorization_id@) {
                e
            } else {
                lemma_push_ref_facts(e, "local://payment-authorization/"@ + a.authorization_id@);
                push_ref(e, "local://payment-authorization/"@ + a.authorization_id@)
            };
            let e = match opt_view(a.payment_ref) {
                Some(x) => {
                    lemma_push_ref_facts(e, x);
                    push_ref(e, x)
                },
                None => e,
            };
            match opt_view(a.escrow_ref) {
                Some(x) => {
                    lemma_push_ref_facts(e, x);
                },
                None => {},
            }
        },
        None => {},
    }
}


/// A settlement under a payment authorization with an id cites that
/// authorization: its evidence holds `local://payment-authorization/<id>`
/// (trimmed, as every evidence reference is).
pub proof fn lemma_settlement_cites_payment_authorization(
    r: ReceiptFacts,
    quote: Option<ServiceQuoteV1>,
    a: PaymentAuthorizationV1,
    receipt_ref: Option<Seq<char>>,
)
    requires
        !blank(a.authorization_id@),
    ensures
        settlement_evidence(r, quote, Some(a), receipt_ref).contains(
            trimmed("local://payment-authorization/"@ + a.authorization_id@),
        ),
{
    let e = Seq::<Seq<char>>::empty();
    let e = match receipt_ref {
        Some(x) => push_ref(e, x),
        None => if blank(r.receipt_id@) {
            e
        } else {
            push_ref(e, "local://receipt/"@ + r.receipt_id@)
        },
    };
    let e = match quote {
        Some(q) => {
            let e = if blank(q.quote_id@) {
                e
            } else {
                push_ref(e, "local://quote/"@ + q.quote_id@)
            };
            let e = match present_text(opt_view(q.details_quote_ref)) {
                Some(x) => push_ref(e, x),
                None => e,
            };
            merge_refs(e, q.details_evidence_refs.deep_view())
        },
        None => e,
    };
    let t = "local://payment-authorization/"@ + a.authorization_id@;
    assert(!blank(t)) by {
        reveal_strlit("local://payment-authorization/");
        assert(t[0] == 'l');
    }
    lemma_push_ref_facts(e, t);
    let e1 = push_ref(e, t);
    let j = choose|j: int| 0 <= j < e1.len() && e1[j] == trimmed(t);
    let e2 = match opt_view(a.payment_ref) {
        Some(x) => {
            lemma_push_ref_facts(e1, x);
            push_ref(e1, x)
        },
        None => e1,
    };
    assert(e2[j] == trimmed(t));
    match opt_view(a.escrow_ref) {
        Some(x) => {
            lemma_push_ref_facts(e2, x);
            assert(push_ref(e2, x)[j] == trimmed(t));
        },
        None => {},
    }
}

} // verus!
