//! Payment authorizations: a payer's signed permission to pay a quoted job,
//! how one is drafted from a quote, and the rules it must pass, alone and
//! against the quote it cites.
use crate::clock::{out_of_order, passed_before, parse_rfc3339, rfc3339_instant, Instant};
use crate::findings::{envelope_subject, EnvelopeSubject, identity_view, issues_view, opt_view, present_text, rerooted, Findings, IssueView, MarketplaceVerificationIssueV1, Report, SignedContent, IdentitySignatureCheck};
use crate::ieee::{f64_gt_zero, f64_lt_zero, gt_zero, lt_zero};
use crate::kinds::{PaymentAdapterKind, PaymentAuthorizationStatus};
use crate::quote::{before, payment_authorization_job_id, quote_job_id, service_quote_report, verify_service_quote, ServiceQuoteV1};
use crate::text::{blank, has_prefix, is_blank, signature_issue_path, starts_with, text_eq};
use vstd::prelude::*;

verus! {

pub const PAYMENT_AUTHORIZATION_SCHEMA_VERSION: &'static str = "hivemind.payment_authorization.v1";

pub const LEGACY_PAYMENT_AUTHORIZATION_SCHEMA_VERSION: &'static str =
    "swarm-ai.payment-authorization.v1";

pub const PAYMENT_AUTHORIZATION_VERIFICATION_SCHEMA_VERSION: &'static str =
    "hivemind.payment_authorization_verification.v1";

/// A payment authorization. `amount` and `max_amount` are IEEE 754 bit
/// patterns.
#[derive(Debug, Clone)]
pub struct PaymentAuthorizationV1 {
    pub schema_version: String,
    pub authorization_id: String,
    pub quote_id: String,
    pub job_id: Option<String>,
    pub request_id: String,
    pub offer_id: String,
    pub runner_id: String,
    pub package_ref: String,
    pub payer: String,
    pub payee: String,
    pub amount: u64,
    pub currency: String,
    pub adapter: PaymentAdapterKind,
    pub max_amount: Option<u64>,
    pub asset: Option<String>,
    pub method: Option<PaymentAdapterKind>,
    pub status: PaymentAuthorizationStatus,
    pub payment_ref: Option<String>,
    pub escrow_ref: Option<String>,
    pub authorized_at: String,
    pub expires_at: String,
    pub signature: String,
}

/// What the verification of a payment authorization found.
#[derive(Debug, Clone)]
pub struct PaymentAuthorizationVerificationV1 {
    pub schema_version: String,
    pub authorization_id: String,
    pub valid: bool,
    pub issues: Vec<MarketplaceVerificationIssueV1>,
    pub warnings: Vec<MarketplaceVerificationIssueV1>,
    pub expected_signature: String,
    pub verified_at: String,
}

/// The service quote an authorization is checked against, with what the
/// check needs beside the quote: its signed-content facts, and the
/// floating-point facts: whether the quote's price amount differs from its
/// estimated cost by more than 1e-7, whether the authorization's amount does,
/// and whether the authorization's maximum plus 1e-7 falls short of the
/// quote's estimated cost.
#[derive(Debug, Clone)]
pub struct PaymentQuoteCheck {
    pub quote: ServiceQuoteV1,
    pub content: SignedContent,
    pub price_estimate_differs: bool,
    pub amount_differs: bool,
    pub max_below_estimate: bool,
}

/// A payment authorization with what its check needs beside it: its
/// signed-content facts, and whether its amount exceeds its maximum plus 1e-7.
#[derive(Debug, Clone)]
pub struct AuthorizationCheck {
    pub authorization: PaymentAuthorizationV1,
    pub content: SignedContent,
    pub exceeds_max: bool,
}

/// A payment authorization as texts and values.
pub struct AuthorizationView {
    pub schema_version: Seq<char>,
    pub authorization_id: Seq<char>,
    pub quote_id: Seq<char>,
    pub job_id: Option<Seq<char>>,
    pub request_id: Seq<char>,
    pub offer_id: Seq<char>,
    pub runner_id: Seq<char>,
    pub package_ref: Seq<char>,
    pub payer: Seq<char>,
    pub payee: Seq<char>,
    pub amount: u64,
    pub currency: Seq<char>,
    pub adapter: PaymentAdapterKind,
    pub max_amount: Option<u64>,
    pub asset: Option<Seq<char>>,
    pub method: Option<PaymentAdapterKind>,
    pub status: PaymentAuthorizationStatus,
    pub payment_ref: Option<Seq<char>>,
    pub escrow_ref: Option<Seq<char>>,
    pub authorized_at: Seq<char>,
    pub expires_at: Seq<char>,
    pub signature: Seq<char>,
}

impl View for PaymentAuthorizationV1 {
    type V = AuthorizationView;

    open spec fn view(&self) -> AuthorizationView {
        AuthorizationView {
            schema_version: self.schema_version@,
            authorization_id: self.authorization_id@,
            quote_id: self.quote_id@,
            job_id: opt_view(self.job_id),
            request_id: self.request_id@,
            offer_id: self.offer_id@,
            runner_id: self.runner_id@,
            package_ref: self.package_ref@,
            payer: self.payer@,
            payee: self.payee@,
            amount: self.amount,
            currency: self.currency@,
            adapter: self.adapter,
            max_amount: self.max_amount,
            asset: opt_view(self.asset),
            method: self.method,
            status: self.status,
            payment_ref: opt_view(self.payment_ref),
            escrow_ref: opt_view(self.escrow_ref),
            authorized_at: self.authorized_at@,
            expires_at: self.expires_at@,
            signature: self.signature@,
        }
    }
}

/// An optional text that is absent or blank.
pub open spec fn absent_or_blank(o: Option<Seq<char>>) -> bool {
    match o {
        Some(t) => blank(t),
        None => true,
    }
}

fn absent_or_blank_text(o: &Option<String>) -> (r: bool)
    ensures
        r == absent_or_blank(opt_view(*o)),
{
    match o {
        Some(t) => is_blank(t.as_str()),
        None => true,
    }
}

/// The signature an authorization check reports as expected: the envelope's
/// payload hash when the signature carries an identity envelope, otherwise
/// the development signature.
pub open spec fn expected_payment_signature(
    sig: Seq<char>,
    dev: Seq<char>,
    identity: Option<(Seq<char>, Seq<IssueView>)>,
) -> Seq<char> {
    match identity {
        Some(c) => if blank(sig) {
            dev
        } else {
            "ed25519-payload-hash:"@ + c.0
        },
        None => dev,
    }
}

/// The rules a current-schema authorization adds.
pub open spec fn payment_current_report(r: Report, a: AuthorizationView) -> Report {
    let r = r.issue_if(
        a.max_amount is None,
        "$.maxAmount"@,
        "Current payment authorization schema requires maxAmount"@,
    );
    let r = r.issue_if(
        absent_or_blank(a.asset),
        "$.asset"@,
        "Current payment authorization schema requires asset"@,
    );
    let r = r.issue_if(
        a.method is None,
        "$.method"@,
        "Current payment authorization schema requires method"@,
    );
    r.issue_if(
        gt_zero(a.amount) && absent_or_blank(a.payment_ref) && absent_or_blank(a.escrow_ref),
        "$.paymentRef"@,
        "Current payment authorization schema requires paymentRef or escrowRef for non-free payment"@,
    )
}

/// The id and signature rules of an authorization: the id must be the
/// canonical one, and a signature is required; it either carries an identity
/// envelope (whose findings become issues) or equals the development
/// signature.
pub open spec fn payment_identity_report(r: Report, a: AuthorizationView, c: SignedContent) -> Report {
    let r = if blank(a.authorization_id) {
        r.issue_if(true, "$.authorizationId"@, "Payment authorization id is required"@)
    } else {
        r.issue_if(
            a.authorization_id != c.canonical_id@,
            "$.authorizationId"@,
            "Payment authorization id does not match canonical content"@,
        )
    };
    if blank(a.signature) {
        r.issue_if(true, "$.signature"@, "Payment authorization signature is required"@)
    } else {
        match identity_view(c.identity_check) {
            Some(check) => Report { issues: r.issues + rerooted(check.1), warnings: r.warnings },
            None => r.issue_if(
                a.signature != c.dev_signature@,
                "$.signature"@,
                "Payment authorization signature does not match canonical dev signature or Ed25519 identity envelope"@,
            ),
        }
    }
}

/// The required fields and the amount, asset, adapter and reference rules.
/// `exceeds_max` is whether the amount exceeds the maximum plus 1e-7.
pub open spec fn payment_terms_report(r: Report, a: AuthorizationView, exceeds_max: bool) -> Report {
    let r = r.issue_if(blank(a.quote_id), "$.quoteId"@, "Quote id is required"@);
    let r = r.issue_if(blank(a.request_id), "$.requestId"@, "Request id is required"@);
    let r = r.issue_if(blank(a.offer_id), "$.offerId"@, "Offer id is required"@);
    let r = r.issue_if(blank(a.runner_id), "$.runnerId"@, "Runner id is required"@);
    let r = r.issue_if(blank(a.package_ref), "$.packageRef"@, "Package ref is required"@);
    let r = r.issue_if(blank(a.payer), "$.payer"@, "Payer is required"@);
    let r = r.issue_if(blank(a.payee), "$.payee"@, "Payee is required"@);
    let r = r.issue_if(blank(a.currency), "$.currency"@, "Currency is required"@);
    let r = r.warn_if(
        !has_prefix(a.package_ref, "bzz://"@),
        "$.packageRef"@,
        "Payment authorization packageRef is not a bzz:// reference"@,
    );
    let r = r.issue_if(lt_zero(a.amount), "$.amount"@, "Amount must not be negative"@);
    let r = match a.max_amount {
        Some(m) => {
            let r = r.issue_if(
                lt_zero(m),
                "$.maxAmount"@,
                "Maximum authorization amount must not be negative"@,
            );
            r.issue_if(exceeds_max, "$.maxAmount"@, "Maximum authorization amount must cover amount"@)
        },
        None => r,
    };
    let r = match a.asset {
        Some(x) => if blank(x) {
            r.issue_if(true, "$.asset"@, "Asset is empty"@)
        } else {
            r.issue_if(x != a.currency, "$.asset"@, "Payment authorization asset must match currency"@)
        },
        None => r,
    };
    let r = r.issue_if(
        a.method matches Some(m) && m != a.adapter,
        "$.method"@,
        "Payment authorization method must match adapter"@,
    );
    let r = r.issue_if(
        a.adapter == PaymentAdapterKind::Free && gt_zero(a.amount),
        "$.adapter"@,
        "Free payment adapter can only authorize zero-cost quotes"@,
    );
    let r = r.issue_if(
        a.adapter == PaymentAdapterKind::ExternalTransaction && absent_or_blank(a.payment_ref),
        "$.paymentRef"@,
        "External transaction authorizations require a paymentRef"@,
    );
    r.issue_if(
        a.escrow_ref matches Some(e) && blank(e),
        "$.escrowRef"@,
        "Escrow ref is empty"@,
    )
}

/// The status and time rules: refunded or rejected authorizations cannot
/// fund a settlement; the authorization must not have expired at `now`, nor
/// have been authorized after it expires.
pub open spec fn payment_time_report(r: Report, a: AuthorizationView, now: Instant) -> Report {
    let r = match a.status {
        PaymentAuthorizationStatus::Refunded => r.issue_if(
            true,
            "$.status"@,
            "Refunded payment authorizations cannot fund settlement"@,
        ),
        PaymentAuthorizationStatus::Rejected => r.issue_if(
            true,
            "$.status"@,
            "Rejected payment authorizations cannot fund settlement"@,
        ),
        _ => r,
    };
    let authorized = rfc3339_instant(a.authorized_at);
    let r = r.issue_if(
        authorized is None,
        "$.authorizedAt"@,
        "Payment authorization timestamp must be RFC3339"@,
    );
    match rfc3339_instant(a.expires_at) {
        Some(e) => if before(e, now) {
            r.issue_if(true, "$.expiresAt"@, "Payment authorization has expired"@)
        } else {
            r.issue_if(
                authorized matches Some(t) && before(e, t),
                "$.authorizedAt"@,
                "Payment authorization timestamp is after expiration"@,
            )
        },
        None => r.issue_if(
            true,
            "$.expiresAt"@,
            "Payment authorization expiration must be RFC3339"@,
        ),
    }
}

/// The rules that hold an authorization to the service quote it cites.
pub open spec fn payment_quote_report(r: Report, a: AuthorizationView, x: PaymentQuoteCheck, now: Instant) -> Report {
    let q = x.quote;
    let r = r.issue_if(
        !service_quote_report(q, x.content, None, x.price_estimate_differs, now).valid(),
        "$.quote"@,
        "Referenced service quote does not verify"@,
    );
    let r = r.issue_if(
        a.quote_id != q.quote_id@,
        "$.quoteId"@,
        "Payment authorization quoteId must match service quote"@,
    );
    let r = r.issue_if(
        a.request_id != q.request_id@,
        "$.requestId"@,
        "Payment authorization requestId must match service quote"@,
    );
    let r = r.issue_if(
        a.offer_id != q.offer_id@,
        "$.offerId"@,
        "Payment authorization offerId must match service quote"@,
    );
    let r = r.issue_if(
        a.runner_id != q.runner_id@,
        "$.runnerId"@,
        "Payment authorization runnerId must match service quote"@,
    );
    let r = r.issue_if(
        a.package_ref != q.package_ref@,
        "$.packageRef"@,
        "Payment authorization packageRef must match service quote"@,
    );
    let r = r.issue_if(
        x.amount_differs,
        "$.amount"@,
        "Payment authorization amount must match service quote estimatedCost"@,
    );
    let r = r.issue_if(
        a.max_amount is Some && x.max_below_estimate,
        "$.maxAmount"@,
        "Payment authorization maxAmount must cover service quote estimatedCost"@,
    );
    let r = r.issue_if(
        a.currency != q.currency@,
        "$.currency"@,
        "Payment authorization currency must match service quote"@,
    );
    let r = r.issue_if(
        a.asset matches Some(s) && s != q.currency@,
        "$.asset"@,
        "Payment authorization asset must match service quote currency"@,
    );
    let r = r.issue_if(
        a.job_id matches Some(j) && quote_job_id(q) matches Some(k) && j != k,
        "$.jobId"@,
        "Payment authorization jobId must match service quote jobId"@,
    );
    r.issue_if(
        a.expires_at != q.expires_at@,
        "$.expiresAt"@,
        "Payment authorization expiresAt must match service quote"@,
    )
}

/// The findings of the payment authorization rules, in the order they are
/// applied.
pub open spec fn payment_authorization_report(
    a: AuthorizationView,
    c: SignedContent,
    quote: Option<PaymentQuoteCheck>,
    exceeds_max: bool,
    now: Instant,
) -> Report {
    let current = a.schema_version == PAYMENT_AUTHORIZATION_SCHEMA_VERSION@;
    let legacy = a.schema_version == LEGACY_PAYMENT_AUTHORIZATION_SCHEMA_VERSION@;
    let r = Report::empty().issue_if(
        !(current || legacy),
        "$.schemaVersion"@,
        "Expected schemaVersion to be hivemind.payment_authorization.v1"@,
    );
    let r = if current {
        payment_current_report(r, a)
    } else {
        r
    };
    let r = payment_identity_report(r, a, c);
    let r = payment_terms_report(r, a, exceeds_max);
    let r = payment_time_report(r, a, now);
    match quote {
        Some(x) => payment_quote_report(r, a, x, now),
        None => r,
    }
}

fn payment_current(f: &mut Findings, a: &PaymentAuthorizationV1)
    ensures
        final(f)@ == payment_current_report(old(f)@, a@),
{
    f.issue_if(
        a.max_amount.is_none(),
        "$.maxAmount",
        "Current payment authorization schema requires maxAmount",
    );
    f.issue_if(
        absent_or_blank_text(&a.asset),
        "$.asset",
        "Current payment authorization schema requires asset",
    );
    f.issue_if(a.method.is_none(), "$.method", "Current payment authorization schema requires method");
    let unfunded = f64_gt_zero(a.amount) && absent_or_blank_text(&a.payment_ref)
        && absent_or_blank_text(&a.escrow_ref);
    f.issue_if(
        unfunded,
        "$.paymentRef",
        "Current payment authorization schema requires paymentRef or escrowRef for non-free payment",
    );
}

fn push_envelope_issues(f: &mut Findings, check: &IdentitySignatureCheck)
    ensures
        final(f)@ == (Report {
            issues: old(f)@.issues + rerooted(issues_view(check.issues@)),
            warnings: old(f)@.warnings,
        }),
{
    let ghost start = f@;
    let mut i: usize = 0;
    while i < check.issues.len()
        invariant
            i <= check.issues.len(),
            f@.warnings == start.warnings,
            f@.issues =~= start.issues + rerooted(issues_view(check.issues@).subrange(0, i as int)),
        decreases check.issues.len() - i,
    {
        let path = signature_issue_path(check.issues[i].path.as_str());
        f.push_issue(path, check.issues[i].message.as_str());
        assert(issues_view(check.issues@).subrange(0, i + 1) =~= issues_view(check.issues@).subrange(
            0,
            i as int,
        ).push(check.issues@[i as int]@));
        i = i + 1;
    }
    assert(issues_view(check.issues@).subrange(0, i as int) =~= issues_view(check.issues@));
}

fn payment_identity(f: &mut Findings, a: &PaymentAuthorizationV1, c: &SignedContent) -> (expected: String)
    ensures
        final(f)@ == payment_identity_report(old(f)@, a@, *c),
        expected@ == expected_payment_signature(a.signature@, c.dev_signature@, identity_view(c.identity_check)),
{
    if is_blank(a.authorization_id.as_str()) {
        f.issue_if(true, "$.authorizationId", "Payment authorization id is required");
    } else {
        f.issue_if(
            !text_eq(a.authorization_id.as_str(), c.canonical_id.as_str()),
            "$.authorizationId",
            "Payment authorization id does not match canonical content",
        );
    }
    if is_blank(a.signature.as_str()) {
        f.issue_if(true, "$.signature", "Payment authorization signature is required");
        c.dev_signature.clone()
    } else {
        match &c.identity_check {
            Some(check) => {
                push_envelope_issues(f, check);
                let mut e = String::from_str("ed25519-payload-hash:");
                e.append(check.payload_hash.as_str());
                e
            },
            None => {
                f.issue_if(
                    !text_eq(a.signature.as_str(), c.dev_signature.as_str()),
                    "$.signature",
                    "Payment authorization signature does not match canonical dev signature or Ed25519 identity envelope",
                );
                c.dev_signature.clone()
            },
        }
    }
}

fn payment_terms(f: &mut Findings, a: &PaymentAuthorizationV1, exceeds_max: bool)
    ensures
        final(f)@ == payment_terms_report(old(f)@, a@, exceeds_max),
{
    f.required(a.quote_id.as_str(), "$.quoteId", "Quote id is required");
    f.required(a.request_id.as_str(), "$.requestId", "Request id is required");
    f.required(a.offer_id.as_str(), "$.offerId", "Offer id is required");
    f.required(a.runner_id.as_str(), "$.runnerId", "Runner id is required");
    f.required(a.package_ref.as_str(), "$.packageRef", "Package ref is required");
    f.required(a.payer.as_str(), "$.payer", "Payer is required");
    f.required(a.payee.as_str(), "$.payee", "Payee is required");
    f.required(a.currency.as_str(), "$.currency", "Currency is required");
    f.warn_if(
        !starts_with(a.package_ref.as_str(), "bzz://"),
        "$.packageRef",
        "Payment authorization packageRef is not a bzz:// reference",
    );
    f.issue_if(f64_lt_zero(a.amount), "$.amount", "Amount must not be negative");
    match a.max_amount {
        Some(m) => {
            f.issue_if(
                f64_lt_zero(m),
                "$.maxAmount",
                "Maximum authorization amount must not be negative",
            );
            f.issue_if(exceeds_max, "$.maxAmount", "Maximum authorization amount must cover amount");
        },
        None => {},
    }
    match &a.asset {
        Some(x) => {
            if is_blank(x.as_str()) {
                f.issue_if(true, "$.asset", "Asset is empty");
            } else {
                f.issue_if(
                    !text_eq(x.as_str(), a.currency.as_str()),
                    "$.asset",
                    "Payment authorization asset must match currency",
                );
            }
        },
        None => {},
    }
    let method_mismatch = match a.method {
        Some(m) => m != a.adapter,
        None => false,
    };
    f.issue_if(method_mismatch, "$.method", "Payment authorization method must match adapter");
    f.issue_if(
        a.adapter == PaymentAdapterKind::Free && f64_gt_zero(a.amount),
        "$.adapter",
        "Free payment adapter can only authorize zero-cost quotes",
    );
    f.issue_if(
        a.adapter == PaymentAdapterKind::ExternalTransaction && absent_or_blank_text(&a.payment_ref),
        "$.paymentRef",
        "External transaction authorizations require a paymentRef",
    );
    let empty_escrow = match &a.escrow_ref {
        Some(e) => is_blank(e.as_str()),
        None => false,
    };
    f.issue_if(empty_escrow, "$.escrowRef", "Escrow ref is empty");
}

fn payment_time(f: &mut Findings, a: &PaymentAuthorizationV1, now: Instant)
    ensures
        final(f)@ == payment_time_report(old(f)@, a@, now),
{
    match a.status {
        PaymentAuthorizationStatus::Refunded => f.issue_if(
            true,
            "$.status",
            "Refunded payment authorizations cannot fund settlement",
        ),
        PaymentAuthorizationStatus::Rejected => f.issue_if(
            true,
            "$.status",
            "Rejected payment authorizations cannot fund settlement",
        ),
        _ => {},
    }
    let authorized = parse_rfc3339(a.authorized_at.as_str());
    f.issue_if(
        authorized.is_none(),
        "$.authorizedAt",
        "Payment authorization timestamp must be RFC3339",
    );
    let expires = parse_rfc3339(a.expires_at.as_str());
    match passed_before(expires, now) {
        Some(true) => f.issue_if(true, "$.expiresAt", "Payment authorization has expired"),
        Some(false) => f.issue_if(
            out_of_order(authorized, expires),
            "$.authorizedAt",
            "Payment authorization timestamp is after expiration",
        ),
        None => f.issue_if(
            true,
            "$.expiresAt",
            "Payment authorization expiration must be RFC3339",
        ),
    }
}

fn payment_quote(
    f: &mut Findings,
    a: &PaymentAuthorizationV1,
    x: &PaymentQuoteCheck,
    now: Instant,
    verified_at: String,
)
    ensures
        final(f)@ == payment_quote_report(old(f)@, a@, *x, now),
{
    let q = &x.quote;
    let qv = verify_service_quote(q, &x.content, None, x.price_estimate_differs, now, verified_at);
    f.issue_if(!qv.valid, "$.quote", "Referenced service quote does not verify");
    f.issue_if(
        !text_eq(a.quote_id.as_str(), q.quote_id.as_str()),
        "$.quoteId",
        "Payment authorization quoteId must match service quote",
    );
    f.issue_if(
        !text_eq(a.request_id.as_str(), q.request_id.as_str()),
        "$.requestId",
        "Payment authorization requestId must match service quote",
    );
    f.issue_if(
        !text_eq(a.offer_id.as_str(), q.offer_id.as_str()),
        "$.offerId",
        "Payment authorization offerId must match service quote",
    );
    f.issue_if(
        !text_eq(a.runner_id.as_str(), q.runner_id.as_str()),
        "$.runnerId",
        "Payment authorization runnerId must match service quote",
    );
    f.issue_if(
        !text_eq(a.package_ref.as_str(), q.package_ref.as_str()),
        "$.packageRef",
        "Payment authorization packageRef must match service quote",
    );
    f.issue_if(
        x.amount_differs,
        "$.amount",
        "Payment authorization amount must match service quote estimatedCost",
    );
    f.issue_if(
        a.max_amount.is_some() && x.max_below_estimate,
        "$.maxAmount",
        "Payment authorization maxAmount must cover service quote estimatedCost",
    );
    f.issue_if(
        !text_eq(a.currency.as_str(), q.currency.as_str()),
        "$.currency",
        "Payment authorization currency must match service quote",
    );
    let asset_mismatch = match &a.asset {
        Some(s) => !text_eq(s.as_str(), q.currency.as_str()),
        None => false,
    };
    f.issue_if(
        asset_mismatch,
        "$.asset",
        "Payment authorization asset must match service quote currency",
    );
    let job_mismatch = match (&a.job_id, payment_authorization_job_id(q)) {
        (Some(j), Some(k)) => !text_eq(j.as_str(), k.as_str()),
        _ => false,
    };
    f.issue_if(
        job_mismatch,
        "$.jobId",
        "Payment authorization jobId must match service quote jobId",
    );
    f.issue_if(
        !text_eq(a.expires_at.as_str(), q.expires_at.as_str()),
        "$.expiresAt",
        "Payment authorization expiresAt must match service quote",
    );
}

/// Checks a payment authorization against the payment rules and, when
/// `quote` is given, against the service quote it cites. `content` carries
/// the canonical id and development signature of the authorization's signing
/// value and, for a signature that carries an identity envelope, the envelope
/// check (signed by the payer); `exceeds_max` is whether the amount exceeds
/// the maximum plus 1e-7; `now` is the time expiry is judged against and
/// `verified_at` the time of the check.
pub fn verify_payment_authorization(
    authorization: &PaymentAuthorizationV1,
    content: &SignedContent,
    quote: Option<&PaymentQuoteCheck>,
    exceeds_max: bool,
    now: Instant,
    verified_at: String,
) -> (r: PaymentAuthorizationVerificationV1)
    ensures
        r.schema_version@ == PAYMENT_AUTHORIZATION_VERIFICATION_SCHEMA_VERSION@,
        r.authorization_id@ == authorization.authorization_id@,
        issues_view(r.issues@) == payment_authorization_report(
            authorization@,
            *content,
            match quote { Some(x) => Some(*x), None => None },
            exceeds_max,
            now,
        ).issues,
        issues_view(r.warnings@) == payment_authorization_report(
            authorization@,
            *content,
            match quote { Some(x) => Some(*x), None => None },
            exceeds_max,
            now,
        ).warnings,
        r.valid == payment_authorization_report(
            authorization@,
            *content,
            match quote { Some(x) => Some(*x), None => None },
            exceeds_max,
            now,
        ).valid(),
        r.expected_signature@ == expected_payment_signature(
            authorization.signature@,
            content.dev_signature@,
            identity_view(content.identity_check),
        ),
        r.verified_at@ == verified_at@,
{
    let a = authorization;
    let mut f = Findings::new();
    let current = text_eq(a.schema_version.as_str(), PAYMENT_AUTHORIZATION_SCHEMA_VERSION);
    let legacy = text_eq(a.schema_version.as_str(), LEGACY_PAYMENT_AUTHORIZATION_SCHEMA_VERSION);
    f.issue_if(
        !(current || legacy),
        "$.schemaVersion",
        "Expected schemaVersion to be hivemind.payment_authorization.v1",
    );
    if current {
        payment_current(&mut f, a);
    }
    let expected = payment_identity(&mut f, a, content);
    payment_terms(&mut f, a, exceeds_max);
    payment_time(&mut f, a, now);
    match quote {
        Some(x) => payment_quote(&mut f, a, x, now, verified_at.clone()),
        None => {},
    }
    let valid = f.is_valid();
    PaymentAuthorizationVerificationV1 {
        schema_version: String::from_str(PAYMENT_AUTHORIZATION_VERIFICATION_SCHEMA_VERSION),
        authorization_id: a.authorization_id.clone(),
        valid,
        issues: f.issues,
        warnings: f.warnings,
        expected_signature: expected,
        verified_at,
    }
}

/// The authorization a payer gives for a quote, before signing: the quote's
/// identifiers and job, the payer and payee, the quoted cost as both amount
/// and maximum, the quote's currency as asset, the adapter as method, the
/// quote's escrow reference from its details, authorized at `now` and
/// expiring with the quote. Its id and signature are left empty for the
/// signer to fill.
pub fn authorize_payment(
    quote: &ServiceQuoteV1,
    payer: String,
    payee: String,
    adapter: PaymentAdapterKind,
    payment_ref: Option<String>,
    now: String,
) -> (r: PaymentAuthorizationV1)
    ensures
        r@ == (AuthorizationView {
            schema_version: PAYMENT_AUTHORIZATION_SCHEMA_VERSION@,
            authorization_id: seq![],
            quote_id: quote.quote_id@,
            job_id: quote_job_id(*quote),
            request_id: quote.request_id@,
            offer_id: quote.offer_id@,
            runner_id: quote.runner_id@,
            package_ref: quote.package_ref@,
            payer: payer@,
            payee: payee@,
            amount: quote.estimated_cost,
            currency: quote.currency@,
            adapter,
            max_amount: Some(quote.estimated_cost),
            asset: Some(quote.currency@),
            method: Some(adapter),
            status: PaymentAuthorizationStatus::Authorized,
            payment_ref: opt_view(payment_ref),
            escrow_ref: present_text(opt_view(quote.details_escrow_ref)),
            authorized_at: now@,
            expires_at: quote.expires_at@,
            signature: seq![],
        }),
{
    let escrow_ref = match crate::findings::present_text_of(&quote.details_escrow_ref) {
        Some(e) => Some(e.to_string()),
        None => None,
    };
    PaymentAuthorizationV1 {
        schema_version: String::from_str(PAYMENT_AUTHORIZATION_SCHEMA_VERSION),
        authorization_id: String::new(),
        quote_id: quote.quote_id.clone(),
        job_id: payment_authorization_job_id(quote),
        request_id: quote.request_id.clone(),
        offer_id: quote.offer_id.clone(),
        runner_id: quote.runner_id.clone(),
        package_ref: quote.package_ref.clone(),
        payer,
        payee,
        amount: quote.estimated_cost,
        currency: quote.currency.clone(),
        adapter,
        max_amount: Some(quote.estimated_cost),
        asset: Some(quote.currency.clone()),
        method: Some(adapter),
        status: PaymentAuthorizationStatus::Authorized,
        payment_ref,
        escrow_ref,
        authorized_at: now,
        expires_at: quote.expires_at.clone(),
        signature: String::new(),
    }
}


/// The identity envelope of a PaymentAuthorizationV1's signature: context `payment-authorization`, signed by
/// its payer.
pub fn payment_authorization_envelope(authorization: &PaymentAuthorizationV1) -> (r: EnvelopeSubject)
    ensures
        r.context@ == "payment-authorization"@,
        opt_view(r.signer) == Some(authorization.payer@),
{
    envelope_subject("payment-authorization", authorization.payer.as_str())
}


/// Puts on a PaymentAuthorizationV1 a signature that `subject` made over its signed content,
/// with `authorization_id` the canonical id of that content: refused, leaving the record
/// unchanged, when `subject` is not the record's payer.
pub fn seal_payment_authorization(authorization: &mut PaymentAuthorizationV1, subject: &str, authorization_id: String, signature: String) -> (ok: bool)
    ensures
        ok == (subject@ == old(authorization).payer@),
        ok ==> *final(authorization) == (PaymentAuthorizationV1 { authorization_id, signature: signature, ..*old(authorization) }),
        !ok ==> *final(authorization) == *old(authorization),
{
    if !text_eq(subject, authorization.payer.as_str()) {
        return false;
    }
    authorization.authorization_id = authorization_id;
    authorization.signature = signature;
    true
}

} // verus!
