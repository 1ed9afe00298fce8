//! Service quotes: a runner's priced promise to run a request, and the rules
//! a quote must pass, alone and against the runner offer it cites.
use crate::clock::{not_after, out_of_order, passed_before, parse_rfc3339, rfc3339_instant, Instant};
use crate::findings::{envelope_subject, EnvelopeSubject, expected_signature, identity_view, issues_view, opt_view, present_text, present_text_of, Findings, MarketplaceVerificationIssueV1, Report, SignedContent};
use crate::ieee::{f64_lt_zero, lt_zero};
use crate::kinds::{privacy_tier_for_receipt, privacy_tier_from_execution_privacy, IntegrityTier, PrivacyTier, ReceiptMode, SettlementModel};
use crate::local_runner::{count_tokens, word_count};
use crate::ieee::{f64_gt_zero, gt_zero};

use crate::text_order::{same_texts, sort_dedup_texts, strictly_sorted};
use crate::offers::{runner_offer_report, verify_runner_offer, PriceModel, PriceV1, RunnerCacheClaimV1, RunnerOfferV1};
use crate::text::{blank, contains_text, has_prefix, is_blank, starts_with, text_eq};
use crate::tiers::{has_integrity, select_integrity, select_runner_offer_integrity_tier};
use vstd::prelude::*;

verus! {

pub const SERVICE_QUOTE_SCHEMA_VERSION: &'static str = "hivemind.quote.v1";

pub const LEGACY_SERVICE_QUOTE_SCHEMA_VERSION: &'static str = "swarm-ai.service-quote.v1";

pub const SERVICE_QUOTE_VERIFICATION_SCHEMA_VERSION: &'static str =
    "hivemind.quote_verification.v1";

pub const QUOTE_TIMING_SCHEMA_VERSION: &'static str = "hivemind.quote_timing.v1";

/// How long producing a quote took, and which checks it matched.
#[derive(Debug, Clone, PartialEq, Eq)]
pub struct ServiceQuoteTimingV1 {
    pub schema_version: String,
    pub started_at: String,
    pub completed_at: String,
    pub elapsed_ms: u64,
    pub offer_matched: bool,
    pub privacy_matched: bool,
    pub verification_matched: bool,
}

/// A service quote. `estimated_cost` is the IEEE 754 bit pattern of the
/// cost. `details_job_id`, `details_job_order_job_id`, `details_escrow_ref`
/// and `details_quote_ref` are the text values, when they are texts, at
/// `details.jobId`, `details.jobOrder.jobId`, `details.escrowRef` and
/// `details.quoteRef`; `details_evidence_refs` are the texts at
/// `details.evidenceRefs` (the text items of an array, or a single text).
#[derive(Debug, Clone)]
pub struct ServiceQuoteV1 {
    pub schema_version: String,
    pub quote_id: String,
    pub job_id: Option<String>,
    pub request_id: String,
    pub offer_id: String,
    pub listing_id: Option<String>,
    pub runner_id: String,
    pub package_ref: String,
    pub estimated_input_tokens: u64,
    pub estimated_output_tokens: u64,
    pub estimated_cost: u64,
    pub currency: String,
    pub price: Option<PriceV1>,
    pub price_model: Option<PriceModel>,
    pub privacy_mode: Option<PrivacyTier>,
    pub verification_mode: Option<IntegrityTier>,
    pub estimated_start_delay_ms: Option<u64>,
    pub estimated_time_to_first_output_ms: Option<u64>,
    pub estimated_completion_ms: Option<u64>,
    pub cache_hit_claim: Option<bool>,
    pub validation_support: Vec<String>,
    pub settlement_model: SettlementModel,
    pub expires_at: String,
    pub details_job_id: Option<String>,
    pub details_job_order_job_id: Option<String>,
    pub details_escrow_ref: Option<String>,
    pub details_quote_ref: Option<String>,
    pub details_evidence_refs: Vec<String>,
    pub quote_timing: Option<ServiceQuoteTimingV1>,
    pub signature: Option<String>,
}

/// What the verification of a service quote found. `expected_cost` is the
/// IEEE 754 bit pattern of the cost the cited offer's pricing gives.
#[derive(Debug, Clone)]
pub struct ServiceQuoteVerificationV1 {
    pub schema_version: String,
    pub quote_id: String,
    pub valid: bool,
    pub issues: Vec<MarketplaceVerificationIssueV1>,
    pub warnings: Vec<MarketplaceVerificationIssueV1>,
    pub expected_cost: Option<u64>,
    pub expected_signature: Option<String>,
    pub verified_at: String,
}

/// The runner offer a quote is checked against, with what the check needs
/// beside the offer: the signed-content facts of the offer; whether the
/// offer's privacy tiers support the quote's privacy mode; and the
/// floating-point facts of its pricing: the expected cost (input tokens times
/// input price plus output tokens times output price, as IEEE 754 bits) and
/// whether the quote's estimated cost and its price amount each differ from
/// it by more than 1e-7.
#[derive(Debug, Clone)]
pub struct QuoteOfferCheck {
    pub offer: RunnerOfferV1,
    pub content: SignedContent,
    pub privacy_supported: bool,
    pub expected_cost: u64,
    pub estimate_differs: bool,
    pub price_differs: bool,
}

/// `a < b` in time.
pub open spec fn before(a: Instant, b: Instant) -> bool {
    !not_after(b, a)
}

/// The job a quote belongs to: its own `jobId`, else the one in its details,
/// else the one in its details' job order; each trimmed, and skipped when
/// blank.
pub open spec fn quote_job_id(q: ServiceQuoteV1) -> Option<Seq<char>> {
    match present_text(opt_view(q.job_id)) {
        Some(j) => Some(j),
        None => match present_text(opt_view(q.details_job_id)) {
            Some(j) => Some(j),
            None => present_text(opt_view(q.details_job_order_job_id)),
        },
    }
}

/// The job a quote belongs to, as its payment authorization records it.
pub fn payment_authorization_job_id(quote: &ServiceQuoteV1) -> (r: Option<String>)
    ensures
        opt_view(r) == quote_job_id(*quote),
{
    match present_text_of(&quote.job_id) {
        Some(j) => Some(j.to_string()),
        None => match present_text_of(&quote.details_job_id) {
            Some(j) => Some(j.to_string()),
            None => match present_text_of(&quote.details_job_order_job_id) {
                Some(j) => Some(j.to_string()),
                None => None,
            },
        },
    }
}

/// The first `n` validation support entries; a blank one is an issue.
pub open spec fn support_upto(r: Report, values: Seq<Seq<char>>, n: nat) -> Report {
    r.nonblank_upto(values, n, "$.validationSupport["@, "]"@, "Validation support entry must not be empty"@)
}

/// The rules a current-schema quote adds.
pub open spec fn quote_current_report(r: Report, q: ServiceQuoteV1) -> Report {
    let r = r.issue_if(quote_job_id(q) is None, "$.jobId"@, "Current service quote schema requires jobId"@);
    let r = r.issue_if(q.price is None, "$.price"@, "Current service quote schema requires price"@);
    let r = r.issue_if(
        q.price_model is None,
        "$.priceModel"@,
        "Current service quote schema requires priceModel"@,
    );
    let r = r.issue_if(
        q.privacy_mode is None,
        "$.privacyMode"@,
        "Current service quote schema requires privacyMode"@,
    );
    let r = r.issue_if(
        q.verification_mode is None,
        "$.verificationMode"@,
        "Current service quote schema requires verificationMode"@,
    );
    let r = r.issue_if(
        q.estimated_start_delay_ms is None,
        "$.estimatedStartDelayMs"@,
        "Current service quote schema requires estimatedStartDelayMs"@,
    );
    let r = r.issue_if(
        q.cache_hit_claim is None,
        "$.cacheHitClaim"@,
        "Current service quote schema requires cacheHitClaim"@,
    );
    let r = r.issue_if(
        q.validation_support@.len() == 0,
        "$.validationSupport"@,
        "Current service quote schema requires validationSupport"@,
    );
    r.warn_if(
        q.quote_timing is None,
        "$.quoteTiming"@,
        "Current service quote should include quote response timing for operational metrics"@,
    )
}

/// The identity rules of a quote: required fields, id and signature.
pub open spec fn quote_identity_report(r: Report, q: ServiceQuoteV1, c: SignedContent) -> Report {
    let r = r.issue_if(blank(q.quote_id@), "$.quoteId"@, "Quote id is required"@);
    let r = r.issue_if(blank(q.request_id@), "$.requestId"@, "Request id is required"@);
    let r = r.issue_if(blank(q.offer_id@), "$.offerId"@, "Offer id is required"@);
    let r = r.issue_if(blank(q.runner_id@), "$.runnerId"@, "Runner id is required"@);
    let r = r.issue_if(blank(q.package_ref@), "$.packageRef"@, "Package ref is required"@);
    let r = r.issue_if(blank(q.currency@), "$.currency"@, "Currency is required"@);
    let r = r.issue_if(
        !blank(q.quote_id@) && present_text(opt_view(q.signature)) is Some && q.quote_id@
            != c.canonical_id@,
        "$.quoteId"@,
        "Quote id does not match canonical signed content"@,
    );
    r.signature(
        opt_view(q.signature),
        c.dev_signature@,
        identity_view(c.identity_check),
        "Service quote signature does not match canonical dev signature or Ed25519 identity envelope"@,
        "Service quote is unsigned; verify runnerId and quoteId through a trusted source"@,
    )
}

/// The estimate rules of a quote. `price_estimate_differs` is whether the
/// price amount differs from the estimated cost by more than 1e-7.
pub open spec fn quote_estimate_report(r: Report, q: ServiceQuoteV1, price_estimate_differs: bool) -> Report {
    let r = r.warn_if(
        !has_prefix(q.package_ref@, "bzz://"@),
        "$.packageRef"@,
        "Quote packageRef is not a bzz:// reference"@,
    );
    let r = r.issue_if(
        lt_zero(q.estimated_cost),
        "$.estimatedCost"@,
        "Estimated cost must not be negative"@,
    );
    let r = match q.price {
        Some(p) => {
            let r = r.issue_if(lt_zero(p.amount), "$.price.amount"@, "Price must not be negative"@);
            let r = if blank(p.currency@) {
                r.issue_if(true, "$.price.currency"@, "Price currency is required"@)
            } else {
                r.issue_if(
                    p.currency@ != q.currency@,
                    "$.price.currency"@,
                    "Quote price currency must match currency compatibility field"@,
                )
            };
            r.issue_if(
                price_estimate_differs,
                "$.price.amount"@,
                "Quote price amount must match estimatedCost compatibility field"@,
            )
        },
        None => r,
    };
    let r = r.warn_if(
        q.estimated_start_delay_ms matches Some(d) && d > 86_400_000,
        "$.estimatedStartDelayMs"@,
        "Estimated start delay is longer than one day"@,
    );
    let r = r.issue_if(
        q.estimated_time_to_first_output_ms matches Some(f) && q.estimated_completion_ms matches Some(
            c,
        ) && c < f,
        "$.estimatedCompletionMs"@,
        "Estimated completion must be greater than or equal to first output estimate"@,
    );
    let r = support_upto(r, q.validation_support.deep_view(), q.validation_support@.len());
    let r = r.warn_if(
        q.estimated_input_tokens == 0,
        "$.estimatedInputTokens"@,
        "Estimated input tokens is zero"@,
    );
    r.warn_if(
        q.estimated_output_tokens == 0,
        "$.estimatedOutputTokens"@,
        "Estimated output tokens is zero"@,
    )
}

/// The rules on a quote's timing record.
pub open spec fn quote_timing_report(r: Report, q: ServiceQuoteV1, current: bool) -> Report {
    match q.quote_timing {
        Some(t) => {
            let r = r.issue_if(
                t.schema_version@ != QUOTE_TIMING_SCHEMA_VERSION@,
                "$.quoteTiming.schemaVersion"@,
                "Quote timing schemaVersion must be hivemind.quote_timing.v1"@,
            );
            let started = rfc3339_instant(t.started_at@);
            let completed = rfc3339_instant(t.completed_at@);
            let r = r.issue_if(
                started is None,
                "$.quoteTiming.startedAt"@,
                "Quote timing startedAt must be RFC3339"@,
            );
            let r = r.issue_if(
                completed is None,
                "$.quoteTiming.completedAt"@,
                "Quote timing completedAt must be RFC3339"@,
            );
            let r = r.issue_if(
                started matches Some(s) && completed matches Some(c) && before(c, s),
                "$.quoteTiming.completedAt"@,
                "Quote timing completedAt must not be earlier than startedAt"@,
            );
            r.issue_if(
                current && (!t.offer_matched || !t.privacy_matched || !t.verification_matched),
                "$.quoteTiming"@,
                "Successful current-schema quote timing must record matched offer, privacy, and verification checks"@,
            )
        },
        None => r,
    }
}

/// The expiry rule: an unparsable or past expiry is an issue.
pub open spec fn quote_expiry_report(r: Report, q: ServiceQuoteV1, now: Instant) -> Report {
    match rfc3339_instant(q.expires_at@) {
        Some(t) => r.issue_if(before(t, now), "$.expiresAt"@, "Quote has expired"@),
        None => r.issue_if(true, "$.expiresAt"@, "Quote expiration must be RFC3339"@),
    }
}

/// Whether a warmed cache claim of the offer covers `package_ref`.
pub open spec fn warmed_claim(claims: Seq<RunnerCacheClaimV1>, package_ref: Seq<char>) -> bool {
    exists|i: int| 0 <= i < claims.len() && #[trigger] claims[i].warmed && claims[i].package_ref@ == package_ref
}

/// The rules that hold a quote to the runner offer it cites.
pub open spec fn quote_offer_report(r: Report, q: ServiceQuoteV1, x: QuoteOfferCheck, now: Instant) -> Report {
    let o = x.offer;
    let r = r.issue_if(
        !runner_offer_report(o, x.content, now).valid(),
        "$.offer"@,
        "Referenced runner offer does not verify"@,
    );
    let r = r.issue_if(q.offer_id@ != o.offer_id@, "$.offerId"@, "Quote offerId must match runner offer"@);
    let r = r.issue_if(
        q.runner_id@ != o.runner_id@,
        "$.runnerId"@,
        "Quote runnerId must match runner offer"@,
    );
    let r = r.issue_if(
        q.privacy_mode is Some && o.privacy_tiers@.len() > 0 && !x.privacy_supported,
        "$.privacyMode"@,
        "Quote privacyMode is not supported by the runner offer"@,
    );
    let r = r.issue_if(
        q.verification_mode matches Some(m) && o.verification_tiers@.len() > 0 && select_integrity(
            o.verification_tiers@,
            Some(m),
        ) is None,
        "$.verificationMode"@,
        "Quote verificationMode is not supported by the runner offer"@,
    );
    let r = r.issue_if(
        q.cache_hit_claim == Some(true) && !warmed_claim(o.cache_claims@, q.package_ref@),
        "$.cacheHitClaim"@,
        "Quote cacheHitClaim is not backed by the runner offer cache claims"@,
    );
    let r = r.issue_if(
        o.supported_package_refs@.len() > 0 && !o.supported_package_refs.deep_view().contains(
            q.package_ref@,
        ),
        "$.packageRef"@,
        "Quote packageRef is not supported by runner offer"@,
    );
    let r = r.issue_if(
        q.currency@ != o.pricing.currency@,
        "$.currency"@,
        "Quote currency must match runner offer pricing currency"@,
    );
    let r = r.issue_if(
        q.listing_id matches Some(l) && l@ != o.offer_id@,
        "$.listingId"@,
        "Quote listingId must match runner offer id when present"@,
    );
    let r = r.warn_if(
        q.estimated_time_to_first_output_ms matches Some(f) && f != o.service_level.p95_first_token_ms,
        "$.estimatedTimeToFirstOutputMs"@,
        "Quote first-output estimate differs from runner offer service level"@,
    );
    let r = r.issue_if(
        x.estimate_differs,
        "$.estimatedCost"@,
        "Quote estimated cost does not match runner offer pricing"@,
    );
    r.issue_if(
        q.price is Some && x.price_differs,
        "$.price.amount"@,
        "Quote price amount does not match runner offer pricing"@,
    )
}

/// The findings of the service quote rules, in the order they are applied.
pub open spec fn service_quote_report(
    q: ServiceQuoteV1,
    c: SignedContent,
    offer: Option<QuoteOfferCheck>,
    price_estimate_differs: bool,
    now: Instant,
) -> Report {
    let current = q.schema_version@ == SERVICE_QUOTE_SCHEMA_VERSION@;
    let legacy = q.schema_version@ == LEGACY_SERVICE_QUOTE_SCHEMA_VERSION@;
    let r = Report::empty().issue_if(
        !(current || legacy),
        "$.schemaVersion"@,
        "Expected schemaVersion to be hivemind.quote.v1"@,
    );
    let r = if current {
        quote_current_report(r, q)
    } else {
        r
    };
    let r = quote_identity_report(r, q, c);
    let r = quote_estimate_report(r, q, price_estimate_differs);
    let r = quote_timing_report(r, q, current);
    let r = quote_expiry_report(r, q, now);
    match offer {
        Some(x) => quote_offer_report(r, q, x, now),
        None => r,
    }
}

fn quote_current(f: &mut Findings, q: &ServiceQuoteV1)
    ensures
        final(f)@ == quote_current_report(old(f)@, *q),
{
    let job = payment_authorization_job_id(q);
    f.issue_if(job.is_none(), "$.jobId", "Current service quote schema requires jobId");
    f.issue_if(q.price.is_none(), "$.price", "Current service quote schema requires price");
    f.issue_if(
        q.price_model.is_none(),
        "$.priceModel",
        "Current service quote schema requires priceModel",
    );
    f.issue_if(
        q.privacy_mode.is_none(),
        "$.privacyMode",
        "Current service quote schema requires privacyMode",
    );
    f.issue_if(
        q.verification_mode.is_none(),
        "$.verificationMode",
        "Current service quote schema requires verificationMode",
    );
    f.issue_if(
        q.estimated_start_delay_ms.is_none(),
        "$.estimatedStartDelayMs",
        "Current service quote schema requires estimatedStartDelayMs",
    );
    f.issue_if(
        q.cache_hit_claim.is_none(),
        "$.cacheHitClaim",
        "Current service quote schema requires cacheHitClaim",
    );
    f.issue_if(
        q.validation_support.len() == 0,
        "$.validationSupport",
        "Current service quote schema requires validationSupport",
    );
    f.warn_if(
        q.quote_timing.is_none(),
        "$.quoteTiming",
        "Current service quote should include quote response timing for operational metrics",
    );
}

fn quote_identity(f: &mut Findings, q: &ServiceQuoteV1, c: &SignedContent) -> (expected: String)
    ensures
        final(f)@ == quote_identity_report(old(f)@, *q, *c),
        expected@ == expected_signature(
            opt_view(q.signature),
            c.dev_signature@,
            identity_view(c.identity_check),
        ),
{
    f.required(q.quote_id.as_str(), "$.quoteId", "Quote id is required");
    f.required(q.request_id.as_str(), "$.requestId", "Request id is required");
    f.required(q.offer_id.as_str(), "$.offerId", "Offer id is required");
    f.required(q.runner_id.as_str(), "$.runnerId", "Runner id is required");
    f.required(q.package_ref.as_str(), "$.packageRef", "Package ref is required");
    f.required(q.currency.as_str(), "$.currency", "Currency is required");
    let signed = present_text_of(&q.signature).is_some();
    let mismatch = !is_blank(q.quote_id.as_str()) && signed && !text_eq(
        q.quote_id.as_str(),
        c.canonical_id.as_str(),
    );
    f.issue_if(mismatch, "$.quoteId", "Quote id does not match canonical signed content");
    f.signature(
        &q.signature,
        c,
        "Service quote signature does not match canonical dev signature or Ed25519 identity envelope",
        "Service quote is unsigned; verify runnerId and quoteId through a trusted source",
    )
}

fn quote_estimates(f: &mut Findings, q: &ServiceQuoteV1, price_estimate_differs: bool)
    ensures
        final(f)@ == quote_estimate_report(old(f)@, *q, price_estimate_differs),
{
    f.warn_if(
        !starts_with(q.package_ref.as_str(), "bzz://"),
        "$.packageRef",
        "Quote packageRef is not a bzz:// reference",
    );
    f.issue_if(
        f64_lt_zero(q.estimated_cost),
        "$.estimatedCost",
        "Estimated cost must not be negative",
    );
    match &q.price {
        Some(p) => {
            f.issue_if(f64_lt_zero(p.amount), "$.price.amount", "Price must not be negative");
            if is_blank(p.currency.as_str()) {
                f.issue_if(true, "$.price.currency", "Price currency is required");
            } else {
                f.issue_if(
                    !text_eq(p.currency.as_str(), q.currency.as_str()),
                    "$.price.currency",
                    "Quote price currency must match currency compatibility field",
                );
            }
            f.issue_if(
                price_estimate_differs,
                "$.price.amount",
                "Quote price amount must match estimatedCost compatibility field",
            );
        },
        None => {},
    }
    let long_delay = match q.estimated_start_delay_ms {
        Some(d) => d > 86_400_000,
        None => false,
    };
    f.warn_if(long_delay, "$.estimatedStartDelayMs", "Estimated start delay is longer than one day");
    let early = match (q.estimated_time_to_first_output_ms, q.estimated_completion_ms) {
        (Some(first), Some(done)) => done < first,
        _ => false,
    };
    f.issue_if(
        early,
        "$.estimatedCompletionMs",
        "Estimated completion must be greater than or equal to first output estimate",
    );
    f.nonblank_each(
        &q.validation_support,
        "$.validationSupport[",
        "]",
        "Validation support entry must not be empty",
    );
    f.warn_if(
        q.estimated_input_tokens == 0,
        "$.estimatedInputTokens",
        "Estimated input tokens is zero",
    );
    f.warn_if(
        q.estimated_output_tokens == 0,
        "$.estimatedOutputTokens",
        "Estimated output tokens is zero",
    );
}

fn quote_timing(f: &mut Findings, q: &ServiceQuoteV1, current: bool)
    ensures
        final(f)@ == quote_timing_report(old(f)@, *q, current),
{
    match &q.quote_timing {
        Some(t) => {
            f.issue_if(
                !text_eq(t.schema_version.as_str(), QUOTE_TIMING_SCHEMA_VERSION),
                "$.quoteTiming.schemaVersion",
                "Quote timing schemaVersion must be hivemind.quote_timing.v1",
            );
            let started = parse_rfc3339(t.started_at.as_str());
            let completed = parse_rfc3339(t.completed_at.as_str());
            f.issue_if(
                started.is_none(),
                "$.quoteTiming.startedAt",
                "Quote timing startedAt must be RFC3339",
            );
            f.issue_if(
                completed.is_none(),
                "$.quoteTiming.completedAt",
                "Quote timing completedAt must be RFC3339",
            );
            let reversed = out_of_order(started, completed);
            f.issue_if(
                reversed,
                "$.quoteTiming.completedAt",
                "Quote timing completedAt must not be earlier than startedAt",
            );
            f.issue_if(
                current && (!t.offer_matched || !t.privacy_matched || !t.verification_matched),
                "$.quoteTiming",
                "Successful current-schema quote timing must record matched offer, privacy, and verification checks",
            );
        },
        None => {},
    }
}

fn quote_expiry(f: &mut Findings, q: &ServiceQuoteV1, now: Instant)
    ensures
        final(f)@ == quote_expiry_report(old(f)@, *q, now),
{
    match passed_before(parse_rfc3339(q.expires_at.as_str()), now) {
        Some(expired) => f.issue_if(expired, "$.expiresAt", "Quote has expired"),
        None => f.issue_if(true, "$.expiresAt", "Quote expiration must be RFC3339"),
    }
}

pub(crate) fn has_warmed_claim(claims: &Vec<RunnerCacheClaimV1>, package_ref: &str) -> (r: bool)
    ensures
        r == warmed_claim(claims@, package_ref@),
{
    let mut i: usize = 0;
    while i < claims.len()
        invariant
            i <= claims.len(),
            forall|j: int| 0 <= j < i ==> !(#[trigger] claims@[j].warmed && claims@[j].package_ref@ == package_ref@),
        decreases claims.len() - i,
    {
        if claims[i].warmed && text_eq(claims[i].package_ref.as_str(), package_ref) {
            return true;
        }
        i = i + 1;
    }
    false
}

fn quote_offer(f: &mut Findings, q: &ServiceQuoteV1, x: &QuoteOfferCheck, now: Instant, verified_at: String)
    ensures
        final(f)@ == quote_offer_report(old(f)@, *q, *x, now),
{
    let o = &x.offer;
    let ov = verify_runner_offer(o, &x.content, now, verified_at);
    f.issue_if(!ov.valid, "$.offer", "Referenced runner offer does not verify");
    f.issue_if(
        !text_eq(q.offer_id.as_str(), o.offer_id.as_str()),
        "$.offerId",
        "Quote offerId must match runner offer",
    );
    f.issue_if(
        !text_eq(q.runner_id.as_str(), o.runner_id.as_str()),
        "$.runnerId",
        "Quote runnerId must match runner offer",
    );
    f.issue_if(
        q.privacy_mode.is_some() && o.privacy_tiers.len() > 0 && !x.privacy_supported,
        "$.privacyMode",
        "Quote privacyMode is not supported by the runner offer",
    );
    let unsupported_verification = match q.verification_mode {
        Some(m) => o.verification_tiers.len() > 0 && select_runner_offer_integrity_tier(
            &o.verification_tiers,
            m,
        ).is_none(),
        None => false,
    };
    f.issue_if(
        unsupported_verification,
        "$.verificationMode",
        "Quote verificationMode is not supported by the runner offer",
    );
    let claims_hit = match q.cache_hit_claim {
        Some(b) => b,
        None => false,
    };
    let unbacked = claims_hit && !has_warmed_claim(&o.cache_claims, q.package_ref.as_str());
    f.issue_if(
        unbacked,
        "$.cacheHitClaim",
        "Quote cacheHitClaim is not backed by the runner offer cache claims",
    );
    let unsupported_package = o.supported_package_refs.len() > 0 && !contains_text(
        &o.supported_package_refs,
        q.package_ref.as_str(),
    );
    f.issue_if(
        unsupported_package,
        "$.packageRef",
        "Quote packageRef is not supported by runner offer",
    );
    f.issue_if(
        !text_eq(q.currency.as_str(), o.pricing.currency.as_str()),
        "$.currency",
        "Quote currency must match runner offer pricing currency",
    );
    let other_listing = match &q.listing_id {
        Some(l) => !text_eq(l.as_str(), o.offer_id.as_str()),
        None => false,
    };
    f.issue_if(
        other_listing,
        "$.listingId",
        "Quote listingId must match runner offer id when present",
    );
    let other_first = match q.estimated_time_to_first_output_ms {
        Some(v) => v != o.service_level.p95_first_token_ms,
        None => false,
    };
    f.warn_if(
        other_first,
        "$.estimatedTimeToFirstOutputMs",
        "Quote first-output estimate differs from runner offer service level",
    );
    f.issue_if(
        x.estimate_differs,
        "$.estimatedCost",
        "Quote estimated cost does not match runner offer pricing",
    );
    f.issue_if(
        q.price.is_some() && x.price_differs,
        "$.price.amount",
        "Quote price amount does not match runner offer pricing",
    );
}

/// Checks a service quote against the quote rules and, when `offer` is
/// given, against the runner offer it cites. `content` carries the canonical
/// id and development signature of the quote's signing value and, for an
/// identity-enveloped signature, the envelope check (signed by the runner);
/// `price_estimate_differs` is whether the quote's price amount differs from
/// its estimated cost by more than 1e-7; `now` is the time the expiry is
/// judged against and `verified_at` the time of the check.
pub fn verify_service_quote(
    quote: &ServiceQuoteV1,
    content: &SignedContent,
    offer: Option<&QuoteOfferCheck>,
    price_estimate_differs: bool,
    now: Instant,
    verified_at: String,
) -> (r: ServiceQuoteVerificationV1)
    ensures
        r.schema_version@ == SERVICE_QUOTE_VERIFICATION_SCHEMA_VERSION@,
        r.quote_id@ == quote.quote_id@,
        issues_view(r.issues@) == service_quote_report(
            *quote,
            *content,
            match offer { Some(x) => Some(*x), None => None },
            price_estimate_differs,
            now,
        ).issues,
        issues_view(r.warnings@) == service_quote_report(
            *quote,
            *content,
            match offer { Some(x) => Some(*x), None => None },
            price_estimate_differs,
            now,
        ).warnings,
        r.valid == service_quote_report(
            *quote,
            *content,
            match offer { Some(x) => Some(*x), None => None },
            price_estimate_differs,
            now,
        ).valid(),
        r.expected_cost == match offer {
            Some(x) => Some(x.expected_cost),
            None => None,
        },
        r.expected_signature matches Some(e) && e@ == expected_signature(
            opt_view(quote.signature),
            content.dev_signature@,
            identity_view(content.identity_check),
        ),
        r.verified_at@ == verified_at@,
{
    let q = quote;
    let mut f = Findings::new();
    let current = text_eq(q.schema_version.as_str(), SERVICE_QUOTE_SCHEMA_VERSION);
    let legacy = text_eq(q.schema_version.as_str(), LEGACY_SERVICE_QUOTE_SCHEMA_VERSION);
    f.issue_if(!(current || legacy), "$.schemaVersion", "Expected schemaVersion to be hivemind.quote.v1");
    if current {
        quote_current(&mut f, q);
    }
    let expected = quote_identity(&mut f, q, content);
    quote_estimates(&mut f, q, price_estimate_differs);
    quote_timing(&mut f, q, current);
    quote_expiry(&mut f, q, now);
    let expected_cost = match offer {
        Some(x) => {
            quote_offer(&mut f, q, x, now, verified_at.clone());
            Some(x.expected_cost)
        },
        None => None,
    };
    let valid = f.is_valid();
    ServiceQuoteVerificationV1 {
        schema_version: String::from_str(SERVICE_QUOTE_VERIFICATION_SCHEMA_VERSION),
        quote_id: q.quote_id.clone(),
        valid,
        issues: f.issues,
        warnings: f.warnings,
        expected_cost,
        expected_signature: Some(expected),
        verified_at,
    }
}

// ---------------------------------------------------------------------------
// Quoting an execution request

/// The input tokens a quote estimates: the words of the input's `text` when
/// it has one (at least one), otherwise a quarter of the input's JSON length,
/// rounded up (at least one).
pub open spec fn input_token_estimate(text: Option<Seq<char>>, json_len: nat) -> nat {
    match text {
        Some(t) => if word_count(t) == 0 {
            1
        } else {
            word_count(t)
        },
        None => {
            let q = if json_len + 3 > u64::MAX {
                u64::MAX as nat / 4
            } else {
                ((json_len + 3) / 4) as nat
            };
            if q == 0 {
                1
            } else {
                q
            }
        },
    }
}

/// Estimates the input tokens of a request from the text of its input (when
/// the input has a `text` entry) and the length of its JSON encoding.
pub fn estimate_input_tokens(text: Option<&str>, json_len: u64) -> (r: u64)
    ensures
        r == input_token_estimate(
            match text {
                Some(t) => Some(t@),
                None => None,
            },
            json_len as nat,
        ),
{
    match text {
        Some(t) => {
            let n = count_tokens(t);
            if n == 0 {
                1
            } else {
                n
            }
        },
        None => {
            let q = json_len.saturating_add(3) / 4;
            if q == 0 {
                1
            } else {
                q
            }
        },
    }
}

/// What quoting reads of an execution request: its id, package, task, the
/// privacy its receipt mode asks for, and its input token estimate.
#[derive(Debug, Clone)]
pub struct QuoteRequestFacts {
    pub request_id: String,
    pub package_ref: String,
    pub task: String,
    pub receipt_mode: ReceiptMode,
    pub estimated_input_tokens: u64,
}

/// The timing of producing a quote and its expiry, as texts: when quoting
/// started and completed, how long it took, and when the quote expires.
#[derive(Debug, Clone)]
pub struct QuoteClock {
    pub started_at: String,
    pub completed_at: String,
    pub elapsed_ms: u64,
    pub expires_at: String,
}

/// The validation a runner offer supports: receipts always; validator spot
/// checks and deterministic replay when its verification tiers include them;
/// a validator reputation summary when its validator score is positive.
pub open spec fn validation_candidates(o: RunnerOfferV1) -> Seq<Seq<char>> {
    let s = seq!["receipt"@];
    let s = if o.verification_tiers@.contains(IntegrityTier::ValidatorSpotCheck) {
        s.push("validator-spot-check"@)
    } else {
        s
    };
    let s = if o.verification_tiers@.contains(IntegrityTier::DeterministicReplay) {
        s.push("deterministic-replay"@)
    } else {
        s
    };
    if gt_zero(o.reputation.validator_score) {
        s.push("validator-reputation-summary"@)
    } else {
        s
    }
}

/// The validation a runner offer supports, in ascending order, each once.
pub fn service_quote_validation_support(offer: &RunnerOfferV1) -> (r: Vec<String>)
    ensures
        strictly_sorted(r.deep_view()),
        same_texts(r.deep_view(), validation_candidates(*offer)),
{
    let mut s: Vec<String> = Vec::new();
    s.push(String::from_str("receipt"));
    let ghost s0 = s.deep_view();
    assert(s0 =~= seq!["receipt"@]);
    if has_integrity(&offer.verification_tiers, IntegrityTier::ValidatorSpotCheck) {
        crate::findings::push_text(&mut s, "validator-spot-check");
    }
    if has_integrity(&offer.verification_tiers, IntegrityTier::DeterministicReplay) {
        crate::findings::push_text(&mut s, "deterministic-replay");
    }
    if f64_gt_zero(offer.reputation.validator_score) {
        crate::findings::push_text(&mut s, "validator-reputation-summary");
    }
    assert(s.deep_view() =~= validation_candidates(*offer));
    sort_dedup_texts(&s)
}

/// The privacy tier a quote offers: the requested one when the offer lists
/// no privacy tiers, otherwise the one selected among the offer's tiers.
pub open spec fn quoted_privacy(o: RunnerOfferV1, requested: PrivacyTier, selected: Option<PrivacyTier>) -> Option<PrivacyTier> {
    if o.privacy_tiers@.len() == 0 {
        Some(requested)
    } else {
        selected
    }
}

/// The verification tier a quote offers: receipts only when the offer lists
/// no verification tiers, otherwise the offer's tier that meets receipts-only.
pub open spec fn quoted_verification(o: RunnerOfferV1) -> Option<IntegrityTier> {
    if o.verification_tiers@.len() == 0 {
        Some(IntegrityTier::ReceiptOnly)
    } else {
        select_integrity(o.verification_tiers@, Some(IntegrityTier::ReceiptOnly))
    }
}

/// Whether the offer can quote the request at all.
pub open spec fn quotable(
    req: QuoteRequestFacts,
    o: RunnerOfferV1,
    selected_privacy: Option<PrivacyTier>,
) -> bool {
    &&& (o.supported_package_refs@.len() == 0 || o.supported_package_refs.deep_view().contains(req.package_ref@))
    &&& o.supported_capabilities.deep_view().contains(req.task@)
    &&& quoted_privacy(o, privacy_tier_for_receipt(req.receipt_mode), selected_privacy) is Some
    &&& quoted_verification(o) is Some
}

/// Quotes an execution request against a runner offer. `selected_privacy` is
/// the offer's privacy tier selected for the requested privacy (consulted
/// only when the offer lists privacy tiers); `estimated_cost` is the IEEE 754
/// bit pattern of the quote's input tokens times the offer's input price plus
/// its output tokens (`estimated_output_tokens`, else the input tokens) times
/// the output price; `clock` gives the quote's timing and expiry. No quote
/// is made when the offer does not support the package or the task, or no
/// privacy or verification tier fits. The quote is returned unsigned.
pub fn quote_execution(
    request: &QuoteRequestFacts,
    offer: &RunnerOfferV1,
    estimated_output_tokens: Option<u64>,
    selected_privacy: Option<PrivacyTier>,
    estimated_cost: u64,
    clock: QuoteClock,
) -> (r: Option<ServiceQuoteV1>)
    ensures
        r is Some <==> quotable(*request, *offer, selected_privacy),
        r matches Some(q) ==> {
            let out = match estimated_output_tokens {
                Some(n) => n,
                None => request.estimated_input_tokens,
            };
            &&& q.schema_version@ == SERVICE_QUOTE_SCHEMA_VERSION@
            &&& q.quote_id@ == Seq::<char>::empty()
            &&& opt_view(q.job_id) == Some("job-for-"@ + request.request_id@)
            &&& q.request_id@ == request.request_id@
            &&& q.offer_id@ == offer.offer_id@
            &&& opt_view(q.listing_id) == Some(offer.offer_id@)
            &&& q.runner_id@ == offer.runner_id@
            &&& q.package_ref@ == request.package_ref@
            &&& q.estimated_input_tokens == request.estimated_input_tokens
            &&& q.estimated_output_tokens == out
            &&& q.estimated_cost == estimated_cost
            &&& q.currency@ == offer.pricing.currency@
            &&& q.price matches Some(p) && p.amount == estimated_cost && p.currency@ == offer.pricing.currency@
            &&& q.price_model == Some(PriceModel::PerToken)
            &&& q.privacy_mode == quoted_privacy(*offer, privacy_tier_for_receipt(request.receipt_mode), selected_privacy)
            &&& q.verification_mode == quoted_verification(*offer)
            &&& q.estimated_start_delay_ms == Some(0u64)
            &&& q.estimated_time_to_first_output_ms == Some(offer.service_level.p95_first_token_ms)
            &&& q.estimated_completion_ms == Some(
                if offer.service_level.p95_first_token_ms + (if out * 10 > u64::MAX { u64::MAX as int } else { out * 10 }) > u64::MAX {
                    u64::MAX
                } else {
                    (offer.service_level.p95_first_token_ms + (if out * 10 > u64::MAX { u64::MAX as int } else { out * 10 })) as u64
                },
            )
            &&& q.cache_hit_claim == Some(warmed_claim(offer.cache_claims@, request.package_ref@))
            &&& strictly_sorted(q.validation_support.deep_view())
            &&& same_texts(q.validation_support.deep_view(), validation_candidates(*offer))
            &&& q.settlement_model == if gt_zero(estimated_cost) {
                SettlementModel::DirectPayPerCall
            } else {
                SettlementModel::Free
            }
            &&& q.expires_at@ == clock.expires_at@
            &&& q.quote_timing matches Some(t) && t.schema_version@ == QUOTE_TIMING_SCHEMA_VERSION@
                && t.started_at@ == clock.started_at@ && t.completed_at@ == clock.completed_at@
                && t.elapsed_ms == clock.elapsed_ms && t.offer_matched && t.privacy_matched
                && t.verification_matched
            &&& q.signature is None
        },
{
    let o = offer;
    if o.supported_package_refs.len() > 0 && !contains_text(&o.supported_package_refs, request.package_ref.as_str()) {
        return None;
    }
    if !contains_text(&o.supported_capabilities, request.task.as_str()) {
        return None;
    }
    let requested = privacy_tier_from_execution_privacy(request.receipt_mode);
    let privacy = if o.privacy_tiers.len() == 0 {
        Some(requested)
    } else {
        selected_privacy
    };
    let privacy = match privacy {
        Some(p) => p,
        None => return None,
    };
    let verification = if o.verification_tiers.len() == 0 {
        Some(IntegrityTier::ReceiptOnly)
    } else {
        select_runner_offer_integrity_tier(&o.verification_tiers, IntegrityTier::ReceiptOnly)
    };
    let verification = match verification {
        Some(v) => v,
        None => return None,
    };
    let out = match estimated_output_tokens {
        Some(n) => n,
        None => request.estimated_input_tokens,
    };
    let settlement_model = if f64_gt_zero(estimated_cost) {
        SettlementModel::DirectPayPerCall
    } else {
        SettlementModel::Free
    };
    let first = o.service_level.p95_first_token_ms;
    let scaled = if out > u64::MAX / 10 {
        u64::MAX
    } else {
        out * 10
    };
    let completion = first.saturating_add(scaled);
    let mut job = String::from_str("job-for-");
    job.append(request.request_id.as_str());
    let cache_hit = has_warmed_claim(&o.cache_claims, request.package_ref.as_str());
    Some(ServiceQuoteV1 {
        schema_version: String::from_str(SERVICE_QUOTE_SCHEMA_VERSION),
        quote_id: String::new(),
        job_id: Some(job),
        request_id: request.request_id.clone(),
        offer_id: o.offer_id.clone(),
        listing_id: Some(o.offer_id.clone()),
        runner_id: o.runner_id.clone(),
        package_ref: request.package_ref.clone(),
        estimated_input_tokens: request.estimated_input_tokens,
        estimated_output_tokens: out,
        estimated_cost,
        currency: o.pricing.currency.clone(),
        price: Some(PriceV1 { amount: estimated_cost, currency: o.pricing.currency.clone() }),
        price_model: Some(PriceModel::PerToken),
        privacy_mode: Some(privacy),
        verification_mode: Some(verification),
        estimated_start_delay_ms: Some(0),
        estimated_time_to_first_output_ms: Some(first),
        estimated_completion_ms: Some(completion),
        cache_hit_claim: Some(cache_hit),
        validation_support: service_quote_validation_support(o),
        settlement_model,
        expires_at: clock.expires_at,
        details_job_id: None,
        details_job_order_job_id: None,
        details_escrow_ref: None,
        details_quote_ref: None,
        details_evidence_refs: Vec::new(),
        quote_timing: Some(ServiceQuoteTimingV1 {
            schema_version: String::from_str(QUOTE_TIMING_SCHEMA_VERSION),
            started_at: clock.started_at,
            completed_at: clock.completed_at,
            elapsed_ms: clock.elapsed_ms,
            offer_matched: true,
            privacy_matched: true,
            verification_matched: true,
        }),
        signature: None,
    })
}


/// The identity envelope of a ServiceQuoteV1's signature: context `service-quote`, signed by
/// its runner.
pub fn service_quote_envelope(quote: &ServiceQuoteV1) -> (r: EnvelopeSubject)
    ensures
        r.context@ == "service-quote"@,
        opt_view(r.signer) == Some(quote.runner_id@),
{
    envelope_subject("service-quote", quote.runner_id.as_str())
}


/// Puts on a ServiceQuoteV1 a signature that `subject` made over its signed content,
/// with `quote_id` the canonical id of that content: refused, leaving the record
/// unchanged, when `subject` is not the record's quote runner.
pub fn seal_service_quote(quote: &mut ServiceQuoteV1, subject: &str, quote_id: String, signature: String) -> (ok: bool)
    ensures
        ok == (subject@ == old(quote).runner_id@),
        ok ==> *final(quote) == (ServiceQuoteV1 { quote_id, signature: Some(signature), ..*old(quote) }),
        !ok ==> *final(quote) == *old(quote),
{
    if !text_eq(subject, quote.runner_id.as_str()) {
        return false;
    }
    quote.quote_id = quote_id;
    quote.signature = Some(signature);
    true
}


/// A runner offer backs a cache hit for a package exactly when one of its
/// cache claims is warmed and names that package: a cold claim for the
/// package backs nothing, and an offer whose claims are all cold backs no
/// cache hit. A quote's `cacheHitClaim` is this backing (`quote_execution`),
/// and a claimed hit without it is an issue (`verify_service_quote`).
pub proof fn lemma_only_warm_claims_back_cache_hits(claims: Seq<RunnerCacheClaimV1>, package_ref: Seq<char>)
    ensures
        warmed_claim(claims, package_ref) ==> exists|i: int|
            0 <= i < claims.len() && (#[trigger] claims[i]).warmed && claims[i].package_ref@ == package_ref,
        forall|i: int|
            0 <= i < claims.len() && (#[trigger] claims[i]).warmed && claims[i].package_ref@ == package_ref
                ==> warmed_claim(claims, package_ref),
        (forall|i: int| 0 <= i < claims.len() ==> !(#[trigger] claims[i]).warmed) ==> !warmed_claim(
            claims,
            package_ref,
        ),
{
}

} // verus!
