//! Summaries of the marketplace's record stores: the index entry of each
//! record found, the entries in store order, and the counts over them. The
//! directory walk that finds and reads the records, and the floating-point
//! averages and rates over the counts, belong to the caller.
use crate::clock::{latency_ms, quote_to_settlement_latency_ms};
use crate::escrow::{EscrowRecordV1, EscrowRecordVerificationV1};
use crate::findings::{copy_opt, opt_view};
use crate::kinds::{
    EscrowStatusV1, PaymentAdapterKind, PaymentAuthorizationStatus, SettlementModel,
    SettlementResolutionAction, SettlementStatus,
};
use crate::payment::{PaymentAuthorizationV1, PaymentAuthorizationVerificationV1};
use crate::quote::{ServiceQuoteV1, ServiceQuoteVerificationV1};
use crate::refund::{RefundRecordV1, RefundRecordVerificationV1};
use crate::settlement::{
    SettlementEventV1, SettlementEventVerificationV1, SettlementResolutionV1,
    SettlementResolutionVerificationV1,
};
use crate::store_order::{count_valid, lemma_count_where_step, lemma_pick_step, count_where, key_less, max_of, max_value, pick, sort_entries, sorted_by_key, EntryKey, StoreEntry};
use crate::text::text_eq;
use crate::text_order::{same_texts, sort_dedup_texts, strictly_sorted};
use vstd::prelude::*;

verus! {

pub const SERVICE_QUOTE_STORE_SUMMARY_SCHEMA_VERSION: &'static str =
    "hivemind.service-quote-store-summary.v1";

pub const PAYMENT_AUTHORIZATION_STORE_SUMMARY_SCHEMA_VERSION: &'static str =
    "swarm-ai.payment-authorization-store-summary.v1";

pub const ESCROW_RECORD_STORE_SUMMARY_SCHEMA_VERSION: &'static str =
    "hivemind.escrow-record-store-summary.v1";

pub const REFUND_RECORD_STORE_SUMMARY_SCHEMA_VERSION: &'static str =
    "hivemind.refund-record-store-summary.v1";

pub const MARKETPLACE_AUDIT_SUMMARY_SCHEMA_VERSION: &'static str =
    "swarm-ai.marketplace-audit-summary.v1";

// ---------------------------------------------------------------- quotes

/// A service quote as its store lists it: the quote's identifying fields, its
/// cost, expiry, timing and cache claim, where it was read from, and its
/// verification.
#[derive(Debug, Clone)]
pub struct ServiceQuoteIndexEntryV1 {
    pub quote_id: String,
    pub job_id: Option<String>,
    pub request_id: String,
    pub offer_id: String,
    pub listing_id: Option<String>,
    pub runner_id: String,
    pub package_ref: String,
    pub estimated_cost: u64,
    pub currency: String,
    pub settlement_model: SettlementModel,
    pub expires_at: String,
    pub quote_elapsed_ms: Option<u64>,
    pub quote_started_at: Option<String>,
    pub quote_completed_at: Option<String>,
    pub cache_hit_claim: Option<bool>,
    pub quote_path: String,
    pub verification: ServiceQuoteVerificationV1,
}

impl StoreEntry for ServiceQuoteIndexEntryV1 {
    /// Quotes are listed by expiry, then id.
    open spec fn sort_key(&self) -> EntryKey {
        (0, self.expires_at@, self.quote_id@, Seq::empty())
    }

    open spec fn is_valid(&self) -> bool {
        self.verification.valid
    }

    fn valid(&self) -> (r: bool) {
        self.verification.valid
    }

    fn sorts_before(&self, other: &Self) -> (r: bool) {
        proof {
            reveal_strlit("");
        }
        key_less(self.expires_at.as_str(), self.quote_id.as_str(), "", other.expires_at.as_str(), other.quote_id.as_str(), "")
    }
}

/// The index entry of a quote read from `quote_path`, with its verification.
pub fn service_quote_index_entry(
    quote: &ServiceQuoteV1,
    quote_path: String,
    verification: ServiceQuoteVerificationV1,
) -> (r: ServiceQuoteIndexEntryV1)
    ensures
        r.quote_id@ == quote.quote_id@,
        opt_view(r.job_id) == opt_view(quote.job_id),
        r.request_id@ == quote.request_id@,
        r.offer_id@ == quote.offer_id@,
        opt_view(r.listing_id) == opt_view(quote.listing_id),
        r.runner_id@ == quote.runner_id@,
        r.package_ref@ == quote.package_ref@,
        r.estimated_cost == quote.estimated_cost,
        r.currency@ == quote.currency@,
        r.settlement_model == quote.settlement_model,
        r.expires_at@ == quote.expires_at@,
        r.quote_elapsed_ms == match quote.quote_timing {
            Some(t) => Some(t.elapsed_ms),
            None => None::<u64>,
        },
        opt_view(r.quote_started_at) == match quote.quote_timing {
            Some(t) => Some(t.started_at@),
            None => None::<Seq<char>>,
        },
        opt_view(r.quote_completed_at) == match quote.quote_timing {
            Some(t) => Some(t.completed_at@),
            None => None::<Seq<char>>,
        },
        r.cache_hit_claim == quote.cache_hit_claim,
        r.quote_path@ == quote_path@,
        r.verification == verification,
{
    let (elapsed, started, completed) = match &quote.quote_timing {
        Some(t) => (Some(t.elapsed_ms), Some(t.started_at.clone()), Some(t.completed_at.clone())),
        None => (None, None, None),
    };
    ServiceQuoteIndexEntryV1 {
        quote_id: quote.quote_id.clone(),
        job_id: copy_opt(&quote.job_id),
        request_id: quote.request_id.clone(),
        offer_id: quote.offer_id.clone(),
        listing_id: copy_opt(&quote.listing_id),
        runner_id: quote.runner_id.clone(),
        package_ref: quote.package_ref.clone(),
        estimated_cost: quote.estimated_cost,
        currency: quote.currency.clone(),
        settlement_model: quote.settlement_model,
        expires_at: quote.expires_at.clone(),
        quote_elapsed_ms: elapsed,
        quote_started_at: started,
        quote_completed_at: completed,
        cache_hit_claim: quote.cache_hit_claim,
        quote_path,
        verification,
    }
}

pub open spec fn quote_is_valid(e: ServiceQuoteIndexEntryV1) -> bool {
    e.verification.valid
}

pub open spec fn quote_elapsed(e: ServiceQuoteIndexEntryV1) -> Option<u64> {
    e.quote_elapsed_ms
}

/// The cache-hit claim of a quote that verifies.
pub open spec fn valid_cache_claim(e: ServiceQuoteIndexEntryV1) -> Option<bool> {
    if e.verification.valid {
        e.cache_hit_claim
    } else {
        None
    }
}

pub open spec fn is_hit(b: bool) -> bool {
    b
}

/// The summary of a quote store. The average elapsed time and the cache-hit
/// rate are the caller's to compute from `quote_elapsed_values` and the
/// counts.
#[derive(Debug, Clone)]
pub struct ServiceQuoteStoreSummaryV1 {
    pub schema_version: String,
    pub root: String,
    pub quote_count: usize,
    pub valid_count: usize,
    pub invalid_count: usize,
    pub with_quote_timing_count: usize,
    pub quote_elapsed_values: Vec<u64>,
    pub max_quote_elapsed_ms: Option<u64>,
    pub quote_cache_claim_sample_count: usize,
    pub quote_cache_hit_count: usize,
    pub quote_cache_miss_count: usize,
    pub quotes: Vec<ServiceQuoteIndexEntryV1>,
}

/// The summary of the quotes found under `root`: the entries in store order;
/// how many there are and how many verify; the quote timings recorded, and
/// the largest; and the cache-hit claims of the quotes that verify, with
/// how many claim a hit and how many a miss.
pub fn service_quote_store_summary(root: String, entries: Vec<ServiceQuoteIndexEntryV1>) -> (r:
    ServiceQuoteStoreSummaryV1)
    ensures
        r.schema_version@ == SERVICE_QUOTE_STORE_SUMMARY_SCHEMA_VERSION@,
        r.root@ == root@,
        r.quotes@.to_multiset() == entries@.to_multiset(),
        sorted_by_key(r.quotes@),
        r.quote_count == entries.len(),
        r.valid_count == count_where(r.quotes@, |e: ServiceQuoteIndexEntryV1| quote_is_valid(e)),
        r.invalid_count == r.quote_count - r.valid_count,
        r.quote_elapsed_values@ == pick(r.quotes@, |e: ServiceQuoteIndexEntryV1| quote_elapsed(e)),
        r.with_quote_timing_count == r.quote_elapsed_values.len(),
        r.max_quote_elapsed_ms == max_of(r.quote_elapsed_values@),
        r.quote_cache_claim_sample_count == pick(r.quotes@, |e: ServiceQuoteIndexEntryV1| valid_cache_claim(e)).len(),
        r.quote_cache_hit_count == count_where(
            pick(r.quotes@, |e: ServiceQuoteIndexEntryV1| valid_cache_claim(e)),
            |b: bool| is_hit(b),
        ),
        r.quote_cache_miss_count == r.quote_cache_claim_sample_count - r.quote_cache_hit_count,
{
    let quotes = sort_entries(entries);
    let ghost s = quotes@;
    let ghost valid_f = |e: ServiceQuoteIndexEntryV1| quote_is_valid(e);
    let ghost elapsed_f = |e: ServiceQuoteIndexEntryV1| quote_elapsed(e);
    let ghost claim_f = |e: ServiceQuoteIndexEntryV1| valid_cache_claim(e);
    let ghost hit_f = |b: bool| is_hit(b);
    let mut valid: usize = 0;
    let mut values: Vec<u64> = Vec::new();
    let mut claims: usize = 0;
    let mut hits: usize = 0;
    let mut i: usize = 0;
    while i < quotes.len()
        invariant
            i <= quotes.len(),
            s == quotes@,
            valid_f == (|e: ServiceQuoteIndexEntryV1| quote_is_valid(e)),
            elapsed_f == (|e: ServiceQuoteIndexEntryV1| quote_elapsed(e)),
            claim_f == (|e: ServiceQuoteIndexEntryV1| valid_cache_claim(e)),
            hit_f == (|b: bool| is_hit(b)),
            valid == count_where(s.take(i as int), valid_f),
            valid <= i,
            values@ == pick(s.take(i as int), elapsed_f),
            claims == pick(s.take(i as int), claim_f).len(),
            hits == count_where(pick(s.take(i as int), claim_f), hit_f),
            hits <= claims <= i,
        decreases quotes.len() - i,
    {
        let e = &quotes[i];
        proof {
            lemma_count_where_step(s, i as int, valid_f);
            lemma_pick_step(s, i as int, elapsed_f);
            lemma_pick_step(s, i as int, claim_f);
        }
        if e.verification.valid {
            valid = valid + 1;
            match e.cache_hit_claim {
                Some(b) => {
                    let ghost before = pick(s.take(i as int), claim_f);
                    assert(pick(s.take(i + 1), claim_f) == before.push(b));
                    assert(before.push(b).drop_last() =~= before);
                    claims = claims + 1;
                    if b {
                        hits = hits + 1;
                    }
                },
                None => {},
            }
        }
        match e.quote_elapsed_ms {
            Some(v) => values.push(v),
            None => {},
        }
        i = i + 1;
    }
    assert(s.take(quotes.len() as int) =~= s);
    let max = max_value(&values);
    let timing = values.len();
    ServiceQuoteStoreSummaryV1 {
        schema_version: String::from_str(SERVICE_QUOTE_STORE_SUMMARY_SCHEMA_VERSION),
        root,
        quote_count: quotes.len(),
        valid_count: valid,
        invalid_count: quotes.len() - valid,
        with_quote_timing_count: timing,
        quote_elapsed_values: values,
        max_quote_elapsed_ms: max,
        quote_cache_claim_sample_count: claims,
        quote_cache_hit_count: hits,
        quote_cache_miss_count: claims - hits,
        quotes,
    }
}


// ---------------------------------------------------------------- other stores

/// A payment authorization as its store lists it.
#[derive(Debug, Clone)]
pub struct PaymentAuthorizationIndexEntryV1 {
    pub authorization_id: String,
    pub quote_id: String,
    pub job_id: Option<String>,
    pub request_id: String,
    pub offer_id: String,
    pub runner_id: String,
    pub package_ref: String,
    pub payer: String,
    pub payee: String,
    pub amount: u64,
    pub currency: String,
    pub adapter: PaymentAdapterKind,
    pub max_amount: Option<u64>,
    pub asset: Option<String>,
    pub method: Option<PaymentAdapterKind>,
    pub status: PaymentAuthorizationStatus,
    pub payment_ref: Option<String>,
    pub escrow_ref: Option<String>,
    pub authorized_at: String,
    pub expires_at: String,
    pub authorization_path: String,
    pub verification: PaymentAuthorizationVerificationV1,
}

/// The store entry of a record read from `authorization_path`, with its verification.
pub fn payment_authorization_index_entry(authorization: &PaymentAuthorizationV1, authorization_path: String, verification: PaymentAuthorizationVerificationV1) -> (r: PaymentAuthorizationIndexEntryV1)
    ensures
        r.authorization_id@ == authorization.authorization_id@,
        r.quote_id@ == authorization.quote_id@,
        opt_view(r.job_id) == opt_view(authorization.job_id),
        r.request_id@ == authorization.request_id@,
        r.offer_id@ == authorization.offer_id@,
        r.runner_id@ == authorization.runner_id@,
        r.package_ref@ == authorization.package_ref@,
        r.payer@ == authorization.payer@,
        r.payee@ == authorization.payee@,
        r.amount == authorization.amount,
        r.currency@ == authorization.currency@,
        r.adapter == authorization.adapter,
        r.max_amount == authorization.max_amount,
        opt_view(r.asset) == opt_view(authorization.asset),
        r.method == authorization.method,
        r.status == authorization.status,
        opt_view(r.payment_ref) == opt_view(authorization.payment_ref),
        opt_view(r.escrow_ref) == opt_view(authorization.escrow_ref),
        r.authorized_at@ == authorization.authorized_at@,
        r.expires_at@ == authorization.expires_at@,
        r.authorization_path@ == authorization_path@,
        r.verification == verification,
{
    PaymentAuthorizationIndexEntryV1 {
        authorization_id: authorization.authorization_id.clone(),
        quote_id: authorization.quote_id.clone(),
        job_id: copy_opt(&authorization.job_id),
        request_id: authorization.request_id.clone(),
        offer_id: authorization.offer_id.clone(),
        runner_id: authorization.runner_id.clone(),
        package_ref: authorization.package_ref.clone(),
        payer: authorization.payer.clone(),
        payee: authorization.payee.clone(),
        amount: authorization.amount,
        currency: authorization.currency.clone(),
        adapter: authorization.adapter,
        max_amount: authorization.max_amount,
        asset: copy_opt(&authorization.asset),
        method: authorization.method,
        status: authorization.status,
        payment_ref: copy_opt(&authorization.payment_ref),
        escrow_ref: copy_opt(&authorization.escrow_ref),
        authorized_at: authorization.authorized_at.clone(),
        expires_at: authorization.expires_at.clone(),
        authorization_path,
        verification,
    }
}

/// An escrow record as its store lists it.
#[derive(Debug, Clone)]
pub struct EscrowRecordIndexEntryV1 {
    pub escrow_id: String,
    pub authorization_id: String,
    pub quote_id: String,
    pub job_id: Option<String>,
    pub request_id: String,
    pub runner_id: String,
    pub payer: String,
    pub payee: String,
    pub amount: u64,
    pub currency: String,
    pub status: EscrowStatusV1,
    pub custodian: String,
    pub settlement_id: Option<String>,
    pub created_at: String,
    pub expires_at: String,
    pub escrow_path: String,
    pub verification: EscrowRecordVerificationV1,
}

/// The store entry of a record read from `escrow_path`, with its verification.
pub fn escrow_record_index_entry(escrow: &EscrowRecordV1, escrow_path: String, verification: EscrowRecordVerificationV1) -> (r: EscrowRecordIndexEntryV1)
    ensures
        r.escrow_id@ == escrow.escrow_id@,
        r.authorization_id@ == escrow.authorization_id@,
        r.quote_id@ == escrow.quote_id@,
        opt_view(r.job_id) == opt_view(escrow.job_id),
        r.request_id@ == escrow.request_id@,
        r.runner_id@ == escrow.runner_id@,
        r.payer@ == escrow.payer@,
        r.payee@ == escrow.payee@,
        r.amount == escrow.amount,
        r.currency@ == escrow.currency@,
        r.status == escrow.status,
        r.custodian@ == escrow.custodian@,
        opt_view(r.settlement_id) == opt_view(escrow.settlement_id),
        r.created_at@ == escrow.created_at@,
        r.expires_at@ == escrow.expires_at@,
        r.escrow_path@ == escrow_path@,
        r.verification == verification,
{
    EscrowRecordIndexEntryV1 {
        escrow_id: escrow.escrow_id.clone(),
        authorization_id: escrow.authorization_id.clone(),
        quote_id: escrow.quote_id.clone(),
        job_id: copy_opt(&escrow.job_id),
        request_id: escrow.request_id.clone(),
        runner_id: escrow.runner_id.clone(),
        payer: escrow.payer.clone(),
        payee: escrow.payee.clone(),
        amount: escrow.amount,
        currency: escrow.currency.clone(),
        status: escrow.status,
        custodian: escrow.custodian.clone(),
        settlement_id: copy_opt(&escrow.settlement_id),
        created_at: escrow.created_at.clone(),
        expires_at: escrow.expires_at.clone(),
        escrow_path,
        verification,
    }
}

/// A refund record as its store lists it.
#[derive(Debug, Clone)]
pub struct RefundRecordIndexEntryV1 {
    pub refund_id: String,
    pub settlement_id: String,
    pub source_settlement_id: String,
    pub resolution_id: String,
    pub dispute_id: Option<String>,
    pub receipt_id: String,
    pub job_id: Option<String>,
    pub request_id: String,
    pub runner_id: String,
    pub payer: String,
    pub payee: String,
    pub refunded_by: String,
    pub amount: u64,
    pub currency: String,
    pub refund_ref: Option<String>,
    pub occurred_at: String,
    pub refund_path: String,
    pub verification: RefundRecordVerificationV1,
}

/// The store entry of a record read from `refund_path`, with its verification.
pub fn refund_record_index_entry(refund: &RefundRecordV1, refund_path: String, verification: RefundRecordVerificationV1) -> (r: RefundRecordIndexEntryV1)
    ensures
        r.refund_id@ == refund.refund_id@,
        r.settlement_id@ == refund.settlement_id@,
        r.source_settlement_id@ == refund.source_settlement_id@,
        r.resolution_id@ == refund.resolution_id@,
        opt_view(r.dispute_id) == opt_view(refund.dispute_id),
        r.receipt_id@ == refund.receipt_id@,
        opt_view(r.job_id) == opt_view(refund.job_id),
        r.request_id@ == refund.request_id@,
        r.runner_id@ == refund.runner_id@,
        r.payer@ == refund.payer@,
        r.payee@ == refund.payee@,
        r.refunded_by@ == refund.refunded_by@,
        r.amount == refund.amount,
        r.currency@ == refund.currency@,
        opt_view(r.refund_ref) == opt_view(refund.refund_ref),
        r.occurred_at@ == refund.occurred_at@,
        r.refund_path@ == refund_path@,
        r.verification == verification,
{
    RefundRecordIndexEntryV1 {
        refund_id: refund.refund_id.clone(),
        settlement_id: refund.settlement_id.clone(),
        source_settlement_id: refund.source_settlement_id.clone(),
        resolution_id: refund.resolution_id.clone(),
        dispute_id: copy_opt(&refund.dispute_id),
        receipt_id: refund.receipt_id.clone(),
        job_id: copy_opt(&refund.job_id),
        request_id: refund.request_id.clone(),
        runner_id: refund.runner_id.clone(),
        payer: refund.payer.clone(),
        payee: refund.payee.clone(),
        refunded_by: refund.refunded_by.clone(),
        amount: refund.amount,
        currency: refund.currency.clone(),
        refund_ref: copy_opt(&refund.refund_ref),
        occurred_at: refund.occurred_at.clone(),
        refund_path,
        verification,
    }
}

/// A settlement event as the marketplace audit lists it.
#[derive(Debug, Clone)]
pub struct SettlementAuditEntryV1 {
    pub settlement_id: String,
    pub job_id: Option<String>,
    pub request_id: String,
    pub receipt_id: String,
    pub quote_id: Option<String>,
    pub payment_authorization_id: Option<String>,
    pub package_ref: String,
    pub runner_id: String,
    pub payer: String,
    pub payee: String,
    pub amount: u64,
    pub currency: String,
    pub asset: Option<String>,
    pub status: SettlementStatus,
    pub reason: Option<String>,
    pub evidence_ref_count: usize,
    pub created_at: Option<String>,
    pub occurred_at: String,
    pub settlement_path: String,
    pub signature_verified: bool,
}

/// The store entry of a record read from `settlement_path`, with its verification.
pub fn settlement_audit_entry(settlement: &SettlementEventV1, settlement_path: String, verification: SettlementEventVerificationV1) -> (r: SettlementAuditEntryV1)
    ensures
        r.settlement_id@ == settlement.settlement_id@,
        opt_view(r.job_id) == opt_view(settlement.job_id),
        r.request_id@ == settlement.request_id@,
        r.receipt_id@ == settlement.receipt_id@,
        opt_view(r.quote_id) == opt_view(settlement.quote_id),
        opt_view(r.payment_authorization_id) == opt_view(settlement.payment_authorization_id),
        r.package_ref@ == settlement.package_ref@,
        r.runner_id@ == settlement.runner_id@,
        r.payer@ == settlement.payer@,
        r.payee@ == settlement.payee@,
        r.amount == settlement.amount,
        r.currency@ == settlement.currency@,
        opt_view(r.asset) == opt_view(settlement.asset),
        r.status == settlement.status,
        opt_view(r.reason) == opt_view(settlement.reason),
        r.evidence_ref_count == settlement.evidence_refs.len(),
        opt_view(r.created_at) == opt_view(settlement.created_at),
        r.occurred_at@ == settlement.occurred_at@,
        r.settlement_path@ == settlement_path@,
        r.signature_verified == verification.valid,
{
    SettlementAuditEntryV1 {
        settlement_id: settlement.settlement_id.clone(),
        job_id: copy_opt(&settlement.job_id),
        request_id: settlement.request_id.clone(),
        receipt_id: settlement.receipt_id.clone(),
        quote_id: copy_opt(&settlement.quote_id),
        payment_authorization_id: copy_opt(&settlement.payment_authorization_id),
        package_ref: settlement.package_ref.clone(),
        runner_id: settlement.runner_id.clone(),
        payer: settlement.payer.clone(),
        payee: settlement.payee.clone(),
        amount: settlement.amount,
        currency: settlement.currency.clone(),
        asset: copy_opt(&settlement.asset),
        status: settlement.status,
        reason: copy_opt(&settlement.reason),
        evidence_ref_count: settlement.evidence_refs.len(),
        created_at: copy_opt(&settlement.created_at),
        occurred_at: settlement.occurred_at.clone(),
        settlement_path,
        signature_verified: verification.valid,
    }
}

/// A settlement resolution as the marketplace audit lists it.
#[derive(Debug, Clone)]
pub struct SettlementResolutionAuditEntryV1 {
    pub resolution_id: String,
    pub settlement_id: String,
    pub receipt_id: String,
    pub dispute_id: String,
    pub action: SettlementResolutionAction,
    pub previous_status: SettlementStatus,
    pub new_status: SettlementStatus,
    pub amount: u64,
    pub currency: String,
    pub resolved_by: String,
    pub occurred_at: String,
    pub resolution_path: String,
    pub signature_verified: bool,
}

/// The store entry of a record read from `resolution_path`, with its verification.
pub fn settlement_resolution_audit_entry(resolution: &SettlementResolutionV1, resolution_path: String, verification: SettlementResolutionVerificationV1) -> (r: SettlementResolutionAuditEntryV1)
    ensures
        r.resolution_id@ == resolution.resolution_id@,
        r.settlement_id@ == resolution.settlement_id@,
        r.receipt_id@ == resolution.receipt_id@,
        r.dispute_id@ == resolution.dispute_id@,
        r.action == resolution.action,
        r.previous_status == resolution.previous_status,
        r.new_status == resolution.new_status,
        r.amount == resolution.amount,
        r.currency@ == resolution.currency@,
        r.resolved_by@ == resolution.resolved_by@,
        r.occurred_at@ == resolution.occurred_at@,
        r.resolution_path@ == resolution_path@,
        r.signature_verified == verification.valid,
{
    SettlementResolutionAuditEntryV1 {
        resolution_id: resolution.resolution_id.clone(),
        settlement_id: resolution.settlement_id.clone(),
        receipt_id: resolution.receipt_id.clone(),
        dispute_id: resolution.dispute_id.clone(),
        action: resolution.action,
        previous_status: resolution.previous_status,
        new_status: resolution.new_status,
        amount: resolution.amount,
        currency: resolution.currency.clone(),
        resolved_by: resolution.resolved_by.clone(),
        occurred_at: resolution.occurred_at.clone(),
        resolution_path,
        signature_verified: verification.valid,
    }
}


/// The `StoreEntry` of an entry type: its sort key of two texts and its
/// verification verdict.
impl StoreEntry for PaymentAuthorizationIndexEntryV1 {
    /// Authorizations are listed by authorization time, then id.
    open spec fn sort_key(&self) -> EntryKey {
        (0, self.authorized_at@, self.authorization_id@, Seq::empty())
    }

    open spec fn is_valid(&self) -> bool {
        self.verification.valid
    }

    fn valid(&self) -> (r: bool) {
        self.verification.valid
    }

    fn sorts_before(&self, other: &Self) -> (r: bool) {
        proof {
            reveal_strlit("");
        }
        key_less(self.authorized_at.as_str(), self.authorization_id.as_str(), "", other.authorized_at.as_str(), other.authorization_id.as_str(), "")
    }
}

impl StoreEntry for EscrowRecordIndexEntryV1 {
    /// Escrows are listed by creation time, then id.
    open spec fn sort_key(&self) -> EntryKey {
        (0, self.created_at@, self.escrow_id@, Seq::empty())
    }

    open spec fn is_valid(&self) -> bool {
        self.verification.valid
    }

    fn valid(&self) -> (r: bool) {
        self.verification.valid
    }

    fn sorts_before(&self, other: &Self) -> (r: bool) {
        proof {
            reveal_strlit("");
        }
        key_less(self.created_at.as_str(), self.escrow_id.as_str(), "", other.created_at.as_str(), other.escrow_id.as_str(), "")
    }
}

impl StoreEntry for RefundRecordIndexEntryV1 {
    /// Refunds are listed by time, then id.
    open spec fn sort_key(&self) -> EntryKey {
        (0, self.occurred_at@, self.refund_id@, Seq::empty())
    }

    open spec fn is_valid(&self) -> bool {
        self.verification.valid
    }

    fn valid(&self) -> (r: bool) {
        self.verification.valid
    }

    fn sorts_before(&self, other: &Self) -> (r: bool) {
        proof {
            reveal_strlit("");
        }
        key_less(self.occurred_at.as_str(), self.refund_id.as_str(), "", other.occurred_at.as_str(), other.refund_id.as_str(), "")
    }
}

impl StoreEntry for SettlementAuditEntryV1 {
    /// Settlements are listed by time, then id.
    open spec fn sort_key(&self) -> EntryKey {
        (0, self.occurred_at@, self.settlement_id@, Seq::empty())
    }

    open spec fn is_valid(&self) -> bool {
        self.signature_verified
    }

    fn valid(&self) -> (r: bool) {
        self.signature_verified
    }

    fn sorts_before(&self, other: &Self) -> (r: bool) {
        proof {
            reveal_strlit("");
        }
        key_less(self.occurred_at.as_str(), self.settlement_id.as_str(), "", other.occurred_at.as_str(), other.settlement_id.as_str(), "")
    }
}

impl StoreEntry for SettlementResolutionAuditEntryV1 {
    /// Resolutions are listed by time, then id.
    open spec fn sort_key(&self) -> EntryKey {
        (0, self.occurred_at@, self.resolution_id@, Seq::empty())
    }

    open spec fn is_valid(&self) -> bool {
        self.signature_verified
    }

    fn valid(&self) -> (r: bool) {
        self.signature_verified
    }

    fn sorts_before(&self, other: &Self) -> (r: bool) {
        proof {
            reveal_strlit("");
        }
        key_less(self.occurred_at.as_str(), self.resolution_id.as_str(), "", other.occurred_at.as_str(), other.resolution_id.as_str(), "")
    }
}

/// The summary of a payment-authorization store.
#[derive(Debug, Clone)]
pub struct PaymentAuthorizationStoreSummaryV1 {
    pub schema_version: String,
    pub root: String,
    pub authorization_count: usize,
    pub valid_count: usize,
    pub invalid_count: usize,
    pub authorizations: Vec<PaymentAuthorizationIndexEntryV1>,
}

/// The summary of the payment authorizations found under `root`: the entries
/// in store order, how many there are and how many verify.
pub fn payment_authorization_store_summary(root: String, entries: Vec<PaymentAuthorizationIndexEntryV1>) -> (r:
    PaymentAuthorizationStoreSummaryV1)
    ensures
        r.schema_version@ == PAYMENT_AUTHORIZATION_STORE_SUMMARY_SCHEMA_VERSION@,
        r.root@ == root@,
        r.authorizations@.to_multiset() == entries@.to_multiset(),
        sorted_by_key(r.authorizations@),
        r.authorization_count == entries.len(),
        r.valid_count == count_where(r.authorizations@, |e: PaymentAuthorizationIndexEntryV1| e.is_valid()),
        r.invalid_count == r.authorization_count - r.valid_count,
{
    let authorizations = sort_entries(entries);
    let valid = count_valid(&authorizations);
    PaymentAuthorizationStoreSummaryV1 {
        schema_version: String::from_str(PAYMENT_AUTHORIZATION_STORE_SUMMARY_SCHEMA_VERSION),
        root,
        authorization_count: authorizations.len(),
        valid_count: valid,
        invalid_count: authorizations.len() - valid,
        authorizations,
    }
}

/// The summary of an escrow-record store.
#[derive(Debug, Clone)]
pub struct EscrowRecordStoreSummaryV1 {
    pub schema_version: String,
    pub root: String,
    pub escrow_count: usize,
    pub locked_count: usize,
    pub released_count: usize,
    pub refunded_count: usize,
    pub valid_count: usize,
    pub invalid_count: usize,
    pub escrows: Vec<EscrowRecordIndexEntryV1>,
}

/// Whether an escrow entry is in status `s`.
pub open spec fn escrow_in(e: EscrowRecordIndexEntryV1, s: EscrowStatusV1) -> bool {
    e.status == s
}

/// How many escrow entries are in status `status`.
fn count_escrow_status(v: &Vec<EscrowRecordIndexEntryV1>, status: EscrowStatusV1) -> (r: usize)
    ensures
        r == count_where(v@, |e: EscrowRecordIndexEntryV1| escrow_in(e, status)),
        r <= v.len(),
{
    let ghost f = |e: EscrowRecordIndexEntryV1| escrow_in(e, status);
    let mut n: usize = 0;
    let mut i: usize = 0;
    while i < v.len()
        invariant
            i <= v.len(),
            f == (|e: EscrowRecordIndexEntryV1| escrow_in(e, status)),
            n == count_where(v@.take(i as int), f),
            n <= i,
        decreases v.len() - i,
    {
        proof {
            lemma_count_where_step(v@, i as int, f);
        }
        if v[i].status == status {
            n = n + 1;
        }
        i = i + 1;
    }
    assert(v@.take(v.len() as int) =~= v@);
    n
}

/// The summary of the escrow records found under `root`: the entries in store
/// order, how many there are, how many are locked, released and refunded, and
/// how many verify.
pub fn escrow_record_store_summary(root: String, entries: Vec<EscrowRecordIndexEntryV1>) -> (r:
    EscrowRecordStoreSummaryV1)
    ensures
        r.schema_version@ == ESCROW_RECORD_STORE_SUMMARY_SCHEMA_VERSION@,
        r.root@ == root@,
        r.escrows@.to_multiset() == entries@.to_multiset(),
        sorted_by_key(r.escrows@),
        r.escrow_count == entries.len(),
        r.locked_count == count_where(r.escrows@, |e: EscrowRecordIndexEntryV1| escrow_in(e, EscrowStatusV1::Locked)),
        r.released_count == count_where(r.escrows@, |e: EscrowRecordIndexEntryV1| escrow_in(e, EscrowStatusV1::Released)),
        r.refunded_count == count_where(r.escrows@, |e: EscrowRecordIndexEntryV1| escrow_in(e, EscrowStatusV1::Refunded)),
        r.valid_count == count_where(r.escrows@, |e: EscrowRecordIndexEntryV1| e.is_valid()),
        r.invalid_count == r.escrow_count - r.valid_count,
{
    let escrows = sort_entries(entries);
    let valid = count_valid(&escrows);
    let locked = count_escrow_status(&escrows, EscrowStatusV1::Locked);
    let released = count_escrow_status(&escrows, EscrowStatusV1::Released);
    let refunded = count_escrow_status(&escrows, EscrowStatusV1::Refunded);
    EscrowRecordStoreSummaryV1 {
        schema_version: String::from_str(ESCROW_RECORD_STORE_SUMMARY_SCHEMA_VERSION),
        root,
        escrow_count: escrows.len(),
        locked_count: locked,
        released_count: released,
        refunded_count: refunded,
        valid_count: valid,
        invalid_count: escrows.len() - valid,
        escrows,
    }
}

/// The summary of a refund-record store. The total refunded amount is the
/// caller's to add up from `valid_amounts` (IEEE 754 bit patterns).
#[derive(Debug, Clone)]
pub struct RefundRecordStoreSummaryV1 {
    pub schema_version: String,
    pub root: String,
    pub refund_count: usize,
    pub valid_count: usize,
    pub invalid_count: usize,
    pub valid_amounts: Vec<u64>,
    pub currency_counts: Vec<(String, usize)>,
    pub refunds: Vec<RefundRecordIndexEntryV1>,
}

/// The amount of a refund that verifies.
pub open spec fn valid_refund_amount(e: RefundRecordIndexEntryV1) -> Option<u64> {
    if e.verification.valid {
        Some(e.amount)
    } else {
        None
    }
}

pub open spec fn refund_in_currency(e: RefundRecordIndexEntryV1, c: Seq<char>) -> bool {
    e.currency@ == c
}

pub open spec fn refund_currencies(s: Seq<RefundRecordIndexEntryV1>) -> Seq<Seq<char>> {
    s.map_values(|e: RefundRecordIndexEntryV1| e.currency@)
}

/// The summary of the refund records found under `root`: the entries in store
/// order; how many there are and how many verify; the amounts of those that
/// verify; and, for each currency in increasing order, how many refunds are
/// in it.
pub fn refund_record_store_summary(root: String, entries: Vec<RefundRecordIndexEntryV1>) -> (r:
    RefundRecordStoreSummaryV1)
    ensures
        r.schema_version@ == REFUND_RECORD_STORE_SUMMARY_SCHEMA_VERSION@,
        r.root@ == root@,
        r.refunds@.to_multiset() == entries@.to_multiset(),
        sorted_by_key(r.refunds@),
        r.refund_count == entries.len(),
        r.valid_count == count_where(r.refunds@, |e: RefundRecordIndexEntryV1| e.is_valid()),
        r.invalid_count == r.refund_count - r.valid_count,
        r.valid_amounts@ == pick(r.refunds@, |e: RefundRecordIndexEntryV1| valid_refund_amount(e)),
        strictly_sorted(r.currency_counts@.map_values(|c: (String, usize)| c.0@)),
        same_texts(r.currency_counts@.map_values(|c: (String, usize)| c.0@), refund_currencies(r.refunds@)),
        forall|i: int| 0 <= i < r.currency_counts.len() ==> (#[trigger] r.currency_counts@[i]).1 == count_where(
            r.refunds@,
            |e: RefundRecordIndexEntryV1| refund_in_currency(e, r.currency_counts@[i].0@),
        ),
{
    let refunds = sort_entries(entries);
    let valid = count_valid(&refunds);
    let ghost s = refunds@;
    let ghost amount_f = |e: RefundRecordIndexEntryV1| valid_refund_amount(e);
    let mut amounts: Vec<u64> = Vec::new();
    let mut names: Vec<String> = Vec::new();
    let mut i: usize = 0;
    while i < refunds.len()
        invariant
            i <= refunds.len(),
            s == refunds@,
            amount_f == (|e: RefundRecordIndexEntryV1| valid_refund_amount(e)),
            amounts@ == pick(s.take(i as int), amount_f),
            names.deep_view() == refund_currencies(s.take(i as int)),
        decreases refunds.len() - i,
    {
        proof {
            lemma_pick_step(s, i as int, amount_f);
            assert(refund_currencies(s.take(i + 1)) =~= refund_currencies(s.take(i as int)).push(s[i as int].currency@));
        }
        if refunds[i].verification.valid {
            amounts.push(refunds[i].amount);
        }
        names.push(refunds[i].currency.clone());
        proof {
            assert(names.deep_view() =~= refund_currencies(s.take(i + 1)));
        }
        i = i + 1;
    }
    assert(s.take(refunds.len() as int) =~= s);
    let currencies = sort_dedup_texts(&names);
    let mut counts: Vec<(String, usize)> = Vec::new();
    let mut k: usize = 0;
    while k < currencies.len()
        invariant
            k <= currencies.len(),
            s == refunds@,
            counts.len() == k,
            forall|j: int| 0 <= j < k ==> (#[trigger] counts@[j]).0@ == currencies.deep_view()[j],
            forall|j: int| 0 <= j < k ==> (#[trigger] counts@[j]).1 == count_where(
                s,
                |e: RefundRecordIndexEntryV1| refund_in_currency(e, counts@[j].0@),
            ),
        decreases currencies.len() - k,
    {
        let c = currencies[k].clone();
        let n = count_currency(&refunds, c.as_str());
        counts.push((c, n));
        k = k + 1;
    }
    proof {
        assert(counts@.map_values(|c: (String, usize)| c.0@) =~= currencies.deep_view());
    }
    RefundRecordStoreSummaryV1 {
        schema_version: String::from_str(REFUND_RECORD_STORE_SUMMARY_SCHEMA_VERSION),
        root,
        refund_count: refunds.len(),
        valid_count: valid,
        invalid_count: refunds.len() - valid,
        valid_amounts: amounts,
        currency_counts: counts,
        refunds,
    }
}

/// How many refunds are in currency `c`.
fn count_currency(v: &Vec<RefundRecordIndexEntryV1>, c: &str) -> (r: usize)
    ensures
        r == count_where(v@, |e: RefundRecordIndexEntryV1| refund_in_currency(e, c@)),
{
    let ghost f = |e: RefundRecordIndexEntryV1| refund_in_currency(e, c@);
    let mut n: usize = 0;
    let mut i: usize = 0;
    while i < v.len()
        invariant
            i <= v.len(),
            f == (|e: RefundRecordIndexEntryV1| refund_in_currency(e, c@)),
            n == count_where(v@.take(i as int), f),
            n <= i,
        decreases v.len() - i,
    {
        proof {
            lemma_count_where_step(v@, i as int, f);
        }
        if text_eq(v[i].currency.as_str(), c) {
            n = n + 1;
        }
        i = i + 1;
    }
    assert(v@.take(v.len() as int) =~= v@);
    n
}


/// The completion time of the last quote, in store order, that verifies, has
/// id `id` and records a completion time.
pub open spec fn completed_at_for(quotes: Seq<ServiceQuoteIndexEntryV1>, id: Seq<char>) -> Option<Seq<char>>
    decreases quotes.len(),
{
    if quotes.len() == 0 {
        None
    } else {
        let q = quotes.last();
        if q.verification.valid && q.quote_id@ == id && q.quote_completed_at is Some {
            Some(q.quote_completed_at->0@)
        } else {
            completed_at_for(quotes.drop_last(), id)
        }
    }
}

/// The quote-to-settlement latency of a settlement: for a verified, settled
/// settlement citing a quote with a completion time, the latency from that
/// completion to the settlement.
pub open spec fn settlement_latency(quotes: Seq<ServiceQuoteIndexEntryV1>, s: SettlementAuditEntryV1) -> Option<u64> {
    if s.signature_verified && s.status == SettlementStatus::Settled {
        match s.quote_id {
            Some(id) => match completed_at_for(quotes, id@) {
                Some(c) => latency_ms(c, s.occurred_at@),
                None => None,
            },
            None => None,
        }
    } else {
        None
    }
}

/// The latencies of the settlements, in order.
pub open spec fn latency_values(quotes: Seq<ServiceQuoteIndexEntryV1>, settlements: Seq<SettlementAuditEntryV1>) -> Seq<u64> {
    pick(settlements, |s: SettlementAuditEntryV1| settlement_latency(quotes, s))
}

fn completed_at_of<'a>(quotes: &'a Vec<ServiceQuoteIndexEntryV1>, id: &str) -> (r: Option<&'a String>)
    ensures
        opt_view(match r {
            Some(s) => Some(*s),
            None => None,
        }) == completed_at_for(quotes@, id@),
{
    let mut i: usize = quotes.len();
    assert(quotes@.take(i as int) =~= quotes@);
    while i > 0
        invariant
            i <= quotes.len(),
            completed_at_for(quotes@.take(i as int), id@) == completed_at_for(quotes@, id@),
        decreases i,
    {
        let q = &quotes[i - 1];
        proof {
            assert(quotes@.take(i as int).drop_last() =~= quotes@.take(i - 1));
            assert(quotes@.take(i as int).last() == quotes@[i - 1]);
        }
        if q.verification.valid && text_eq(q.quote_id.as_str(), id) {
            match &q.quote_completed_at {
                Some(c) => return Some(c),
                None => {},
            }
        }
        i = i - 1;
    }
    None
}

fn latency_of(quotes: &Vec<ServiceQuoteIndexEntryV1>, s: &SettlementAuditEntryV1) -> (r: Option<u64>)
    ensures
        r == settlement_latency(quotes@, *s),
{
    if !(s.signature_verified && s.status == SettlementStatus::Settled) {
        return None;
    }
    match &s.quote_id {
        Some(id) => match completed_at_of(quotes, id.as_str()) {
            Some(c) => quote_to_settlement_latency_ms(c.as_str(), s.occurred_at.as_str()),
            None => None,
        },
        None => None,
    }
}

/// The summary of the marketplace audit. The average latency and the
/// cache-hit rate are the caller's to compute from the values and counts.
#[derive(Debug, Clone)]
pub struct MarketplaceAuditSummaryV1 {
    pub schema_version: String,
    pub root: String,
    pub quote_count: usize,
    pub valid_quote_count: usize,
    pub invalid_quote_count: usize,
    pub settlement_count: usize,
    pub valid_settlement_count: usize,
    pub invalid_settlement_count: usize,
    pub resolution_count: usize,
    pub valid_resolution_count: usize,
    pub invalid_resolution_count: usize,
    pub settlement_latency_sample_count: usize,
    pub settlement_latency_values: Vec<u64>,
    pub max_quote_to_settlement_ms: Option<u64>,
    pub quote_cache_claim_sample_count: usize,
    pub quote_cache_hit_count: usize,
    pub quote_cache_miss_count: usize,
    pub quotes: Vec<ServiceQuoteIndexEntryV1>,
    pub settlements: Vec<SettlementAuditEntryV1>,
    pub resolutions: Vec<SettlementResolutionAuditEntryV1>,
}

/// The marketplace audit of the quotes, settlements and resolutions found
/// under `root`: each list in store order with its counts; the quote-cache
/// counts of the quote store; and the latency from each verified, settled
/// settlement's quote completion to the settlement, with the largest.
pub fn marketplace_audit_summary(
    root: String,
    quotes: Vec<ServiceQuoteIndexEntryV1>,
    settlements: Vec<SettlementAuditEntryV1>,
    resolutions: Vec<SettlementResolutionAuditEntryV1>,
) -> (r: MarketplaceAuditSummaryV1)
    ensures
        r.schema_version@ == MARKETPLACE_AUDIT_SUMMARY_SCHEMA_VERSION@,
        r.root@ == root@,
        r.quotes@.to_multiset() == quotes@.to_multiset(),
        sorted_by_key(r.quotes@),
        r.settlements@.to_multiset() == settlements@.to_multiset(),
        sorted_by_key(r.settlements@),
        r.resolutions@.to_multiset() == resolutions@.to_multiset(),
        sorted_by_key(r.resolutions@),
        r.quote_count == quotes.len(),
        r.valid_quote_count == count_where(r.quotes@, |e: ServiceQuoteIndexEntryV1| quote_is_valid(e)),
        r.invalid_quote_count == r.quote_count - r.valid_quote_count,
        r.settlement_count == settlements.len(),
        r.valid_settlement_count == count_where(r.settlements@, |e: SettlementAuditEntryV1| e.is_valid()),
        r.invalid_settlement_count == r.settlement_count - r.valid_settlement_count,
        r.resolution_count == resolutions.len(),
        r.valid_resolution_count == count_where(r.resolutions@, |e: SettlementResolutionAuditEntryV1| e.is_valid()),
        r.invalid_resolution_count == r.resolution_count - r.valid_resolution_count,
        r.settlement_latency_values@ == latency_values(r.quotes@, r.settlements@),
        r.settlement_latency_sample_count == r.settlement_latency_values.len(),
        r.max_quote_to_settlement_ms == max_of(r.settlement_latency_values@),
        r.quote_cache_claim_sample_count == pick(r.quotes@, |e: ServiceQuoteIndexEntryV1| valid_cache_claim(e)).len(),
        r.quote_cache_hit_count == count_where(
            pick(r.quotes@, |e: ServiceQuoteIndexEntryV1| valid_cache_claim(e)),
            |b: bool| is_hit(b),
        ),
        r.quote_cache_miss_count == r.quote_cache_claim_sample_count - r.quote_cache_hit_count,
{
    let q = service_quote_store_summary(root.clone(), quotes);
    let settlements = sort_entries(settlements);
    let resolutions = sort_entries(resolutions);
    let valid_settlements = count_valid(&settlements);
    let valid_resolutions = count_valid(&resolutions);
    let ghost s = settlements@;
    let ghost lat_f = |x: SettlementAuditEntryV1| settlement_latency(q.quotes@, x);
    let mut values: Vec<u64> = Vec::new();
    let mut i: usize = 0;
    while i < settlements.len()
        invariant
            i <= settlements.len(),
            s == settlements@,
            lat_f == (|x: SettlementAuditEntryV1| settlement_latency(q.quotes@, x)),
            values@ == pick(s.take(i as int), lat_f),
        decreases settlements.len() - i,
    {
        proof {
            lemma_pick_step(s, i as int, lat_f);
        }
        match latency_of(&q.quotes, &settlements[i]) {
            Some(v) => values.push(v),
            None => {},
        }
        i = i + 1;
    }
    assert(s.take(settlements.len() as int) =~= s);
    let max = max_value(&values);
    let samples = values.len();
    MarketplaceAuditSummaryV1 {
        schema_version: String::from_str(MARKETPLACE_AUDIT_SUMMARY_SCHEMA_VERSION),
        root,
        quote_count: q.quote_count,
        valid_quote_count: q.valid_count,
        invalid_quote_count: q.invalid_count,
        settlement_count: settlements.len(),
        valid_settlement_count: valid_settlements,
        invalid_settlement_count: settlements.len() - valid_settlements,
        resolution_count: resolutions.len(),
        valid_resolution_count: valid_resolutions,
        invalid_resolution_count: resolutions.len() - valid_resolutions,
        settlement_latency_sample_count: samples,
        settlement_latency_values: values,
        max_quote_to_settlement_ms: max,
        quote_cache_claim_sample_count: q.quote_cache_claim_sample_count,
        quote_cache_hit_count: q.quote_cache_hit_count,
        quote_cache_miss_count: q.quote_cache_miss_count,
        quotes: q.quotes,
        settlements,
        resolutions,
    }
}

} // verus!
