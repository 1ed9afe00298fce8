use hivemind_market::clock::{millis_since, quote_to_settlement_latency_ms, Instant};
use hivemind_market::device_stores::{
    media_job_store_summary, miner_record_store_summary, MediaJobIndexEntryV1, MinerRecordSummaryV1,
    MinerRecordType,
};
use hivemind_market::kinds::{
    ApiSurface, EscrowStatusV1, IntegrityTier, PrivacyTier, SettlementModel, SettlementResolutionAction,
    SettlementStatus,
};
use hivemind_market::media::MediaTask;
use hivemind_market::miner::MinerDaemonStatus;
use hivemind_market::quote::ServiceQuoteVerificationV1;
use hivemind_market::refund::RefundRecordVerificationV1;
use hivemind_market::escrow::EscrowRecordVerificationV1;
use hivemind_market::stores::{
    escrow_record_store_summary, marketplace_audit_summary, refund_record_store_summary,
    service_quote_store_summary, EscrowRecordIndexEntryV1, RefundRecordIndexEntryV1,
    ServiceQuoteIndexEntryV1, SettlementAuditEntryV1, SettlementResolutionAuditEntryV1,
};

fn quote_verification(valid: bool) -> ServiceQuoteVerificationV1 {
    ServiceQuoteVerificationV1 {
        schema_version: "v".to_string(),
        quote_id: "q".to_string(),
        valid,
        issues: Vec::new(),
        warnings: Vec::new(),
        expected_cost: None,
        expected_signature: None,
        verified_at: "t".to_string(),
    }
}

fn quote_entry(
    id: &str,
    expires_at: &str,
    valid: bool,
    elapsed: Option<u64>,
    completed_at: Option<&str>,
    cache_hit_claim: Option<bool>,
) -> ServiceQuoteIndexEntryV1 {
    ServiceQuoteIndexEntryV1 {
        quote_id: id.to_string(),
        job_id: None,
        request_id: "req".to_string(),
        offer_id: "offer".to_string(),
        listing_id: None,
        runner_id: "runner".to_string(),
        package_ref: "bzz://pkg".to_string(),
        estimated_cost: 0.01f64.to_bits(),
        currency: "xDAI".to_string(),
        settlement_model: SettlementModel::DirectPayPerCall,
        expires_at: expires_at.to_string(),
        quote_elapsed_ms: elapsed,
        quote_started_at: completed_at.map(|_| "2026-01-01T00:00:00Z".to_string()),
        quote_completed_at: completed_at.map(str::to_string),
        cache_hit_claim,
        quote_path: format!("/audit/quotes/{id}.json"),
        verification: quote_verification(valid),
    }
}

fn settlement_entry(id: &str, quote_id: Option<&str>, occurred_at: &str, verified: bool, status: SettlementStatus) -> SettlementAuditEntryV1 {
    SettlementAuditEntryV1 {
        settlement_id: id.to_string(),
        job_id: None,
        request_id: "req".to_string(),
        receipt_id: "receipt".to_string(),
        quote_id: quote_id.map(str::to_string),
        payment_authorization_id: None,
        package_ref: "bzz://pkg".to_string(),
        runner_id: "runner".to_string(),
        payer: "payer".to_string(),
        payee: "payee".to_string(),
        amount: 0.01f64.to_bits(),
        currency: "xDAI".to_string(),
        asset: None,
        status,
        reason: None,
        evidence_ref_count: 1,
        created_at: None,
        occurred_at: occurred_at.to_string(),
        settlement_path: format!("/audit/settlements/{id}.json"),
        signature_verified: verified,
    }
}

fn resolution_entry(id: &str, occurred_at: &str, verified: bool) -> SettlementResolutionAuditEntryV1 {
    SettlementResolutionAuditEntryV1 {
        resolution_id: id.to_string(),
        settlement_id: "s".to_string(),
        receipt_id: "receipt".to_string(),
        dispute_id: "d".to_string(),
        action: SettlementResolutionAction::OpenDispute,
        previous_status: SettlementStatus::Settled,
        new_status: SettlementStatus::Disputed,
        amount: 0.01f64.to_bits(),
        currency: "xDAI".to_string(),
        resolved_by: "arbiter".to_string(),
        occurred_at: occurred_at.to_string(),
        resolution_path: format!("/audit/resolutions/{id}.json"),
        signature_verified: verified,
    }
}

#[test]
fn latency_is_whole_milliseconds_from_completion_to_settlement() {
    assert_eq!(
        quote_to_settlement_latency_ms("2026-01-01T00:00:00.250Z", "2026-01-01T00:00:01.900Z"),
        Some(1650)
    );
    assert_eq!(
        quote_to_settlement_latency_ms("2026-01-01T00:00:00Z", "2026-01-01T01:00:00+01:00"),
        Some(0)
    );
    assert_eq!(quote_to_settlement_latency_ms("2026-01-01T00:00:02Z", "2026-01-01T00:00:01Z"), None);
    assert_eq!(quote_to_settlement_latency_ms("not a time", "2026-01-01T00:00:01Z"), None);
    assert_eq!(quote_to_settlement_latency_ms("2026-01-01T00:00:00Z", "soon"), None);
}

#[test]
fn millis_truncate_toward_zero_like_chrono() {
    let a = Instant { secs: 10, nanos: 999_500_000 };
    let b = Instant { secs: 10, nanos: 999_000_000 };
    assert_eq!(millis_since(a, b), 0);
    assert_eq!(millis_since(b, a), 0);
    let c = Instant { secs: 12, nanos: 0 };
    assert_eq!(millis_since(a, c), 1000);
    assert_eq!(millis_since(c, a), -1000);
}

#[test]
fn quote_store_is_listed_by_expiry_then_id_with_counts() {
    let summary = service_quote_store_summary(
        "/audit".to_string(),
        vec![
            quote_entry("q-3", "2026-03-01T00:00:00Z", true, Some(40), None, Some(true)),
            quote_entry("q-2", "2026-01-01T00:00:00Z", false, Some(10), None, Some(true)),
            quote_entry("q-1", "2026-01-01T00:00:00Z", true, None, None, Some(false)),
            quote_entry("q-4", "2026-02-01T00:00:00Z", true, Some(25), None, None),
        ],
    );
    let ids: Vec<&str> = summary.quotes.iter().map(|q| q.quote_id.as_str()).collect();
    assert_eq!(ids, vec!["q-1", "q-2", "q-4", "q-3"]);
    assert_eq!(summary.root, "/audit");
    assert_eq!(summary.quote_count, 4);
    assert_eq!(summary.valid_count, 3);
    assert_eq!(summary.invalid_count, 1);
    assert_eq!(summary.with_quote_timing_count, 3);
    assert_eq!(summary.quote_elapsed_values, vec![10, 25, 40]);
    assert_eq!(summary.max_quote_elapsed_ms, Some(40));
    assert_eq!(summary.quote_cache_claim_sample_count, 2);
    assert_eq!(summary.quote_cache_hit_count, 1);
    assert_eq!(summary.quote_cache_miss_count, 1);
}

#[test]
fn audit_measures_latency_of_verified_settled_settlements_against_their_quote() {
    let quotes = vec![
        quote_entry("q-1", "2026-01-02T00:00:00Z", true, Some(5), Some("2026-01-01T00:00:00Z"), Some(true)),
        quote_entry("q-2", "2026-01-03T00:00:00Z", false, Some(5), Some("2026-01-01T00:00:00Z"), None),
    ];
    let settlements = vec![
        settlement_entry("s-3", Some("q-1"), "2026-01-01T00:00:03Z", true, SettlementStatus::Settled),
        settlement_entry("s-1", Some("q-1"), "2026-01-01T00:00:01.5Z", true, SettlementStatus::Settled),
        settlement_entry("s-2", Some("q-2"), "2026-01-01T00:00:02Z", true, SettlementStatus::Settled),
        settlement_entry("s-4", Some("q-1"), "2026-01-01T00:00:04Z", false, SettlementStatus::Settled),
        settlement_entry("s-5", Some("q-1"), "2026-01-01T00:00:05Z", true, SettlementStatus::Disputed),
    ];
    let resolutions = vec![
        resolution_entry("r-2", "2026-01-01T00:00:09Z", true),
        resolution_entry("r-1", "2026-01-01T00:00:08Z", false),
    ];
    let audit = marketplace_audit_summary("/audit".to_string(), quotes, settlements, resolutions);
    let ids: Vec<&str> = audit.settlements.iter().map(|s| s.settlement_id.as_str()).collect();
    assert_eq!(ids, vec!["s-1", "s-2", "s-3", "s-4", "s-5"]);
    assert_eq!(audit.resolutions[0].resolution_id, "r-1");
    assert_eq!(audit.quote_count, 2);
    assert_eq!(audit.valid_quote_count, 1);
    assert_eq!(audit.settlement_count, 5);
    assert_eq!(audit.valid_settlement_count, 4);
    assert_eq!(audit.invalid_settlement_count, 1);
    assert_eq!(audit.resolution_count, 2);
    assert_eq!(audit.valid_resolution_count, 1);
    assert_eq!(audit.settlement_latency_values, vec![1500, 3000]);
    assert_eq!(audit.settlement_latency_sample_count, 2);
    assert_eq!(audit.max_quote_to_settlement_ms, Some(3000));
    assert_eq!(audit.quote_cache_hit_count, 1);
}

fn escrow_entry(id: &str, created_at: &str, status: EscrowStatusV1, valid: bool) -> EscrowRecordIndexEntryV1 {
    EscrowRecordIndexEntryV1 {
        escrow_id: id.to_string(),
        authorization_id: "a".to_string(),
        quote_id: "q".to_string(),
        job_id: None,
        request_id: "req".to_string(),
        runner_id: "runner".to_string(),
        payer: "payer".to_string(),
        payee: "payee".to_string(),
        amount: 1.0f64.to_bits(),
        currency: "xDAI".to_string(),
        status,
        custodian: "custodian".to_string(),
        settlement_id: None,
        created_at: created_at.to_string(),
        expires_at: "2099-01-01T00:00:00Z".to_string(),
        escrow_path: format!("/escrows/{id}.json"),
        verification: EscrowRecordVerificationV1 {
            schema_version: "v".to_string(),
            escrow_id: id.to_string(),
            valid,
            issues: Vec::new(),
            warnings: Vec::new(),
            payment_authorization_verification: None,
            expected_signature: None,
            verified_at: "t".to_string(),
        },
    }
}

#[test]
fn escrow_store_counts_statuses() {
    let summary = escrow_record_store_summary(
        "/escrows".to_string(),
        vec![
            escrow_entry("e-2", "2026-01-02T00:00:00Z", EscrowStatusV1::Released, true),
            escrow_entry("e-1", "2026-01-01T00:00:00Z", EscrowStatusV1::Locked, true),
            escrow_entry("e-3", "2026-01-03T00:00:00Z", EscrowStatusV1::Refunded, false),
            escrow_entry("e-0", "2026-01-03T00:00:00Z", EscrowStatusV1::Locked, true),
        ],
    );
    let ids: Vec<&str> = summary.escrows.iter().map(|e| e.escrow_id.as_str()).collect();
    assert_eq!(ids, vec!["e-1", "e-2", "e-0", "e-3"]);
    assert_eq!(summary.escrow_count, 4);
    assert_eq!(summary.locked_count, 2);
    assert_eq!(summary.released_count, 1);
    assert_eq!(summary.refunded_count, 1);
    assert_eq!(summary.valid_count, 3);
    assert_eq!(summary.invalid_count, 1);
}

fn refund_entry(id: &str, occurred_at: &str, currency: &str, amount: f64, valid: bool) -> RefundRecordIndexEntryV1 {
    RefundRecordIndexEntryV1 {
        refund_id: id.to_string(),
        settlement_id: "s".to_string(),
        source_settlement_id: "s0".to_string(),
        resolution_id: "r".to_string(),
        dispute_id: None,
        receipt_id: "receipt".to_string(),
        job_id: None,
        request_id: "req".to_string(),
        runner_id: "runner".to_string(),
        payer: "payer".to_string(),
        payee: "payee".to_string(),
        refunded_by: "arbiter".to_string(),
        amount: amount.to_bits(),
        currency: currency.to_string(),
        refund_ref: None,
        occurred_at: occurred_at.to_string(),
        refund_path: format!("/audit/refunds/{id}.json"),
        verification: RefundRecordVerificationV1 {
            schema_version: "v".to_string(),
            refund_id: Some(id.to_string()),
            valid,
            issues: Vec::new(),
            warnings: Vec::new(),
            expected_signature: None,
            verified_at: "t".to_string(),
        },
    }
}

#[test]
fn refund_store_counts_currencies_and_keeps_valid_amounts() {
    let summary = refund_record_store_summary(
        "/audit/refunds".to_string(),
        vec![
            refund_entry("f-2", "2026-01-02T00:00:00Z", "xDAI", 2.0, true),
            refund_entry("f-1", "2026-01-01T00:00:00Z", "USD", 1.0, true),
            refund_entry("f-3", "2026-01-03T00:00:00Z", "xDAI", 4.0, false),
        ],
    );
    assert_eq!(summary.refunds[0].refund_id, "f-1");
    assert_eq!(summary.refund_count, 3);
    assert_eq!(summary.valid_count, 2);
    assert_eq!(summary.valid_amounts, vec![1.0f64.to_bits(), 2.0f64.to_bits()]);
    assert_eq!(
        summary.currency_counts,
        vec![("USD".to_string(), 1), ("xDAI".to_string(), 2)]
    );
}

fn media_entry(id: &str, task: MediaTask, mutable_refs: usize, warnings: usize, valid: bool) -> MediaJobIndexEntryV1 {
    MediaJobIndexEntryV1 {
        media_job_id: id.to_string(),
        requester: "0xUser".to_string(),
        task,
        api_surface: ApiSurface::OpenAiImages,
        modalities_in_count: 1,
        modalities_out_count: 1,
        response_format: "url".to_string(),
        output_count: 1,
        privacy_tier: PrivacyTier::Standard,
        integrity_tier: IntegrityTier::ReceiptOnly,
        allowed_event_type_count: 2,
        mutable_ref_count: mutable_refs,
        warning_count: warnings,
        valid,
        signature_present: true,
        created_at: "2026-01-01T00:00:00Z".to_string(),
        job_path: format!("/jobs/{id}.json"),
    }
}

#[test]
fn media_store_counts_tasks_refs_and_warnings() {
    let summary = media_job_store_summary(
        "/jobs".to_string(),
        vec![
            media_entry("m-2", MediaTask::TextToSpeech, 0, 1, true),
            media_entry("m-1", MediaTask::ImageGeneration, 2, 3, false),
            media_entry("m-3", MediaTask::ImageEdit, 1, 0, true),
        ],
        "2026-01-05T00:00:00Z".to_string(),
    );
    assert_eq!(summary.jobs[0].media_job_id, "m-1");
    assert_eq!(summary.job_count, 3);
    assert_eq!(summary.valid_count, 2);
    assert_eq!(summary.invalid_count, 1);
    assert_eq!(summary.image_job_count, 2);
    assert_eq!(summary.audio_job_count, 1);
    assert_eq!(summary.mutable_ref_count, 3);
    assert_eq!(summary.warning_count, 4);
    assert_eq!(summary.generated_at, "2026-01-05T00:00:00Z");
}

fn miner_entry(id: &str, t: MinerRecordType, status: Option<MinerDaemonStatus>, at: &str, warnings: usize, valid: bool) -> MinerRecordSummaryV1 {
    MinerRecordSummaryV1 {
        record_id: id.to_string(),
        record_type: t,
        miner_id: "miner".to_string(),
        runner_id: "runner".to_string(),
        operator: "0xMiner".to_string(),
        status,
        trust_tier: None,
        hardware_offer_id: None,
        benchmark_suite: None,
        warning_count: warnings,
        valid,
        signature_present: false,
        created_at: at.to_string(),
        path: format!("/miner/{id}.json"),
    }
}

#[test]
fn miner_store_counts_kinds_and_heartbeat_states() {
    let summary = miner_record_store_summary(
        "/miner".to_string(),
        vec![
            miner_entry("h-2", MinerRecordType::Heartbeat, Some(MinerDaemonStatus::Busy), "2026-01-03T00:00:00Z", 0, true),
            miner_entry("p-1", MinerRecordType::Profile, None, "2026-01-01T00:00:00Z", 1, true),
            miner_entry("h-1", MinerRecordType::Heartbeat, Some(MinerDaemonStatus::Available), "2026-01-02T00:00:00Z", 2, false),
            miner_entry("b-1", MinerRecordType::Benchmark, None, "2026-01-04T00:00:00Z", 0, true),
        ],
        "2026-01-05T00:00:00Z".to_string(),
    );
    let ids: Vec<&str> = summary.records.iter().map(|r| r.record_id.as_str()).collect();
    assert_eq!(ids, vec!["p-1", "h-1", "h-2", "b-1"]);
    assert_eq!(summary.profile_count, 1);
    assert_eq!(summary.heartbeat_count, 2);
    assert_eq!(summary.benchmark_count, 1);
    assert_eq!(summary.record_count, 4);
    assert_eq!(summary.valid_count, 3);
    assert_eq!(summary.available_heartbeat_count, 1);
    assert_eq!(summary.busy_heartbeat_count, 1);
    assert_eq!(summary.warning_count, 3);
}
