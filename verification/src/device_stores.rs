//! Summaries of the media-job store and the miner-record store: the index
//! entry of each record found, the entries in store order, and the counts
//! over them. Finding and reading the records, the generation time and the
//! floating-point resource aggregates belong to the caller.
use crate::findings::opt_view;
use crate::kinds::{ApiSurface, IntegrityTier, MinerTrustTierV1, PrivacyTier};
use crate::media::{MediaExecutionPlanV1, MediaJobV1, MediaJobVerificationV1, MediaTask};
use crate::miner::{
    MinerBenchmarkResultV1, MinerBenchmarkVerificationV1, MinerDaemonStatus, MinerHeartbeatV1,
    MinerHeartbeatVerificationV1, MinerProfileV1, MinerProfileVerificationV1,
};
use crate::store_order::{
    count_valid, count_where, key_less, lemma_count_where_step, sort_entries, sorted_by_key, EntryKey, StoreEntry,
};
use vstd::prelude::*;

verus! {

pub const MEDIA_JOB_STORE_SUMMARY_SCHEMA_VERSION: &'static str = "swarm-ai.media-job-store-summary.v1";

pub const MINER_RECORD_STORE_SUMMARY_SCHEMA_VERSION: &'static str = "swarm-ai.miner-record-store-summary.v1";

/// Adds up a number picked from each element of a sequence.
pub open spec fn sum_of<T>(s: Seq<T>, f: spec_fn(T) -> nat) -> nat
    decreases s.len(),
{
    if s.len() == 0 {
        0
    } else {
        sum_of(s.drop_last(), f) + f(s.last())
    }
}

proof fn lemma_sum_of_step<T>(s: Seq<T>, i: int, f: spec_fn(T) -> nat)
    requires
        0 <= i < s.len(),
    ensures
        sum_of(s.take(i + 1), f) == sum_of(s.take(i), f) + f(s[i]),
{
    assert(s.take(i + 1).drop_last() =~= s.take(i));
}

proof fn lemma_sum_of_prefix<T>(s: Seq<T>, i: int, f: spec_fn(T) -> nat)
    requires
        0 <= i <= s.len(),
    ensures
        sum_of(s.take(i), f) <= sum_of(s, f),
    decreases s.len() - i,
{
    if i < s.len() {
        lemma_sum_of_step(s, i, f);
        lemma_sum_of_prefix(s, i + 1, f);
    } else {
        assert(s.take(i) =~= s);
    }
}

// ---------------------------------------------------------------- media jobs

/// A media job as its store lists it.
#[derive(Debug, Clone)]
pub struct MediaJobIndexEntryV1 {
    pub media_job_id: String,
    pub requester: String,
    pub task: MediaTask,
    pub api_surface: ApiSurface,
    pub modalities_in_count: usize,
    pub modalities_out_count: usize,
    pub response_format: String,
    pub output_count: u32,
    pub privacy_tier: PrivacyTier,
    pub integrity_tier: IntegrityTier,
    pub allowed_event_type_count: usize,
    pub mutable_ref_count: usize,
    pub warning_count: usize,
    pub valid: bool,
    pub signature_present: bool,
    pub created_at: String,
    pub job_path: String,
}

impl StoreEntry for MediaJobIndexEntryV1 {
    /// Media jobs are listed by creation time, then id, then path.
    open spec fn sort_key(&self) -> EntryKey {
        (0, self.created_at@, self.media_job_id@, self.job_path@)
    }

    open spec fn is_valid(&self) -> bool {
        self.valid
    }

    fn valid(&self) -> (r: bool) {
        self.valid
    }

    fn sorts_before(&self, other: &Self) -> (r: bool) {
        key_less(
            self.created_at.as_str(),
            self.media_job_id.as_str(),
            self.job_path.as_str(),
            other.created_at.as_str(),
            other.media_job_id.as_str(),
            other.job_path.as_str(),
        )
    }
}

/// The store entry of a media job read from `job_path`, with its
/// verification and execution plan.
pub fn media_job_index_entry(
    job: &MediaJobV1,
    verification: &MediaJobVerificationV1,
    execution_plan: &MediaExecutionPlanV1,
    job_path: String,
) -> (r: MediaJobIndexEntryV1)
    ensures
        r.media_job_id@ == job.media_job_id@,
        r.requester@ == job.requester@,
        r.task == job.task,
        r.api_surface == job.api_surface,
        r.modalities_in_count == execution_plan.modalities_in.len(),
        r.modalities_out_count == execution_plan.modalities_out.len(),
        r.response_format@ == job.output_policy.response_format@,
        r.output_count == job.output_policy.count,
        r.privacy_tier == job.privacy.privacy_tier,
        r.integrity_tier == job.integrity_tier,
        r.allowed_event_type_count == execution_plan.allowed_event_types.len(),
        r.mutable_ref_count == execution_plan.mutable_refs.len(),
        r.warning_count == execution_plan.warnings.len(),
        r.valid == verification.valid,
        r.signature_present == job.signature is Some,
        r.created_at@ == job.created_at@,
        r.job_path@ == job_path@,
{
    MediaJobIndexEntryV1 {
        media_job_id: job.media_job_id.clone(),
        requester: job.requester.clone(),
        task: job.task,
        api_surface: job.api_surface,
        modalities_in_count: execution_plan.modalities_in.len(),
        modalities_out_count: execution_plan.modalities_out.len(),
        response_format: job.output_policy.response_format.clone(),
        output_count: job.output_policy.count,
        privacy_tier: job.privacy.privacy_tier,
        integrity_tier: job.integrity_tier,
        allowed_event_type_count: execution_plan.allowed_event_types.len(),
        mutable_ref_count: execution_plan.mutable_refs.len(),
        warning_count: execution_plan.warnings.len(),
        valid: verification.valid,
        signature_present: job.signature.is_some(),
        created_at: job.created_at.clone(),
        job_path,
    }
}

pub open spec fn image_job(e: MediaJobIndexEntryV1) -> bool {
    e.task == MediaTask::ImageGeneration || e.task == MediaTask::ImageEdit
}

pub open spec fn audio_job(e: MediaJobIndexEntryV1) -> bool {
    e.task == MediaTask::AudioTranscription || e.task == MediaTask::TextToSpeech
}

pub open spec fn job_mutable_refs(e: MediaJobIndexEntryV1) -> nat {
    e.mutable_ref_count as nat
}

pub open spec fn job_warnings(e: MediaJobIndexEntryV1) -> nat {
    e.warning_count as nat
}

/// The summary of a media-job store.
#[derive(Debug, Clone)]
pub struct MediaJobStoreSummaryV1 {
    pub schema_version: String,
    pub root: String,
    pub job_count: usize,
    pub valid_count: usize,
    pub invalid_count: usize,
    pub image_job_count: usize,
    pub audio_job_count: usize,
    pub mutable_ref_count: usize,
    pub warning_count: usize,
    pub jobs: Vec<MediaJobIndexEntryV1>,
    pub generated_at: String,
}

/// The summary of the media jobs found under `root` at `generated_at`: the
/// entries in store order; how many there are, verify, are image jobs and
/// audio jobs; and the mutable references and plan warnings of all of them.
pub fn media_job_store_summary(root: String, entries: Vec<MediaJobIndexEntryV1>, generated_at: String) -> (r:
    MediaJobStoreSummaryV1)
    requires
        sum_of(entries@, |e: MediaJobIndexEntryV1| job_mutable_refs(e)) <= usize::MAX,
        sum_of(entries@, |e: MediaJobIndexEntryV1| job_warnings(e)) <= usize::MAX,
    ensures
        r.schema_version@ == MEDIA_JOB_STORE_SUMMARY_SCHEMA_VERSION@,
        r.root@ == root@,
        r.generated_at@ == generated_at@,
        r.jobs@.to_multiset() == entries@.to_multiset(),
        sorted_by_key(r.jobs@),
        r.job_count == entries.len(),
        r.valid_count == count_where(r.jobs@, |e: MediaJobIndexEntryV1| e.is_valid()),
        r.invalid_count == r.job_count - r.valid_count,
        r.image_job_count == count_where(r.jobs@, |e: MediaJobIndexEntryV1| image_job(e)),
        r.audio_job_count == count_where(r.jobs@, |e: MediaJobIndexEntryV1| audio_job(e)),
        r.mutable_ref_count == sum_of(entries@, |e: MediaJobIndexEntryV1| job_mutable_refs(e)),
        r.warning_count == sum_of(entries@, |e: MediaJobIndexEntryV1| job_warnings(e)),
{
    let ghost s = entries@;
    let ghost mf = |e: MediaJobIndexEntryV1| job_mutable_refs(e);
    let ghost wf = |e: MediaJobIndexEntryV1| job_warnings(e);
    let mut mutable: usize = 0;
    let mut warnings: usize = 0;
    let mut i: usize = 0;
    while i < entries.len()
        invariant
            i <= entries.len(),
            s == entries@,
            mf == (|e: MediaJobIndexEntryV1| job_mutable_refs(e)),
            wf == (|e: MediaJobIndexEntryV1| job_warnings(e)),
            sum_of(s, mf) <= usize::MAX,
            sum_of(s, wf) <= usize::MAX,
            mutable == sum_of(s.take(i as int), mf),
            warnings == sum_of(s.take(i as int), wf),
        decreases entries.len() - i,
    {
        proof {
            lemma_sum_of_step(s, i as int, mf);
            lemma_sum_of_step(s, i as int, wf);
            lemma_sum_of_prefix(s, i + 1, mf);
            lemma_sum_of_prefix(s, i + 1, wf);
        }
        mutable = mutable + entries[i].mutable_ref_count;
        warnings = warnings + entries[i].warning_count;
        i = i + 1;
    }
    assert(s.take(entries.len() as int) =~= s);
    let jobs = sort_entries(entries);
    let valid = count_valid(&jobs);
    let image = count_media_jobs(&jobs, true);
    let audio = count_media_jobs(&jobs, false);
    MediaJobStoreSummaryV1 {
        schema_version: String::from_str(MEDIA_JOB_STORE_SUMMARY_SCHEMA_VERSION),
        root,
        job_count: jobs.len(),
        valid_count: valid,
        invalid_count: jobs.len() - valid,
        image_job_count: image,
        audio_job_count: audio,
        mutable_ref_count: mutable,
        warning_count: warnings,
        jobs,
        generated_at,
    }
}

/// How many jobs are image jobs (`image`) or audio jobs (otherwise).
fn count_media_jobs(v: &Vec<MediaJobIndexEntryV1>, image: bool) -> (r: usize)
    ensures
        image ==> r == count_where(v@, |e: MediaJobIndexEntryV1| image_job(e)),
        !image ==> r == count_where(v@, |e: MediaJobIndexEntryV1| audio_job(e)),
{
    let ghost f = if image {
        |e: MediaJobIndexEntryV1| image_job(e)
    } else {
        |e: MediaJobIndexEntryV1| audio_job(e)
    };
    let mut n: usize = 0;
    let mut i: usize = 0;
    while i < v.len()
        invariant
            i <= v.len(),
            f == (if image {
                |e: MediaJobIndexEntryV1| image_job(e)
            } else {
                |e: MediaJobIndexEntryV1| audio_job(e)
            }),
            n == count_where(v@.take(i as int), f),
            n <= i,
        decreases v.len() - i,
    {
        proof {
            lemma_count_where_step(v@, i as int, f);
        }
        let t = v[i].task;
        let hit = if image {
            t == MediaTask::ImageGeneration || t == MediaTask::ImageEdit
        } else {
            t == MediaTask::AudioTranscription || t == MediaTask::TextToSpeech
        };
        if hit {
            n = n + 1;
        }
        i = i + 1;
    }
    assert(v@.take(v.len() as int) =~= v@);
    n
}


// ---------------------------------------------------------------- miner records

/// The kind of a miner record.
#[derive(Debug, Clone, Copy, PartialEq, Eq, Structural)]
pub enum MinerRecordType {
    Profile,
    Heartbeat,
    Benchmark,
}

/// A miner record as its store lists it.
#[derive(Debug, Clone)]
pub struct MinerRecordSummaryV1 {
    pub record_id: String,
    pub record_type: MinerRecordType,
    pub miner_id: String,
    pub runner_id: String,
    pub operator: String,
    pub status: Option<MinerDaemonStatus>,
    pub trust_tier: Option<MinerTrustTierV1>,
    pub hardware_offer_id: Option<String>,
    pub benchmark_suite: Option<String>,
    pub warning_count: usize,
    pub valid: bool,
    pub signature_present: bool,
    pub created_at: String,
    pub path: String,
}

impl StoreEntry for MinerRecordSummaryV1 {
    /// Miner records are listed by time, then id, then path.
    open spec fn sort_key(&self) -> EntryKey {
        (0, self.created_at@, self.record_id@, self.path@)
    }

    open spec fn is_valid(&self) -> bool {
        self.valid
    }

    fn valid(&self) -> (r: bool) {
        self.valid
    }

    fn sorts_before(&self, other: &Self) -> (r: bool) {
        key_less(
            self.created_at.as_str(),
            self.record_id.as_str(),
            self.path.as_str(),
            other.created_at.as_str(),
            other.record_id.as_str(),
            other.path.as_str(),
        )
    }
}

/// The store entry of a miner profile read from `path`.
pub fn miner_profile_index_entry(
    profile: &MinerProfileV1,
    verification: &MinerProfileVerificationV1,
    path: String,
) -> (r: MinerRecordSummaryV1)
    ensures
        r.record_id@ == profile.miner_id@,
        r.record_type == MinerRecordType::Profile,
        r.miner_id@ == profile.miner_id@,
        r.runner_id@ == profile.runner_id@,
        r.operator@ == profile.operator@,
        r.status is None,
        r.trust_tier == Some(profile.trust_tier),
        opt_view(r.hardware_offer_id) == Some(profile.hardware_offer_id@),
        r.benchmark_suite is None,
        r.warning_count == verification.warnings.len(),
        r.valid == verification.valid,
        r.signature_present == profile.signature is Some,
        r.created_at@ == profile.created_at@,
        r.path@ == path@,
{
    MinerRecordSummaryV1 {
        record_id: profile.miner_id.clone(),
        record_type: MinerRecordType::Profile,
        miner_id: profile.miner_id.clone(),
        runner_id: profile.runner_id.clone(),
        operator: profile.operator.clone(),
        status: None,
        trust_tier: Some(profile.trust_tier),
        hardware_offer_id: Some(profile.hardware_offer_id.clone()),
        benchmark_suite: None,
        warning_count: verification.warnings.len(),
        valid: verification.valid,
        signature_present: profile.signature.is_some(),
        created_at: profile.created_at.clone(),
        path,
    }
}

/// The operator of a miner's profile, or an empty text without one.
fn profile_operator(profile: Option<&MinerProfileV1>) -> (r: String)
    ensures
        r@ == match profile {
            Some(p) => p.operator@,
            None => Seq::<char>::empty(),
        },
{
    match profile {
        Some(p) => p.operator.clone(),
        None => String::new(),
    }
}

/// The store entry of a miner heartbeat read from `path`, with the profile of
/// its miner when known.
pub fn miner_heartbeat_index_entry(
    heartbeat: &MinerHeartbeatV1,
    profile: Option<&MinerProfileV1>,
    verification: &MinerHeartbeatVerificationV1,
    path: String,
) -> (r: MinerRecordSummaryV1)
    ensures
        r.record_id@ == heartbeat.heartbeat_id@,
        r.record_type == MinerRecordType::Heartbeat,
        r.miner_id@ == heartbeat.miner_id@,
        r.runner_id@ == heartbeat.runner_id@,
        r.operator@ == match profile {
            Some(p) => p.operator@,
            None => Seq::<char>::empty(),
        },
        r.status == Some(heartbeat.status),
        r.trust_tier == match profile {
            Some(p) => Some(p.trust_tier),
            None => None::<MinerTrustTierV1>,
        },
        opt_view(r.hardware_offer_id) == match profile {
            Some(p) => Some(p.hardware_offer_id@),
            None => None::<Seq<char>>,
        },
        r.benchmark_suite is None,
        r.warning_count == verification.warnings.len(),
        r.valid == verification.valid,
        r.signature_present == heartbeat.signature is Some,
        r.created_at@ == heartbeat.observed_at@,
        r.path@ == path@,
{
    MinerRecordSummaryV1 {
        record_id: heartbeat.heartbeat_id.clone(),
        record_type: MinerRecordType::Heartbeat,
        miner_id: heartbeat.miner_id.clone(),
        runner_id: heartbeat.runner_id.clone(),
        operator: profile_operator(profile),
        status: Some(heartbeat.status),
        trust_tier: match profile {
            Some(p) => Some(p.trust_tier),
            None => None,
        },
        hardware_offer_id: match profile {
            Some(p) => Some(p.hardware_offer_id.clone()),
            None => None,
        },
        benchmark_suite: None,
        warning_count: verification.warnings.len(),
        valid: verification.valid,
        signature_present: heartbeat.signature.is_some(),
        created_at: heartbeat.observed_at.clone(),
        path,
    }
}

/// The store entry of a miner benchmark result read from `path`, with the
/// profile of its miner when known.
pub fn miner_benchmark_index_entry(
    benchmark: &MinerBenchmarkResultV1,
    profile: Option<&MinerProfileV1>,
    verification: &MinerBenchmarkVerificationV1,
    path: String,
) -> (r: MinerRecordSummaryV1)
    ensures
        r.record_id@ == benchmark.benchmark_id@,
        r.record_type == MinerRecordType::Benchmark,
        r.miner_id@ == benchmark.miner_id@,
        r.runner_id@ == benchmark.runner_id@,
        r.operator@ == match profile {
            Some(p) => p.operator@,
            None => Seq::<char>::empty(),
        },
        r.status is None,
        r.trust_tier == match profile {
            Some(p) => Some(p.trust_tier),
            None => None::<MinerTrustTierV1>,
        },
        opt_view(r.hardware_offer_id) == Some(benchmark.hardware_offer_id@),
        opt_view(r.benchmark_suite) == Some(benchmark.benchmark_suite@),
        r.warning_count == verification.warnings.len(),
        r.valid == verification.valid,
        r.signature_present == benchmark.signature is Some,
        r.created_at@ == benchmark.measured_at@,
        r.path@ == path@,
{
    MinerRecordSummaryV1 {
        record_id: benchmark.benchmark_id.clone(),
        record_type: MinerRecordType::Benchmark,
        miner_id: benchmark.miner_id.clone(),
        runner_id: benchmark.runner_id.clone(),
        operator: profile_operator(profile),
        status: None,
        trust_tier: match profile {
            Some(p) => Some(p.trust_tier),
            None => None,
        },
        hardware_offer_id: Some(benchmark.hardware_offer_id.clone()),
        benchmark_suite: Some(benchmark.benchmark_suite.clone()),
        warning_count: verification.warnings.len(),
        valid: verification.valid,
        signature_present: benchmark.signature.is_some(),
        created_at: benchmark.measured_at.clone(),
        path,
    }
}

pub open spec fn record_of_type(e: MinerRecordSummaryV1, t: MinerRecordType) -> bool {
    e.record_type == t
}

pub open spec fn heartbeat_in(e: MinerRecordSummaryV1, s: MinerDaemonStatus) -> bool {
    e.status == Some(s)
}

pub open spec fn record_warnings(e: MinerRecordSummaryV1) -> nat {
    e.warning_count as nat
}

/// The summary of a miner-record store. The memory and VRAM usage
/// aggregates are floating point and the caller's to add.
#[derive(Debug, Clone)]
pub struct MinerRecordStoreCountsV1 {
    pub schema_version: String,
    pub root: String,
    pub profile_count: usize,
    pub heartbeat_count: usize,
    pub benchmark_count: usize,
    pub record_count: usize,
    pub valid_count: usize,
    pub invalid_count: usize,
    pub available_heartbeat_count: usize,
    pub busy_heartbeat_count: usize,
    pub warning_count: usize,
    pub records: Vec<MinerRecordSummaryV1>,
    pub generated_at: String,
}

fn count_records(v: &Vec<MinerRecordSummaryV1>, t: Option<MinerRecordType>, s: Option<MinerDaemonStatus>) -> (r: usize)
    ensures
        t matches Some(k) ==> r == count_where(v@, |e: MinerRecordSummaryV1| record_of_type(e, k)),
        t is None ==> (s matches Some(x) ==> r == count_where(v@, |e: MinerRecordSummaryV1| heartbeat_in(e, x))),
{
    let ghost f = |e: MinerRecordSummaryV1| match t {
        Some(k) => record_of_type(e, k),
        None => match s {
            Some(x) => heartbeat_in(e, x),
            None => false,
        },
    };
    let mut n: usize = 0;
    let mut i: usize = 0;
    while i < v.len()
        invariant
            i <= v.len(),
            f == (|e: MinerRecordSummaryV1| match t {
                Some(k) => record_of_type(e, k),
                None => match s {
                    Some(x) => heartbeat_in(e, x),
                    None => false,
                },
            }),
            n == count_where(v@.take(i as int), f),
            n <= i,
        decreases v.len() - i,
    {
        proof {
            lemma_count_where_step(v@, i as int, f);
        }
        let hit = match t {
            Some(k) => v[i].record_type == k,
            None => match s {
                Some(x) => v[i].status == Some(x),
                None => false,
            },
        };
        if hit {
            n = n + 1;
        }
        i = i + 1;
    }
    assert(v@.take(v.len() as int) =~= v@);
    proof {
        match t {
            Some(k) => {
                assert(f == (|e: MinerRecordSummaryV1| record_of_type(e, k)));
            },
            None => match s {
                Some(x) => {
                    assert(f == (|e: MinerRecordSummaryV1| heartbeat_in(e, x)));
                },
                None => {},
            },
        }
    }
    n
}

/// The summary of the miner records found under `root` at `generated_at`:
/// the entries in store order; how many profiles, heartbeats and benchmark
/// results there are, how many verify, how many heartbeats report the miner
/// available or busy; and the warnings of all of them.
pub fn miner_record_store_summary(root: String, entries: Vec<MinerRecordSummaryV1>, generated_at: String) -> (r:
    MinerRecordStoreCountsV1)
    requires
        sum_of(entries@, |e: MinerRecordSummaryV1| record_warnings(e)) <= usize::MAX,
    ensures
        r.schema_version@ == MINER_RECORD_STORE_SUMMARY_SCHEMA_VERSION@,
        r.root@ == root@,
        r.generated_at@ == generated_at@,
        r.records@.to_multiset() == entries@.to_multiset(),
        sorted_by_key(r.records@),
        r.record_count == entries.len(),
        r.profile_count == count_where(r.records@, |e: MinerRecordSummaryV1| record_of_type(e, MinerRecordType::Profile)),
        r.heartbeat_count == count_where(r.records@, |e: MinerRecordSummaryV1| record_of_type(e, MinerRecordType::Heartbeat)),
        r.benchmark_count == count_where(r.records@, |e: MinerRecordSummaryV1| record_of_type(e, MinerRecordType::Benchmark)),
        r.valid_count == count_where(r.records@, |e: MinerRecordSummaryV1| e.is_valid()),
        r.invalid_count == r.record_count - r.valid_count,
        r.available_heartbeat_count == count_where(r.records@, |e: MinerRecordSummaryV1| heartbeat_in(e, MinerDaemonStatus::Available)),
        r.busy_heartbeat_count == count_where(r.records@, |e: MinerRecordSummaryV1| heartbeat_in(e, MinerDaemonStatus::Busy)),
        r.warning_count == sum_of(entries@, |e: MinerRecordSummaryV1| record_warnings(e)),
{
    let ghost s = entries@;
    let ghost wf = |e: MinerRecordSummaryV1| record_warnings(e);
    let mut warnings: usize = 0;
    let mut i: usize = 0;
    while i < entries.len()
        invariant
            i <= entries.len(),
            s == entries@,
            wf == (|e: MinerRecordSummaryV1| record_warnings(e)),
            sum_of(s, wf) <= usize::MAX,
            warnings == sum_of(s.take(i as int), wf),
        decreases entries.len() - i,
    {
        proof {
            lemma_sum_of_step(s, i as int, wf);
            lemma_sum_of_prefix(s, i + 1, wf);
        }
        warnings = warnings + entries[i].warning_count;
        i = i + 1;
    }
    assert(s.take(entries.len() as int) =~= s);
    let records = sort_entries(entries);
    let valid = count_valid(&records);
    let profiles = count_records(&records, Some(MinerRecordType::Profile), None);
    let heartbeats = count_records(&records, Some(MinerRecordType::Heartbeat), None);
    let benchmarks = count_records(&records, Some(MinerRecordType::Benchmark), None);
    let available = count_records(&records, None, Some(MinerDaemonStatus::Available));
    let busy = count_records(&records, None, Some(MinerDaemonStatus::Busy));
    MinerRecordStoreCountsV1 {
        schema_version: String::from_str(MINER_RECORD_STORE_SUMMARY_SCHEMA_VERSION),
        root,
        profile_count: profiles,
        heartbeat_count: heartbeats,
        benchmark_count: benchmarks,
        record_count: records.len(),
        valid_count: valid,
        invalid_count: records.len() - valid,
        available_heartbeat_count: available,
        busy_heartbeat_count: busy,
        warning_count: warnings,
        records,
        generated_at,
    }
}

} // verus!
