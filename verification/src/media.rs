//! Media jobs (image generation and editing, transcription, speech): the
//! job record, its verification, and the execution plan derived from it.
use crate::clock::{parse_rfc3339, rfc3339_instant};
use crate::findings::{envelope_subject, EnvelopeSubject, expected_signature, identity_view, issues_view, opt_view, Findings, MarketplaceVerificationIssueV1, Report, SignedContent};
use crate::kinds::{ApiSurface, IntegrityTier, Modality, PrivacyTier};
use crate::text::{blank, has_prefix, is_blank, starts_with, text_eq};
use vstd::prelude::*;

verus! {

pub const MEDIA_JOB_SCHEMA_VERSION: &'static str = "swarm-ai.media-job.v1";

pub const MEDIA_JOB_VERIFICATION_SCHEMA_VERSION: &'static str = "swarm-ai.media-job-verification.v1";

pub const MEDIA_EXECUTION_PLAN_SCHEMA_VERSION: &'static str = "swarm-ai.media-execution-plan.v1";

/// What a media job asks for.
#[derive(Debug, Clone, Copy, PartialEq, Eq, Structural)]
pub enum MediaTask {
    ImageGeneration,
    ImageEdit,
    AudioTranscription,
    TextToSpeech,
}

/// The events a media job may stream.
#[derive(Debug, Clone, Copy, PartialEq, Eq, Structural)]
pub enum StreamingEventType {
    Started,
    LogEvent,
    PartialReceipt,
    Completed,
    Error,
    Cancelled,
    ImageProgress,
    TextDelta,
    AudioChunk,
}

/// Which package, service or model a media job runs on.
#[derive(Debug, Clone)]
pub struct MediaPackageSelectorV1 {
    pub package_ref: Option<String>,
    pub package_id: Option<String>,
    pub package_version: Option<String>,
    pub service_ref: Option<String>,
    pub model_alias: Option<String>,
}

/// The input of a media job, with the fields its rules read.
#[derive(Debug, Clone)]
pub struct MediaInputV1 {
    pub prompt: Option<String>,
    pub text: Option<String>,
    pub input_ref: Option<String>,
    pub mask_ref: Option<String>,
}

/// How a media job returns its output.
#[derive(Debug, Clone)]
pub struct MediaOutputPolicyV1 {
    pub response_format: String,
    pub output_ref: Option<String>,
    pub count: u32,
    pub size: Option<String>,
    pub quality: Option<String>,
    pub style: Option<String>,
    pub voice: Option<String>,
    pub audio_format: Option<String>,
}

/// The privacy a media job runs under.
#[derive(Debug, Clone, Copy)]
pub struct MediaPrivacyV1 {
    pub privacy_tier: PrivacyTier,
}

impl MediaPrivacyV1 {
    /// No logs: the default privacy of a media job.
    pub fn default() -> (r: MediaPrivacyV1)
        ensures
            r.privacy_tier == PrivacyTier::NoLog,
    {
        MediaPrivacyV1 { privacy_tier: PrivacyTier::NoLog }
    }
}

/// A media job.
#[derive(Debug, Clone)]
pub struct MediaJobV1 {
    pub schema_version: String,
    pub media_job_id: String,
    pub requester: String,
    pub task: MediaTask,
    pub api_surface: ApiSurface,
    pub package_selector: MediaPackageSelectorV1,
    pub input: MediaInputV1,
    pub output_policy: MediaOutputPolicyV1,
    pub privacy: MediaPrivacyV1,
    pub integrity_tier: IntegrityTier,
    pub settlement_method: String,
    pub created_at: String,
    pub signature: Option<String>,
}

/// What a requester asks for when creating a media job.
#[derive(Debug, Clone)]
pub struct MediaJobInitOptionsV1 {
    pub requester: String,
    pub task: MediaTask,
    pub package_ref: Option<String>,
    pub package_id: Option<String>,
    pub package_version: Option<String>,
    pub service_ref: Option<String>,
    pub model_alias: Option<String>,
    pub prompt: Option<String>,
    pub text: Option<String>,
    pub input_ref: Option<String>,
    pub mask_ref: Option<String>,
    pub response_format: Option<String>,
    pub output_ref: Option<String>,
    pub count: Option<u32>,
    pub size: Option<String>,
    pub quality: Option<String>,
    pub style: Option<String>,
    pub voice: Option<String>,
    pub audio_format: Option<String>,
    pub privacy_tier: Option<PrivacyTier>,
    pub integrity_tier: Option<IntegrityTier>,
    pub settlement_method: Option<String>,
}

/// What the verification of a media job found.
#[derive(Debug, Clone)]
pub struct MediaJobVerificationV1 {
    pub schema_version: String,
    pub media_job_id: String,
    pub valid: bool,
    pub issues: Vec<MarketplaceVerificationIssueV1>,
    pub warnings: Vec<MarketplaceVerificationIssueV1>,
    pub expected_signature: Option<String>,
    pub verified_at: String,
}

/// How a media job is to be executed.
#[derive(Debug, Clone)]
pub struct MediaExecutionPlanV1 {
    pub schema_version: String,
    pub media_job_id: String,
    pub api_surface: ApiSurface,
    pub task: MediaTask,
    pub modalities_in: Vec<Modality>,
    pub modalities_out: Vec<Modality>,
    pub immutable_refs: Vec<String>,
    pub mutable_refs: Vec<String>,
    pub response_format: String,
    pub privacy_tier: PrivacyTier,
    pub integrity_tier: IntegrityTier,
    pub settlement_method: String,
    pub allowed_event_types: Vec<StreamingEventType>,
    pub valid: bool,
    pub issues: Vec<MarketplaceVerificationIssueV1>,
    pub warnings: Vec<MarketplaceVerificationIssueV1>,
    pub generated_at: String,
}

// ---------------------------------------------------------------------------
// References

/// `s` contains `p` somewhere.
pub open spec fn has_infix(s: Seq<char>, p: Seq<char>) -> bool {
    exists|i: int| 0 <= i && i + p.len() <= s.len() && #[trigger] s.subrange(i, i + p.len()) == p
}

/// `str::contains` with a text pattern.
pub fn contains_str(s: &str, p: &str) -> (r: bool)
    ensures
        r == has_infix(s@, p@),
{
    let n = s.unicode_len();
    let m = p.unicode_len();
    if m > n {
        proof {
            assert forall|i: int| 0 <= i && i + p@.len() <= s@.len() implies #[trigger] s@.subrange(i, i + p@.len()) != p@ by {}
        }
        return false;
    }
    let mut i: usize = 0;
    while i <= n - m
        invariant
            n == s@.len(),
            m == p@.len(),
            m <= n,
            i <= n - m + 1,
            forall|k: int| 0 <= k < i ==> #[trigger] s@.subrange(k, k + m) != p@,
        decreases n - m + 1 - i,
    {
        let mut j: usize = 0;
        let mut same = true;
        while j < m
            invariant
                n == s@.len(),
                m == p@.len(),
                i + m <= n,
                j <= m,
                same == (forall|t: int| 0 <= t < j ==> s@[i + t] == p@[t]),
            decreases m - j,
        {
            if s.get_char(i + j) != p.get_char(j) {
                same = false;
            }
            j = j + 1;
        }
        if same {
            assert(s@.subrange(i as int, i + m) =~= p@);
            return true;
        }
        assert(s@.subrange(i as int, i + m) != p@) by {
            let t = choose|t: int| 0 <= t < m && s@[i + t] != p@[t];
            assert(s@.subrange(i as int, i + m)[t] == s@[i + t]);
        }
        i = i + 1;
    }
    proof {
        assert forall|k: int| 0 <= k && k + p@.len() <= s@.len() implies #[trigger] s@.subrange(k, k + p@.len()) != p@ by {
            assert(k < i);
        }
    }
    false
}

/// A reference the media layer recognises: `bzz://`, `local://`, `ipfs://`,
/// `sha256://` or `https://`.
pub open spec fn media_ref(s: Seq<char>) -> bool {
    ||| has_prefix(s, "bzz://"@)
    ||| has_prefix(s, "local://"@)
    ||| has_prefix(s, "ipfs://"@)
    ||| has_prefix(s, "sha256://"@)
    ||| has_prefix(s, "https://"@)
}

/// A reference whose content may change: web references, and references
/// naming a `latest` or `stable` tag or path.
pub open spec fn mutable_ref(s: Seq<char>) -> bool {
    ||| has_prefix(s, "https://"@)
    ||| has_infix(s, ":latest"@)
    ||| has_infix(s, "/latest"@)
    ||| has_infix(s, ":stable"@)
    ||| has_infix(s, "/stable"@)
}

/// Whether a reference has one of the schemes the media layer recognises.
pub fn looks_like_ref(reference: &str) -> (r: bool)
    ensures
        r == media_ref(reference@),
{
    starts_with(reference, "bzz://") || starts_with(reference, "local://") || starts_with(
        reference,
        "ipfs://",
    ) || starts_with(reference, "sha256://") || starts_with(reference, "https://")
}

/// Whether a reference's content may change.
pub fn looks_mutable_ref(reference: &str) -> (r: bool)
    ensures
        r == mutable_ref(reference@),
{
    starts_with(reference, "https://") || contains_str(reference, ":latest") || contains_str(
        reference,
        "/latest",
    ) || contains_str(reference, ":stable") || contains_str(reference, "/stable")
}

/// An optional text that is absent or blank.
pub open spec fn empty_text(o: Option<Seq<char>>) -> bool {
    match o {
        Some(t) => blank(t),
        None => true,
    }
}

/// Whether an optional text is absent or blank.
pub fn empty_option(value: &Option<String>) -> (r: bool)
    ensures
        r == empty_text(opt_view(*value)),
{
    match value {
        Some(t) => is_blank(t.as_str()),
        None => true,
    }
}

/// The references a media job names, with their paths, in order: package,
/// service, input, mask and output.
pub open spec fn job_refs(job: MediaJobV1) -> Seq<(Seq<char>, Seq<char>)> {
    let r = seq![];
    let r = match opt_view(job.package_selector.package_ref) {
        Some(x) => r.push(("$.packageSelector.packageRef"@, x)),
        None => r,
    };
    let r = match opt_view(job.package_selector.service_ref) {
        Some(x) => r.push(("$.packageSelector.serviceRef"@, x)),
        None => r,
    };
    let r = match opt_view(job.input.input_ref) {
        Some(x) => r.push(("$.input.inputRef"@, x)),
        None => r,
    };
    let r = match opt_view(job.input.mask_ref) {
        Some(x) => r.push(("$.input.maskRef"@, x)),
        None => r,
    };
    match opt_view(job.output_policy.output_ref) {
        Some(x) => r.push(("$.outputPolicy.outputRef"@, x)),
        None => r,
    }
}

pub open spec fn pairs_view(v: Seq<(String, String)>) -> Seq<(Seq<char>, Seq<char>)> {
    v.map_values(|p: (String, String)| (p.0@, p.1@))
}

fn push_pair(v: &mut Vec<(String, String)>, path: &str, reference: &String)
    ensures
        pairs_view(final(v)@) == pairs_view(old(v)@).push((path@, reference@)),
{
    let ghost before = pairs_view(v@);
    v.push((String::from_str(path), reference.clone()));
    assert(pairs_view(v@) =~= before.push((path@, reference@)));
}

/// The references of a media job, each with its path.
pub fn media_refs(job: &MediaJobV1) -> (r: Vec<(String, String)>)
    ensures
        pairs_view(r@) == job_refs(*job),
{
    let mut r: Vec<(String, String)> = Vec::new();
    assert(pairs_view(r@) =~= Seq::<(Seq<char>, Seq<char>)>::empty());
    match &job.package_selector.package_ref {
        Some(x) => push_pair(&mut r, "$.packageSelector.packageRef", x),
        None => {},
    }
    match &job.package_selector.service_ref {
        Some(x) => push_pair(&mut r, "$.packageSelector.serviceRef", x),
        None => {},
    }
    match &job.input.input_ref {
        Some(x) => push_pair(&mut r, "$.input.inputRef", x),
        None => {},
    }
    match &job.input.mask_ref {
        Some(x) => push_pair(&mut r, "$.input.maskRef", x),
        None => {},
    }
    match &job.output_policy.output_ref {
        Some(x) => push_pair(&mut r, "$.outputPolicy.outputRef", x),
        None => {},
    }
    r
}

// ---------------------------------------------------------------------------
// Media job rules

/// The rule on one reference: blank is an issue; an unrecognised scheme, or
/// a reference whose content may change, a warning.
pub open spec fn ref_report(r: Report, path: Seq<char>, reference: Seq<char>) -> Report {
    if blank(reference) {
        r.issue_if(true, path, "Reference must not be empty"@)
    } else if !media_ref(reference) {
        r.warn_if(
            true,
            path,
            "Reference is not a recognized bzz://, local://, ipfs://, sha256://, or https:// reference"@,
        )
    } else {
        r.warn_if(
            mutable_ref(reference),
            path,
            "Mutable reference should be resolved to immutable content before exact replay"@,
        )
    }
}

/// The reference rule applied to the first `n` references.
pub open spec fn refs_report(r: Report, refs: Seq<(Seq<char>, Seq<char>)>, n: nat) -> Report
    decreases n,
{
    if n == 0 {
        r
    } else {
        ref_report(refs_report(r, refs, (n - 1) as nat), refs[n - 1].0, refs[n - 1].1)
    }
}

/// Applies the reference rule to one reference.
pub fn validate_ref(path: &str, reference: &str, f: &mut Findings)
    ensures
        final(f)@ == ref_report(old(f)@, path@, reference@),
{
    if is_blank(reference) {
        f.issue_if(true, path, "Reference must not be empty");
    } else if !looks_like_ref(reference) {
        f.warn_if(
            true,
            path,
            "Reference is not a recognized bzz://, local://, ipfs://, sha256://, or https:// reference",
        );
    } else {
        f.warn_if(
            looks_mutable_ref(reference),
            path,
            "Mutable reference should be resolved to immutable content before exact replay",
        );
    }
}

/// The package selector rules.
pub open spec fn selector_report(r: Report, s: MediaPackageSelectorV1) -> Report {
    let r = r.issue_if(
        s.package_ref is None && s.service_ref is None && s.package_id is None && s.model_alias is None,
        "$.packageSelector"@,
        "Media job must include a packageRef, serviceRef, packageId, or modelAlias"@,
    );
    let r = match opt_view(s.package_ref) {
        Some(x) => ref_report(r, "$.packageSelector.packageRef"@, x),
        None => r,
    };
    match opt_view(s.service_ref) {
        Some(x) => ref_report(r, "$.packageSelector.serviceRef"@, x),
        None => r,
    }
}

/// Applies the package selector rules.
pub fn validate_package_selector(selector: &MediaPackageSelectorV1, f: &mut Findings)
    ensures
        final(f)@ == selector_report(old(f)@, *selector),
{
    f.issue_if(
        selector.package_ref.is_none() && selector.service_ref.is_none() && selector.package_id.is_none()
            && selector.model_alias.is_none(),
        "$.packageSelector",
        "Media job must include a packageRef, serviceRef, packageId, or modelAlias",
    );
    match &selector.package_ref {
        Some(x) => validate_ref("$.packageSelector.packageRef", x.as_str(), f),
        None => {},
    }
    match &selector.service_ref {
        Some(x) => validate_ref("$.packageSelector.serviceRef", x.as_str(), f),
        None => {},
    }
}

/// The task input rules: what each task requires, then every reference.
pub open spec fn task_input_report(r: Report, job: MediaJobV1) -> Report {
    let i = job.input;
    let r = match job.task {
        MediaTask::ImageGeneration => r.issue_if(
            empty_text(opt_view(i.prompt)),
            "$.input.prompt"@,
            "Image generation requires a prompt"@,
        ),
        MediaTask::ImageEdit => {
            let r = r.issue_if(
                empty_text(opt_view(i.prompt)),
                "$.input.prompt"@,
                "Image edit requires a prompt"@,
            );
            r.issue_if(
                empty_text(opt_view(i.input_ref)),
                "$.input.inputRef"@,
                "Image edit requires an inputRef"@,
            )
        },
        MediaTask::AudioTranscription => r.issue_if(
            empty_text(opt_view(i.input_ref)),
            "$.input.inputRef"@,
            "Audio transcription requires an inputRef"@,
        ),
        MediaTask::TextToSpeech => r.issue_if(
            empty_text(opt_view(i.text)),
            "$.input.text"@,
            "Text-to-speech requires text"@,
        ),
    };
    refs_report(r, job_refs(job), job_refs(job).len())
}

/// Applies the task input rules.
pub fn validate_task_input(job: &MediaJobV1, f: &mut Findings)
    ensures
        final(f)@ == task_input_report(old(f)@, *job),
{
    let i = &job.input;
    match job.task {
        MediaTask::ImageGeneration => f.issue_if(
            empty_option(&i.prompt),
            "$.input.prompt",
            "Image generation requires a prompt",
        ),
        MediaTask::ImageEdit => {
            f.issue_if(empty_option(&i.prompt), "$.input.prompt", "Image edit requires a prompt");
            f.issue_if(
                empty_option(&i.input_ref),
                "$.input.inputRef",
                "Image edit requires an inputRef",
            );
        },
        MediaTask::AudioTranscription => f.issue_if(
            empty_option(&i.input_ref),
            "$.input.inputRef",
            "Audio transcription requires an inputRef",
        ),
        MediaTask::TextToSpeech => f.issue_if(
            empty_option(&i.text),
            "$.input.text",
            "Text-to-speech requires text",
        ),
    }
    let refs = media_refs(job);
    let ghost start = f@;
    let mut k: usize = 0;
    while k < refs.len()
        invariant
            k <= refs.len(),
            pairs_view(refs@) == job_refs(*job),
            f@ == refs_report(start, job_refs(*job), k as nat),
        decreases refs.len() - k,
    {
        validate_ref(refs[k].0.as_str(), refs[k].1.as_str(), f);
        k = k + 1;
    }
}

/// A response format that returns a reference.
pub open spec fn ref_style(format: Seq<char>) -> bool {
    format == "ref"@ || format == "audio_ref"@ || format == "url"@
}

/// The output policy rules.
pub open spec fn output_policy_report(r: Report, p: MediaOutputPolicyV1) -> Report {
    let r = r.issue_if(
        p.count == 0 || p.count > 16,
        "$.outputPolicy.count"@,
        "count must be between 1 and 16"@,
    );
    let r = r.issue_if(
        blank(p.response_format@),
        "$.outputPolicy.responseFormat"@,
        "responseFormat is required"@,
    );
    let r = r.warn_if(
        p.output_ref is None && ref_style(p.response_format@),
        "$.outputPolicy.outputRef"@,
        "Reference-style media responses should include an outputRef once execution runs"@,
    );
    match opt_view(p.output_ref) {
        Some(x) => ref_report(r, "$.outputPolicy.outputRef"@, x),
        None => r,
    }
}

/// Applies the output policy rules.
pub fn validate_output_policy(policy: &MediaOutputPolicyV1, f: &mut Findings)
    ensures
        final(f)@ == output_policy_report(old(f)@, *policy),
{
    f.issue_if(
        policy.count == 0 || policy.count > 16,
        "$.outputPolicy.count",
        "count must be between 1 and 16",
    );
    f.required(
        policy.response_format.as_str(),
        "$.outputPolicy.responseFormat",
        "responseFormat is required",
    );
    let rf = policy.response_format.as_str();
    let styled = text_eq(rf, "ref") || text_eq(rf, "audio_ref") || text_eq(rf, "url");
    f.warn_if(
        policy.output_ref.is_none() && styled,
        "$.outputPolicy.outputRef",
        "Reference-style media responses should include an outputRef once execution runs",
    );
    match &policy.output_ref {
        Some(x) => validate_ref("$.outputPolicy.outputRef", x.as_str(), f),
        None => {},
    }
}

/// The findings of the media job rules, in the order they are applied.
pub open spec fn media_job_report(job: MediaJobV1, c: SignedContent) -> Report {
    let r = Report::empty().issue_if(
        job.schema_version@ != MEDIA_JOB_SCHEMA_VERSION@,
        "$.schemaVersion"@,
        "Expected schemaVersion to be swarm-ai.media-job.v1"@,
    );
    let r = r.issue_if(blank(job.media_job_id@), "$.mediaJobId"@, "Value is required"@);
    let r = r.issue_if(
        job.media_job_id@.len() > 0 && job.media_job_id@ != c.canonical_id@,
        "$.mediaJobId"@,
        "Media job id does not match canonical signed content"@,
    );
    let r = r.issue_if(blank(job.requester@), "$.requester"@, "Value is required"@);
    let r = selector_report(r, job.package_selector);
    let r = task_input_report(r, job);
    let r = output_policy_report(r, job.output_policy);
    let r = r.issue_if(blank(job.settlement_method@), "$.settlementMethod"@, "Value is required"@);
    let r = r.issue_if(
        rfc3339_instant(job.created_at@) is None,
        "$.createdAt"@,
        "createdAt must be an RFC3339 timestamp"@,
    );
    r.signature(
        opt_view(job.signature),
        c.dev_signature@,
        identity_view(c.identity_check),
        "Media job signature does not match canonical dev signature or Ed25519 requester identity envelope"@,
        "Media job is unsigned; verify requester and mediaJobId through a trusted source"@,
    )
}

/// Checks a media job against the media job rules. `content` carries the
/// canonical id and development signature of the job's signing value and,
/// for an identity-enveloped signature, the envelope check (signed by the
/// requester); `verified_at` is the time of the check.
pub fn verify_media_job(job: &MediaJobV1, content: &SignedContent, verified_at: String) -> (r:
    MediaJobVerificationV1)
    ensures
        r.schema_version@ == MEDIA_JOB_VERIFICATION_SCHEMA_VERSION@,
        r.media_job_id@ == job.media_job_id@,
        issues_view(r.issues@) == media_job_report(*job, *content).issues,
        issues_view(r.warnings@) == media_job_report(*job, *content).warnings,
        r.valid == media_job_report(*job, *content).valid(),
        r.expected_signature matches Some(e) && e@ == expected_signature(
            opt_view(job.signature),
            content.dev_signature@,
            identity_view(content.identity_check),
        ),
        r.verified_at@ == verified_at@,
{
    let mut f = Findings::new();
    f.issue_if(
        !text_eq(job.schema_version.as_str(), MEDIA_JOB_SCHEMA_VERSION),
        "$.schemaVersion",
        "Expected schemaVersion to be swarm-ai.media-job.v1",
    );
    f.required(job.media_job_id.as_str(), "$.mediaJobId", "Value is required");
    f.issue_if(
        job.media_job_id.unicode_len() > 0 && !text_eq(job.media_job_id.as_str(), content.canonical_id.as_str()),
        "$.mediaJobId",
        "Media job id does not match canonical signed content",
    );
    f.required(job.requester.as_str(), "$.requester", "Value is required");
    validate_package_selector(&job.package_selector, &mut f);
    validate_task_input(job, &mut f);
    validate_output_policy(&job.output_policy, &mut f);
    f.required(job.settlement_method.as_str(), "$.settlementMethod", "Value is required");
    f.issue_if(
        parse_rfc3339(job.created_at.as_str()).is_none(),
        "$.createdAt",
        "createdAt must be an RFC3339 timestamp",
    );
    let expected = f.signature(
        &job.signature,
        content,
        "Media job signature does not match canonical dev signature or Ed25519 requester identity envelope",
        "Media job is unsigned; verify requester and mediaJobId through a trusted source",
    );
    let valid = f.is_valid();
    MediaJobVerificationV1 {
        schema_version: String::from_str(MEDIA_JOB_VERIFICATION_SCHEMA_VERSION),
        media_job_id: job.media_job_id.clone(),
        valid,
        issues: f.issues,
        warnings: f.warnings,
        expected_signature: Some(expected),
        verified_at,
    }
}

// ---------------------------------------------------------------------------
// Execution plan

/// The first occurrence of each text among the first `n`, in order.
pub open spec fn dedup_upto(s: Seq<Seq<char>>, n: nat) -> Seq<Seq<char>>
    decreases n,
{
    if n == 0 {
        seq![]
    } else {
        let d = dedup_upto(s, (n - 1) as nat);
        if d.contains(s[n - 1]) {
            d
        } else {
            d.push(s[n - 1])
        }
    }
}

/// The first occurrence of each text, in order.
pub open spec fn dedup_texts(s: Seq<Seq<char>>) -> Seq<Seq<char>> {
    dedup_upto(s, s.len())
}

/// Keeps the first occurrence of each text, in order.
pub fn dedup(values: &mut Vec<String>)
    ensures
        final(values).deep_view() == dedup_texts(old(values).deep_view()),
{
    let ghost s = values.deep_view();
    let mut out: Vec<String> = Vec::new();
    let mut i: usize = 0;
    while i < values.len()
        invariant
            i <= values.len(),
            values.deep_view() == s,
            out.deep_view() == dedup_upto(s, i as nat),
        decreases values.len() - i,
    {
        let mut present = false;
        let mut j: usize = 0;
        while j < out.len()
            invariant
                j <= out.len(),
                present == (exists|k: int| 0 <= k < j && out.deep_view()[k] == s[i as int]),
                values.deep_view() == s,
                i < values.len(),
            decreases out.len() - j,
        {
            assert(out.deep_view()[j as int] == out@[j as int]@);
            assert(values.deep_view()[i as int] == values@[i as int]@);
            if text_eq(out[j].as_str(), values[i].as_str()) {
                present = true;
            }
            proof {
                if !present {
                    assert forall|k: int| 0 <= k < j + 1 implies out.deep_view()[k] != s[i as int] by {
                        if k < j {
                            assert(!(0 <= k < j && out.deep_view()[k] == s[i as int]));
                        }
                    }
                }
            }
            j = j + 1;
        }
        if !present {
            let ghost before = out.deep_view();
            out.push(values[i].clone());
            assert(out.deep_view() =~= before.push(s[i as int]));
        }
        i = i + 1;
    }
    *values = out;
}

/// Keeping first occurrences lists each text once, and lists exactly the
/// texts of the input.
pub proof fn lemma_dedup_texts(s: Seq<Seq<char>>)
    ensures
        forall|i: int, j: int|
            0 <= i < j < dedup_texts(s).len() ==> dedup_texts(s)[i] != dedup_texts(s)[j],
        forall|x: Seq<char>| dedup_texts(s).contains(x) <==> s.contains(x),
{
    lemma_dedup_upto(s, s.len());
    assert(s.subrange(0, s.len() as int) =~= s);
}

proof fn lemma_dedup_upto(s: Seq<Seq<char>>, n: nat)
    requires
        n <= s.len(),
    ensures
        forall|i: int, j: int|
            0 <= i < j < dedup_upto(s, n).len() ==> dedup_upto(s, n)[i] != dedup_upto(s, n)[j],
        forall|x: Seq<char>| dedup_upto(s, n).contains(x) <==> s.subrange(0, n as int).contains(x),
    decreases n,
{
    if n > 0 {
        let m = (n - 1) as nat;
        lemma_dedup_upto(s, m);
        let d = dedup_upto(s, m);
        let pre = s.subrange(0, m as int);
        let post = s.subrange(0, n as int);
        assert(post =~= pre.push(s[m as int]));
        if !d.contains(s[m as int]) {
            let e = d.push(s[m as int]);
            assert forall|i: int, j: int| 0 <= i < j < e.len() implies e[i] != e[j] by {
                if j == d.len() {
                    assert(d.contains(d[i]));
                }
            }
        }
        assert forall|x: Seq<char>| dedup_upto(s, n).contains(x) <==> post.contains(x) by {
            if post.contains(x) {
                let k = choose|k: int| 0 <= k < post.len() && post[k] == x;
                if k < m {
                    assert(pre[k] == x);
                    assert(pre.contains(x));
                    assert(d.contains(x));
                    let j = choose|j: int| 0 <= j < d.len() && d[j] == x;
                    assert(dedup_upto(s, n)[j] == x);
                } else if d.contains(x) {
                    let j = choose|j: int| 0 <= j < d.len() && d[j] == x;
                    assert(dedup_upto(s, n)[j] == x);
                } else {
                    assert(dedup_upto(s, n)[d.len() as int] == x);
                }
            }
            if dedup_upto(s, n).contains(x) {
                let j = choose|j: int| 0 <= j < dedup_upto(s, n).len() && dedup_upto(s, n)[j] == x;
                if j < d.len() {
                    assert(d[j] == x);
                    assert(d.contains(x));
                    assert(pre.contains(x));
                    let k = choose|k: int| 0 <= k < pre.len() && pre[k] == x;
                    assert(post[k] == x);
                } else {
                    assert(post[m as int] == x);
                }
            }
        }
    }
}

/// The modalities a task takes in.
pub open spec fn modalities_in(task: MediaTask) -> Seq<Modality> {
    match task {
        MediaTask::ImageGeneration => seq![Modality::Text],
        MediaTask::ImageEdit => seq![Modality::Text, Modality::Image],
        MediaTask::AudioTranscription => seq![Modality::Audio],
        MediaTask::TextToSpeech => seq![Modality::Text],
    }
}

/// The modalities a task puts out.
pub open spec fn modalities_out(task: MediaTask) -> Seq<Modality> {
    match task {
        MediaTask::ImageGeneration | MediaTask::ImageEdit => seq![Modality::Image],
        MediaTask::AudioTranscription => seq![Modality::Text],
        MediaTask::TextToSpeech => seq![Modality::Audio],
    }
}

pub fn modalities_in_for_task(job: &MediaJobV1) -> (r: Vec<Modality>)
    ensures
        r@ == modalities_in(job.task),
{
    let r = match job.task {
        MediaTask::ImageGeneration => vec![Modality::Text],
        MediaTask::ImageEdit => vec![Modality::Text, Modality::Image],
        MediaTask::AudioTranscription => vec![Modality::Audio],
        MediaTask::TextToSpeech => vec![Modality::Text],
    };
    assert(r@ =~= modalities_in(job.task));
    r
}

pub fn modalities_out_for_task(job: &MediaJobV1) -> (r: Vec<Modality>)
    ensures
        r@ == modalities_out(job.task),
{
    let r = match job.task {
        MediaTask::ImageGeneration | MediaTask::ImageEdit => vec![Modality::Image],
        MediaTask::AudioTranscription => vec![Modality::Text],
        MediaTask::TextToSpeech => vec![Modality::Audio],
    };
    assert(r@ =~= modalities_out(job.task));
    r
}

/// The events a task may stream: the lifecycle events, and the progress
/// event of its kind of output.
pub open spec fn event_types(task: MediaTask) -> Seq<StreamingEventType> {
    let base = seq![
        StreamingEventType::Started,
        StreamingEventType::LogEvent,
        StreamingEventType::PartialReceipt,
        StreamingEventType::Completed,
        StreamingEventType::Error,
        StreamingEventType::Cancelled,
    ];
    match task {
        MediaTask::ImageGeneration | MediaTask::ImageEdit => base.push(StreamingEventType::ImageProgress),
        MediaTask::AudioTranscription => base.push(StreamingEventType::TextDelta),
        MediaTask::TextToSpeech => base.push(StreamingEventType::AudioChunk),
    }
}

pub fn allowed_event_types(task: MediaTask) -> (r: Vec<StreamingEventType>)
    ensures
        r@ == event_types(task),
{
    let mut events = vec![
        StreamingEventType::Started,
        StreamingEventType::LogEvent,
        StreamingEventType::PartialReceipt,
        StreamingEventType::Completed,
        StreamingEventType::Error,
        StreamingEventType::Cancelled,
    ];
    match task {
        MediaTask::ImageGeneration | MediaTask::ImageEdit => events.push(StreamingEventType::ImageProgress),
        MediaTask::AudioTranscription => events.push(StreamingEventType::TextDelta),
        MediaTask::TextToSpeech => events.push(StreamingEventType::AudioChunk),
    }
    assert(events@ =~= event_types(task));
    events
}

/// The references of a job that may change, or that may not, in order.
pub open spec fn refs_where(refs: Seq<(Seq<char>, Seq<char>)>, mutable: bool) -> Seq<Seq<char>> {
    refs.map_values(|p: (Seq<char>, Seq<char>)| p.1).filter(|x: Seq<char>| mutable_ref(x) == mutable)
}

/// Plans the execution of a media job: its surface, task and modalities, its
/// references split into immutable and mutable (each listed once, in order),
/// its output, privacy, integrity and settlement terms, the events it may
/// stream, and the outcome of its verification (with `content`, at `now`).
pub fn media_execution_plan(job: &MediaJobV1, content: &SignedContent, now: String) -> (r:
    MediaExecutionPlanV1)
    ensures
        r.schema_version@ == MEDIA_EXECUTION_PLAN_SCHEMA_VERSION@,
        r.media_job_id@ == job.media_job_id@,
        r.api_surface == job.api_surface,
        r.task == job.task,
        r.modalities_in@ == modalities_in(job.task),
        r.modalities_out@ == modalities_out(job.task),
        r.immutable_refs.deep_view() == dedup_texts(refs_where(job_refs(*job), false)),
        r.mutable_refs.deep_view() == dedup_texts(refs_where(job_refs(*job), true)),
        r.response_format@ == job.output_policy.response_format@,
        r.privacy_tier == job.privacy.privacy_tier,
        r.integrity_tier == job.integrity_tier,
        r.settlement_method@ == job.settlement_method@,
        r.allowed_event_types@ == event_types(job.task),
        r.valid == media_job_report(*job, *content).valid(),
        issues_view(r.issues@) == media_job_report(*job, *content).issues,
        issues_view(r.warnings@) == media_job_report(*job, *content).warnings,
        r.generated_at@ == now@,
{
    let verification = verify_media_job(job, content, now.clone());
    let refs = media_refs(job);
    let ghost all = job_refs(*job);
    let ghost texts = all.map_values(|p: (Seq<char>, Seq<char>)| p.1);
    let mut immutable: Vec<String> = Vec::new();
    let mut mutable: Vec<String> = Vec::new();
    let mut k: usize = 0;
    while k < refs.len()
        invariant
            k <= refs.len(),
            pairs_view(refs@) == all,
            texts == all.map_values(|p: (Seq<char>, Seq<char>)| p.1),
            immutable.deep_view() == texts.subrange(0, k as int).filter(|x: Seq<char>| mutable_ref(x) == false),
            mutable.deep_view() == texts.subrange(0, k as int).filter(|x: Seq<char>| mutable_ref(x) == true),
        decreases refs.len() - k,
    {
        let x = &refs[k].1;
        assert(texts[k as int] == x@);
        assert(texts.subrange(0, k + 1) =~= texts.subrange(0, k as int).push(x@));
        proof {
            texts.subrange(0, k as int).lemma_filter_push(x@, |x: Seq<char>| mutable_ref(x) == false);
            texts.subrange(0, k as int).lemma_filter_push(x@, |x: Seq<char>| mutable_ref(x) == true);
        }
        if looks_mutable_ref(x.as_str()) {
            let ghost before = mutable.deep_view();
            mutable.push(x.clone());
            assert(mutable.deep_view() =~= before.push(x@));
        } else {
            let ghost before = immutable.deep_view();
            immutable.push(x.clone());
            assert(immutable.deep_view() =~= before.push(x@));
        }
        k = k + 1;
    }
    assert(texts.subrange(0, k as int) =~= texts);
    dedup(&mut immutable);
    dedup(&mut mutable);
    MediaExecutionPlanV1 {
        schema_version: String::from_str(MEDIA_EXECUTION_PLAN_SCHEMA_VERSION),
        media_job_id: job.media_job_id.clone(),
        api_surface: job.api_surface,
        task: job.task,
        modalities_in: modalities_in_for_task(job),
        modalities_out: modalities_out_for_task(job),
        immutable_refs: immutable,
        mutable_refs: mutable,
        response_format: job.output_policy.response_format.clone(),
        privacy_tier: job.privacy.privacy_tier,
        integrity_tier: job.integrity_tier,
        settlement_method: job.settlement_method.clone(),
        allowed_event_types: allowed_event_types(job.task),
        valid: verification.valid,
        issues: verification.issues,
        warnings: verification.warnings,
        generated_at: now,
    }
}

// ---------------------------------------------------------------------------
// Creating a media job

/// The API surface a task is served on: images for image tasks, audio for
/// audio tasks.
pub open spec fn surface_for(task: MediaTask) -> ApiSurface {
    match task {
        MediaTask::ImageGeneration | MediaTask::ImageEdit => ApiSurface::OpenAiImages,
        MediaTask::AudioTranscription | MediaTask::TextToSpeech => ApiSurface::OpenAiAudio,
    }
}

/// Creates a media job from a requester's options at `created_at`: a
/// reference response by default, at least one output, no-log privacy,
/// receipt-only integrity and free local settlement unless asked otherwise.
/// The job is returned unsigned, with an empty id.
pub fn create_media_job(options: MediaJobInitOptionsV1, created_at: String) -> (r: MediaJobV1)
    ensures
        r.schema_version@ == MEDIA_JOB_SCHEMA_VERSION@,
        r.media_job_id@ == Seq::<char>::empty(),
        r.requester@ == options.requester@,
        r.task == options.task,
        r.api_surface == surface_for(options.task),
        opt_view(r.package_selector.package_ref) == opt_view(options.package_ref),
        opt_view(r.package_selector.package_id) == opt_view(options.package_id),
        opt_view(r.package_selector.package_version) == opt_view(options.package_version),
        opt_view(r.package_selector.service_ref) == opt_view(options.service_ref),
        opt_view(r.package_selector.model_alias) == opt_view(options.model_alias),
        opt_view(r.input.prompt) == opt_view(options.prompt),
        opt_view(r.input.text) == opt_view(options.text),
        opt_view(r.input.input_ref) == opt_view(options.input_ref),
        opt_view(r.input.mask_ref) == opt_view(options.mask_ref),
        r.output_policy.response_format@ == match options.response_format {
            Some(f) => f@,
            None => "ref"@,
        },
        opt_view(r.output_policy.output_ref) == opt_view(options.output_ref),
        r.output_policy.count == match options.count {
            Some(c) => if c == 0 {
                1u32
            } else {
                c
            },
            None => 1u32,
        },
        opt_view(r.output_policy.size) == opt_view(options.size),
        opt_view(r.output_policy.quality) == opt_view(options.quality),
        opt_view(r.output_policy.style) == opt_view(options.style),
        opt_view(r.output_policy.voice) == opt_view(options.voice),
        opt_view(r.output_policy.audio_format) == opt_view(options.audio_format),
        r.privacy.privacy_tier == match options.privacy_tier {
            Some(t) => t,
            None => PrivacyTier::NoLog,
        },
        r.integrity_tier == match options.integrity_tier {
            Some(t) => t,
            None => IntegrityTier::ReceiptOnly,
        },
        r.settlement_method@ == match options.settlement_method {
            Some(m) => m@,
            None => "free-local-dev"@,
        },
        r.created_at@ == created_at@,
        r.signature is None,
{
    let api_surface = match options.task {
        MediaTask::ImageGeneration | MediaTask::ImageEdit => ApiSurface::OpenAiImages,
        MediaTask::AudioTranscription | MediaTask::TextToSpeech => ApiSurface::OpenAiAudio,
    };
    let response_format = match options.response_format {
        Some(f) => f,
        None => String::from_str("ref"),
    };
    let count = match options.count {
        Some(c) => if c == 0 {
            1
        } else {
            c
        },
        None => 1,
    };
    let privacy_tier = match options.privacy_tier {
        Some(t) => t,
        None => MediaPrivacyV1::default().privacy_tier,
    };
    let integrity_tier = match options.integrity_tier {
        Some(t) => t,
        None => IntegrityTier::ReceiptOnly,
    };
    let settlement_method = match options.settlement_method {
        Some(m) => m,
        None => String::from_str("free-local-dev"),
    };
    MediaJobV1 {
        schema_version: String::from_str(MEDIA_JOB_SCHEMA_VERSION),
        media_job_id: String::new(),
        requester: options.requester,
        task: options.task,
        api_surface,
        package_selector: MediaPackageSelectorV1 {
            package_ref: options.package_ref,
            package_id: options.package_id,
            package_version: options.package_version,
            service_ref: options.service_ref,
            model_alias: options.model_alias,
        },
        input: MediaInputV1 {
            prompt: options.prompt,
            text: options.text,
            input_ref: options.input_ref,
            mask_ref: options.mask_ref,
        },
        output_policy: MediaOutputPolicyV1 {
            response_format,
            output_ref: options.output_ref,
            count,
            size: options.size,
            quality: options.quality,
            style: options.style,
            voice: options.voice,
            audio_format: options.audio_format,
        },
        privacy: MediaPrivacyV1 { privacy_tier },
        integrity_tier,
        settlement_method,
        created_at,
        signature: None,
    }
}

// ---------------------------------------------------------------------------
// Job files

/// ASCII case folding, `char::to_ascii_lowercase`.
pub open spec fn ascii_lower(c: char) -> char {
    if 'A' <= c <= 'Z' {
        ((c as u32) + 32) as char
    } else {
        c
    }
}

/// `Path::extension` of a file name: the text after its last `.`, unless
/// the only `.` opens the name.
pub open spec fn extension(name: Seq<char>) -> Option<Seq<char>> {
    if exists|k: int| 0 < k < name.len() && name[k] == '.' {
        let k = choose|k: int|
            0 < k < name.len() && name[k] == '.' && forall|j: int| k < j < name.len() ==> name[j] != '.';
        Some(name.subrange(k + 1, name.len() as int))
    } else {
        None
    }
}

/// A file name whose extension is `json` in any letter case.
pub open spec fn json_name(name: Seq<char>) -> bool {
    extension(name) matches Some(e) && e.len() == 4 && ascii_lower(e[0]) == 'j' && ascii_lower(e[1])
        == 's' && ascii_lower(e[2]) == 'o' && ascii_lower(e[3]) == 'n'
}

fn lower(c: char) -> (r: char)
    ensures
        r == ascii_lower(c),
{
    if 'A' <= c && c <= 'Z' {
        let u = (c as u32) + 32;
        assert(u <= 0x7A);
        char_from_ascii(u)
    } else {
        c
    }
}

fn char_from_ascii(u: u32) -> (r: char)
    requires
        u < 0x80,
    ensures
        r == u as char,
{
    let b = u as u8;
    let r = b as char;
    assert(r == u as char) by {
        assert(b == u);
    }
    r
}

/// Whether a file name (the last component of a job file's path) has the
/// `json` extension, in any letter case.
pub fn is_json_path(file_name: &str) -> (r: bool)
    ensures
        r == json_name(file_name@),
{
    let n = file_name.unicode_len();
    let mut k: usize = n;
    while k > 0 && file_name.get_char(k - 1) != '.'
        invariant
            n == file_name@.len(),
            k <= n,
            forall|j: int| k <= j < n ==> file_name@[j] != '.',
        decreases k,
    {
        k = k - 1;
    }
    if k <= 1 {
        proof {
            assert(!(exists|m: int| 0 < m < file_name@.len() && file_name@[m] == '.')) by {
                if exists|m: int| 0 < m < file_name@.len() && file_name@[m] == '.' {
                    let m = choose|m: int| 0 < m < file_name@.len() && file_name@[m] == '.';
                    assert(m >= k);
                }
            }
        }
        return false;
    }
    let dot = k - 1;
    proof {
        let name = file_name@;
        assert(0 < dot < name.len() && name[dot as int] == '.');
        let c = choose|c: int|
            0 < c < name.len() && name[c] == '.' && forall|j: int| c < j < name.len() ==> name[j] != '.';
        assert(c == dot) by {
            if c < dot {
                assert(name[dot as int] != '.');
            } else if c > dot {
            }
        }
    }
    if n - k != 4 {
        return false;
    }
    let e0 = lower(file_name.get_char(k));
    let e1 = lower(file_name.get_char(k + 1));
    let e2 = lower(file_name.get_char(k + 2));
    let e3 = lower(file_name.get_char(k + 3));
    e0 == 'j' && e1 == 's' && e2 == 'o' && e3 == 'n'
}


/// The identity envelope of a MediaJobV1's signature: context `media-job`, signed by
/// its requester.
pub fn media_job_envelope(job: &MediaJobV1) -> (r: EnvelopeSubject)
    ensures
        r.context@ == "media-job"@,
        opt_view(r.signer) == Some(job.requester@),
{
    envelope_subject("media-job", job.requester.as_str())
}


/// Puts on a MediaJobV1 a signature that `subject` made over its signed content,
/// with `media_job_id` the canonical id of that content: refused, leaving the record
/// unchanged, when `subject` is not the record's requester.
pub fn seal_media_job(job: &mut MediaJobV1, subject: &str, media_job_id: String, signature: String) -> (ok: bool)
    ensures
        ok == (subject@ == old(job).requester@),
        ok ==> *final(job) == (MediaJobV1 { media_job_id, signature: Some(signature), ..*old(job) }),
        !ok ==> *final(job) == *old(job),
{
    if !text_eq(subject, job.requester.as_str()) {
        return false;
    }
    job.media_job_id = media_job_id;
    job.signature = Some(signature);
    true
}


/// The texts of a job's references, in field order (package, service, input,
/// mask, output).
pub open spec fn ref_texts(refs: Seq<(Seq<char>, Seq<char>)>) -> Seq<Seq<char>> {
    refs.map_values(|p: (Seq<char>, Seq<char>)| p.1)
}

/// An execution plan's reference lists (the mutable one for `mutable`, the
/// immutable one otherwise): each lists no reference twice, and holds exactly
/// the job's references whose mutability is `mutable`, so that together they
/// hold each distinct reference of the job once.
pub proof fn lemma_plan_refs(job: MediaJobV1, mutable: bool)
    ensures
        forall|i: int, j: int|
            0 <= i < j < dedup_texts(refs_where(job_refs(job), mutable)).len() ==> dedup_texts(
                refs_where(job_refs(job), mutable),
            )[i] != dedup_texts(refs_where(job_refs(job), mutable))[j],
        forall|x: Seq<char>|
            #[trigger] dedup_texts(refs_where(job_refs(job), mutable)).contains(x) <==> (ref_texts(
                job_refs(job),
            ).contains(x) && mutable_ref(x) == mutable),
{
    broadcast use vstd::seq_lib::group_filter_ensures;

    let texts = ref_texts(job_refs(job));
    let pred = |x: Seq<char>| mutable_ref(x) == mutable;
    let f = texts.filter(pred);
    assert(refs_where(job_refs(job), mutable) == f);
    lemma_dedup_texts(f);
    assert forall|x: Seq<char>| f.contains(x) <==> (texts.contains(x) && mutable_ref(x) == mutable) by {
        if f.contains(x) {
            texts.lemma_filter_contains_rev(pred, x);
            let k = choose|k: int| 0 <= k < f.len() && f[k] == x;
            assert(pred(f[k]));
        }
        if texts.contains(x) && mutable_ref(x) == mutable {
            let k = choose|k: int| 0 <= k < texts.len() && texts[k] == x;
            texts.lemma_filter_contains(pred, k);
        }
    }
    assert forall|x: Seq<char>|
        #[trigger] dedup_texts(refs_where(job_refs(job), mutable)).contains(x) <==> (texts.contains(x)
            && mutable_ref(x) == mutable) by {
        assert(dedup_texts(f).contains(x) <==> f.contains(x));
        assert(f.contains(x) <==> (texts.contains(x) && mutable_ref(x) == mutable));
    }
}

} // verus!
