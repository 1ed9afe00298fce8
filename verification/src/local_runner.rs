//! The local model runner: engine descriptors, the choice between the mock
//! engine and a configured Ollama engine, token counting, cache sensitivity
//! and the plan of a cache clear.
use crate::findings::opt_view;
use crate::media::{contains_str, has_infix};
use crate::text::{blank, is_ws, char_is_ws, trim, trimmed, text_eq, lemma_trimmed_empty};
use vstd::prelude::*;

verus! {

pub const LOCAL_MODEL_RUNNER_DESCRIPTOR_SCHEMA_VERSION: &'static str =
    "hivemind.local-model-runner-descriptor.v1";

pub const LOCAL_MODEL_INFERENCE_OUTPUT_SCHEMA_VERSION: &'static str =
    "hivemind.local-model-inference-output.v1";

pub const OLLAMA_LOCAL_MODEL_CONFIG_SCHEMA_VERSION: &'static str =
    "hivemind.ollama-local-model-config.v1";

/// The id the local runner reports itself under.
pub const RUNNER_ID: &'static str = "local-dev-runner";

/// The version of this runner, reported by the mock engine.
pub const MOCK_ENGINE_VERSION: &'static str = "0.1.0";

pub const MOCK_ENGINE_WARNING: &'static str =
    "Deterministic local mock output is for CI and protocol tests, not real inference";

pub const OLLAMA_ENGINE_WARNING: &'static str =
    "Ollama local inference is opt-in and depends on the operator's local model installation";

pub const OLLAMA_INIT_FAILURE_PREFIX: &'static str =
    "Configured Ollama runner could not be initialized and mock mode is active: ";

pub const CACHE_CLEAR_RESULT_SCHEMA_VERSION: &'static str =
    "swarm-ai.local-runner.cache-clear-result.v1";

/// How sensitive the cached artifacts of a package are.
#[derive(Debug, Clone, Copy, PartialEq, Eq, Structural)]
pub enum CacheSensitivity {
    Public,
    Protected,
    Private,
}

/// The marker written beside a protected or private package cache.
#[derive(Debug, Clone)]
pub struct SensitiveCacheMarkerV1 {
    pub schema_version: String,
    pub package_id: String,
    pub package_version: String,
    pub package_ref: String,
    pub artifact_group: String,
    pub cache_sensitivity: CacheSensitivity,
    pub access_grant_id: Option<String>,
    pub reason: String,
    pub created_at: String,
}

/// One cached artifact file of an install.
#[derive(Debug, Clone)]
pub struct CachedArtifactFileV1 {
    pub path: String,
    pub size_bytes: usize,
    pub sha256: Option<String>,
}

/// What a cache clear removed.
#[derive(Debug, Clone)]
pub struct LocalRunnerCacheClearResultV1 {
    pub schema_version: String,
    pub package_ref: String,
    pub removed_installs: usize,
    pub removed_bytes: usize,
    pub removed_cache_paths: Vec<String>,
}

/// The inference engine behind the local runner.
#[derive(Debug, Clone, Copy, PartialEq, Eq, Structural)]
pub enum LocalModelEngineKindV1 {
    Mock,
    Ollama,
}

/// What a local model engine offers.
#[derive(Debug, Clone)]
pub struct LocalModelRunnerDescriptorV1 {
    pub schema_version: String,
    pub runner_id: String,
    pub engine_kind: LocalModelEngineKindV1,
    pub engine_name: String,
    pub engine_version: Option<String>,
    pub endpoint: Option<String>,
    pub chat_model: Option<String>,
    pub embedding_model: Option<String>,
    pub embedding_dimensions: Option<u64>,
    pub context_window_tokens: Option<u64>,
    pub supports_chat: bool,
    pub supports_embeddings: bool,
    pub supports_streaming: bool,
    pub readiness: String,
    pub warnings: Vec<String>,
}

/// Configuration of an Ollama engine.
#[derive(Debug, Clone)]
pub struct OllamaLocalModelConfigV1 {
    pub schema_version: String,
    pub base_url: String,
    pub chat_model: String,
    pub embedding_model: String,
    pub timeout_ms: u64,
    pub embedding_dimensions: Option<u64>,
}

/// The deterministic engine used when no real engine is configured.
#[derive(Debug, Clone, Copy)]
pub struct MockLocalModelRunner;

/// A descriptor, as the texts and values its rules speak of.
pub struct DescriptorView {
    pub schema_version: Seq<char>,
    pub runner_id: Seq<char>,
    pub engine_kind: LocalModelEngineKindV1,
    pub engine_name: Seq<char>,
    pub engine_version: Option<Seq<char>>,
    pub endpoint: Option<Seq<char>>,
    pub chat_model: Option<Seq<char>>,
    pub embedding_model: Option<Seq<char>>,
    pub embedding_dimensions: Option<u64>,
    pub context_window_tokens: Option<u64>,
    pub supports_chat: bool,
    pub supports_embeddings: bool,
    pub supports_streaming: bool,
    pub readiness: Seq<char>,
    pub warnings: Seq<Seq<char>>,
}

pub open spec fn opt_text(o: Option<String>) -> Option<Seq<char>> {
    match o {
        Some(s) => Some(s@),
        None => None,
    }
}

impl View for LocalModelRunnerDescriptorV1 {
    type V = DescriptorView;

    open spec fn view(&self) -> DescriptorView {
        DescriptorView {
            schema_version: self.schema_version@,
            runner_id: self.runner_id@,
            engine_kind: self.engine_kind,
            engine_name: self.engine_name@,
            engine_version: opt_text(self.engine_version),
            endpoint: opt_text(self.endpoint),
            chat_model: opt_text(self.chat_model),
            embedding_model: opt_text(self.embedding_model),
            embedding_dimensions: self.embedding_dimensions,
            context_window_tokens: self.context_window_tokens,
            supports_chat: self.supports_chat,
            supports_embeddings: self.supports_embeddings,
            supports_streaming: self.supports_streaming,
            readiness: self.readiness@,
            warnings: self.warnings.deep_view(),
        }
    }
}

/// The descriptor of the mock engine.
pub open spec fn mock_descriptor() -> DescriptorView {
    DescriptorView {
        schema_version: LOCAL_MODEL_RUNNER_DESCRIPTOR_SCHEMA_VERSION@,
        runner_id: RUNNER_ID@,
        engine_kind: LocalModelEngineKindV1::Mock,
        engine_name: "rust-mock"@,
        engine_version: Some(MOCK_ENGINE_VERSION@),
        endpoint: None,
        chat_model: Some("local/mock-chat"@),
        embedding_model: Some("local/mock-embedding"@),
        embedding_dimensions: Some(8),
        context_window_tokens: Some(4096),
        supports_chat: true,
        supports_embeddings: true,
        supports_streaming: true,
        readiness: "mock"@,
        warnings: seq![MOCK_ENGINE_WARNING@],
    }
}

/// The mock descriptor with one more warning: that the configured Ollama
/// engine failed with `message`.
pub open spec fn mock_descriptor_warned(message: Seq<char>) -> DescriptorView {
    let m = mock_descriptor();
    DescriptorView {
        schema_version: m.schema_version,
        runner_id: m.runner_id,
        engine_kind: m.engine_kind,
        engine_name: m.engine_name,
        engine_version: m.engine_version,
        endpoint: m.endpoint,
        chat_model: m.chat_model,
        embedding_model: m.embedding_model,
        embedding_dimensions: m.embedding_dimensions,
        context_window_tokens: m.context_window_tokens,
        supports_chat: m.supports_chat,
        supports_embeddings: m.supports_embeddings,
        supports_streaming: m.supports_streaming,
        readiness: m.readiness,
        warnings: m.warnings.push(OLLAMA_INIT_FAILURE_PREFIX@ + message),
    }
}

/// The descriptor of an Ollama engine with the given configuration.
pub open spec fn ollama_descriptor(c: OllamaLocalModelConfigV1) -> DescriptorView {
    DescriptorView {
        schema_version: LOCAL_MODEL_RUNNER_DESCRIPTOR_SCHEMA_VERSION@,
        runner_id: RUNNER_ID@,
        engine_kind: LocalModelEngineKindV1::Ollama,
        engine_name: "ollama"@,
        engine_version: None,
        endpoint: Some(c.base_url@),
        chat_model: Some(c.chat_model@),
        embedding_model: Some(c.embedding_model@),
        embedding_dimensions: c.embedding_dimensions,
        context_window_tokens: None,
        supports_chat: true,
        supports_embeddings: true,
        supports_streaming: false,
        readiness: "local"@,
        warnings: seq![OLLAMA_ENGINE_WARNING@],
    }
}

/// The descriptor of the mock engine.
pub fn mock_local_model_runner_descriptor() -> (r: LocalModelRunnerDescriptorV1)
    ensures
        r@ == mock_descriptor(),
{
    let mut warnings: Vec<String> = Vec::new();
    warnings.push(String::from_str(MOCK_ENGINE_WARNING));
    let r = LocalModelRunnerDescriptorV1 {
        schema_version: String::from_str(LOCAL_MODEL_RUNNER_DESCRIPTOR_SCHEMA_VERSION),
        runner_id: String::from_str(RUNNER_ID),
        engine_kind: LocalModelEngineKindV1::Mock,
        engine_name: String::from_str("rust-mock"),
        engine_version: Some(String::from_str(MOCK_ENGINE_VERSION)),
        endpoint: None,
        chat_model: Some(String::from_str("local/mock-chat")),
        embedding_model: Some(String::from_str("local/mock-embedding")),
        embedding_dimensions: Some(8),
        context_window_tokens: Some(4096),
        supports_chat: true,
        supports_embeddings: true,
        supports_streaming: true,
        readiness: String::from_str("mock"),
        warnings,
    };
    assert(r@.warnings =~= mock_descriptor().warnings);
    r
}

impl MockLocalModelRunner {
    /// The descriptor of the mock engine.
    pub fn descriptor(&self) -> (r: LocalModelRunnerDescriptorV1)
        ensures
            r@ == mock_descriptor(),
    {
        mock_local_model_runner_descriptor()
    }
}

/// The descriptor of an Ollama engine with the given configuration.
pub fn ollama_local_model_runner_descriptor(config: &OllamaLocalModelConfigV1) -> (r:
    LocalModelRunnerDescriptorV1)
    ensures
        r@ == ollama_descriptor(*config),
{
    let mut warnings: Vec<String> = Vec::new();
    warnings.push(String::from_str(OLLAMA_ENGINE_WARNING));
    let r = LocalModelRunnerDescriptorV1 {
        schema_version: String::from_str(LOCAL_MODEL_RUNNER_DESCRIPTOR_SCHEMA_VERSION),
        runner_id: String::from_str(RUNNER_ID),
        engine_kind: LocalModelEngineKindV1::Ollama,
        engine_name: String::from_str("ollama"),
        engine_version: None,
        endpoint: Some(config.base_url.clone()),
        chat_model: Some(config.chat_model.clone()),
        embedding_model: Some(config.embedding_model.clone()),
        embedding_dimensions: config.embedding_dimensions,
        context_window_tokens: None,
        supports_chat: true,
        supports_embeddings: true,
        supports_streaming: false,
        readiness: String::from_str("local"),
        warnings,
    };
    assert(r@.warnings =~= ollama_descriptor(*config).warnings);
    r
}

/// The descriptor of the engine the runner will use. `ollama` is what the
/// environment configured: `None` when no Ollama engine is configured,
/// `Some(Ok(config))` when one is configured and its HTTP client could be
/// built, `Some(Err(message))` when its client could not be built. Without a
/// working Ollama engine the mock engine is used; a failed one leaves a
/// warning on the mock descriptor.
pub fn configured_local_model_runner_descriptor(
    ollama: Option<Result<OllamaLocalModelConfigV1, String>>,
) -> (r: LocalModelRunnerDescriptorV1)
    ensures
        match ollama {
            None => r@ == mock_descriptor(),
            Some(Ok(c)) => r@ == ollama_descriptor(c),
            Some(Err(m)) => r@ == mock_descriptor_warned(m@),
        },
{
    match ollama {
        Some(Ok(config)) => ollama_local_model_runner_descriptor(&config),
        Some(Err(message)) => {
            let mut d = mock_local_model_runner_descriptor();
            let mut w = String::from_str(OLLAMA_INIT_FAILURE_PREFIX);
            w.append(message.as_str());
            let ghost before = d.warnings.deep_view();
            d.warnings.push(w);
            assert(d.warnings.deep_view() =~= before.push(OLLAMA_INIT_FAILURE_PREFIX@ + message@));
            d
        },
        None => mock_local_model_runner_descriptor(),
    }
}

/// Whether position `i` starts a word: a non-whitespace character at the
/// start of the text or after whitespace.
pub open spec fn word_start(s: Seq<char>, i: int) -> bool {
    !is_ws(s[i]) && (i == 0 || is_ws(s[i - 1]))
}

/// The number of whitespace-separated words among the first `n` characters.
pub open spec fn words_upto(s: Seq<char>, n: nat) -> nat
    decreases n,
{
    if n == 0 {
        0
    } else {
        words_upto(s, (n - 1) as nat) + if word_start(s, n - 1) { 1nat } else { 0nat }
    }
}

/// `str::split_whitespace().count()`: the number of maximal runs of
/// non-whitespace characters.
pub open spec fn word_count(s: Seq<char>) -> nat {
    words_upto(s, s.len())
}

proof fn lemma_words_upto_bound(s: Seq<char>, n: nat)
    ensures
        words_upto(s, n) <= n,
    decreases n,
{
    if n > 0 {
        lemma_words_upto_bound(s, (n - 1) as nat);
    }
}

/// The number of whitespace-separated tokens of a text.
pub fn count_tokens(text: &str) -> (r: u64)
    ensures
        r == word_count(text@),
{
    let n = text.unicode_len();
    let mut count: u64 = 0;
    let mut i: usize = 0;
    let mut prev_ws = true;
    while i < n
        invariant
            n == text@.len(),
            i <= n,
            count == words_upto(text@, i as nat),
            i > 0 ==> prev_ws == is_ws(text@[i - 1]),
            i == 0 ==> prev_ws,
        decreases n - i,
    {
        proof {
            lemma_words_upto_bound(text@, i as nat);
        }
        let c = text.get_char(i);
        let ws = char_is_ws(c);
        if !ws && prev_ws {
            count = count + 1;
        }
        prev_ws = ws;
        i = i + 1;
    }
    count
}

/// The sensitivity of a package's cache: private packages are private, those
/// whose license requires an access grant are protected, the rest public.
pub open spec fn cache_sensitivity(private_license: bool, requires_access_grant: bool) -> CacheSensitivity {
    if private_license {
        CacheSensitivity::Private
    } else if requires_access_grant {
        CacheSensitivity::Protected
    } else {
        CacheSensitivity::Public
    }
}

/// The cache sensitivity of a package, from whether its license is the
/// private license and whether its license requires an access grant.
pub fn cache_sensitivity_for(private_license: bool, requires_access_grant: bool) -> (r: CacheSensitivity)
    ensures
        r == cache_sensitivity(private_license, requires_access_grant),
{
    if private_license {
        CacheSensitivity::Private
    } else if requires_access_grant {
        CacheSensitivity::Protected
    } else {
        CacheSensitivity::Public
    }
}

/// An install found in the cache: the package reference it was installed
/// from, its directory, and its files.
#[derive(Debug, Clone)]
pub struct CachedInstallV1 {
    pub package_ref: String,
    pub install_dir: String,
    pub files: Vec<CachedArtifactFileV1>,
}

/// The total size of the first `n` files.
pub open spec fn files_bytes_upto(files: Seq<CachedArtifactFileV1>, n: nat) -> int
    decreases n,
{
    if n == 0 {
        0
    } else {
        files_bytes_upto(files, (n - 1) as nat) + files[n - 1].size_bytes
    }
}

pub open spec fn files_bytes(files: Seq<CachedArtifactFileV1>) -> int {
    files_bytes_upto(files, files.len())
}

/// Among the first `n` installs, the directories of those installed from
/// `package_ref`, in order.
pub open spec fn cleared_dirs_upto(installs: Seq<CachedInstallV1>, package_ref: Seq<char>, n: nat) -> Seq<Seq<char>>
    decreases n,
{
    if n == 0 {
        seq![]
    } else {
        let before = cleared_dirs_upto(installs, package_ref, (n - 1) as nat);
        if installs[n - 1].package_ref@ == package_ref {
            before.push(installs[n - 1].install_dir@)
        } else {
            before
        }
    }
}

/// Among the first `n` installs, the bytes of those installed from
/// `package_ref`.
pub open spec fn cleared_bytes_upto(installs: Seq<CachedInstallV1>, package_ref: Seq<char>, n: nat) -> int
    decreases n,
{
    if n == 0 {
        0
    } else {
        let before = cleared_bytes_upto(installs, package_ref, (n - 1) as nat);
        if installs[n - 1].package_ref@ == package_ref {
            before + files_bytes(installs[n - 1].files@)
        } else {
            before
        }
    }
}

pub open spec fn cleared_bytes(installs: Seq<CachedInstallV1>, package_ref: Seq<char>) -> int {
    cleared_bytes_upto(installs, package_ref, installs.len())
}

pub open spec fn cleared_dirs(installs: Seq<CachedInstallV1>, package_ref: Seq<char>) -> Seq<Seq<char>> {
    cleared_dirs_upto(installs, package_ref, installs.len())
}

/// `d` is the directory of one of the first `n` installs made from the
/// package reference.
pub open spec fn matching_install_dir(installs: Seq<CachedInstallV1>, package_ref: Seq<char>, n: int, d: Seq<char>) -> bool {
    exists|i: int|
        #![trigger installs[i]]
        0 <= i < n && installs[i].package_ref@ == package_ref && installs[i].install_dir@ == d
}

proof fn lemma_cleared_dirs_upto(installs: Seq<CachedInstallV1>, package_ref: Seq<char>, n: nat)
    requires
        n <= installs.len(),
    ensures
        forall|j: int|
            0 <= j < cleared_dirs_upto(installs, package_ref, n).len() ==> matching_install_dir(
                installs,
                package_ref,
                n as int,
                #[trigger] cleared_dirs_upto(installs, package_ref, n)[j],
            ),
        forall|i: int|
            0 <= i < n && (#[trigger] installs[i]).package_ref@ == package_ref ==> cleared_dirs_upto(
                installs,
                package_ref,
                n,
            ).contains(installs[i].install_dir@),
    decreases n,
{
    if n > 0 {
        lemma_cleared_dirs_upto(installs, package_ref, (n - 1) as nat);
        let before = cleared_dirs_upto(installs, package_ref, (n - 1) as nat);
        let now = cleared_dirs_upto(installs, package_ref, n);
        let last = installs[n - 1];
        assert forall|j: int| 0 <= j < now.len() implies matching_install_dir(
            installs,
            package_ref,
            n as int,
            #[trigger] now[j],
        ) by {
            if j < before.len() {
                assert(now[j] == before[j]);
                assert(matching_install_dir(installs, package_ref, n - 1, before[j]));
                let k = choose|k: int|
                    #![trigger installs[k]]
                    0 <= k < n - 1 && installs[k].package_ref@ == package_ref && installs[k].install_dir@
                        == before[j];
                assert(installs[k].package_ref@ == package_ref);
            } else {
                assert(last.package_ref@ == package_ref);
                assert(now[j] == last.install_dir@);
                assert(installs[n - 1] == last);
            }
        }
        assert forall|i: int| 0 <= i < n && (#[trigger] installs[i]).package_ref@ == package_ref implies now.contains(
            installs[i].install_dir@,
        ) by {
            if i < n - 1 {
                assert(before.contains(installs[i].install_dir@));
                let k = choose|k: int| 0 <= k < before.len() && before[k] == installs[i].install_dir@;
                if last.package_ref@ == package_ref {
                    assert(now[k] == before[k]);
                } else {
                    assert(now == before);
                }
            } else {
                assert(now[now.len() - 1] == installs[i].install_dir@);
            }
        }
    }
}

/// Clearing removes only what it should: every directory it lists is that
/// of an install made from the package reference, and every install made
/// from it is listed.
pub proof fn lemma_clear_removes_exactly_matching_installs(installs: Seq<CachedInstallV1>, package_ref: Seq<char>)
    ensures
        forall|j: int|
            0 <= j < cleared_dirs(installs, package_ref).len() ==> matching_install_dir(
                installs,
                package_ref,
                installs.len() as int,
                #[trigger] cleared_dirs(installs, package_ref)[j],
            ),
        forall|i: int|
            0 <= i < installs.len() && (#[trigger] installs[i]).package_ref@ == package_ref ==> cleared_dirs(
                installs,
                package_ref,
            ).contains(installs[i].install_dir@),
{
    lemma_cleared_dirs_upto(installs, package_ref, installs.len());
}

proof fn lemma_files_bytes_mono(files: Seq<CachedArtifactFileV1>, i: nat, j: nat)
    requires
        i <= j,
    ensures
        0 <= files_bytes_upto(files, i) <= files_bytes_upto(files, j),
    decreases j,
{
    if i < j {
        lemma_files_bytes_mono(files, i, (j - 1) as nat);
    } else if j > 0 {
        lemma_files_bytes_mono(files, (j - 1) as nat, (j - 1) as nat);
    }
}

proof fn lemma_cleared_bytes_mono(installs: Seq<CachedInstallV1>, key: Seq<char>, i: nat, j: nat)
    requires
        i <= j,
    ensures
        0 <= cleared_bytes_upto(installs, key, i) <= cleared_bytes_upto(installs, key, j),
    decreases j,
{
    if i < j {
        lemma_cleared_bytes_mono(installs, key, i, (j - 1) as nat);
        let f = installs[j - 1].files@;
        lemma_files_bytes_mono(f, 0, f.len());
    } else if j > 0 {
        lemma_cleared_bytes_mono(installs, key, (j - 1) as nat, (j - 1) as nat);
        let f = installs[j - 1].files@;
        lemma_files_bytes_mono(f, 0, f.len());
    }
}

fn install_bytes(files: &Vec<CachedArtifactFileV1>, bound: usize) -> (r: usize)
    requires
        files_bytes(files@) <= bound,
    ensures
        r == files_bytes(files@),
{
    let mut total: usize = 0;
    let mut i: usize = 0;
    while i < files.len()
        invariant
            i <= files.len(),
            total == files_bytes_upto(files@, i as nat),
            files_bytes(files@) <= bound,
        decreases files.len() - i,
    {
        proof {
            lemma_files_bytes_mono(files@, (i + 1) as nat, files.len() as nat);
        }
        total = total + files[i].size_bytes;
        i = i + 1;
    }
    total
}

/// What clearing the cache of a package removes: every install made from the
/// trimmed `package_ref`, in the order found, with the total size of its
/// files. A blank reference is refused. The caller removes the directories
/// listed in the result.
pub fn plan_cache_clear(package_ref: &str, installs: &Vec<CachedInstallV1>) -> (r: Result<
    LocalRunnerCacheClearResultV1,
    String,
>)
    requires
        cleared_bytes(installs@, trimmed(package_ref@)) <= usize::MAX,
    ensures
        blank(package_ref@) <==> r is Err,
        r matches Err(e) ==> e@ == "packageRef is required to clear local runner cache"@,
        r matches Ok(c) ==> {
            &&& c.schema_version@ == CACHE_CLEAR_RESULT_SCHEMA_VERSION@
            &&& c.package_ref@ == trimmed(package_ref@)
            &&& c.removed_cache_paths.deep_view() == cleared_dirs(installs@, trimmed(package_ref@))
            &&& c.removed_installs == c.removed_cache_paths.len()
            &&& c.removed_bytes == cleared_bytes(installs@, trimmed(package_ref@))
        },
{
    proof {
        lemma_trimmed_empty(package_ref@);
    }
    let key = trim(package_ref);
    if key.unicode_len() == 0 {
        return Err(String::from_str("packageRef is required to clear local runner cache"));
    }
    let ghost k = key@;
    let mut dirs: Vec<String> = Vec::new();
    let mut bytes: usize = 0;
    let mut i: usize = 0;
    while i < installs.len()
        invariant
            i <= installs.len(),
            k == key@,
            cleared_bytes(installs@, k) <= usize::MAX,
            dirs.deep_view() == cleared_dirs_upto(installs@, k, i as nat),
            bytes == cleared_bytes_upto(installs@, k, i as nat),
        decreases installs.len() - i,
    {
        proof {
            lemma_cleared_bytes_mono(installs@, k, (i + 1) as nat, installs.len() as nat);
        }
        if text_eq(installs[i].package_ref.as_str(), key) {
            let b = install_bytes(&installs[i].files, usize::MAX - bytes);
            bytes = bytes + b;
            let ghost before = dirs.deep_view();
            dirs.push(installs[i].install_dir.clone());
            assert(dirs.deep_view() =~= before.push(installs@[i as int].install_dir@));
        }
        i = i + 1;
    }
    let n = dirs.len();
    Ok(LocalRunnerCacheClearResultV1 {
        schema_version: String::from_str(CACHE_CLEAR_RESULT_SCHEMA_VERSION),
        package_ref: key.to_string(),
        removed_installs: n,
        removed_bytes: bytes,
        removed_cache_paths: dirs,
    })
}


// ---------------------------------------------------------------------------
// Executing a request

/// Why an execution is refused.
#[derive(Debug, Clone, Copy, PartialEq, Eq, Structural)]
pub enum ExecutionErrorCode {
    AccessDenied,
    UnsupportedOperation,
    UnsupportedTarget,
}

/// A refused execution: its error code and message.
#[derive(Debug, Clone)]
pub struct ExecutionRefusalV1 {
    pub code: ExecutionErrorCode,
    pub message: String,
}

/// How the local runner produces the output of a task.
#[derive(Debug, Clone, Copy, PartialEq, Eq, Structural)]
pub enum LocalEngineUse {
    ModelInference,
    Classification,
    Echo,
}

/// What deciding whether to run a request reads: the package policy's
/// reason to block execution, if any; whether access to the package was
/// granted; whether the package and the runner declare the requested task;
/// and the artifact group selected for this runner, if one matches.
#[derive(Debug, Clone)]
pub struct ExecutionGateFacts {
    pub policy_block_reason: Option<String>,
    pub access_granted: bool,
    pub package_supports_task: bool,
    pub runner_supports_task: bool,
    pub artifact_group: Option<String>,
}

/// Whether a request runs, and how.
#[derive(Debug, Clone)]
pub enum ExecutionGateV1 {
    Refused(ExecutionRefusalV1),
    Run { artifact_group: String, engine: LocalEngineUse },
}

/// The engine a task runs on: chat and embedding on the local model engine,
/// classification on the built-in classifier, anything else is echoed.
pub open spec fn engine_for(task: Seq<char>) -> LocalEngineUse {
    if task == "embedding"@ || task == "chat"@ {
        LocalEngineUse::ModelInference
    } else if task == "classification"@ {
        LocalEngineUse::Classification
    } else {
        LocalEngineUse::Echo
    }
}

/// The refusal of a request, if any, in the order the gates are applied:
/// a policy block, a missing access grant, a task the package or the runner
/// does not declare, no matching artifact group.
pub open spec fn gate_refusal(task: Seq<char>, f: ExecutionGateFacts) -> Option<(ExecutionErrorCode, Seq<char>)> {
    match f.policy_block_reason {
        Some(reason) => Some((ExecutionErrorCode::AccessDenied, reason@)),
        None => if !f.access_granted {
            Some((ExecutionErrorCode::AccessDenied, "Package license requires an access grant"@))
        } else if !f.package_supports_task {
            Some((ExecutionErrorCode::UnsupportedOperation, "Package does not declare support for task "@ + task))
        } else if !f.runner_supports_task {
            Some((ExecutionErrorCode::UnsupportedOperation, "Local runner does not declare support for task "@ + task))
        } else if f.artifact_group is None {
            Some((ExecutionErrorCode::UnsupportedTarget, "No artifact group matches this runner"@))
        } else {
            None
        },
    }
}

/// The engine a task runs on.
pub fn task_engine(task: &str) -> (r: LocalEngineUse)
    ensures
        r == engine_for(task@),
{
    if text_eq(task, "embedding") || text_eq(task, "chat") {
        LocalEngineUse::ModelInference
    } else if text_eq(task, "classification") {
        LocalEngineUse::Classification
    } else {
        LocalEngineUse::Echo
    }
}

fn refusal(code: ExecutionErrorCode, prefix: &str, task: &str) -> (r: ExecutionGateV1)
    ensures
        r matches ExecutionGateV1::Refused(x) && x.code == code && x.message@ == prefix@ + task@,
{
    let mut message = String::from_str(prefix);
    message.append(task);
    ExecutionGateV1::Refused(ExecutionRefusalV1 { code, message })
}

/// Decides whether the local runner executes a request for `task`: the
/// first gate that fails refuses it with its error; otherwise it runs on the
/// selected artifact group with the engine of its task.
pub fn execution_gate(task: &str, facts: ExecutionGateFacts) -> (r: ExecutionGateV1)
    ensures
        match gate_refusal(task@, facts) {
            Some((code, message)) => r matches ExecutionGateV1::Refused(x) && x.code == code
                && x.message@ == message,
            None => r matches ExecutionGateV1::Run { artifact_group, engine } && facts.artifact_group
                matches Some(a) && artifact_group@ == a@ && engine == engine_for(task@),
        },
{
    proof {
        reveal_strlit("");
        assert(""@ =~= Seq::<char>::empty());
        assert("Package license requires an access grant"@ + ""@ =~= "Package license requires an access grant"@);
        assert("No artifact group matches this runner"@ + ""@ =~= "No artifact group matches this runner"@);
    }
    match facts.policy_block_reason {
        Some(reason) => ExecutionGateV1::Refused(
            ExecutionRefusalV1 { code: ExecutionErrorCode::AccessDenied, message: reason },
        ),
        None => {
            if !facts.access_granted {
                refusal(ExecutionErrorCode::AccessDenied, "Package license requires an access grant", "")
            } else if !facts.package_supports_task {
                refusal(ExecutionErrorCode::UnsupportedOperation, "Package does not declare support for task ", task)
            } else if !facts.runner_supports_task {
                refusal(
                    ExecutionErrorCode::UnsupportedOperation,
                    "Local runner does not declare support for task ",
                    task,
                )
            } else {
                match facts.artifact_group {
                    Some(a) => ExecutionGateV1::Run { artifact_group: a, engine: task_engine(task) },
                    None => refusal(ExecutionErrorCode::UnsupportedTarget, "No artifact group matches this runner", ""),
                }
            }
        },
    }
}

/// Why a package's cache is or is not marked sensitive. `license_name` is
/// the name of the package's license type.
pub open spec fn sensitivity_reason(license_name: Seq<char>, s: CacheSensitivity) -> Seq<char> {
    match s {
        CacheSensitivity::Public => "Open package cache does not require special marking"@,
        CacheSensitivity::Protected => "Package license "@ + license_name
            + " requires an access grant; cached artifacts are protected package data"@,
        CacheSensitivity::Private => "Private package cache contains access-controlled package data"@,
    }
}

/// Why a package's cache is or is not marked sensitive.
pub fn cache_sensitivity_reason(license_name: &str, sensitivity: CacheSensitivity) -> (r: String)
    ensures
        r@ == sensitivity_reason(license_name@, sensitivity),
{
    match sensitivity {
        CacheSensitivity::Public => String::from_str("Open package cache does not require special marking"),
        CacheSensitivity::Protected => {
            let mut r = String::from_str("Package license ");
            r.append(license_name);
            r.append(" requires an access grant; cached artifacts are protected package data");
            r
        },
        CacheSensitivity::Private => String::from_str(
            "Private package cache contains access-controlled package data",
        ),
    }
}

/// The label the built-in classifier gives a text already in lower case: a
/// greeting when it mentions "hello" or "hi", a problem when it mentions
/// "error" or "fail", otherwise general.
pub open spec fn classification_label(lowered: Seq<char>) -> Seq<char> {
    if has_infix(lowered, "hello"@) || has_infix(lowered, "hi"@) {
        "greeting"@
    } else if has_infix(lowered, "error"@) || has_infix(lowered, "fail"@) {
        "problem"@
    } else {
        "general"@
    }
}

/// The label of a text already in lower case.
pub fn classify_lowered(lowered: &str) -> (r: &'static str)
    ensures
        r@ == classification_label(lowered@),
{
    proof {
        reveal_strlit("greeting");
        reveal_strlit("problem");
        reveal_strlit("general");
    }
    if contains_str(lowered, "hello") || contains_str(lowered, "hi") {
        "greeting"
    } else if contains_str(lowered, "error") || contains_str(lowered, "fail") {
        "problem"
    } else {
        "general"
    }
}

/// Unicode lower case, as `str::to_lowercase` computes it.
pub uninterp spec fn lowercase(s: Seq<char>) -> Seq<char>;

/// `str::to_lowercase`: the text in Unicode lower case.
#[verifier::external_body]
fn to_lowercase(s: &str) -> (r: String)
    ensures
        r@ == lowercase(s@),
{
    s.to_lowercase()
}

/// The label the built-in classifier gives the text of a request's input.
pub fn classify_text(text: &str) -> (r: &'static str)
    ensures
        r@ == classification_label(lowercase(text@)),
{
    let lowered = to_lowercase(text);
    classify_lowered(lowered.as_str())
}

/// The name of the marker file beside a protected or private package cache.
pub const SENSITIVE_CACHE_MARKER_FILE: &'static str = ".swarm-ai-sensitive-cache.json";

pub const SENSITIVE_CACHE_MARKER_SCHEMA_VERSION: &'static str =
    "swarm-ai.local-runner.sensitive-cache-marker.v1";

/// The marker to write beside a package cache: none for a public cache;
/// otherwise one naming the package, its reference and artifact group, the
/// cache's sensitivity, the access grant that admitted it and the reason for
/// the marking, at `created_at`. `license_name` is the name of the package's
/// license type.
pub fn sensitive_cache_marker(
    package_id: String,
    package_version: String,
    package_ref: String,
    artifact_group: String,
    cache_sensitivity: CacheSensitivity,
    access_grant_id: Option<String>,
    license_name: &str,
    created_at: String,
) -> (r: Option<SensitiveCacheMarkerV1>)
    ensures
        cache_sensitivity == CacheSensitivity::Public <==> r is None,
        r matches Some(m) ==> {
            &&& m.schema_version@ == SENSITIVE_CACHE_MARKER_SCHEMA_VERSION@
            &&& m.package_id == package_id
            &&& m.package_version == package_version
            &&& m.package_ref == package_ref
            &&& m.artifact_group == artifact_group
            &&& m.cache_sensitivity == cache_sensitivity
            &&& m.access_grant_id == access_grant_id
            &&& m.reason@ == sensitivity_reason(license_name@, cache_sensitivity)
            &&& m.created_at == created_at
        },
{
    if cache_sensitivity == CacheSensitivity::Public {
        return None;
    }
    Some(
        SensitiveCacheMarkerV1 {
            schema_version: String::from_str(SENSITIVE_CACHE_MARKER_SCHEMA_VERSION),
            package_id,
            package_version,
            package_ref,
            artifact_group,
            cache_sensitivity,
            access_grant_id,
            reason: cache_sensitivity_reason(license_name, cache_sensitivity),
            created_at,
        },
    )
}

/// The texts joined with `; ` between them.
pub open spec fn joined(parts: Seq<Seq<char>>) -> Seq<char>
    decreases parts.len(),
{
    if parts.len() == 0 {
        seq![]
    } else if parts.len() == 1 {
        parts[0]
    } else {
        joined(parts.drop_last()) + "; "@ + parts.last()
    }
}

fn join_reasons(parts: &Vec<String>) -> (r: String)
    ensures
        r@ == joined(parts.deep_view()),
{
    proof {
        reveal_strlit("; ");
    }
    let mut r = String::new();
    let mut i: usize = 0;
    while i < parts.len()
        invariant
            i <= parts.len(),
            r@ == joined(parts.deep_view().subrange(0, i as int)),
        decreases parts.len() - i,
    {
        let ghost prefix = parts.deep_view().subrange(0, i as int);
        let ghost next = parts.deep_view().subrange(0, i + 1);
        assert(next.drop_last() =~= prefix);
        assert(next.last() == parts[i as int]@);
        if i > 0 {
            r.append("; ");
        } else {
            assert(r@ =~= Seq::<char>::empty());
        }
        r.append(parts[i].as_str());
        proof {
            if i == 0 {
                assert(r@ =~= next[0]);
            } else {
                assert(r@ =~= joined(prefix) + "; "@ + next.last());
            }
        }
        i = i + 1;
    }
    assert(parts.deep_view().subrange(0, i as int) =~= parts.deep_view());
    r
}

/// Why installing a package is refused, if it is, in the order the gates are
/// applied: a policy that denies the package (outside developer mode), then
/// access that was not granted, then no artifact group matching this runner.
pub open spec fn install_refusal(
    policy_denies: bool,
    policy_reasons: Seq<Seq<char>>,
    developer_mode: bool,
    access_granted: bool,
    access_reasons: Seq<Seq<char>>,
    artifact_group: Option<Seq<char>>,
) -> Option<Seq<char>> {
    if policy_denies && !developer_mode {
        Some("package policy denied before artifact download: "@ + joined(policy_reasons))
    } else if !access_granted {
        Some("package access denied before artifact download: "@ + joined(access_reasons))
    } else if artifact_group is None {
        Some("no compatible artifact group for local runner"@)
    } else {
        None
    }
}

/// Decides whether a package may be installed into the local cache: the
/// artifact group to install, or why installing is refused.
pub fn install_gate(
    policy_denies: bool,
    policy_reasons: &Vec<String>,
    developer_mode: bool,
    access_granted: bool,
    access_reasons: &Vec<String>,
    artifact_group: Option<String>,
) -> (r: Result<String, String>)
    ensures
        match install_refusal(
            policy_denies,
            policy_reasons.deep_view(),
            developer_mode,
            access_granted,
            access_reasons.deep_view(),
            opt_view(artifact_group),
        ) {
            Some(message) => r matches Err(e) && e@ == message,
            None => r matches Ok(a) && opt_view(artifact_group) == Some(a@),
        },
{
    proof {
        reveal_strlit("no compatible artifact group for local runner");
    }
    if policy_denies && !developer_mode {
        let mut m = String::from_str("package policy denied before artifact download: ");
        let reasons = join_reasons(policy_reasons);
        m.append(reasons.as_str());
        return Err(m);
    }
    if !access_granted {
        let mut m = String::from_str("package access denied before artifact download: ");
        let reasons = join_reasons(access_reasons);
        m.append(reasons.as_str());
        return Err(m);
    }
    match artifact_group {
        Some(a) => Ok(a),
        None => Err(String::from_str("no compatible artifact group for local runner")),
    }
}

} // verus!
