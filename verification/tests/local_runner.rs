use hivemind_market::local_runner::{
    cache_sensitivity_for, cache_sensitivity_reason, classify_lowered, classify_text,
    configured_local_model_runner_descriptor, count_tokens, execution_gate, task_engine,
    ExecutionErrorCode, ExecutionGateFacts, ExecutionGateV1, LocalEngineUse, install_gate, sensitive_cache_marker,
    SENSITIVE_CACHE_MARKER_SCHEMA_VERSION,
    mock_local_model_runner_descriptor, ollama_local_model_runner_descriptor, plan_cache_clear,
    CacheSensitivity, CachedArtifactFileV1, CachedInstallV1, LocalModelEngineKindV1,
    MockLocalModelRunner, OllamaLocalModelConfigV1,
};

fn install(package_ref: &str, dir: &str, sizes: &[usize]) -> CachedInstallV1 {
    CachedInstallV1 {
        package_ref: package_ref.to_string(),
        install_dir: dir.to_string(),
        files: sizes
            .iter()
            .enumerate()
            .map(|(i, size)| CachedArtifactFileV1 {
                path: format!("model/file-{i}.bin"),
                size_bytes: *size,
                sha256: None,
            })
            .collect(),
    }
}

fn ollama_config() -> OllamaLocalModelConfigV1 {
    OllamaLocalModelConfigV1 {
        schema_version: "hivemind.local_model_engine.ollama_config.v1".to_string(),
        base_url: "http://127.0.0.1:11434".to_string(),
        chat_model: "llama3.2".to_string(),
        embedding_model: "nomic-embed-text".to_string(),
        timeout_ms: 120_000,
        embedding_dimensions: Some(768),
    }
}

#[test]
fn clears_only_matching_package_ref() {
    let installs = vec![
        install("bzz://first", "first/local-rust-mock", &[7]),
        install("bzz://second", "second/local-rust-mock", &[11]),
    ];

    let result = plan_cache_clear("bzz://first", &installs).unwrap();

    assert_eq!(result.removed_installs, 1);
    assert_eq!(result.removed_bytes, 7);
    assert_eq!(result.removed_cache_paths, vec!["first/local-rust-mock".to_string()]);
    assert_eq!(result.package_ref, "bzz://first");
}

#[test]
fn cache_clear_sums_every_file_of_every_matching_install() {
    let installs = vec![
        install(" bzz://pkg ", "a", &[3, 4]),
        install("bzz://other", "b", &[100]),
        install("bzz://pkg", "c", &[5]),
    ];
    let result = plan_cache_clear("  bzz://pkg\n", &installs).unwrap();
    assert_eq!(result.removed_installs, 1);
    assert_eq!(result.removed_bytes, 5);
    assert_eq!(result.removed_cache_paths, vec!["c".to_string()]);
}

#[test]
fn cache_clear_refuses_a_blank_package_ref() {
    let installs = vec![install("bzz://first", "first", &[7])];
    let error = plan_cache_clear("   ", &installs).unwrap_err();
    assert_eq!(error, "packageRef is required to clear local runner cache");
}

#[test]
fn cache_clear_of_an_unknown_package_removes_nothing() {
    let installs = vec![install("bzz://first", "first", &[7])];
    let result = plan_cache_clear("bzz://missing", &installs).unwrap();
    assert_eq!(result.removed_installs, 0);
    assert_eq!(result.removed_bytes, 0);
    assert!(result.removed_cache_paths.is_empty());
}

#[test]
fn cache_sensitivity_follows_license() {
    assert_eq!(cache_sensitivity_for(true, true), CacheSensitivity::Private);
    assert_eq!(cache_sensitivity_for(true, false), CacheSensitivity::Private);
    assert_eq!(cache_sensitivity_for(false, true), CacheSensitivity::Protected);
    assert_eq!(cache_sensitivity_for(false, false), CacheSensitivity::Public);
}

#[test]
fn mock_descriptor_declares_embedding_shape() {
    let descriptor = MockLocalModelRunner.descriptor();
    assert_eq!(descriptor.engine_kind, LocalModelEngineKindV1::Mock);
    assert_eq!(descriptor.embedding_dimensions, Some(8));
    assert_eq!(descriptor.engine_name, "rust-mock");
    assert_eq!(descriptor.runner_id, "local-dev-runner");
    assert_eq!(descriptor.context_window_tokens, Some(4096));
    assert!(descriptor.supports_chat && descriptor.supports_embeddings);
    assert_eq!(descriptor.warnings.len(), 1);
    assert_eq!(descriptor.readiness, "mock");
}

#[test]
fn configured_descriptor_without_ollama_is_the_mock() {
    let descriptor = configured_local_model_runner_descriptor(None);
    let mock = mock_local_model_runner_descriptor();
    assert_eq!(descriptor.engine_kind, LocalModelEngineKindV1::Mock);
    assert_eq!(descriptor.warnings, mock.warnings);
}

#[test]
fn configured_descriptor_uses_a_working_ollama_engine() {
    let descriptor = configured_local_model_runner_descriptor(Some(Ok(ollama_config())));
    assert_eq!(descriptor.engine_kind, LocalModelEngineKindV1::Ollama);
    assert_eq!(descriptor.endpoint.as_deref(), Some("http://127.0.0.1:11434"));
    assert_eq!(descriptor.chat_model.as_deref(), Some("llama3.2"));
    assert_eq!(descriptor.embedding_model.as_deref(), Some("nomic-embed-text"));
    assert_eq!(descriptor.embedding_dimensions, Some(768));
    assert!(!descriptor.supports_streaming);
    let direct = ollama_local_model_runner_descriptor(&ollama_config());
    assert_eq!(direct.endpoint, descriptor.endpoint);
}

#[test]
fn configured_descriptor_warns_when_ollama_fails() {
    let descriptor =
        configured_local_model_runner_descriptor(Some(Err("connection refused".to_string())));
    assert_eq!(descriptor.engine_kind, LocalModelEngineKindV1::Mock);
    assert_eq!(descriptor.warnings.len(), 2);
    assert!(descriptor.warnings[1].ends_with("connection refused"));
    assert!(descriptor.warnings[1].len() > "connection refused".len());
}

#[test]
fn counts_whitespace_separated_tokens() {
    assert_eq!(count_tokens(""), 0);
    assert_eq!(count_tokens("   "), 0);
    assert_eq!(count_tokens("hello"), 1);
    assert_eq!(count_tokens("  hello   local\tmodel\n"), 3);
    assert_eq!(count_tokens("a b c d"), 4);
}

fn open_facts() -> ExecutionGateFacts {
    ExecutionGateFacts {
        policy_block_reason: None,
        access_granted: true,
        package_supports_task: true,
        runner_supports_task: true,
        artifact_group: Some("local-rust-mock".to_string()),
    }
}

fn refusal(gate: ExecutionGateV1) -> (ExecutionErrorCode, String) {
    match gate {
        ExecutionGateV1::Refused(r) => (r.code, r.message),
        ExecutionGateV1::Run { .. } => panic!("expected a refusal"),
    }
}

#[test]
fn execution_runs_on_the_selected_artifact_group() {
    match execution_gate("chat", open_facts()) {
        ExecutionGateV1::Run { artifact_group, engine } => {
            assert_eq!(artifact_group, "local-rust-mock");
            assert_eq!(engine, LocalEngineUse::ModelInference);
        }
        ExecutionGateV1::Refused(r) => panic!("refused: {r:?}"),
    }
    assert_eq!(task_engine("embedding"), LocalEngineUse::ModelInference);
    assert_eq!(task_engine("classification"), LocalEngineUse::Classification);
    assert_eq!(task_engine("summarize"), LocalEngineUse::Echo);
}

#[test]
fn execution_gates_apply_in_order() {
    let mut f = open_facts();
    f.policy_block_reason = Some("Package policy requires user consent".to_string());
    f.access_granted = false;
    assert_eq!(
        refusal(execution_gate("chat", f)),
        (ExecutionErrorCode::AccessDenied, "Package policy requires user consent".to_string())
    );
    let mut f = open_facts();
    f.access_granted = false;
    f.package_supports_task = false;
    assert_eq!(
        refusal(execution_gate("chat", f)),
        (ExecutionErrorCode::AccessDenied, "Package license requires an access grant".to_string())
    );
    let mut f = open_facts();
    f.package_supports_task = false;
    assert_eq!(
        refusal(execution_gate("vision", f)),
        (ExecutionErrorCode::UnsupportedOperation, "Package does not declare support for task vision".to_string())
    );
    let mut f = open_facts();
    f.runner_supports_task = false;
    assert_eq!(
        refusal(execution_gate("vision", f)),
        (ExecutionErrorCode::UnsupportedOperation, "Local runner does not declare support for task vision".to_string())
    );
    let mut f = open_facts();
    f.artifact_group = None;
    assert_eq!(
        refusal(execution_gate("chat", f)),
        (ExecutionErrorCode::UnsupportedTarget, "No artifact group matches this runner".to_string())
    );
}

#[test]
fn cache_sensitivity_reason_names_the_license() {
    assert_eq!(
        cache_sensitivity_reason("Commercial", CacheSensitivity::Protected),
        "Package license Commercial requires an access grant; cached artifacts are protected package data"
    );
    assert_eq!(
        cache_sensitivity_reason("Open", CacheSensitivity::Public),
        "Open package cache does not require special marking"
    );
    assert_eq!(
        cache_sensitivity_reason("Private", CacheSensitivity::Private),
        "Private package cache contains access-controlled package data"
    );
}

#[test]
fn classifier_labels_greetings_and_problems() {
    assert_eq!(classify_text("HELLO there"), "greeting");
    assert_eq!(classify_text("The job FAILED"), "problem");
    assert_eq!(classify_text("weather report"), "general");
    assert_eq!(classify_lowered("an error occurred"), "problem");
    assert_eq!(classify_lowered("Hello"), "general");
}

#[test]
fn protected_cache_gets_a_marker_and_public_cache_none() {
    let marker = sensitive_cache_marker(
        "hivemind/protected".to_string(),
        "0.1.0".to_string(),
        "bzz://protected".to_string(),
        "local-rust-mock".to_string(),
        CacheSensitivity::Protected,
        Some("grant-1".to_string()),
        "Commercial",
        "2026-06-01T00:00:00Z".to_string(),
    )
    .unwrap();
    assert_eq!(marker.schema_version, SENSITIVE_CACHE_MARKER_SCHEMA_VERSION);
    assert_eq!(marker.cache_sensitivity, CacheSensitivity::Protected);
    assert_eq!(marker.access_grant_id.as_deref(), Some("grant-1"));
    assert!(marker.reason.contains("requires an access grant"));
    assert!(sensitive_cache_marker(
        "p".to_string(),
        "v".to_string(),
        "bzz://p".to_string(),
        "g".to_string(),
        CacheSensitivity::Public,
        None,
        "Open",
        "t".to_string(),
    )
    .is_none());
}

#[test]
fn consent_required_policy_blocks_local_execution() {
    let mut facts = open_facts();
    facts.policy_block_reason = Some("Package policy requires user consent before execution".to_string());
    let (code, message) = refusal(execution_gate("embedding", facts));
    assert_eq!(code, ExecutionErrorCode::AccessDenied);
    assert_eq!(message, "Package policy requires user consent before execution");
}

#[test]
fn denied_policy_blocks_install_before_artifact_cache() {
    let reasons = vec!["permission local.shell is denied".to_string(), "risk level is high".to_string()];
    let error = install_gate(true, &reasons, false, true, &Vec::new(), Some("local-rust-mock".to_string())).unwrap_err();
    assert!(error.contains("package policy denied before artifact download"));
    assert_eq!(
        error,
        "package policy denied before artifact download: permission local.shell is denied; risk level is high"
    );
}

#[test]
fn developer_mode_can_cache_policy_denied_package_for_inspection() {
    let reasons = vec!["permission local.shell is denied".to_string()];
    let group = install_gate(true, &reasons, true, true, &Vec::new(), Some("local-rust-mock".to_string())).unwrap();
    assert_eq!(group, "local-rust-mock");
    let access = vec!["license requires a grant".to_string()];
    assert_eq!(
        install_gate(false, &Vec::new(), false, false, &access, Some("g".to_string())).unwrap_err(),
        "package access denied before artifact download: license requires a grant"
    );
    assert_eq!(
        install_gate(false, &Vec::new(), false, true, &Vec::new(), None).unwrap_err(),
        "no compatible artifact group for local runner"
    );
}

#[test]
fn mock_local_model_runner_reports_descriptor_and_embedding_shape() {
    let descriptor = mock_local_model_runner_descriptor();
    assert_eq!(descriptor.engine_kind, LocalModelEngineKindV1::Mock);
    assert_eq!(descriptor.embedding_dimensions, Some(8));
}
