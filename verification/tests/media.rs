use hivemind_market::findings::{IdentitySignatureCheck, MarketplaceVerificationIssueV1, SignedContent};
use hivemind_market::kinds::{ApiSurface, IntegrityTier, Modality, PrivacyTier};
use hivemind_market::media::{
    create_media_job, dedup, is_json_path, media_execution_plan, verify_media_job, MediaJobInitOptionsV1,
    MediaJobV1, MediaTask, StreamingEventType,
};
use hivemind_market::text::safe_file_component;

fn options(task: MediaTask) -> MediaJobInitOptionsV1 {
    MediaJobInitOptionsV1 {
        requester: "local-dev".to_string(),
        task,
        package_ref: None,
        package_id: None,
        package_version: None,
        service_ref: None,
        model_alias: None,
        prompt: None,
        text: None,
        input_ref: None,
        mask_ref: None,
        response_format: None,
        output_ref: None,
        count: None,
        size: None,
        quality: None,
        style: None,
        voice: None,
        audio_format: None,
        privacy_tier: None,
        integrity_tier: None,
        settlement_method: None,
    }
}

fn sign(job: &mut MediaJobV1, tag: &str) -> SignedContent {
    job.media_job_id = format!("media-job-{tag}");
    job.signature = Some(format!("dev-media-job-signature-v1:{tag}"));
    SignedContent {
        canonical_id: format!("media-job-{tag}"),
        dev_signature: format!("dev-media-job-signature-v1:{tag}"),
        identity_check: None,
    }
}

#[test]
fn creates_signed_image_generation_job_and_plan() {
    let mut o = options(MediaTask::ImageGeneration);
    o.package_id = Some("hivemind/image-generator".to_string());
    o.package_version = Some("0.1.0".to_string());
    o.model_alias = Some("hivemind/image".to_string());
    o.prompt = Some("a tiny protocol workbench".to_string());
    o.response_format = Some("url".to_string());
    o.output_ref = Some("local://media/output/image".to_string());
    o.count = Some(2);
    o.size = Some("1024x1024".to_string());
    o.quality = Some("standard".to_string());
    o.style = Some("natural".to_string());
    o.privacy_tier = Some(PrivacyTier::NoLog);
    o.integrity_tier = Some(IntegrityTier::ReceiptOnly);
    let mut job = create_media_job(o, "2025-06-01T00:00:00Z".to_string());
    let content = sign(&mut job, "image");
    let verification = verify_media_job(&job, &content, "2025-06-01T00:00:01Z".to_string());
    let plan = media_execution_plan(&job, &content, "2025-06-01T00:00:01Z".to_string());

    assert!(verification.valid, "{verification:#?}");
    assert_eq!(job.media_job_id, content.canonical_id);
    assert_eq!(plan.api_surface, ApiSurface::OpenAiImages);
    assert_eq!(plan.modalities_out, vec![Modality::Image]);
    assert!(plan.valid);
    assert!(plan.allowed_event_types.contains(&StreamingEventType::Completed));
}

#[test]
fn rejects_missing_audio_input_ref() {
    let mut o = options(MediaTask::AudioTranscription);
    o.package_id = Some("hivemind/transcribe".to_string());
    o.model_alias = Some("hivemind/audio".to_string());
    o.response_format = Some("text".to_string());
    o.count = Some(1);
    let mut job = create_media_job(o, "2025-06-01T00:00:00Z".to_string());
    let content = sign(&mut job, "audio");
    let verification = verify_media_job(&job, &content, "t".to_string());

    assert!(!verification.valid);
    assert!(verification.issues.iter().any(|issue| issue.path == "$.input.inputRef"));
}

#[test]
fn identity_signed_media_job_verifies_and_detects_tampering() {
    let mut o = options(MediaTask::TextToSpeech);
    o.package_ref = Some("bzz://speech-package".to_string());
    o.package_id = Some("hivemind/speech".to_string());
    o.package_version = Some("0.1.0".to_string());
    o.text = Some("hello".to_string());
    o.response_format = Some("audio_ref".to_string());
    o.output_ref = Some("local://media/output/audio".to_string());
    o.count = Some(1);
    o.voice = Some("alloy".to_string());
    o.audio_format = Some("mp3".to_string());
    let mut job = create_media_job(o, "2025-06-01T00:00:00Z".to_string());
    job.media_job_id = "media-job-speech".to_string();
    job.signature = Some("ed25519-envelope:local-dev".to_string());
    let signed = SignedContent {
        canonical_id: "media-job-speech".to_string(),
        dev_signature: "dev-media-job-signature-v1:speech".to_string(),
        identity_check: Some(IdentitySignatureCheck { payload_hash: "abc".to_string(), issues: Vec::new() }),
    };
    let verification = verify_media_job(&job, &signed, "t".to_string());
    assert!(verification.valid, "{verification:#?}");

    job.input.text = Some("tampered".to_string());
    let tampered = SignedContent {
        canonical_id: "media-job-speech-tampered".to_string(),
        dev_signature: "dev-media-job-signature-v1:tampered".to_string(),
        identity_check: Some(IdentitySignatureCheck {
            payload_hash: "bad".to_string(),
            issues: vec![MarketplaceVerificationIssueV1 {
                path: "$".to_string(),
                message: "Signature does not verify".to_string(),
            }],
        }),
    };
    let verification = verify_media_job(&job, &tampered, "t".to_string());
    assert!(!verification.valid);
}

#[test]
fn dedup_keeps_first_occurrences_in_order() {
    let mut values = vec![
        "b".to_string(),
        "a".to_string(),
        "b".to_string(),
        "c".to_string(),
        "a".to_string(),
    ];
    dedup(&mut values);
    assert_eq!(values, vec!["b".to_string(), "a".to_string(), "c".to_string()]);
    let mut once = values.clone();
    dedup(&mut once);
    assert_eq!(once, values);
}

#[test]
fn json_paths_are_recognized_by_extension() {
    assert!(is_json_path("job.json"));
    assert!(is_json_path("JOB.JSON"));
    assert!(is_json_path("a.b.Json"));
    assert!(!is_json_path("job.jsonl"));
    assert!(!is_json_path("job"));
    assert!(!is_json_path(".json"));
    assert!(!is_json_path("job.txt"));
}

#[test]
fn safe_file_component_replaces_unsafe_characters() {
    assert_eq!(safe_file_component("bzz://pkg/v1"), "bzz---pkg-v1");
    assert_eq!(safe_file_component("Model_2-b"), "Model_2-b");
    assert_eq!(safe_file_component("a b.c"), "a-b-c");
}
