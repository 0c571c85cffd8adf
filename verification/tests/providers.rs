use animatrix::ai::{
    ComfyUiProvider, HuggingFaceProvider, LocalProvider, ModelRequest, OpenRouterProvider, PolicyMode,
    Provider, ProviderRegistry, TaskKind,
};
use animatrix::base::ProviderKind;

fn now() -> animatrix::base::Timestamp {
    animatrix::base::Timestamp { secs: 1_700_000_000, nanos: 0 }
}

#[test]
fn request_defaults_to_balanced_policy() {
    let req = ModelRequest {
        task: TaskKind::Image,
        preferred_provider: Some(ProviderKind::Local),
        policy: PolicyMode::Balanced,
        prompt: "A clean explainer frame".to_string(),
        created_at: now(),
    };
    assert_eq!(req.task, TaskKind::Image);
    assert_eq!(req.policy, PolicyMode::Balanced);
}

#[test]
fn local_provider_handles_video_requests() {
    let provider = LocalProvider;
    let request = ModelRequest {
        task: TaskKind::Video,
        preferred_provider: Some(ProviderKind::Local),
        policy: PolicyMode::LocalFirst,
        prompt: "Render a short product teaser.".to_string(),
        created_at: now(),
    };
    let response = provider.run(request);
    assert_eq!(response.provider, ProviderKind::Local);
    assert_eq!(response.task, TaskKind::Video);
    assert_eq!(response.status, "queued");
}

#[test]
fn provider_registry_falls_back_to_local() {
    let registry = ProviderRegistry::default();
    let provider = registry.resolve(None);
    assert_eq!(provider.provider_kind(), ProviderKind::Local);
}

#[test]
fn provider_registry_resolves_non_local_provider() {
    let registry = ProviderRegistry::default();
    let provider = registry.resolve(Some(ProviderKind::OpenRouter));
    assert_eq!(provider.provider_kind(), ProviderKind::OpenRouter);
    assert!(provider.supports(TaskKind::Vision));
}

#[test]
fn comfy_ui_provider_supports_image_generation() {
    let provider = ComfyUiProvider;
    let request = ModelRequest {
        task: TaskKind::Image,
        preferred_provider: Some(ProviderKind::ComfyUi),
        policy: PolicyMode::QualityFirst,
        prompt: "Generate a polished product shot".to_string(),
        created_at: now(),
    };
    let response = provider.run(request);
    assert_eq!(response.provider, ProviderKind::ComfyUi);
    assert_eq!(response.task, TaskKind::Image);
}

fn is_hyphenated_uuid(text: &str) -> bool {
    text.len() == 36
        && text.char_indices().all(|(i, c)| {
            if i == 8 || i == 13 || i == 18 || i == 23 {
                c == '-'
            } else {
                c.is_ascii_hexdigit() && !c.is_ascii_uppercase()
            }
        })
}

#[test]
fn job_ids_carry_the_provider_prefix_and_a_uuid() {
    let request = |task| ModelRequest {
        task,
        preferred_provider: None,
        policy: PolicyMode::Balanced,
        prompt: "p".to_string(),
        created_at: now(),
    };
    let cases: Vec<(String, &str)> = vec![
        (LocalProvider.run(request(TaskKind::Text)).job_id, "local-"),
        (OpenRouterProvider.run(request(TaskKind::Text)).job_id, "openrouter-"),
        (HuggingFaceProvider.run(request(TaskKind::Text)).job_id, "hf-"),
        (ComfyUiProvider.run(request(TaskKind::Image)).job_id, "comfy-"),
    ];
    for (job_id, prefix) in cases {
        assert!(job_id.starts_with(prefix));
        assert!(is_hyphenated_uuid(&job_id[prefix.len()..]));
    }
}

#[test]
fn registry_serves_every_kind() {
    let registry = ProviderRegistry::default();
    let expected = [
        (ProviderKind::Local, ProviderKind::Local),
        (ProviderKind::HuggingFace, ProviderKind::HuggingFace),
        (ProviderKind::ComfyUi, ProviderKind::ComfyUi),
        (ProviderKind::Groq, ProviderKind::OpenRouter),
        (ProviderKind::Cerebras, ProviderKind::OpenRouter),
        (ProviderKind::Together, ProviderKind::HuggingFace),
        (ProviderKind::Fireworks, ProviderKind::OpenRouter),
        (ProviderKind::DeepInfra, ProviderKind::HuggingFace),
        (ProviderKind::Fal, ProviderKind::OpenRouter),
        (ProviderKind::Replicate, ProviderKind::ComfyUi),
        (ProviderKind::OpenRouter, ProviderKind::OpenRouter),
        (ProviderKind::Custom, ProviderKind::Local),
    ];
    for (asked, served) in expected {
        assert_eq!(registry.resolve(Some(asked)).provider_kind(), served);
    }
}

#[test]
fn providers_support_their_tasks() {
    assert!(LocalProvider.supports(TaskKind::Music));
    assert!(!LocalProvider.supports(TaskKind::Vision));
    assert!(OpenRouterProvider.supports(TaskKind::Stt));
    assert!(!OpenRouterProvider.supports(TaskKind::Image));
    assert!(HuggingFaceProvider.supports(TaskKind::Embedding));
    assert!(!HuggingFaceProvider.supports(TaskKind::Video));
    assert!(ComfyUiProvider.supports(TaskKind::Video));
    assert!(!ComfyUiProvider.supports(TaskKind::Text));
}
