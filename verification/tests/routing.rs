use animatrix::ai::{PolicyMode, ProviderRegistry, TaskKind};
use animatrix::base::{ProviderHealth, ProviderHealthSnapshot, ProviderKind};
use animatrix::router::{AiRouter, ProviderHealthRegistry, RouteRequest};

fn now() -> animatrix::base::Timestamp {
    animatrix::base::Timestamp { secs: 1_700_000_000, nanos: 0 }
}

fn unavailable(provider: ProviderKind) -> ProviderHealthSnapshot {
    ProviderHealthSnapshot {
        provider,
        health: ProviderHealth::Unavailable,
        last_probe_at: Some(now()),
        p95_latency_ms: None,
        failure_rate_bits: 1.0f32.to_bits(),
        quota_remaining: None,
        rate_limit_reset_at: None,
    }
}

fn request(task: TaskKind, preferred: Option<ProviderKind>, policy: PolicyMode, prompt: &str) -> RouteRequest {
    RouteRequest {
        task,
        preferred_provider: preferred,
        policy,
        prompt: prompt.to_string(),
        cost_ceiling_micro_usd: None,
        require_online: false,
        created_at: now(),
    }
}

#[test]
fn router_defaults_to_local_for_unknown_task() {
    let router = AiRouter::new();
    let request = request(TaskKind::Text, None, PolicyMode::Balanced, "Test");
    let result = router.route(&request).unwrap();
    assert!(result.provider != ProviderKind::ComfyUi);
}

#[test]
fn router_returns_error_when_all_unhealthy() {
    let registry = ProviderRegistry::default();
    let health = ProviderHealthRegistry::with_snapshots(vec![
        unavailable(ProviderKind::Local),
        unavailable(ProviderKind::HuggingFace),
        unavailable(ProviderKind::OpenRouter),
        unavailable(ProviderKind::ComfyUi),
        unavailable(ProviderKind::Groq),
        unavailable(ProviderKind::Cerebras),
        unavailable(ProviderKind::Together),
        unavailable(ProviderKind::Fireworks),
        unavailable(ProviderKind::DeepInfra),
        unavailable(ProviderKind::Fal),
        unavailable(ProviderKind::Replicate),
        unavailable(ProviderKind::Custom),
    ]);
    let router = AiRouter::with_health(registry, health);
    let request = request(TaskKind::Text, None, PolicyMode::Balanced, "Test");
    let result = router.route(&request);
    assert!(result.is_err());
}

#[test]
fn router_respects_preferred_provider() {
    let router = AiRouter::new();
    let request = request(TaskKind::Image, Some(ProviderKind::ComfyUi), PolicyMode::QualityFirst, "Test image");
    let result = router.route(&request).unwrap();
    assert_eq!(result.provider, ProviderKind::ComfyUi);
}

#[test]
fn router_avoids_unhealthy_provider() {
    let registry = ProviderRegistry::default();
    let health = ProviderHealthRegistry::with_snapshots(vec![unavailable(ProviderKind::ComfyUi)]);
    let router = AiRouter::with_health(registry, health);
    let request = request(TaskKind::Image, Some(ProviderKind::ComfyUi), PolicyMode::QualityFirst, "Test image");
    let result = router.route(&request).unwrap();
    assert!(result.provider != ProviderKind::ComfyUi);
}

#[test]
fn health_registry_tracks_snapshots() {
    let mut health = ProviderHealthRegistry::new();
    let snapshot = ProviderHealthSnapshot {
        provider: ProviderKind::HuggingFace,
        health: ProviderHealth::Healthy,
        last_probe_at: Some(now()),
        p95_latency_ms: Some(120),
        failure_rate_bits: 0.0f32.to_bits(),
        quota_remaining: Some(950),
        rate_limit_reset_at: None,
    };
    health.update_snapshot(snapshot.clone());
    let fetched = health.get_snapshot(ProviderKind::HuggingFace);
    assert_eq!(fetched, Some(snapshot));
}

#[test]
fn route_result_has_confidence() {
    let router = AiRouter::new();
    let request = request(TaskKind::Text, Some(ProviderKind::Local), PolicyMode::LocalFirst, "Test");
    let result = router.route(&request).unwrap();
    assert!(result.confidence > 0);
    assert!(result.confidence <= 100);
    assert_eq!(result.policy, PolicyMode::LocalFirst);
}

#[test]
fn balanced_text_routing_picks_the_last_best_candidate() {
    // All candidates score 55 under the balanced policy; the last of them is the custom kind,
    // served by the local provider.
    let router = AiRouter::new();
    let result = router.route(&request(TaskKind::Text, None, PolicyMode::Balanced, "Test")).unwrap();
    assert_eq!(result.provider, ProviderKind::Local);
    assert_eq!(result.confidence, 55);
    assert_eq!(result.provider_kind_str, "Local");
    assert_eq!(result.task, TaskKind::Text);
}

#[test]
fn local_first_scores_local_at_eighty() {
    let router = AiRouter::new();
    let result = router.route(&request(TaskKind::Text, Some(ProviderKind::Local), PolicyMode::LocalFirst, "x")).unwrap();
    assert_eq!(result.provider, ProviderKind::Local);
    assert_eq!(result.confidence, 80);
}

#[test]
fn user_selected_and_healthy_scores_are_capped_at_one_hundred() {
    let mut health = ProviderHealthRegistry::new();
    health.update_snapshot(ProviderHealthSnapshot {
        provider: ProviderKind::HuggingFace,
        health: ProviderHealth::Healthy,
        last_probe_at: None,
        p95_latency_ms: None,
        failure_rate_bits: 0,
        quota_remaining: None,
        rate_limit_reset_at: None,
    });
    let router = AiRouter::with_health(ProviderRegistry::default(), health);
    let result = router
        .route(&request(TaskKind::Embedding, Some(ProviderKind::HuggingFace), PolicyMode::UserSelected, "x"))
        .unwrap();
    assert_eq!(result.provider, ProviderKind::HuggingFace);
    // 50 + 20 (healthy) + 40 (user selected) = 110, shown as 100.
    assert_eq!(result.confidence, 100);
}

#[test]
fn fastest_policy_rewards_low_latency() {
    let mut health = ProviderHealthRegistry::new();
    health.update_snapshot(ProviderHealthSnapshot {
        provider: ProviderKind::OpenRouter,
        health: ProviderHealth::Degraded,
        last_probe_at: None,
        p95_latency_ms: Some(505),
        failure_rate_bits: 0,
        quota_remaining: Some(50),
        rate_limit_reset_at: None,
    });
    let router = AiRouter::with_health(ProviderRegistry::default(), health);
    // The preferred kind takes speech-to-text and passes the health check, so it is the only
    // candidate: 50 + 5 (degraded) - 10 (low quota) - 5 (latency 505 ms) = 40.
    let result = router.route(&request(TaskKind::Stt, Some(ProviderKind::OpenRouter), PolicyMode::Fastest, "x")).unwrap();
    assert_eq!(result.provider, ProviderKind::OpenRouter);
    assert_eq!(result.confidence, 40);
}

#[test]
fn tight_budget_penalizes_remote_providers() {
    let router = AiRouter::new();
    let mut req = request(TaskKind::Vision, None, PolicyMode::LocalFirst, "x");
    req.cost_ceiling_micro_usd = Some(5_000);
    // Only remote providers take vision; each scores 50 - 20 - 25 = 5.
    let result = router.route(&req).unwrap();
    assert_eq!(result.confidence, 5);
    assert_eq!(result.provider, ProviderKind::OpenRouter);
    req.cost_ceiling_micro_usd = Some(10_000);
    // A ceiling of one cent is no longer tight: 50 - 20 = 30.
    let result = router.route(&req).unwrap();
    assert_eq!(result.confidence, 30);
}

#[test]
fn no_candidate_error_names_the_task() {
    let registry = ProviderRegistry::default();
    let health = ProviderHealthRegistry::with_snapshots(vec![unavailable(ProviderKind::Local)]);
    let router = AiRouter::with_health(registry, health);
    // Music is taken only by the local provider (for Local and Custom); Custom has no
    // snapshot, so it stays a candidate.
    let result = router.route(&request(TaskKind::Music, None, PolicyMode::Balanced, "x")).unwrap();
    assert_eq!(result.provider, ProviderKind::Local);

    let health = ProviderHealthRegistry::with_snapshots(vec![
        unavailable(ProviderKind::Local),
        unavailable(ProviderKind::Custom),
    ]);
    let router = AiRouter::with_health(ProviderRegistry::default(), health);
    let err = router.route(&request(TaskKind::Music, None, PolicyMode::Balanced, "x")).unwrap_err();
    assert_eq!(err.code, "no_provider");
    assert_eq!(err.message, "no provider supports task: Music");
}

#[test]
fn non_positive_scores_are_refused() {
    let mut health = ProviderHealthRegistry::new();
    health.update_snapshot(ProviderHealthSnapshot {
        provider: ProviderKind::ComfyUi,
        health: ProviderHealth::RateLimited,
        last_probe_at: None,
        p95_latency_ms: None,
        failure_rate_bits: 0,
        quota_remaining: Some(0),
        rate_limit_reset_at: None,
    });
    let router = AiRouter::with_health(ProviderRegistry::default(), health);
    let mut req = request(TaskKind::Video, Some(ProviderKind::ComfyUi), PolicyMode::LocalFirst, "x");
    req.cost_ceiling_micro_usd = Some(1);
    // ComfyUi is admitted (rate limited is not a refusal) and scores 50 - 20 - 30 - 20 - 25 = -45.
    let err = router.route(&req).unwrap_err();
    assert_eq!(err.code, "no_provider");
    assert_eq!(err.message, "no provider passes constraints for task: Video");
}

#[test]
fn update_snapshot_replaces_and_appends() {
    let mut health = ProviderHealthRegistry::new();
    let a = unavailable(ProviderKind::Fal);
    let mut b = unavailable(ProviderKind::Fal);
    b.health = ProviderHealth::Healthy;
    let c = unavailable(ProviderKind::Groq);
    health.update_snapshot(a);
    health.update_snapshot(c);
    health.update_snapshot(b);
    assert_eq!(health.get_snapshot(ProviderKind::Fal), Some(b));
    assert_eq!(health.get_snapshot(ProviderKind::Groq), Some(c));
    assert_eq!(health.get_snapshot(ProviderKind::Local), None);
    assert_eq!(health.healthy_providers(), vec![ProviderKind::Fal]);
}

#[test]
fn scores_reach_both_ends_of_their_range() {
    let snapshot = |provider, health, quota| ProviderHealthSnapshot {
        provider,
        health,
        last_probe_at: None,
        p95_latency_ms: None,
        failure_rate_bits: 0.0f32.to_bits(),
        quota_remaining: quota,
        rate_limit_reset_at: None,
    };
    let health = ProviderHealthRegistry::with_snapshots(vec![
        snapshot(ProviderKind::ComfyUi, ProviderHealth::RateLimited, Some(0)),
        snapshot(ProviderKind::Local, ProviderHealth::Healthy, None),
    ]);
    let router = AiRouter::with_health(ProviderRegistry::default(), health);
    let comfy = animatrix::ai::AnyProvider::ComfyUi(animatrix::ai::ComfyUiProvider);
    let local = animatrix::ai::AnyProvider::Local(animatrix::ai::LocalProvider);

    let mut lowest = request(TaskKind::Image, None, PolicyMode::LocalFirst, "a");
    lowest.cost_ceiling_micro_usd = Some(5_000);
    assert_eq!(router.score_provider(&comfy, &lowest), -45);
    assert_eq!(router.score_provider(&local, &lowest), 100);

    let highest = request(TaskKind::Text, Some(ProviderKind::Local), PolicyMode::UserSelected, "b");
    assert_eq!(router.score_provider(&local, &highest), 110);
    let same_fields = request(TaskKind::Video, Some(ProviderKind::Local), PolicyMode::UserSelected, "other prompt");
    assert_eq!(router.score_provider(&local, &same_fields), 110);
}

#[test]
fn recorded_snapshots_replace_and_report_health() {
    let snap = |health| ProviderHealthSnapshot {
        provider: ProviderKind::Groq,
        health,
        last_probe_at: None,
        p95_latency_ms: None,
        failure_rate_bits: 0,
        quota_remaining: None,
        rate_limit_reset_at: None,
    };
    let mut registry = ProviderHealthRegistry::new();
    registry.update_snapshot(snap(ProviderHealth::Healthy));
    assert_eq!(registry.healthy_providers(), vec![ProviderKind::Groq]);
    registry.update_snapshot(snap(ProviderHealth::Degraded));
    assert!(registry.healthy_providers().is_empty());
    assert_eq!(registry.get_snapshot(ProviderKind::Groq).unwrap().health, ProviderHealth::Degraded);
}
