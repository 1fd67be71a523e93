use model_registry_sdk::models::{
    ApiResolution, ApprovalStatus, ContextWindow, CreateAliasRequest, CreateProviderRequest,
    DiscoveryResult, LifecycleStatus, ModelCapabilities, ModelCost, ModelPerformance,
    ProviderHealthStatus, ProviderStatus, ReasoningCapability, ReasoningEffort, ServiceTier,
    SupportedApi, UpdateProviderRequest, WebSearchCapability,
};

fn sample_api_resolution() -> ApiResolution {
    ApiResolution {
        supported_api: vec![SupportedApi::Completion],
        api_family: "openai".into(),
        oagw_alias: "openai-prod".into(),
        provider_model_id: "gpt-4o".into(),
    }
}

fn sample_context_window() -> ContextWindow {
    ContextWindow {
        max_input_tokens: 128_000,
        max_output_tokens: Some(16_384),
        output_vector_size: None,
    }
}

fn sample_cost() -> ModelCost {
    ModelCost {
        input_token_cost_micro: Some(2_500_000),
        output_token_cost_micro: Some(10_000_000),
        cached_input_token_cost_micro: Some(1_250_000),
    }
}

// ── Enum equality ──

#[test]
fn models_lifecycle_status_equality() {
    assert_eq!(LifecycleStatus::Production, LifecycleStatus::Production);
    assert_ne!(LifecycleStatus::Production, LifecycleStatus::Deprecated);
}

#[test]
fn models_approval_status_equality() {
    assert_eq!(ApprovalStatus::Approved, ApprovalStatus::Approved);
    assert_ne!(ApprovalStatus::Pending, ApprovalStatus::Rejected);
}

#[test]
fn models_provider_status_equality() {
    assert_eq!(ProviderStatus::Active, ProviderStatus::Active);
    assert_ne!(ProviderStatus::Active, ProviderStatus::Disabled);
}

#[test]
fn models_provider_health_status_equality() {
    assert_eq!(ProviderHealthStatus::Healthy, ProviderHealthStatus::Healthy);
    assert_ne!(
        ProviderHealthStatus::Healthy,
        ProviderHealthStatus::Degraded
    );
}

#[test]
fn models_supported_api_equality_and_hash() {
    assert_eq!(SupportedApi::Completion, SupportedApi::Completion);
    assert_ne!(SupportedApi::Completion, SupportedApi::Embedding);

    let mut set = std::collections::HashSet::new();
    set.insert(SupportedApi::Completion);
    set.insert(SupportedApi::Embedding);
    set.insert(SupportedApi::Completion);
    assert_eq!(set.len(), 2);
}

#[test]
fn models_reasoning_effort_equality() {
    assert_eq!(ReasoningEffort::High, ReasoningEffort::High);
    assert_ne!(ReasoningEffort::Low, ReasoningEffort::XHigh);
    assert_ne!(ReasoningEffort::Off, ReasoningEffort::Medium);
}

#[test]
fn models_service_tier_equality() {
    assert_eq!(ServiceTier::Default, ServiceTier::Default);
    assert_ne!(ServiceTier::Flex, ServiceTier::Priority);
}

// ── API Resolution ──

#[test]
fn api_resolution_fields() {
    let ar = sample_api_resolution();
    assert_eq!(ar.supported_api, vec![SupportedApi::Completion]);
    assert_eq!(ar.api_family, "openai");
    assert_eq!(ar.oagw_alias, "openai-prod");
    assert_eq!(ar.provider_model_id, "gpt-4o");
}

#[test]
fn api_resolution_multiple_apis() {
    let ar = ApiResolution {
        supported_api: vec![SupportedApi::Completion, SupportedApi::Embedding],
        api_family: "openai".into(),
        oagw_alias: "openai-prod".into(),
        provider_model_id: "text-embedding-3-large".into(),
    };
    assert_eq!(ar.supported_api.len(), 2);
}

// ── Capabilities ──

#[test]
fn models_capabilities_reasoning_all_false() {
    let r = ReasoningCapability {
        effort: false,
        toggle: false,
        resume: false,
        budget: false,
    };
    assert!(!r.effort);
    assert!(!r.toggle);
    assert!(!r.resume);
    assert!(!r.budget);
}

#[test]
fn capabilities_reasoning_model() {
    let caps = ModelCapabilities {
        vision: false,
        reasoning: ReasoningCapability {
            effort: true,
            toggle: true,
            resume: false,
            budget: true,
        },
        function_calling: true,
        response_schema: true,
        streaming: true,
        file_input: false,
        image_generation: false,
        code_interpreter: false,
        web_search: WebSearchCapability {
            enabled: false,
            allowed_domains: false,
        },
    };
    assert!(caps.reasoning.effort);
    assert!(caps.reasoning.toggle);
    assert!(caps.reasoning.budget);
}

#[test]
fn models_web_search_with_domain_support() {
    let ws = WebSearchCapability {
        enabled: true,
        allowed_domains: true,
    };
    assert!(ws.enabled);
    assert!(ws.allowed_domains);
}

#[test]
fn models_web_search_no_domain_support() {
    let ws = WebSearchCapability {
        enabled: true,
        allowed_domains: false,
    };
    assert!(ws.enabled);
    assert!(!ws.allowed_domains);
}

// ── Context Window ──

#[test]
fn models_context_window_completion_model() {
    let cw = sample_context_window();
    assert_eq!(cw.max_input_tokens, 128_000);
    assert_eq!(cw.max_output_tokens, Some(16_384));
    assert!(cw.output_vector_size.is_none());
}

#[test]
fn models_context_window_embedding_model() {
    let cw = ContextWindow {
        max_input_tokens: 8191,
        max_output_tokens: None,
        output_vector_size: Some(3072),
    };
    assert!(cw.max_output_tokens.is_none());
    assert_eq!(cw.output_vector_size, Some(3072));
}

// ── Cost ──

#[test]
fn model_cost_all_present() {
    let cost = sample_cost();
    assert_eq!(cost.input_token_cost_micro, Some(2_500_000));
    assert_eq!(cost.output_token_cost_micro, Some(10_000_000));
    assert_eq!(cost.cached_input_token_cost_micro, Some(1_250_000));
}

#[test]
fn model_cost_free_model() {
    let cost = ModelCost {
        input_token_cost_micro: None,
        output_token_cost_micro: None,
        cached_input_token_cost_micro: None,
    };
    assert!(cost.input_token_cost_micro.is_none());
}

#[test]
fn model_performance_fields() {
    let perf = ModelPerformance {
        response_latency_ms: Some(200),
        tokens_per_second: Some(150),
    };
    assert_eq!(perf.response_latency_ms, Some(200));
    assert_eq!(perf.tokens_per_second, Some(150));
}

// ── Provider ──

#[test]
fn models_create_provider_request_builder() {
    let req = CreateProviderRequest::builder(
        "openai",
        "OpenAI",
        "gts.x.genai.models.provider.v1~x.genai._.openai.v1~",
        "openai-prod",
    )
    .managed(false)
    .discovery_enabled(true)
    .discovery_interval_seconds(3600)
    .build();

    assert_eq!(req.slug(), "openai");
    assert_eq!(req.name(), "OpenAI");
    assert_eq!(req.oagw_alias(), "openai-prod");
    assert!(req.discovery_enabled());
    assert_eq!(req.discovery_interval_seconds(), Some(3600));
    assert!(!req.managed());
}

#[test]
fn models_create_provider_request_defaults() {
    let req = CreateProviderRequest::builder(
        "ollama",
        "Ollama Local",
        "gts.x.genai.models.provider.v1~x.genai.local.provider.v1~",
        "ollama-local",
    )
    .build();

    assert!(!req.managed());
    assert!(!req.discovery_enabled());
    assert_eq!(req.discovery_interval_seconds(), None);
    assert!(req.metadata().is_none());
}

#[test]
fn models_update_provider_request_default_is_empty() {
    let req = UpdateProviderRequest::default();
    assert!(req.name.is_none());
    assert!(req.oagw_alias.is_none());
    assert!(req.status.is_none());
    assert!(req.managed.is_none());
    assert!(req.metadata.is_none());
    assert!(req.discovery_enabled.is_none());
    assert!(req.discovery_interval_seconds.is_none());
}

#[test]
fn models_create_alias_request() {
    let req = CreateAliasRequest {
        name: "gpt4".into(),
        canonical_id: "openai::gpt-4o".into(),
    };
    assert_eq!(req.name, "gpt4");
    assert_eq!(req.canonical_id, "openai::gpt-4o");
}

#[test]
fn discovery_result_fields() {
    let result = DiscoveryResult {
        provider_id: uuid::Uuid::nil(),
        models_discovered: 10,
        models_added: 3,
        models_updated: 5,
        models_deprecated: 2,
    };
    assert_eq!(result.models_discovered, 10);
    assert_eq!(result.models_added, 3);
}
