use model_registry_sdk::models::common::{
    ApprovalStatus, ContextWindow, LifecycleStatus, MediaCapability, ModelCapabilities,
    ProviderHealthStatus, ProviderStatus, ReasoningCapability, ReasoningEffort, ServiceTier,
    SupportedApi, WebSearchCapability,
};

#[test]
fn common_lifecycle_status_equality() {
    assert_eq!(LifecycleStatus::Production, LifecycleStatus::Production);
    assert_ne!(LifecycleStatus::Production, LifecycleStatus::Deprecated);
}

#[test]
fn common_approval_status_equality() {
    assert_eq!(ApprovalStatus::Approved, ApprovalStatus::Approved);
    assert_ne!(ApprovalStatus::Pending, ApprovalStatus::Rejected);
}

#[test]
fn common_provider_status_equality() {
    assert_eq!(ProviderStatus::Active, ProviderStatus::Active);
    assert_ne!(ProviderStatus::Active, ProviderStatus::Disabled);
}

#[test]
fn common_provider_health_status_equality() {
    assert_eq!(ProviderHealthStatus::Healthy, ProviderHealthStatus::Healthy);
    assert_ne!(
        ProviderHealthStatus::Healthy,
        ProviderHealthStatus::Degraded
    );
}

#[test]
fn common_supported_api_equality_and_hash() {
    assert_eq!(SupportedApi::Completion, SupportedApi::Completion);
    assert_ne!(SupportedApi::Completion, SupportedApi::Embedding);
    assert_ne!(SupportedApi::Completion, SupportedApi::Batch);
    assert_ne!(SupportedApi::Embedding, SupportedApi::Batch);

    let mut set = std::collections::HashSet::new();
    set.insert(SupportedApi::Completion);
    set.insert(SupportedApi::Embedding);
    set.insert(SupportedApi::Batch);
    set.insert(SupportedApi::Completion);
    assert_eq!(set.len(), 3);
}

#[test]
fn supported_api_batch_can_coexist() {
    let api = [SupportedApi::Completion, SupportedApi::Batch];
    assert!(api.contains(&SupportedApi::Completion));
    assert!(api.contains(&SupportedApi::Batch));
    assert!(!api.contains(&SupportedApi::Embedding));
}

#[test]
fn common_reasoning_effort_equality() {
    assert_eq!(ReasoningEffort::High, ReasoningEffort::High);
    assert_ne!(ReasoningEffort::Low, ReasoningEffort::XHigh);
    assert_ne!(ReasoningEffort::Off, ReasoningEffort::Medium);
}

#[test]
fn common_service_tier_equality() {
    assert_eq!(ServiceTier::Auto, ServiceTier::Auto);
    assert_eq!(ServiceTier::Default, ServiceTier::Default);
    assert_ne!(ServiceTier::Auto, ServiceTier::Default);
}

#[test]
fn service_tier_only_two_variants() {
    let auto = ServiceTier::Auto;
    let default = ServiceTier::Default;
    // Exhaustive match: a third variant would stop this from compiling.
    match auto {
        ServiceTier::Auto | ServiceTier::Default => {}
    }
    assert_ne!(auto, default);
}

#[test]
fn common_capabilities_reasoning_all_false() {
    let r = ReasoningCapability {
        effort: false,
        toggle: false,
        resume: false,
        budget: false,
    };
    assert!(!r.effort);
    assert!(!r.toggle);
    assert!(!r.resume);
    assert!(!r.budget);
}

#[test]
fn common_web_search_with_domain_support() {
    let ws = WebSearchCapability {
        enabled: true,
        allowed_domains: true,
        excluded_domains: true,
    };
    assert!(ws.enabled);
    assert!(ws.allowed_domains);
    assert!(ws.excluded_domains);
}

#[test]
fn common_web_search_no_domain_support() {
    let ws = WebSearchCapability {
        enabled: true,
        allowed_domains: false,
        excluded_domains: false,
    };
    assert!(ws.enabled);
    assert!(!ws.allowed_domains);
    assert!(!ws.excluded_domains);
}

#[test]
fn web_search_allow_only() {
    let ws = WebSearchCapability {
        enabled: true,
        allowed_domains: true,
        excluded_domains: false,
    };
    assert!(ws.allowed_domains);
    assert!(!ws.excluded_domains);
}

#[test]
fn media_capability_default_is_disabled_and_empty() {
    let m = MediaCapability::default();
    assert!(!m.enabled);
    assert!(m.supported_mime_types.is_empty());
}

#[test]
fn model_capabilities_holds_media_typed_fields() {
    let caps = ModelCapabilities {
        vision: MediaCapability {
            enabled: true,
            supported_mime_types: vec!["image/png".into()],
        },
        reasoning: ReasoningCapability {
            effort: false,
            toggle: false,
            resume: false,
            budget: false,
        },
        function_calling: true,
        response_schema: false,
        streaming: true,
        file_input: MediaCapability {
            enabled: true,
            supported_mime_types: vec!["application/pdf".into()],
        },
        image_generation: MediaCapability::default(),
        audio_input: MediaCapability {
            enabled: true,
            supported_mime_types: vec!["audio/mpeg".into(), "audio/wav".into()],
        },
        audio_output: MediaCapability::default(),
        code_interpreter: false,
        web_search: WebSearchCapability {
            enabled: true,
            allowed_domains: true,
            excluded_domains: false,
        },
    };
    assert!(caps.vision.enabled);
    assert_eq!(caps.audio_input.supported_mime_types.len(), 2);
    assert!(!caps.image_generation.enabled);
    assert!(caps.image_generation.supported_mime_types.is_empty());
}

#[test]
fn common_context_window_completion_model() {
    let cw = ContextWindow {
        max_input_tokens: 128_000,
        max_output_tokens: Some(16_384),
        output_vector_size: None,
    };
    assert_eq!(cw.max_input_tokens, 128_000);
    assert_eq!(cw.max_output_tokens, Some(16_384));
    assert!(cw.output_vector_size.is_none());
}

#[test]
fn common_context_window_embedding_model() {
    let cw = ContextWindow {
        max_input_tokens: 8191,
        max_output_tokens: None,
        output_vector_size: Some(3072),
    };
    assert!(cw.max_output_tokens.is_none());
    assert_eq!(cw.output_vector_size, Some(3072));
}
