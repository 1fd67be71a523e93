//! Model Registry SDK
//!
//! The public data model of the `model-registry` module: status enums,
//! capability flags, context window, cost and performance types, the
//! unified default-parameter vocabulary, the raw provider-settings carrier,
//! the `OpenAI` provider vocabulary, and the request DTOs that callers hand
//! to the registry (with the `CreateProviderRequest` builder).

pub mod external;
pub mod models;

pub use models::{
    ApiResolution, ApprovalStatus, ContextWindow, CreateAliasRequest, CreateProviderRequest,
    CreateProviderRequestBuilder, DiscoveryResult, LifecycleStatus, ModelCapabilities, ModelCost,
    ModelPerformance, ProviderHealthStatus, ProviderStatus, ReasoningCapability, ReasoningEffort,
    ServiceTier, SupportedApi, UpdateProviderRequest, WebSearchCapability,
};
