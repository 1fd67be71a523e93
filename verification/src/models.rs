//! Public models for the `model-registry` module.
//!
//! Transport-agnostic data structures that define the contract between the
//! registry and its consumers. This module keeps the first-generation shapes
//! (`ApiResolution`, boolean capability flags, `ModelCost`, the four-tier
//! `ServiceTier`); the types whose shape did not change since are shared with
//! the submodules and re-exported here.
use vstd::prelude::*;

pub mod common;
pub mod default_parameters;
pub mod provider_settings;
pub mod providers;
pub mod request;

pub use self::common::{
    ApprovalStatus, ContextWindow, LifecycleStatus, ModelPerformance, ProviderHealthStatus,
    ProviderStatus, ReasoningCapability, ReasoningEffort,
};
pub use self::request::{
    CreateAliasRequest, CreateProviderRequest, CreateProviderRequestBuilder, UpdateProviderRequest,
};

verus! {

// ---------------------------------------------------------------------------
// Enums
// ---------------------------------------------------------------------------

/// API type that a model supports.
#[derive(Debug, Clone, Copy, PartialEq, Eq, Hash, Structural)]
pub enum SupportedApi {
    Completion,
    Embedding,
}

/// Service tier for request routing.
#[derive(Debug, Clone, Copy, PartialEq, Eq, Structural)]
pub enum ServiceTier {
    Auto,
    Default,
    Flex,
    Priority,
}

// ---------------------------------------------------------------------------
// API Resolution
// ---------------------------------------------------------------------------

/// Routing and resolution information for calling the model via OAGW.
#[derive(Debug, Clone, PartialEq)]
pub struct ApiResolution {
    /// Which API types this model supports (e.g. completion, embedding).
    pub supported_api: Vec<SupportedApi>,
    /// Provider plugin family that handles requests for this model
    /// (e.g. `"openai"`, `"anthropic"`, `"ollama"`).
    pub api_family: String,
    /// OAGW upstream alias that provides credentials and base URL routing.
    pub oagw_alias: String,
    /// Provider's model identifier, used in `canonical_id`
    /// (`{provider_slug}::{provider_model_id}`) and sent to the provider.
    pub provider_model_id: String,
}

// ---------------------------------------------------------------------------
// Capabilities
// ---------------------------------------------------------------------------

/// Web search capability flags.
#[derive(Debug, Clone, Copy, PartialEq, Eq, Structural)]
pub struct WebSearchCapability {
    pub enabled: bool,
    /// Whether the model supports configuring allowed domains for web search.
    pub allowed_domains: bool,
}

/// Capability flags describing what the model can do.
#[derive(Debug, Clone, Copy, PartialEq, Eq, Structural)]
pub struct ModelCapabilities {
    /// Supports image/vision input.
    pub vision: bool,
    /// Reasoning controls (effort, toggle, resume, budget).
    pub reasoning: ReasoningCapability,
    /// Supports function/tool calling.
    pub function_calling: bool,
    /// Supports structured output via response schema (JSON schema).
    pub response_schema: bool,
    /// Supports streaming responses.
    pub streaming: bool,
    /// Supports file input (e.g. PDFs, documents).
    pub file_input: bool,
    /// Can generate images.
    pub image_generation: bool,
    /// Supports code interpreter / sandboxed execution.
    pub code_interpreter: bool,
    /// Web search capability.
    pub web_search: WebSearchCapability,
}

// ---------------------------------------------------------------------------
// Cost
// ---------------------------------------------------------------------------

/// Token pricing in micro-credits per 1K tokens, scaled by 1,000,000 to
/// avoid floating point (`1_000_000` is a 1.0x multiplier).
#[derive(Debug, Clone, Copy, PartialEq, Eq, Structural)]
pub struct ModelCost {
    /// Micro-credits per 1K input tokens.
    pub input_token_cost_micro: Option<u64>,
    /// Micro-credits per 1K output tokens.
    pub output_token_cost_micro: Option<u64>,
    /// Micro-credits per 1K cached input tokens.
    pub cached_input_token_cost_micro: Option<u64>,
}

// ---------------------------------------------------------------------------
// Domain entities
// ---------------------------------------------------------------------------

/// Result of a model discovery run against a provider.
#[derive(Debug, PartialEq, Eq)]
pub struct DiscoveryResult {
    pub provider_id: uuid::Uuid,
    pub models_discovered: u32,
    pub models_added: u32,
    pub models_updated: u32,
    pub models_deprecated: u32,
}

impl Clone for DiscoveryResult {
    /// A copy with the same provider id and counts.
    fn clone(&self) -> (r: Self)
        ensures
            r == *self,
    {
        DiscoveryResult {
            provider_id: self.provider_id.clone(),
            models_discovered: self.models_discovered,
            models_added: self.models_added,
            models_updated: self.models_updated,
            models_deprecated: self.models_deprecated,
        }
    }
}

} // verus!
