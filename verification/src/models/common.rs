//! Provider-independent model types: status enums, capability flags, the
//! context window, and performance characteristics.
use vstd::prelude::*;

verus! {

// ---------------------------------------------------------------------------
// Enums
// ---------------------------------------------------------------------------

/// Lifecycle status of a model in the catalog.
#[derive(Debug, Clone, Copy, PartialEq, Eq, Structural)]
pub enum LifecycleStatus {
    Production,
    Preview,
    Experimental,
    Deprecated,
    Sunset,
}

/// Approval status of a model for a tenant.
#[derive(Debug, Clone, Copy, PartialEq, Eq, Structural)]
pub enum ApprovalStatus {
    Pending,
    Approved,
    Rejected,
    Revoked,
}

/// Operational status of a provider.
#[derive(Debug, Clone, Copy, PartialEq, Eq, Structural)]
pub enum ProviderStatus {
    Active,
    Disabled,
}

/// Health status derived from discovery calls.
#[derive(Debug, Clone, Copy, PartialEq, Eq, Structural)]
pub enum ProviderHealthStatus {
    Healthy,
    Degraded,
    Unhealthy,
}

/// API kind that a model exposes. A model may expose several (e.g.
/// `[Completion, Batch]`); each variant is a distinct gateway endpoint
/// family.
#[derive(Debug, Clone, Copy, PartialEq, Eq, Hash, Structural)]
pub enum SupportedApi {
    /// Synchronous chat / responses APIs.
    Completion,
    /// Embedding APIs.
    Embedding,
    /// Asynchronous batch API; may coexist with `Completion` / `Embedding`.
    Batch,
}

/// Unified reasoning effort level, the levels every provider understands.
/// Wire format is lowercase (`"none" | "low" | "medium" | "high" | "xhigh"`);
/// `Off` is the level written `"none"`.
#[derive(Debug, Clone, Copy, PartialEq, Eq, Structural)]
pub enum ReasoningEffort {
    /// No reasoning.
    Off,
    Low,
    Medium,
    High,
    XHigh,
}

/// Service tier in the unified two-variant shape. Wire format is lowercase
/// (`"auto" | "default"`).
#[derive(Debug, Clone, Copy, PartialEq, Eq, Structural)]
pub enum ServiceTier {
    Auto,
    Default,
}

// ---------------------------------------------------------------------------
// Capabilities
// ---------------------------------------------------------------------------

/// Reasoning sub-capabilities indicating which reasoning controls the model
/// accepts.
#[derive(Debug, Clone, Copy, PartialEq, Eq, Structural)]
pub struct ReasoningCapability {
    /// Supports `reasoning_effort` parameter (low/medium/high).
    pub effort: bool,
    /// Supports toggling reasoning on/off.
    pub toggle: bool,
    /// Supports resuming/continuing a reasoning chain.
    pub resume: bool,
    /// Supports explicit reasoning token budget.
    pub budget: bool,
}

/// Web search capability flags. The allow-list and deny-list flags are
/// independent of each other.
#[derive(Debug, Clone, Copy, PartialEq, Eq, Structural)]
pub struct WebSearchCapability {
    /// Whether web search is available.
    pub enabled: bool,
    /// Whether an allow-list of domains can restrict the search.
    pub allowed_domains: bool,
    /// Whether a deny-list of domains can be excluded from the search.
    pub excluded_domains: bool,
}

/// Shared shape for media-typed capabilities (`vision`, `file_input`,
/// `image_generation`, `audio_input`, `audio_output`): whether the
/// capability is available and which media types (RFC 6838 names) it
/// accepts or produces. An empty list means the provider surfaces no
/// per-type list.
#[derive(Debug, Clone, PartialEq, Eq)]
pub struct MediaCapability {
    /// Whether the capability is available.
    pub enabled: bool,
    /// Accepted (or produced) media types.
    pub supported_mime_types: Vec<String>,
}

impl Default for MediaCapability {
    /// Disabled, with no media types.
    fn default() -> (r: Self)
        ensures
            !r.enabled,
            r.supported_mime_types@ == Seq::<String>::empty(),
    {
        MediaCapability { enabled: false, supported_mime_types: Vec::new() }
    }
}

/// Capability flags describing what the model can do.
#[derive(Debug, Clone, PartialEq, Eq)]
pub struct ModelCapabilities {
    /// Image/vision input.
    pub vision: MediaCapability,
    /// Reasoning controls (effort, toggle, resume, budget).
    pub reasoning: ReasoningCapability,
    /// Supports function/tool calling.
    pub function_calling: bool,
    /// Supports structured output via response schema (JSON schema).
    pub response_schema: bool,
    /// Supports streaming responses.
    pub streaming: bool,
    /// File input (e.g. PDFs, documents).
    pub file_input: MediaCapability,
    /// Image generation.
    pub image_generation: MediaCapability,
    /// Audio input (speech-to-text, audio understanding).
    pub audio_input: MediaCapability,
    /// Audio output (text-to-speech).
    pub audio_output: MediaCapability,
    /// Supports code interpreter / sandboxed execution.
    pub code_interpreter: bool,
    /// Web search capability.
    pub web_search: WebSearchCapability,
}

// ---------------------------------------------------------------------------
// Context Window
// ---------------------------------------------------------------------------

/// Token limits for the model's context window.
#[derive(Debug, Clone, Copy, PartialEq, Eq, Structural)]
pub struct ContextWindow {
    pub max_input_tokens: u32,
    /// Maximum output tokens. `None` for embedding models that produce
    /// vectors instead of token sequences.
    pub max_output_tokens: Option<u32>,
    /// Output vector dimensionality for embedding models.
    pub output_vector_size: Option<u32>,
}

// ---------------------------------------------------------------------------
// Performance
// ---------------------------------------------------------------------------

/// Estimated performance characteristics.
#[derive(Debug, Clone, Copy, PartialEq, Eq, Structural)]
pub struct ModelPerformance {
    /// Expected response latency in milliseconds.
    pub response_latency_ms: Option<u32>,
    /// Expected generation speed in tokens per second.
    pub tokens_per_second: Option<u32>,
}

} // verus!
