//! `OpenAI` provider-wire vocabulary: endpoint kinds, the five-tier service
//! tier, the six-level reasoning effort, prompt-cache retention, embedding
//! encoding, response format and the micro-credit pricing table.
use vstd::prelude::*;

verus! {

/// Which `OpenAI` surface a connection points at.
#[derive(Debug, Clone, Copy, PartialEq, Eq, Structural)]
pub enum OpenAiEndpoint {
    /// Legacy `/v1/chat/completions`.
    ChatCompletions,
    /// `/v1/responses` (Responses API).
    Responses,
    /// `/v1/embeddings`.
    Embeddings,
}

/// `OpenAI`-specific service tier in the provider-wire shape (five
/// variants; `Scale` is distinct from `Priority`).
#[derive(Debug, Clone, Copy, PartialEq, Eq, Structural)]
pub enum OpenAiServiceTier {
    Auto,
    Default,
    Flex,
    Scale,
    Priority,
}

/// `OpenAI`-specific reasoning effort for o-series and gpt-5 reasoning
/// models (six levels; `Minimal` sits between `Off` and `Low`). `Off` is the
/// level written `None` on the wire.
#[derive(Debug, Clone, Copy, PartialEq, Eq, Structural)]
pub enum OpenAiReasoningEffort {
    /// No reasoning.
    Off,
    Minimal,
    Low,
    Medium,
    High,
    XHigh,
}

/// `OpenAI` prompt-cache retention policy.
#[derive(Debug, Clone, Copy, PartialEq, Eq, Structural)]
pub enum OpenAiPromptCacheRetention {
    /// Default in-memory window (cleared frequently).
    InMemory,
    /// Extended caching: prefixes kept alive for up to 24 hours.
    TwentyFourHours,
}

/// Wire format used to return embedding vectors.
#[derive(Debug, Clone, Copy, PartialEq, Eq, Structural)]
pub enum OpenAiEmbeddingEncoding {
    /// JSON array of floats (default).
    Float,
    /// Base64-encoded little-endian float32 buffer.
    Base64,
}

/// `response_format` shape supported by Chat Completions / Responses.
#[derive(Debug, Clone, PartialEq)]
pub enum OpenAiResponseFormat {
    /// Plain text, the provider default.
    Text,
    /// `{ "type": "json_object" }`: JSON-mode.
    JsonObject,
    /// `{ "type": "json_schema", "json_schema": {...} }`: schema-bound output.
    JsonSchema(serde_json::Value),
}

/// `OpenAI` pricing in micro-credits (scaled by 1,000,000 to avoid floating
/// point). Token rates are per 1K tokens; built-in-tool rates are per 1K
/// calls. Long-context rates apply when the input length exceeds
/// `long_context_threshold_tokens`.
#[derive(Debug, Clone, Copy, PartialEq, Eq, Structural)]
pub struct OpenAiCost {
    pub input_per_1k_micro: Option<u64>,
    pub cached_input_per_1k_micro: Option<u64>,
    pub output_per_1k_micro: Option<u64>,
    /// Input rate above the long-context threshold.
    pub long_context_input_per_1k_micro: Option<u64>,
    /// Cached-input rate above the long-context threshold.
    pub long_context_cached_input_per_1k_micro: Option<u64>,
    /// Output rate above the long-context threshold.
    pub long_context_output_per_1k_micro: Option<u64>,
    /// Input-token boundary above which the long-context rates apply.
    pub long_context_threshold_tokens: Option<u32>,
    /// Built-in web-search tool charge per 1,000 invocations.
    pub web_search_per_1k_calls_micro: Option<u64>,
    /// Built-in file-search tool charge per 1,000 invocations.
    pub file_search_per_1k_calls_micro: Option<u64>,
}

impl OpenAiCost {
    /// No rate is set.
    pub open spec fn is_unpriced(self) -> bool {
        &&& self.input_per_1k_micro is None
        &&& self.cached_input_per_1k_micro is None
        &&& self.output_per_1k_micro is None
        &&& self.long_context_input_per_1k_micro is None
        &&& self.long_context_cached_input_per_1k_micro is None
        &&& self.long_context_output_per_1k_micro is None
        &&& self.long_context_threshold_tokens is None
        &&& self.web_search_per_1k_calls_micro is None
        &&& self.file_search_per_1k_calls_micro is None
    }
}

impl Default for OpenAiCost {
    /// Every rate unset.
    fn default() -> (r: Self)
        ensures
            r.is_unpriced(),
            r.input_per_1k_micro is None,
            r.cached_input_per_1k_micro is None,
            r.output_per_1k_micro is None,
            r.long_context_input_per_1k_micro is None,
            r.long_context_cached_input_per_1k_micro is None,
            r.long_context_output_per_1k_micro is None,
            r.long_context_threshold_tokens is None,
            r.web_search_per_1k_calls_micro is None,
            r.file_search_per_1k_calls_micro is None,
    {
        OpenAiCost {
            input_per_1k_micro: None,
            cached_input_per_1k_micro: None,
            output_per_1k_micro: None,
            long_context_input_per_1k_micro: None,
            long_context_cached_input_per_1k_micro: None,
            long_context_output_per_1k_micro: None,
            long_context_threshold_tokens: None,
            web_search_per_1k_calls_micro: None,
            file_search_per_1k_calls_micro: None,
        }
    }
}

} // verus!
