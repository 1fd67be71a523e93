//! Pieces of the user-facing default inference parameters: the response
//! text format, reasoning controls, tool-choice policy and truncation
//! strategy, in the unified Open Responses shape.
use vstd::prelude::*;

use super::common::ReasoningEffort;

verus! {

// ---------------------------------------------------------------------------
// TextFormat
// ---------------------------------------------------------------------------

/// Response text format configuration.
#[derive(Debug, Clone, PartialEq)]
pub struct TextFormat {
    pub format: TextFormatKind,
    pub verbosity: Option<TextVerbosity>,
}

impl Default for TextFormat {
    /// Plain text, no verbosity preference.
    fn default() -> (r: Self)
        ensures
            r.format is Text,
            r.verbosity is None,
    {
        TextFormat { format: TextFormatKind::Text, verbosity: None }
    }
}

/// Concrete text-format variant.
#[derive(Debug, Clone, PartialEq)]
pub enum TextFormatKind {
    /// Plain text, the provider default.
    Text,
    /// JSON-mode (no schema constraint).
    JsonObject,
    /// Schema-constrained JSON output.
    JsonSchema {
        name: String,
        description: Option<String>,
        schema: Option<serde_json::Value>,
        strict: bool,
    },
}

impl Default for TextFormatKind {
    /// Plain text.
    fn default() -> (r: Self)
        ensures
            r is Text,
    {
        TextFormatKind::Text
    }
}

/// Verbosity level for the response text. Wire format is lowercase
/// (`"low" | "medium" | "high"`).
#[derive(Debug, Clone, Copy, PartialEq, Eq, Structural)]
pub enum TextVerbosity {
    Low,
    Medium,
    High,
}

// ---------------------------------------------------------------------------
// ReasoningConfig
// ---------------------------------------------------------------------------

/// Reasoning controls in the unified shape.
#[derive(Debug, Clone, PartialEq, Eq, Structural)]
pub struct ReasoningConfig {
    /// Reasoning effort level.
    pub effort: Option<ReasoningEffort>,
    /// Reasoning summary mode.
    pub summary: Option<ReasoningSummary>,
}

impl Default for ReasoningConfig {
    /// No effort level and no summary mode.
    fn default() -> (r: Self)
        ensures
            r.effort is None,
            r.summary is None,
    {
        ReasoningConfig { effort: None, summary: None }
    }
}

/// Reasoning summary mode. Wire format is lowercase
/// (`"concise" | "detailed" | "auto"`).
#[derive(Debug, Clone, Copy, PartialEq, Eq, Structural)]
pub enum ReasoningSummary {
    Concise,
    Detailed,
    Auto,
}

// ---------------------------------------------------------------------------
// ToolChoice
// ---------------------------------------------------------------------------

/// Tool-choice policy in the unified Open Responses shape.
#[derive(Debug, Clone, PartialEq, Eq)]
pub enum ToolChoice {
    /// Provider picks (default).
    Auto,
    /// Provider must call exactly one tool.
    Required,
    /// No tool calling (the policy written `"none"`).
    Off,
    /// Force a specific tool by name.
    Function { name: String },
}

// ---------------------------------------------------------------------------
// TruncationStrategy
// ---------------------------------------------------------------------------

/// Context-truncation strategy. Wire format is lowercase
/// (`"auto" | "disabled"`).
#[derive(Debug, Clone, Copy, PartialEq, Eq, Structural)]
pub enum TruncationStrategy {
    Auto,
    Disabled,
}

} // verus!
