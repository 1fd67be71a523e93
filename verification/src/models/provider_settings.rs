//! `RawProviderSettings`, the raw JSON carrier of a model's provider
//! settings, and the `ProviderSchemaMismatch` error of typed narrowing.
use vstd::prelude::*;

verus! {

// ---------------------------------------------------------------------------
// Raw JSON carrier
// ---------------------------------------------------------------------------

/// Transparent newtype around [`serde_json::Value`]: the provider settings
/// of a model, as an opaque JSON value whose concrete schema is identified
/// by the model's GTS type id.
#[derive(Debug, PartialEq)]
pub struct RawProviderSettings(pub serde_json::Value);

impl Clone for RawProviderSettings {
    /// A copy wrapping the same JSON value.
    fn clone(&self) -> (r: Self)
        ensures
            r == *self,
    {
        RawProviderSettings(self.0.clone())
    }
}

impl RawProviderSettings {
    /// Borrow the inner JSON value.
    #[must_use]
    pub fn as_value(&self) -> (v: &serde_json::Value)
        ensures
            *v == self.0,
    {
        &self.0
    }

    /// Consume the wrapper and return the inner JSON value.
    #[must_use]
    pub fn into_value(self) -> (v: serde_json::Value)
        ensures
            v == self.0,
    {
        self.0
    }
}

impl From<serde_json::Value> for RawProviderSettings {
    /// Wraps the value unchanged.
    fn from(value: serde_json::Value) -> (r: Self)
        ensures
            r.0 == value,
    {
        RawProviderSettings(value)
    }
}

impl vstd::std_specs::convert::FromSpecImpl<serde_json::Value> for RawProviderSettings {
    open spec fn obeys_from_spec() -> bool {
        true
    }

    open spec fn from_spec(v: serde_json::Value) -> RawProviderSettings {
        RawProviderSettings(v)
    }
}

impl From<RawProviderSettings> for serde_json::Value {
    /// Unwraps the value unchanged.
    fn from(raw: RawProviderSettings) -> (v: Self)
        ensures
            v == raw.0,
    {
        raw.0
    }
}

impl vstd::std_specs::convert::FromSpecImpl<RawProviderSettings> for serde_json::Value {
    open spec fn obeys_from_spec() -> bool {
        true
    }

    open spec fn from_spec(raw: RawProviderSettings) -> serde_json::Value {
        raw.0
    }
}

/// Wrapping a JSON value and unwrapping it again gives the value back, and
/// unwrapping then re-wrapping gives the same settings: the wrapper is
/// transparent.
pub proof fn lemma_raw_settings_round_trip(v: serde_json::Value, raw: RawProviderSettings)
    ensures
        <serde_json::Value as vstd::std_specs::convert::FromSpec<RawProviderSettings>>::from_spec(
            <RawProviderSettings as vstd::std_specs::convert::FromSpec<serde_json::Value>>::from_spec(v),
        ) == v,
        <RawProviderSettings as vstd::std_specs::convert::FromSpec<serde_json::Value>>::from_spec(
            <serde_json::Value as vstd::std_specs::convert::FromSpec<RawProviderSettings>>::from_spec(raw),
        ) == raw,
{
}

// ---------------------------------------------------------------------------
// Typed-narrowing error
// ---------------------------------------------------------------------------

/// Returned when narrowing raw provider settings to a typed view fails: the
/// GTS schema id on the source does not match the target type's, or the
/// JSON payload does not deserialize into the target shape.
#[derive(Debug)]
pub enum ProviderSchemaMismatch {
    /// The model's GTS type id doesn't match the target type's schema id.
    SchemaId {
        /// The target type's schema id.
        expected: String,
        /// The schema id read off the model.
        actual: String,
    },
    /// The JSON payload couldn't be deserialized into the target shape.
    Deserialize(serde_json::Error),
}

impl From<serde_json::Error> for ProviderSchemaMismatch {
    /// A deserialisation error becomes the `Deserialize` variant.
    fn from(e: serde_json::Error) -> (r: Self)
        ensures
            r == ProviderSchemaMismatch::Deserialize(e),
    {
        ProviderSchemaMismatch::Deserialize(e)
    }
}

impl vstd::std_specs::convert::FromSpecImpl<serde_json::Error> for ProviderSchemaMismatch {
    open spec fn obeys_from_spec() -> bool {
        true
    }

    open spec fn from_spec(e: serde_json::Error) -> ProviderSchemaMismatch {
        ProviderSchemaMismatch::Deserialize(e)
    }
}

} // verus!
