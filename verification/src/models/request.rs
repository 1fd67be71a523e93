//! Transport-agnostic request DTOs that callers hand to the model registry.
//!
//! `CreateProviderRequest` is built through `CreateProviderRequestBuilder`:
//! the four identifying fields are given up front, the optional ones start
//! at their defaults (`managed = false`, no metadata, discovery disabled,
//! no discovery interval) and each builder method replaces exactly one of
//! them.
use vstd::prelude::*;

use super::common::ProviderStatus;

verus! {

// ---------------------------------------------------------------------------
// Abstract content of a provider-registration request
// ---------------------------------------------------------------------------

/// What a `CreateProviderRequest` (or a builder on its way to one) holds,
/// with strings taken as character sequences.
pub struct ProviderRequestView {
    pub slug: Seq<char>,
    pub name: Seq<char>,
    pub gts_type: Seq<char>,
    pub oagw_alias: Seq<char>,
    pub managed: bool,
    pub metadata: Option<serde_json::Value>,
    pub discovery_enabled: bool,
    pub discovery_interval_seconds: Option<u32>,
}

impl ProviderRequestView {
    /// The four required fields, with every optional field at its default.
    pub open spec fn requested(
        slug: Seq<char>,
        name: Seq<char>,
        gts_type: Seq<char>,
        oagw_alias: Seq<char>,
    ) -> ProviderRequestView {
        ProviderRequestView {
            slug,
            name,
            gts_type,
            oagw_alias,
            managed: false,
            metadata: None,
            discovery_enabled: false,
            discovery_interval_seconds: None,
        }
    }

    pub open spec fn with_managed(self, managed: bool) -> ProviderRequestView {
        ProviderRequestView { managed, ..self }
    }

    pub open spec fn with_metadata(self, metadata: serde_json::Value) -> ProviderRequestView {
        ProviderRequestView { metadata: Some(metadata), ..self }
    }

    pub open spec fn with_discovery_enabled(self, enabled: bool) -> ProviderRequestView {
        ProviderRequestView { discovery_enabled: enabled, ..self }
    }

    pub open spec fn with_discovery_interval_seconds(self, seconds: u32) -> ProviderRequestView {
        ProviderRequestView { discovery_interval_seconds: Some(seconds), ..self }
    }

    /// The four fields that identify the provider.
    pub open spec fn same_identity(self, other: ProviderRequestView) -> bool {
        &&& self.slug == other.slug
        &&& self.name == other.name
        &&& self.gts_type == other.gts_type
        &&& self.oagw_alias == other.oagw_alias
    }
}

/// One call of a builder method, with its argument.
pub enum BuilderCall {
    Managed(bool),
    Metadata(serde_json::Value),
    DiscoveryEnabled(bool),
    DiscoveryIntervalSeconds(u32),
}

impl BuilderCall {
    /// The content after this call, as the builder method's contract gives it.
    pub open spec fn apply(self, v: ProviderRequestView) -> ProviderRequestView {
        match self {
            BuilderCall::Managed(m) => v.with_managed(m),
            BuilderCall::Metadata(md) => v.with_metadata(md),
            BuilderCall::DiscoveryEnabled(e) => v.with_discovery_enabled(e),
            BuilderCall::DiscoveryIntervalSeconds(sec) => v.with_discovery_interval_seconds(sec),
        }
    }
}

impl ProviderRequestView {
    /// The content after the builder methods `calls` ran, first to last.
    pub open spec fn after_calls(self, calls: Seq<BuilderCall>) -> ProviderRequestView
        decreases calls.len(),
    {
        if calls.len() == 0 {
            self
        } else {
            calls.last().apply(self.after_calls(calls.drop_last()))
        }
    }
}

/// Whether some call in `calls` sets `managed`.
pub open spec fn sets_managed(calls: Seq<BuilderCall>) -> bool {
    exists|i: int| 0 <= i < calls.len() && #[trigger] calls[i] is Managed
}

/// Whether some call in `calls` sets the metadata.
pub open spec fn sets_metadata(calls: Seq<BuilderCall>) -> bool {
    exists|i: int| 0 <= i < calls.len() && #[trigger] calls[i] is Metadata
}

/// Whether some call in `calls` sets `discovery_enabled`.
pub open spec fn sets_discovery_enabled(calls: Seq<BuilderCall>) -> bool {
    exists|i: int| 0 <= i < calls.len() && #[trigger] calls[i] is DiscoveryEnabled
}

/// Whether some call in `calls` sets the discovery interval.
pub open spec fn sets_discovery_interval(calls: Seq<BuilderCall>) -> bool {
    exists|i: int| 0 <= i < calls.len() && #[trigger] calls[i] is DiscoveryIntervalSeconds
}

// ---------------------------------------------------------------------------
// CreateProviderRequest (builder pattern)
// ---------------------------------------------------------------------------

/// Request for registering a new provider. Construct via
/// [`CreateProviderRequest::builder`].
#[derive(Debug, PartialEq)]
pub struct CreateProviderRequest {
    slug: String,
    name: String,
    gts_type: String,
    oagw_alias: String,
    managed: bool,
    metadata: Option<serde_json::Value>,
    discovery_enabled: bool,
    discovery_interval_seconds: Option<u32>,
}

impl View for CreateProviderRequest {
    type V = ProviderRequestView;

    closed spec fn view(&self) -> ProviderRequestView {
        ProviderRequestView {
            slug: self.slug@,
            name: self.name@,
            gts_type: self.gts_type@,
            oagw_alias: self.oagw_alias@,
            managed: self.managed,
            metadata: self.metadata,
            discovery_enabled: self.discovery_enabled,
            discovery_interval_seconds: self.discovery_interval_seconds,
        }
    }
}

/// Copies optional JSON metadata.
fn clone_metadata(m: &Option<serde_json::Value>) -> (r: Option<serde_json::Value>)
    ensures
        r == *m,
{
    match m {
        Some(v) => Some(v.clone()),
        None => None,
    }
}

impl Clone for CreateProviderRequest {
    /// A copy with the same content.
    fn clone(&self) -> (r: Self)
        ensures
            r@ == self@,
    {
        CreateProviderRequest {
            slug: self.slug.clone(),
            name: self.name.clone(),
            gts_type: self.gts_type.clone(),
            oagw_alias: self.oagw_alias.clone(),
            managed: self.managed,
            metadata: clone_metadata(&self.metadata),
            discovery_enabled: self.discovery_enabled,
            discovery_interval_seconds: self.discovery_interval_seconds,
        }
    }
}

impl CreateProviderRequest {
    /// Start building a new request. All four fields are required; the
    /// optional ones start at their defaults.
    #[must_use]
    pub fn builder(slug: &str, name: &str, gts_type: &str, oagw_alias: &str) -> (b:
        CreateProviderRequestBuilder)
        ensures
            b@ == ProviderRequestView::requested(slug@, name@, gts_type@, oagw_alias@),
            b@.slug == slug@,
            b@.name == name@,
            b@.gts_type == gts_type@,
            b@.oagw_alias == oagw_alias@,
            !b@.managed,
            b@.metadata is None,
            !b@.discovery_enabled,
            b@.discovery_interval_seconds is None,
    {
        CreateProviderRequestBuilder {
            slug: slug.to_owned(),
            name: name.to_owned(),
            gts_type: gts_type.to_owned(),
            oagw_alias: oagw_alias.to_owned(),
            managed: false,
            metadata: None,
            discovery_enabled: false,
            discovery_interval_seconds: None,
        }
    }

    #[must_use]
    pub fn slug(&self) -> (s: &str)
        ensures
            s@ == self@.slug,
    {
        self.slug.as_str()
    }

    #[must_use]
    pub fn name(&self) -> (s: &str)
        ensures
            s@ == self@.name,
    {
        self.name.as_str()
    }

    #[must_use]
    pub fn gts_type(&self) -> (s: &str)
        ensures
            s@ == self@.gts_type,
    {
        self.gts_type.as_str()
    }

    #[must_use]
    pub fn oagw_alias(&self) -> (s: &str)
        ensures
            s@ == self@.oagw_alias,
    {
        self.oagw_alias.as_str()
    }

    #[must_use]
    pub fn managed(&self) -> (b: bool)
        ensures
            b == self@.managed,
    {
        self.managed
    }

    #[must_use]
    pub fn metadata(&self) -> (m: Option<&serde_json::Value>)
        ensures
            m is Some <==> self@.metadata is Some,
            m matches Some(v) ==> *v == self@.metadata->0,
    {
        match &self.metadata {
            Some(v) => Some(v),
            None => None,
        }
    }

    #[must_use]
    pub fn discovery_enabled(&self) -> (b: bool)
        ensures
            b == self@.discovery_enabled,
    {
        self.discovery_enabled
    }

    #[must_use]
    pub fn discovery_interval_seconds(&self) -> (s: Option<u32>)
        ensures
            s == self@.discovery_interval_seconds,
    {
        self.discovery_interval_seconds
    }
}

/// Builder for [`CreateProviderRequest`].
#[derive(Debug)]
pub struct CreateProviderRequestBuilder {
    slug: String,
    name: String,
    gts_type: String,
    oagw_alias: String,
    managed: bool,
    metadata: Option<serde_json::Value>,
    discovery_enabled: bool,
    discovery_interval_seconds: Option<u32>,
}

impl View for CreateProviderRequestBuilder {
    type V = ProviderRequestView;

    closed spec fn view(&self) -> ProviderRequestView {
        ProviderRequestView {
            slug: self.slug@,
            name: self.name@,
            gts_type: self.gts_type@,
            oagw_alias: self.oagw_alias@,
            managed: self.managed,
            metadata: self.metadata,
            discovery_enabled: self.discovery_enabled,
            discovery_interval_seconds: self.discovery_interval_seconds,
        }
    }
}

impl Clone for CreateProviderRequestBuilder {
    /// A copy with the same content.
    fn clone(&self) -> (r: Self)
        ensures
            r@ == self@,
    {
        CreateProviderRequestBuilder {
            slug: self.slug.clone(),
            name: self.name.clone(),
            gts_type: self.gts_type.clone(),
            oagw_alias: self.oagw_alias.clone(),
            managed: self.managed,
            metadata: clone_metadata(&self.metadata),
            discovery_enabled: self.discovery_enabled,
            discovery_interval_seconds: self.discovery_interval_seconds,
        }
    }
}

impl CreateProviderRequestBuilder {
    #[must_use]
    pub fn managed(self, managed: bool) -> (r: Self)
        ensures
            r@ == self@.with_managed(managed),
            r@.managed == managed,
            r@.slug == self@.slug,
            r@.name == self@.name,
            r@.gts_type == self@.gts_type,
            r@.oagw_alias == self@.oagw_alias,
            r@.metadata == self@.metadata,
            r@.discovery_enabled == self@.discovery_enabled,
            r@.discovery_interval_seconds == self@.discovery_interval_seconds,
    {
        let mut b = self;
        b.managed = managed;
        b
    }

    #[must_use]
    pub fn metadata(self, metadata: serde_json::Value) -> (r: Self)
        ensures
            r@ == self@.with_metadata(metadata),
            r@.metadata == Some(metadata),
            r@.slug == self@.slug,
            r@.name == self@.name,
            r@.gts_type == self@.gts_type,
            r@.oagw_alias == self@.oagw_alias,
            r@.managed == self@.managed,
            r@.discovery_enabled == self@.discovery_enabled,
            r@.discovery_interval_seconds == self@.discovery_interval_seconds,
    {
        let mut b = self;
        b.metadata = Some(metadata);
        b
    }

    #[must_use]
    pub fn discovery_enabled(self, enabled: bool) -> (r: Self)
        ensures
            r@ == self@.with_discovery_enabled(enabled),
            r@.discovery_enabled == enabled,
            r@.slug == self@.slug,
            r@.name == self@.name,
            r@.gts_type == self@.gts_type,
            r@.oagw_alias == self@.oagw_alias,
            r@.managed == self@.managed,
            r@.metadata == self@.metadata,
            r@.discovery_interval_seconds == self@.discovery_interval_seconds,
    {
        let mut b = self;
        b.discovery_enabled = enabled;
        b
    }

    #[must_use]
    pub fn discovery_interval_seconds(self, seconds: u32) -> (r: Self)
        ensures
            r@ == self@.with_discovery_interval_seconds(seconds),
            r@.discovery_interval_seconds == Some(seconds),
            r@.slug == self@.slug,
            r@.name == self@.name,
            r@.gts_type == self@.gts_type,
            r@.oagw_alias == self@.oagw_alias,
            r@.managed == self@.managed,
            r@.metadata == self@.metadata,
            r@.discovery_enabled == self@.discovery_enabled,
    {
        let mut b = self;
        b.discovery_interval_seconds = Some(seconds);
        b
    }

    #[must_use]
    pub fn build(self) -> (r: CreateProviderRequest)
        ensures
            r@ == self@,
    {
        CreateProviderRequest {
            slug: self.slug,
            name: self.name,
            gts_type: self.gts_type,
            oagw_alias: self.oagw_alias,
            managed: self.managed,
            metadata: self.metadata,
            discovery_enabled: self.discovery_enabled,
            discovery_interval_seconds: self.discovery_interval_seconds,
        }
    }
}

// ---------------------------------------------------------------------------
// Laws of the builder
// ---------------------------------------------------------------------------

/// A request built straight from `builder(slug, name, gts_type, oagw_alias)`
/// carries exactly those four fields, is not managed, has no metadata, has
/// discovery disabled and no discovery interval.
pub proof fn lemma_builder_defaults(
    slug: Seq<char>,
    name: Seq<char>,
    gts_type: Seq<char>,
    oagw_alias: Seq<char>,
)
    ensures
        ({
            let v = ProviderRequestView::requested(slug, name, gts_type, oagw_alias);
            &&& v.slug == slug
            &&& v.name == name
            &&& v.gts_type == gts_type
            &&& v.oagw_alias == oagw_alias
            &&& !v.managed
            &&& v.metadata is None
            &&& !v.discovery_enabled
            &&& v.discovery_interval_seconds is None
        }),
{
}

/// Each builder method stores its argument verbatim in its own field (no
/// clamp, no range check, whatever the other fields hold) and leaves every
/// other field as it was.
pub proof fn lemma_setters_store_their_argument(
    v: ProviderRequestView,
    managed: bool,
    metadata: serde_json::Value,
    enabled: bool,
    seconds: u32,
)
    ensures
        ({
            let r = v.with_managed(managed);
            &&& r.managed == managed
            &&& r.slug == v.slug && r.name == v.name && r.gts_type == v.gts_type
            &&& r.oagw_alias == v.oagw_alias && r.metadata == v.metadata
            &&& r.discovery_enabled == v.discovery_enabled
            &&& r.discovery_interval_seconds == v.discovery_interval_seconds
        }),
        ({
            let r = v.with_metadata(metadata);
            &&& r.metadata == Some(metadata)
            &&& r.slug == v.slug && r.name == v.name && r.gts_type == v.gts_type
            &&& r.oagw_alias == v.oagw_alias && r.managed == v.managed
            &&& r.discovery_enabled == v.discovery_enabled
            &&& r.discovery_interval_seconds == v.discovery_interval_seconds
        }),
        ({
            let r = v.with_discovery_enabled(enabled);
            &&& r.discovery_enabled == enabled
            &&& r.slug == v.slug && r.name == v.name && r.gts_type == v.gts_type
            &&& r.oagw_alias == v.oagw_alias && r.managed == v.managed
            &&& r.metadata == v.metadata
            &&& r.discovery_interval_seconds == v.discovery_interval_seconds
        }),
        ({
            let r = v.with_discovery_interval_seconds(seconds);
            &&& r.discovery_interval_seconds == Some(seconds)
            &&& r.slug == v.slug && r.name == v.name && r.gts_type == v.gts_type
            &&& r.oagw_alias == v.oagw_alias && r.managed == v.managed
            &&& r.metadata == v.metadata
            &&& r.discovery_enabled == v.discovery_enabled
        }),
{
}

/// A request built from `builder(slug, name, gts_type, oagw_alias)` and one
/// call of each builder method reads back, through the getters' fields,
/// exactly the arguments given: the four strings in their places and the
/// four optional values unchanged.
pub proof fn lemma_each_setter_reads_back(
    slug: Seq<char>,
    name: Seq<char>,
    gts_type: Seq<char>,
    oagw_alias: Seq<char>,
    managed: bool,
    metadata: serde_json::Value,
    enabled: bool,
    seconds: u32,
)
    ensures
        ({
            let r = ProviderRequestView::requested(slug, name, gts_type, oagw_alias).with_managed(
                managed,
            ).with_metadata(metadata).with_discovery_enabled(enabled).with_discovery_interval_seconds(
                seconds,
            );
            &&& r.slug == slug
            &&& r.name == name
            &&& r.gts_type == gts_type
            &&& r.oagw_alias == oagw_alias
            &&& r.managed == managed
            &&& r.metadata == Some(metadata)
            &&& r.discovery_enabled == enabled
            &&& r.discovery_interval_seconds == Some(seconds)
        }),
{
}

/// No builder method touches the four identifying fields.
pub proof fn lemma_setters_keep_identity(
    v: ProviderRequestView,
    managed: bool,
    metadata: serde_json::Value,
    enabled: bool,
    seconds: u32,
)
    ensures
        v.with_managed(managed).same_identity(v),
        v.with_metadata(metadata).same_identity(v),
        v.with_discovery_enabled(enabled).same_identity(v),
        v.with_discovery_interval_seconds(seconds).same_identity(v),
        v.with_managed(managed).slug == v.slug && v.with_managed(managed).name == v.name,
        v.with_managed(managed).gts_type == v.gts_type && v.with_managed(managed).oagw_alias == v.oagw_alias,
        v.with_metadata(metadata).slug == v.slug && v.with_metadata(metadata).name == v.name,
        v.with_metadata(metadata).gts_type == v.gts_type && v.with_metadata(metadata).oagw_alias == v.oagw_alias,
        v.with_discovery_enabled(enabled).slug == v.slug && v.with_discovery_enabled(enabled).name == v.name,
        v.with_discovery_enabled(enabled).gts_type == v.gts_type && v.with_discovery_enabled(enabled).oagw_alias == v.oagw_alias,
        v.with_discovery_interval_seconds(seconds).slug == v.slug && v.with_discovery_interval_seconds(seconds).name == v.name,
        v.with_discovery_interval_seconds(seconds).gts_type == v.gts_type && v.with_discovery_interval_seconds(seconds).oagw_alias == v.oagw_alias,
{
}

/// After any finite sequence of builder method calls, the four identifying
/// fields are those the builder started from, and every optional field that
/// no call sets keeps the value it started with.
pub proof fn lemma_calls_keep_identity_and_untouched_fields(
    v: ProviderRequestView,
    calls: Seq<BuilderCall>,
)
    ensures
        v.after_calls(calls).same_identity(v),
        !sets_managed(calls) ==> v.after_calls(calls).managed == v.managed,
        !sets_metadata(calls) ==> v.after_calls(calls).metadata == v.metadata,
        !sets_discovery_enabled(calls) ==> v.after_calls(calls).discovery_enabled
            == v.discovery_enabled,
        !sets_discovery_interval(calls) ==> v.after_calls(calls).discovery_interval_seconds
            == v.discovery_interval_seconds,
    decreases calls.len(),
{
    if calls.len() > 0 {
        let prefix = calls.drop_last();
        lemma_calls_keep_identity_and_untouched_fields(v, prefix);
        let n = calls.len() - 1;
        assert forall|i: int| 0 <= i < prefix.len() implies #[trigger] prefix[i] == calls[i] by {}
        if sets_managed(prefix) {
            let i = choose|i: int| 0 <= i < prefix.len() && #[trigger] prefix[i] is Managed;
            assert(calls[i] is Managed);
        }
        if sets_metadata(prefix) {
            let i = choose|i: int| 0 <= i < prefix.len() && #[trigger] prefix[i] is Metadata;
            assert(calls[i] is Metadata);
        }
        if sets_discovery_enabled(prefix) {
            let i = choose|i: int| 0 <= i < prefix.len() && #[trigger] prefix[i] is DiscoveryEnabled;
            assert(calls[i] is DiscoveryEnabled);
        }
        if sets_discovery_interval(prefix) {
            let i = choose|i: int|
                0 <= i < prefix.len() && #[trigger] prefix[i] is DiscoveryIntervalSeconds;
            assert(calls[i] is DiscoveryIntervalSeconds);
        }
        assert(calls[n] == calls.last());
    }
}

/// A request built from `builder(slug, name, gts_type, oagw_alias)` followed
/// by any finite sequence of builder method calls carries exactly those four
/// fields (the third argument is the GTS type, the fourth the OAGW alias),
/// and every optional field that no call sets keeps its default: not
/// managed, no metadata, discovery disabled, no discovery interval.
pub proof fn lemma_built_after_calls(
    slug: Seq<char>,
    name: Seq<char>,
    gts_type: Seq<char>,
    oagw_alias: Seq<char>,
    calls: Seq<BuilderCall>,
)
    ensures
        ({
            let r = ProviderRequestView::requested(slug, name, gts_type, oagw_alias).after_calls(
                calls,
            );
            &&& r.slug == slug
            &&& r.name == name
            &&& r.gts_type == gts_type
            &&& r.oagw_alias == oagw_alias
            &&& !sets_managed(calls) ==> !r.managed
            &&& !sets_metadata(calls) ==> r.metadata is None
            &&& !sets_discovery_enabled(calls) ==> !r.discovery_enabled
            &&& !sets_discovery_interval(calls) ==> r.discovery_interval_seconds is None
        }),
{
    lemma_calls_keep_identity_and_untouched_fields(
        ProviderRequestView::requested(slug, name, gts_type, oagw_alias),
        calls,
    );
}

/// Calling a builder method twice keeps only the second value.
pub proof fn lemma_setters_last_call_wins(
    v: ProviderRequestView,
    managed1: bool,
    managed2: bool,
    metadata1: serde_json::Value,
    metadata2: serde_json::Value,
    enabled1: bool,
    enabled2: bool,
    seconds1: u32,
    seconds2: u32,
)
    ensures
        v.with_managed(managed1).with_managed(managed2) == v.with_managed(managed2),
        v.with_metadata(metadata1).with_metadata(metadata2) == v.with_metadata(metadata2),
        v.with_discovery_enabled(enabled1).with_discovery_enabled(enabled2)
            == v.with_discovery_enabled(enabled2),
        v.with_discovery_interval_seconds(seconds1).with_discovery_interval_seconds(seconds2)
            == v.with_discovery_interval_seconds(seconds2),
{
}

/// The builder methods set independent fields: the order in which they are
/// called does not matter.
pub proof fn lemma_setters_commute(
    v: ProviderRequestView,
    managed: bool,
    metadata: serde_json::Value,
    enabled: bool,
    seconds: u32,
)
    ensures
        v.with_managed(managed).with_metadata(metadata) == v.with_metadata(metadata).with_managed(
            managed,
        ),
        v.with_managed(managed).with_discovery_enabled(enabled) == v.with_discovery_enabled(
            enabled,
        ).with_managed(managed),
        v.with_managed(managed).with_discovery_interval_seconds(seconds)
            == v.with_discovery_interval_seconds(seconds).with_managed(managed),
        v.with_metadata(metadata).with_discovery_enabled(enabled) == v.with_discovery_enabled(
            enabled,
        ).with_metadata(metadata),
        v.with_metadata(metadata).with_discovery_interval_seconds(seconds)
            == v.with_discovery_interval_seconds(seconds).with_metadata(metadata),
        v.with_discovery_enabled(enabled).with_discovery_interval_seconds(seconds)
            == v.with_discovery_interval_seconds(seconds).with_discovery_enabled(enabled),
{
}

// ---------------------------------------------------------------------------
// UpdateProviderRequest (PATCH semantics)
// ---------------------------------------------------------------------------

/// Request for updating a provider (PATCH semantics). Only non-`None` fields
/// are applied.
#[derive(Debug, Clone, PartialEq)]
pub struct UpdateProviderRequest {
    pub name: Option<String>,
    pub oagw_alias: Option<String>,
    pub status: Option<ProviderStatus>,
    pub managed: Option<bool>,
    pub metadata: Option<serde_json::Value>,
    pub discovery_enabled: Option<bool>,
    pub discovery_interval_seconds: Option<u32>,
}

impl UpdateProviderRequest {
    /// No field is set: applying the request changes nothing.
    pub open spec fn is_empty(self) -> bool {
        &&& self.name is None
        &&& self.oagw_alias is None
        &&& self.status is None
        &&& self.managed is None
        &&& self.metadata is None
        &&& self.discovery_enabled is None
        &&& self.discovery_interval_seconds is None
    }
}

impl Default for UpdateProviderRequest {
    /// The empty patch.
    fn default() -> (r: Self)
        ensures
            r.is_empty(),
            r.name is None,
            r.oagw_alias is None,
            r.status is None,
            r.managed is None,
            r.metadata is None,
            r.discovery_enabled is None,
            r.discovery_interval_seconds is None,
    {
        UpdateProviderRequest {
            name: None,
            oagw_alias: None,
            status: None,
            managed: None,
            metadata: None,
            discovery_enabled: None,
            discovery_interval_seconds: None,
        }
    }
}

// ---------------------------------------------------------------------------
// CreateAliasRequest
// ---------------------------------------------------------------------------

/// Request for creating a model alias.
#[derive(Debug, Clone, PartialEq, Eq)]
pub struct CreateAliasRequest {
    pub name: String,
    pub canonical_id: String,
}

} // verus!
