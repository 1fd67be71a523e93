//! Outside types that the data model carries as opaque values.
use vstd::prelude::*;

verus! {

/// An arbitrary JSON value (provider metadata, JSON schemas, raw provider
/// settings). The library only carries it; nothing here looks inside.
#[verifier::external_type_specification]
#[verifier::external_body]
pub struct ExJsonValue(serde_json::Value);

/// The error that JSON (de)serialisation reports.
#[verifier::external_type_specification]
#[verifier::external_body]
pub struct ExJsonError(serde_json::Error);

/// A 128-bit identifier of an entity.
#[verifier::external_type_specification]
#[verifier::external_body]
pub struct ExUuid(uuid::Uuid);

/// `Clone` for `serde_json::Value` (derived in serde_json): the copy is the
/// same JSON value as the original.
pub assume_specification[ <serde_json::Value as Clone>::clone ](v: &serde_json::Value) -> (r:
    serde_json::Value)
    ensures
        r == *v,
;

/// `Clone` for `uuid::Uuid` (derived in uuid, where the type is also
/// `Copy`): the copy is the same identifier.
pub assume_specification[ <uuid::Uuid as Clone>::clone ](u: &uuid::Uuid) -> (r: uuid::Uuid)
    ensures
        r == *u,
;

} // verus!
