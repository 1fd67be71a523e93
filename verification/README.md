# model_registry_sdk

The data model of the model registry: status enums, capability flags,
context window, cost and performance types, the unified default-parameter
vocabulary, the raw provider-settings carrier, the `OpenAI` provider
vocabulary, and the request DTOs (with the `CreateProviderRequest` builder).

- `src/` is verified with Verus. `src/models.rs` holds the first-generation
  shapes; `src/models/` holds the current ones (`common`,
  `default_parameters`, `provider_settings`, `providers/openai`, `request`).
  `src/external.rs` declares the outside types carried as opaque values.
- `app/` holds what needs outside derives or what the verifier cannot hold:
  serde / JSON-schema copies with `From` both ways, the types with `f64`
  parameters or `chrono` timestamps, and the GTS schema declarations.
- `tests/` exercises the library from outside.
