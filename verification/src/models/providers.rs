//! Typed provider-settings vocabularies, one module per provider family.
pub mod openai;
