//! Entity data for a Bedrock server: the registry of generated entity
//! metadata, lookup by namespaced identifier, and the per-entity definitions
//! (identifier, spawn flags, component groups and events).
pub mod entities;
pub mod lexicographic;
