//! What the provider clients decide: which provider to use, how a request
//! is signed, and what an answer or a line of a stream means. Sending and
//! receiving is left to the caller.

pub mod factory;
pub mod glm;
pub mod ollama;
pub mod openai;
pub mod openrouter;
pub mod sse;

pub use factory::{provider_kind, resolve_api_key_with_fallback, ProviderKind};
