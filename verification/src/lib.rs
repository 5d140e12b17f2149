//! Verified core of a streaming chat-completion proxy.
//!
//! The library models an OpenAI-compatible chat proxy: it resolves composite
//! model identifiers to a provider and a bare model name, selects an API key,
//! decodes a provider's server-sent-event byte stream into data payloads,
//! normalizes provider chunks into a canonical shape, fans each chunk out to
//! an outbound wire encoding and an accumulator, and decides what gets
//! persisted when a stream completes, is disconnected, or fails.
//!
//! Network and database access live outside the library; the functions here
//! take and return plain values and carry contracts for everything they
//! compute or decide.

pub mod auth;
pub mod chat;
pub mod convo;
pub mod provider;
pub mod rate;
pub mod session;
pub mod sse;
pub mod text;
pub mod title;
pub mod wav;
pub mod wire;
