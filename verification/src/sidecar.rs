//! The sidecars: the processes that turn a request for a completion or an
//! embedding into an HTTP call to a model provider, and the provider's
//! answer into a response.
//!
//! A sidecar decides here what to call and with which headers; the caller
//! serialises the request, makes the call and decodes the answer.

pub mod groq;
pub mod hosted;
pub mod http;
pub mod lccp;
pub mod openai;
