//! The requests and responses of the model providers that a sidecar speaks
//! to.

pub mod groq;
pub mod keyed;
pub mod lccp;
pub mod openai;
