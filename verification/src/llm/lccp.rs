//! The envelopes of the sidecar that speaks to a llama.cpp server.

use vstd::prelude::*;

verus! {

#[derive(Debug, Clone, PartialEq, Eq)]
pub struct EmbeddingRequest {
    pub content: String,
    /// Present only for multimodal models.
    pub image_data: Option<Vec<ImageData>>,
}

#[derive(Debug, Clone, PartialEq, Eq)]
pub struct ImageData {
    /// The image, base64 encoded.
    pub data: String,
    pub id: u32,
}

} // verus!
