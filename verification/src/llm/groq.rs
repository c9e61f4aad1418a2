//! The envelopes of the sidecar that speaks to Groq.

use vstd::prelude::*;

verus! {

#[derive(Debug, Clone, PartialEq, Eq)]
pub struct Message {
    pub role: String,
    pub content: String,
    pub name: Option<String>,
}

} // verus!
