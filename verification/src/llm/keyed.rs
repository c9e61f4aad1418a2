//! Requests that carry the caller's API key with them, and the answers to
//! them.

use crate::llm::openai::{Choice, Message, Usage};
use vstd::prelude::*;

verus! {

#[derive(Debug, Clone, PartialEq, Eq)]
pub struct EmbeddingRequest {
    pub api_key: String,
    pub params: EmbeddingParams,
}

#[derive(Debug, Clone, PartialEq, Eq)]
pub struct EmbeddingParams {
    pub input: String,
    pub model: String,
}

/// A provider's answer to a chat request, with every field present.
#[derive(Debug, Clone, PartialEq)]
pub struct ChatResponse {
    pub id: String,
    pub object: String,
    pub created: i64,
    pub model: String,
    pub system_fingerprint: String,
    pub choices: Vec<Choice>,
    pub usage: Usage,
}

impl ChatResponse {
    /// The text of the first completion.
    pub fn to_chat_response(&self) -> (res: String)
        requires
            self.choices.len() > 0,
        ensures
            res@ == self.choices[0].message.content@,
    {
        self.choices[0].message.content.clone()
    }

    /// The message of the first completion.
    pub fn to_message_response(&self) -> (res: Message)
        requires
            self.choices.len() > 0,
        ensures
            res == self.choices[0].message,
    {
        self.choices[0].message.clone()
    }
}

} // verus!
