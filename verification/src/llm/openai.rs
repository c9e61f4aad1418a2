//! The envelopes of the sidecar that speaks to OpenAI-compatible providers.

use vstd::prelude::*;

verus! {

/// A JSON value of `serde_json`, carried as it came.
#[verifier::external_type_specification]
#[verifier::external_body]
pub struct ExJsonValue(serde_json::Value);

#[derive(Debug, Clone, PartialEq, Eq)]
pub struct RegisterApiKeyRequest {
    pub api_key: String,
}

#[derive(Debug, Clone, PartialEq, Eq)]
pub struct RegisterEndpointRequest {
    pub endpoint: String,
}

#[derive(Debug, Clone, PartialEq, Eq)]
pub struct EmbeddingRequest {
    pub input: Vec<String>,
    pub model: String,
}

#[derive(Debug, Clone, PartialEq, Eq)]
pub struct ClaudeChatRequest {
    pub model: String,
    pub messages: Vec<Message>,
    pub max_tokens: Option<i32>,
}

/// One turn of a conversation.
#[derive(Debug, PartialEq, Eq)]
pub struct Message {
    pub role: String,
    pub content: String,
}

/// The mathematical value of a [`Message`].
pub ghost struct MessageView {
    pub role: Seq<char>,
    pub content: Seq<char>,
}

impl View for Message {
    type V = MessageView;

    open spec fn view(&self) -> MessageView {
        MessageView { role: self.role@, content: self.content@ }
    }
}

impl Clone for Message {
    fn clone(&self) -> (res: Self)
        ensures
            res == *self,
    {
        Message { role: self.role.clone(), content: self.content.clone() }
    }
}

#[derive(Debug, Clone, PartialEq, Eq)]
pub struct ChatImageMessage {
    pub role: String,
    pub content: Vec<ChatImageContent>,
}

#[derive(Debug, Clone, PartialEq, Eq)]
pub struct ChatImageContent {
    pub content_type: String,
    pub text: Option<String>,
    pub image_url: Option<ImageUrl>,
}

#[derive(Debug, Clone, PartialEq, Eq)]
pub struct ImageUrl {
    pub url: String,
}

#[derive(Debug, Clone, PartialEq, Eq)]
pub enum ResponseFormat {
    JsonObject { type_field: String },
}

#[derive(Debug, Clone, PartialEq, Eq)]
pub enum Stop {
    String(String),
    Array(Vec<String>),
}

#[derive(Debug, Clone, PartialEq, Eq)]
pub enum ToolChoice {
    Off,
    Auto,
    SpecificFunction { type_field: String, function: Function },
}

#[derive(Debug, Clone, PartialEq, Eq)]
pub struct Function {
    pub name: String,
}

/// A provider's answer to a chat request.
#[derive(Debug, Clone, PartialEq)]
pub struct ChatResponse {
    pub id: Option<String>,
    pub object: Option<String>,
    pub created: Option<i64>,
    pub model: Option<String>,
    pub system_fingerprint: Option<String>,
    pub choices: Vec<Choice>,
    pub usage: Option<Usage>,
}

/// One completion among those that a provider offers.
#[derive(Debug, Clone, PartialEq)]
pub struct Choice {
    pub index: i32,
    pub message: Message,
    pub logprobs: Option<serde_json::Value>,
    pub finish_reason: String,
}

#[derive(Debug, Clone, PartialEq, Eq)]
pub struct Usage {
    pub prompt_tokens: i32,
    pub completion_tokens: Option<i32>,
    pub total_tokens: i32,
}

#[derive(Debug, Clone, PartialEq, Eq)]
pub struct ClaudeChatResponse {
    pub content: Vec<Content>,
    pub id: String,
    pub model: String,
    pub role: String,
    pub stop_reason: String,
    pub stop_sequence: Option<String>,
    pub response_type: String,
    pub usage: Usage,
}

#[derive(Debug, Clone, PartialEq, Eq)]
pub struct Content {
    pub content_type: String,
    pub text: String,
}

/// What a sidecar says when it cannot serve a request.
#[derive(Debug, Clone, PartialEq, Eq)]
pub struct ErrorResponse {
    pub error: String,
}

} // verus!
