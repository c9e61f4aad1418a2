//! The requests with which a sidecar is tried out, and what counts as a
//! good answer to them.

use crate::llm::keyed::{EmbeddingParams, EmbeddingRequest};
use crate::llm::openai::{Message, MessageView};
use vstd::prelude::*;

verus! {

/// How long a trial waits for its answer.
pub const RESPONSE_TIMEOUT_SECONDS: u64 = 30;

/// The length of an embedding of the model that is tried.
pub const EMBEDDING_LENGTH: usize = 1536;

/// What a trial chat asks: the parameters that are set, and the caller's
/// key.
#[derive(Debug, PartialEq, Eq)]
pub struct ChatTrial {
    pub api_key: String,
    pub model: String,
    pub messages: Vec<Message>,
}

/// The embedding request that tries the sidecar out.
pub fn test_embedding(api_key: &str) -> (res: EmbeddingRequest)
    ensures
        res.api_key@ == api_key@,
        res.params.input@ == "Where is my mind?"@,
        res.params.model@ == "text-embedding-3-small"@,
{
    EmbeddingRequest {
        api_key: api_key.to_owned(),
        params: EmbeddingParams {
            input: "Where is my mind?".to_owned(),
            model: "text-embedding-3-small".to_owned(),
        },
    }
}

/// Whether an embedding of length `len` is a good answer to
/// [`test_embedding`].
pub fn embedding_passes(len: usize) -> (res: bool)
    ensures
        res == (len == EMBEDDING_LENGTH),
{
    len == EMBEDDING_LENGTH
}

/// The chat that tries the sidecar out: a greeting to a helpful assistant.
pub fn test_chat(api_key: &str) -> (res: ChatTrial)
    ensures
        res.api_key@ == api_key@,
        res.model@ == "gpt-3.5-turbo"@,
        res.messages@.map_values(|m: Message| m@) == seq![
            MessageView { role: "system"@, content: "You are a helpful assistant."@ },
            MessageView { role: "user"@, content: "Hello!"@ },
        ],
{
    let mut messages: Vec<Message> = Vec::new();
    messages.push(
        Message {
            role: "system".to_owned(),
            content: "You are a helpful assistant.".to_owned(),
        },
    );
    messages.push(Message { role: "user".to_owned(), content: "Hello!".to_owned() });
    proof {
        assert(messages@.map_values(|m: Message| m@) =~= seq![
            MessageView { role: "system"@, content: "You are a helpful assistant."@ },
            MessageView { role: "user"@, content: "Hello!"@ },
        ]);
    }
    ChatTrial { api_key: api_key.to_owned(), model: "gpt-3.5-turbo".to_owned(), messages }
}

/// Whether a chat response that calls itself `object` is a good answer to
/// [`test_chat`].
pub fn chat_passes(object: &String) -> (res: bool)
    ensures
        res == (object@ == "chat.completion"@),
{
    *object == "chat.completion".to_owned()
}

} // verus!
