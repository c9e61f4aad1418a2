//! The sidecar for Groq, which gets the caller's key with every request.

use crate::llm::keyed::EmbeddingRequest;
use crate::sidecar::http::{bearer, bearer_header, post, post_json, Header, HttpCall, Reading};
use vstd::prelude::*;
use vstd::string::StringExecFns;

verus! {

/// Where Groq is reached.
pub const URL: &'static str = "https://api.groq.com/v1";

/// The context bytes: one for each kind of request.
pub const CHAT_CONTEXT_NON_STREAMING: u8 = 0;

pub const EMBEDDING_CONTEXT: u8 = 2;

/// How long the sidecar waits for the provider.
pub const TIMEOUT_SECONDS: u64 = 30;

/// What the sidecar reads of a chat request: the caller's key. The
/// parameters go to the provider as they came.
#[derive(Debug, PartialEq, Eq)]
pub struct ChatRequest {
    pub api_key: String,
}

/// A request to the sidecar.
#[derive(Debug, PartialEq, Eq)]
pub enum LLMRequest {
    Embedding(EmbeddingRequest),
    Chat(ChatRequest),
}

/// How the answer to a call with the context byte `tag` is read.
pub open spec fn reading_of(tag: u8) -> Reading {
    if tag == CHAT_CONTEXT_NON_STREAMING {
        Reading::Chat
    } else if tag == EMBEDDING_CONTEXT {
        Reading::Embedding
    } else {
        Reading::Nothing
    }
}

/// Decides from the context of a provider's answer how to read it.
pub fn handle_response(context: &[u8]) -> (res: Reading)
    requires
        context@.len() > 0,
    ensures
        res == reading_of(context@[0]),
{
    let tag = context[0];
    if tag == CHAT_CONTEXT_NON_STREAMING {
        Reading::Chat
    } else if tag == EMBEDDING_CONTEXT {
        Reading::Embedding
    } else {
        Reading::Nothing
    }
}

/// The call to `endpoint` of the provider with the caller's key.
pub open spec fn call_to(endpoint: Seq<char>, context: u8, api_key: Seq<char>)
    -> crate::sidecar::http::HttpCallView {
    post_json(URL@ + "/"@ + endpoint, seq![bearer_header(api_key)], TIMEOUT_SECONDS, context)
}

/// Plans the call to `endpoint` of the provider with the caller's key.
pub fn send_request(endpoint: &str, context: u8, api_key: &str) -> (res: HttpCall)
    ensures
        res@ == call_to(endpoint@, context, api_key@),
{
    let url = URL.to_owned().concat("/").concat(endpoint);
    let mut more: Vec<Header> = Vec::new();
    more.push(bearer(api_key));
    proof {
        assert(more@.map_values(|h: Header| h@) =~= seq![bearer_header(api_key@)]);
    }
    post(url, more, TIMEOUT_SECONDS, context)
}

/// Plans the call for a chat whose answer comes in one piece.
pub fn handle_chat_request_non_streaming(chat_request: &ChatRequest) -> (res: HttpCall)
    ensures
        res@ == call_to("chat/completions"@, CHAT_CONTEXT_NON_STREAMING, chat_request.api_key@),
{
    send_request("chat/completions", CHAT_CONTEXT_NON_STREAMING, chat_request.api_key.as_str())
}

/// Plans the call for an embedding.
pub fn handle_embedding_request(embedding_request: &EmbeddingRequest) -> (res: HttpCall)
    ensures
        res@ == call_to("embeddings"@, EMBEDDING_CONTEXT, embedding_request.api_key@),
{
    send_request("embeddings", EMBEDDING_CONTEXT, embedding_request.api_key.as_str())
}

/// Plans the call for a chat.
pub fn handle_chat_request(chat_request: &ChatRequest) -> (res: HttpCall)
    ensures
        res@ == call_to("chat/completions"@, CHAT_CONTEXT_NON_STREAMING, chat_request.api_key@),
{
    handle_chat_request_non_streaming(chat_request)
}

/// Plans the call that serves a request.
pub fn handle_request(request: &LLMRequest) -> (res: HttpCall)
    ensures
        res@ == match *request {
            LLMRequest::Embedding(r) => call_to("embeddings"@, EMBEDDING_CONTEXT, r.api_key@),
            LLMRequest::Chat(r) => call_to(
                "chat/completions"@,
                CHAT_CONTEXT_NON_STREAMING,
                r.api_key@,
            ),
        },
{
    match request {
        LLMRequest::Embedding(embedding_request) => handle_embedding_request(embedding_request),
        LLMRequest::Chat(chat_request) => handle_chat_request(chat_request),
    }
}

} // verus!
