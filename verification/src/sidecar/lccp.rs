//! The sidecar for a llama.cpp server on this machine.

use crate::llm::lccp::EmbeddingRequest;
use crate::sidecar::http::{post, post_json, Header, HeaderView, HttpCall, Reading};
use vstd::prelude::*;
use vstd::string::StringExecFns;

verus! {

/// Where the server is reached.
pub const URL: &'static str = "http://127.0.0.1:3000";

/// The context bytes: one for each kind of request.
pub const CHAT_CONTEXT_NON_STREAMING: u8 = 0;

pub const CHAT_CONTEXT_STREAMING: u8 = 1;

pub const EMBEDDING_CONTEXT: u8 = 2;

/// How long the sidecar waits for the server.
pub const TIMEOUT_SECONDS: u64 = 30;

/// What the sidecar reads of a chat request: whether the answer is to come
/// in pieces. The parameters go to the server as they came.
#[derive(Debug, Clone, Copy, PartialEq, Eq)]
pub struct ChatRequest {
    pub stream: Option<bool>,
}

/// A request to the sidecar.
#[derive(Debug, PartialEq, Eq)]
pub enum LLMRequest {
    Embedding(EmbeddingRequest),
    Chat(ChatRequest),
}

/// How the answer to a call with the context byte `tag` is read. An answer
/// that comes in pieces is not read.
pub open spec fn reading_of(tag: u8) -> Reading {
    if tag == CHAT_CONTEXT_NON_STREAMING {
        Reading::Chat
    } else if tag == EMBEDDING_CONTEXT {
        Reading::Embedding
    } else {
        Reading::Nothing
    }
}

/// Decides from the context of the server's answer how to read it.
pub fn handle_response(context: &[u8]) -> (res: Reading)
    requires
        context@.len() > 0,
    ensures
        res == reading_of(context@[0]),
{
    let tag = context[0];
    if tag == CHAT_CONTEXT_NON_STREAMING {
        Reading::Chat
    } else if tag == EMBEDDING_CONTEXT {
        Reading::Embedding
    } else {
        Reading::Nothing
    }
}

/// The call to `endpoint` of the server.
pub open spec fn call_to(endpoint: Seq<char>, context: u8) -> crate::sidecar::http::HttpCallView {
    post_json(URL@ + "/"@ + endpoint, seq![], TIMEOUT_SECONDS, context)
}

/// The context byte of a chat: streaming if the request asks for it.
pub open spec fn chat_context(chat_params: ChatRequest) -> u8 {
    if chat_params.stream == Some(true) {
        CHAT_CONTEXT_STREAMING
    } else {
        CHAT_CONTEXT_NON_STREAMING
    }
}

/// Plans the call to `endpoint` of the server.
pub fn send_request(endpoint: &str, context: u8) -> (res: HttpCall)
    ensures
        res@ == call_to(endpoint@, context),
{
    let url = URL.to_owned().concat("/").concat(endpoint);
    let more: Vec<Header> = Vec::new();
    proof {
        assert(more@.map_values(|h: Header| h@) =~= Seq::<HeaderView>::empty());
    }
    post(url, more, TIMEOUT_SECONDS, context)
}

/// Plans the call for a chat whose answer comes in one piece.
pub fn handle_chat_request_non_streaming(chat_params: &ChatRequest) -> (res: HttpCall)
    ensures
        res@ == call_to("completion"@, CHAT_CONTEXT_NON_STREAMING),
{
    send_request("completion", CHAT_CONTEXT_NON_STREAMING)
}

/// Plans the call for a chat whose answer comes in pieces.
pub fn handle_chat_request_streaming(chat_params: &ChatRequest) -> (res: HttpCall)
    ensures
        res@ == call_to("completion"@, CHAT_CONTEXT_STREAMING),
{
    send_request("completion", CHAT_CONTEXT_STREAMING)
}

/// Plans the call for an embedding.
pub fn handle_embedding_request(embedding_params: &EmbeddingRequest) -> (res: HttpCall)
    ensures
        res@ == call_to("embedding"@, EMBEDDING_CONTEXT),
{
    send_request("embedding", EMBEDDING_CONTEXT)
}

/// Plans the call for a chat.
pub fn handle_chat_request(chat_params: &ChatRequest) -> (res: HttpCall)
    ensures
        res@ == call_to("completion"@, chat_context(*chat_params)),
{
    let stream = match chat_params.stream {
        Some(stream) => stream,
        None => false,
    };
    if stream {
        handle_chat_request_streaming(chat_params)
    } else {
        handle_chat_request_non_streaming(chat_params)
    }
}

/// Plans the call that serves a request.
pub fn handle_request(request: &LLMRequest) -> (res: HttpCall)
    ensures
        res@ == match *request {
            LLMRequest::Embedding(r) => call_to("embedding"@, EMBEDDING_CONTEXT),
            LLMRequest::Chat(r) => call_to("completion"@, chat_context(r)),
        },
{
    match request {
        LLMRequest::Embedding(embedding_params) => handle_embedding_request(embedding_params),
        LLMRequest::Chat(chat_params) => handle_chat_request(chat_params),
    }
}

} // verus!
