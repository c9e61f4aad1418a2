//! The sidecar for the hosted providers OpenAI, Groq and Anthropic, which
//! keeps one key for each.

use crate::llm::openai::RegisterApiKeyRequest;
use crate::sidecar::http::{
    bearer, bearer_header, header, post, post_json, Header, HeaderView, HttpCall, HttpCallView,
    Reading,
};
use vstd::prelude::*;
use vstd::string::StringExecFns;

verus! {

/// Where OpenAI is reached.
pub const OPENAI_BASE_URL: &'static str = "https://api.openai.com/v1";

/// Where Groq is reached.
pub const GROQ_BASE_URL: &'static str = "https://api.groq.com/openai/v1";

/// Where Anthropic is reached.
pub const CLAUDE_BASE_URL: &'static str = "https://api.anthropic.com/v1";

/// How long the sidecar waits for a provider.
pub const TIMEOUT_SECONDS: u64 = 30;

/// The context bytes: one for each kind of request.
pub const REGISTER_API_KEY_CONTEXT: u8 = 0;

pub const EMBEDDING_CONTEXT: u8 = 1;

pub const OPENAI_CHAT_CONTEXT: u8 = 2;

pub const GROQ_CHAT_CONTEXT: u8 = 3;

pub const CHAT_IMAGE_CONTEXT: u8 = 4;

pub const CLAUDE_CHAT_CONTEXT: u8 = 5;

/// The providers that the sidecar keeps a key for.
#[derive(Debug, Clone, Copy, PartialEq, Eq)]
pub enum ApiKeyType {
    OpenAI,
    Groq,
    Claude,
}

/// The keys that the sidecar keeps.
#[derive(Debug, PartialEq, Eq)]
pub struct State {
    pub openai_api_key: String,
    pub groq_api_key: String,
    pub claude_api_key: String,
}

/// The mathematical value of a [`State`].
pub ghost struct StateView {
    pub openai_api_key: Seq<char>,
    pub groq_api_key: Seq<char>,
    pub claude_api_key: Seq<char>,
}

impl View for State {
    type V = StateView;

    open spec fn view(&self) -> StateView {
        StateView {
            openai_api_key: self.openai_api_key@,
            groq_api_key: self.groq_api_key@,
            claude_api_key: self.claude_api_key@,
        }
    }
}

/// The mathematical value of a state that may not be there yet.
pub open spec fn state_view(state: Option<State>) -> Option<StateView> {
    match state {
        Some(s) => Some(s@),
        None => None,
    }
}

/// The state with the key of one provider replaced; a state that is not
/// there yet starts with no keys.
pub open spec fn with_key(state: Option<StateView>, key_type: ApiKeyType, api_key: Seq<char>)
    -> StateView {
    let s = match state {
        Some(s) => s,
        None => StateView {
            openai_api_key: Seq::empty(),
            groq_api_key: Seq::empty(),
            claude_api_key: Seq::empty(),
        },
    };
    match key_type {
        ApiKeyType::OpenAI => StateView { openai_api_key: api_key, ..s },
        ApiKeyType::Groq => StateView { groq_api_key: api_key, ..s },
        ApiKeyType::Claude => StateView { claude_api_key: api_key, ..s },
    }
}

/// What the sidecar reads of a request. Of a chat or an embedding it reads
/// the kind only: the parameters go to the provider as they came.
#[derive(Debug, PartialEq, Eq)]
pub enum LLMRequest {
    RegisterOpenaiApiKey(RegisterApiKeyRequest),
    RegisterGroqApiKey(RegisterApiKeyRequest),
    RegisterClaudeApiKey(RegisterApiKeyRequest),
    Embedding,
    OpenaiChat,
    GroqChat,
    ChatImage,
    ClaudeChat,
}

/// The byte that goes with the HTTP call for a request, and comes back
/// with the provider's answer.
pub open spec fn context_of(request: LLMRequest) -> u8 {
    match request {
        LLMRequest::RegisterOpenaiApiKey(_) => REGISTER_API_KEY_CONTEXT,
        LLMRequest::RegisterGroqApiKey(_) => REGISTER_API_KEY_CONTEXT,
        LLMRequest::RegisterClaudeApiKey(_) => REGISTER_API_KEY_CONTEXT,
        LLMRequest::Embedding => EMBEDDING_CONTEXT,
        LLMRequest::OpenaiChat => OPENAI_CHAT_CONTEXT,
        LLMRequest::GroqChat => GROQ_CHAT_CONTEXT,
        LLMRequest::ChatImage => CHAT_IMAGE_CONTEXT,
        LLMRequest::ClaudeChat => CLAUDE_CHAT_CONTEXT,
    }
}

/// The context byte of a request.
pub fn request_to_context(request: &LLMRequest) -> (res: u8)
    ensures
        res == context_of(*request),
{
    match request {
        LLMRequest::RegisterGroqApiKey(_)
        | LLMRequest::RegisterOpenaiApiKey(_)
        | LLMRequest::RegisterClaudeApiKey(_) => REGISTER_API_KEY_CONTEXT,
        LLMRequest::Embedding => EMBEDDING_CONTEXT,
        LLMRequest::OpenaiChat => OPENAI_CHAT_CONTEXT,
        LLMRequest::GroqChat => GROQ_CHAT_CONTEXT,
        LLMRequest::ChatImage => CHAT_IMAGE_CONTEXT,
        LLMRequest::ClaudeChat => CLAUDE_CHAT_CONTEXT,
    }
}

/// How the answer to a call with the context byte `tag` is read.
pub open spec fn reading_of(tag: u8) -> Reading {
    if tag == EMBEDDING_CONTEXT {
        Reading::Embedding
    } else if tag == OPENAI_CHAT_CONTEXT || tag == GROQ_CHAT_CONTEXT || tag == CHAT_IMAGE_CONTEXT {
        Reading::Chat
    } else if tag == CLAUDE_CHAT_CONTEXT {
        Reading::ClaudeChat
    } else {
        Reading::Nothing
    }
}

/// Decides from the context of a provider's answer how to read it.
pub fn handle_response(context: &[u8]) -> (res: Reading)
    requires
        context@.len() > 0,
    ensures
        res == reading_of(context@[0]),
{
    let tag = context[0];
    if tag == EMBEDDING_CONTEXT {
        Reading::Embedding
    } else if tag == OPENAI_CHAT_CONTEXT || tag == GROQ_CHAT_CONTEXT || tag == CHAT_IMAGE_CONTEXT {
        Reading::Chat
    } else if tag == CLAUDE_CHAT_CONTEXT {
        Reading::ClaudeChat
    } else {
        Reading::Nothing
    }
}

/// Why the sidecar cannot serve a request.
#[derive(Debug, Clone, Copy, PartialEq, Eq)]
pub enum SidecarError {
    /// A key is needed and none was registered.
    StateNotInitialized,
    /// The context byte names no provider.
    InvalidContext,
}

/// Stores the key of one provider, in a new state if there is none yet.
pub fn register_api_key(
    api_request: &RegisterApiKeyRequest,
    state: &mut Option<State>,
    key_type: ApiKeyType,
)
    ensures
        state_view(*final(state)) == Some(
            with_key(state_view(*old(state)), key_type, api_request.api_key@),
        ),
{
    let mut stored = match state.take() {
        Some(s) => s,
        None => State {
            openai_api_key: String::new(),
            groq_api_key: String::new(),
            claude_api_key: String::new(),
        },
    };
    match key_type {
        ApiKeyType::OpenAI => {
            stored.openai_api_key = api_request.api_key.clone();
        },
        ApiKeyType::Groq => {
            stored.groq_api_key = api_request.api_key.clone();
        },
        ApiKeyType::Claude => {
            stored.claude_api_key = api_request.api_key.clone();
        },
    }
    *state = Some(stored);
}

/// The headers that carry `api_key` to Anthropic.
pub open spec fn claude_headers(api_key: Seq<char>) -> Seq<HeaderView> {
    seq![
        HeaderView { name: "x-api-key"@, value: api_key },
        HeaderView { name: "anthropic-version"@, value: "2023-06-01"@ },
    ]
}

/// The call to `endpoint` under the context byte `context`: with the key
/// of the provider that the context names, in the headers that this
/// provider reads.
pub open spec fn generic_call(state: Option<StateView>, context: u8, endpoint: Seq<char>) -> Result<
    HttpCallView,
    SidecarError,
> {
    if context == OPENAI_CHAT_CONTEXT || context == EMBEDDING_CONTEXT || context
        == CHAT_IMAGE_CONTEXT {
        match state {
            Some(s) => Ok(
                post_json(endpoint, seq![bearer_header(s.openai_api_key)], TIMEOUT_SECONDS, context),
            ),
            None => Err(SidecarError::StateNotInitialized),
        }
    } else if context == GROQ_CHAT_CONTEXT {
        match state {
            Some(s) => Ok(
                post_json(endpoint, seq![bearer_header(s.groq_api_key)], TIMEOUT_SECONDS, context),
            ),
            None => Err(SidecarError::StateNotInitialized),
        }
    } else if context == CLAUDE_CHAT_CONTEXT {
        match state {
            Some(s) => Ok(
                post_json(endpoint, claude_headers(s.claude_api_key), TIMEOUT_SECONDS, context),
            ),
            None => Err(SidecarError::StateNotInitialized),
        }
    } else {
        Err(SidecarError::InvalidContext)
    }
}

/// Plans the call to a provider.
pub fn handle_generic_request(state: &Option<State>, context: u8, endpoint: &str) -> (res: Result<
    HttpCall,
    SidecarError,
>)
    ensures
        match res {
            Ok(call) => generic_call(state_view(*state), context, endpoint@) == Ok::<
                HttpCallView,
                SidecarError,
            >(call@),
            Err(e) => generic_call(state_view(*state), context, endpoint@) == Err::<
                HttpCallView,
                SidecarError,
            >(e),
        },
{
    let is_openai = context == OPENAI_CHAT_CONTEXT || context == EMBEDDING_CONTEXT || context
        == CHAT_IMAGE_CONTEXT;
    if !is_openai && context != GROQ_CHAT_CONTEXT && context != CLAUDE_CHAT_CONTEXT {
        return Err(SidecarError::InvalidContext);
    }
    let s = match state {
        Some(s) => s,
        None => {
            return Err(SidecarError::StateNotInitialized);
        },
    };
    let mut more: Vec<Header> = Vec::new();
    if is_openai {
        more.push(bearer(s.openai_api_key.as_str()));
        proof {
            assert(more@.map_values(|h: Header| h@) =~= seq![bearer_header(s@.openai_api_key)]);
        }
    } else if context == GROQ_CHAT_CONTEXT {
        more.push(bearer(s.groq_api_key.as_str()));
        proof {
            assert(more@.map_values(|h: Header| h@) =~= seq![bearer_header(s@.groq_api_key)]);
        }
    } else {
        more.push(header("x-api-key", s.claude_api_key.clone()));
        more.push(header("anthropic-version", "2023-06-01".to_owned()));
        proof {
            assert(more@.map_values(|h: Header| h@) =~= claude_headers(s@.claude_api_key));
        }
    }
    Ok(post(endpoint.to_owned(), more, TIMEOUT_SECONDS, context))
}

/// The endpoint that serves a request; a request that registers a key has
/// none.
pub open spec fn endpoint_of(request: LLMRequest) -> Option<Seq<char>> {
    match request {
        LLMRequest::Embedding => Some(OPENAI_BASE_URL@ + "/embeddings"@),
        LLMRequest::OpenaiChat => Some(OPENAI_BASE_URL@ + "/chat/completions"@),
        LLMRequest::GroqChat => Some(GROQ_BASE_URL@ + "/chat/completions"@),
        LLMRequest::ChatImage => Some(OPENAI_BASE_URL@ + "/chat/completions"@),
        LLMRequest::ClaudeChat => Some(CLAUDE_BASE_URL@ + "/messages"@),
        _ => None,
    }
}

/// The state after a request.
pub open spec fn state_after(state: Option<StateView>, request: LLMRequest) -> Option<StateView> {
    match request {
        LLMRequest::RegisterOpenaiApiKey(r) => Some(
            with_key(state, ApiKeyType::OpenAI, r.api_key@),
        ),
        LLMRequest::RegisterGroqApiKey(r) => Some(with_key(state, ApiKeyType::Groq, r.api_key@)),
        LLMRequest::RegisterClaudeApiKey(r) => Some(
            with_key(state, ApiKeyType::Claude, r.api_key@),
        ),
        _ => state,
    }
}

/// The call that serves a request, `None` for a request that registers a
/// key, or the reason why the request cannot be served.
pub open spec fn call_for(state: Option<StateView>, request: LLMRequest) -> Result<
    Option<HttpCallView>,
    SidecarError,
> {
    match endpoint_of(request) {
        None => Ok(None),
        Some(endpoint) => match generic_call(state, context_of(request), endpoint) {
            Ok(call) => Ok(Some(call)),
            Err(e) => Err(e),
        },
    }
}

/// What the sidecar does with a request that it can serve.
#[derive(Debug, PartialEq, Eq)]
pub enum Served {
    /// The state was changed: save it, and answer with `Ok`.
    Registered,
    /// Make the call, with the request's parameters as its body.
    Call(HttpCall),
}

/// The mathematical value of what the sidecar does with a request.
pub open spec fn served_view(served: Served) -> Option<HttpCallView> {
    match served {
        Served::Registered => None,
        Served::Call(call) => Some(call@),
    }
}

/// Handles a request. A key is stored. A chat or an embedding becomes a
/// call to the provider's endpoint, with the provider's key.
pub fn handle_request(request: &LLMRequest, state: &mut Option<State>) -> (res: Result<
    Served,
    SidecarError,
>)
    ensures
        match res {
            Ok(served) => call_for(state_view(*old(state)), *request) == Ok::<
                Option<HttpCallView>,
                SidecarError,
            >(served_view(served)) && state_view(*final(state)) == state_after(
                state_view(*old(state)),
                *request,
            ),
            Err(e) => call_for(state_view(*old(state)), *request) == Err::<
                Option<HttpCallView>,
                SidecarError,
            >(e) && *final(state) == *old(state),
        },
{
    let context = request_to_context(request);
    match request {
        LLMRequest::RegisterOpenaiApiKey(api_request) => {
            register_api_key(api_request, state, ApiKeyType::OpenAI);
            Ok(Served::Registered)
        },
        LLMRequest::RegisterGroqApiKey(api_request) => {
            register_api_key(api_request, state, ApiKeyType::Groq);
            Ok(Served::Registered)
        },
        LLMRequest::RegisterClaudeApiKey(api_request) => {
            register_api_key(api_request, state, ApiKeyType::Claude);
            Ok(Served::Registered)
        },
        LLMRequest::Embedding => {
            let endpoint = OPENAI_BASE_URL.to_owned().concat("/embeddings");
            Ok(Served::Call(handle_generic_request(state, context, endpoint.as_str())?))
        },
        LLMRequest::OpenaiChat => {
            let endpoint = OPENAI_BASE_URL.to_owned().concat("/chat/completions");
            Ok(Served::Call(handle_generic_request(state, context, endpoint.as_str())?))
        },
        LLMRequest::GroqChat => {
            let endpoint = GROQ_BASE_URL.to_owned().concat("/chat/completions");
            Ok(Served::Call(handle_generic_request(state, context, endpoint.as_str())?))
        },
        LLMRequest::ChatImage => {
            let endpoint = OPENAI_BASE_URL.to_owned().concat("/chat/completions");
            Ok(Served::Call(handle_generic_request(state, context, endpoint.as_str())?))
        },
        LLMRequest::ClaudeChat => {
            let endpoint = CLAUDE_BASE_URL.to_owned().concat("/messages");
            Ok(Served::Call(handle_generic_request(state, context, endpoint.as_str())?))
        },
    }
}

} // verus!
