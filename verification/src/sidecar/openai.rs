//! The sidecar for OpenAI, Groq and any provider that speaks OpenAI's chat
//! protocol at an endpoint of its own.

use crate::llm::openai::{RegisterApiKeyRequest, RegisterEndpointRequest};
use crate::sidecar::http::{
    bearer, bearer_header, post, post_json, Header, HeaderView, HttpCall, HttpCallView, Reading,
};
use vstd::prelude::*;
use vstd::string::StringExecFns;

verus! {

/// Where OpenAI is reached.
pub const OPENAI_BASE_URL: &'static str = "https://api.openai.com/v1";

/// Where Groq is reached.
pub const GROQ_BASE_URL: &'static str = "https://api.groq.com/openai/v1";

/// How long the sidecar waits for a hosted provider.
pub const DEFAULT_TIMEOUT_SECONDS: u16 = 30;

/// How long the sidecar waits for a compatible provider.
pub const OAI_PROVIDER_TIMEOUT_SECONDS: u16 = 60;

/// The context bytes: one for each kind of request.
pub const REGISTER_API_KEY_CONTEXT: u8 = 0;

pub const EMBEDDING_CONTEXT: u8 = 1;

pub const OPENAI_CHAT_CONTEXT: u8 = 2;

pub const GROQ_CHAT_CONTEXT: u8 = 3;

pub const CHAT_IMAGE_CONTEXT: u8 = 4;

pub const OAI_PROVIDER_CHAT_CONTEXT: u8 = 5;

/// What the sidecar keeps: the keys of the hosted providers and the
/// endpoint of the compatible one.
#[derive(Debug, PartialEq, Eq)]
pub struct State {
    pub openai_api_key: String,
    pub groq_api_key: String,
    pub oai_provider_base_url: Option<String>,
}

/// The mathematical value of a [`State`].
pub ghost struct StateView {
    pub openai_api_key: Seq<char>,
    pub groq_api_key: Seq<char>,
    pub oai_provider_base_url: Option<Seq<char>>,
}

impl View for State {
    type V = StateView;

    open spec fn view(&self) -> StateView {
        StateView {
            openai_api_key: self.openai_api_key@,
            groq_api_key: self.groq_api_key@,
            oai_provider_base_url: match self.oai_provider_base_url {
                Some(url) => Some(url@),
                None => None,
            },
        }
    }
}

/// The mathematical value of a state that may not be there yet.
pub open spec fn state_view(state: Option<State>) -> Option<StateView> {
    match state {
        Some(s) => Some(s@),
        None => None,
    }
}

/// A state with nothing in it.
pub open spec fn empty_state() -> StateView {
    StateView { openai_api_key: Seq::empty(), groq_api_key: Seq::empty(), oai_provider_base_url: None }
}

/// The state to register into: the one that is there, or an empty one.
pub open spec fn state_or_empty(state: Option<StateView>) -> StateView {
    match state {
        Some(s) => s,
        None => empty_state(),
    }
}

impl State {
    /// A state with nothing in it.
    pub fn new() -> (res: Self)
        ensures
            res@ == empty_state(),
    {
        State { openai_api_key: String::new(), groq_api_key: String::new(), oai_provider_base_url: None }
    }
}

/// What the sidecar reads of a request. Of a chat or an embedding it reads
/// the kind only: the parameters go to the provider as they came.
#[derive(Debug, PartialEq, Eq)]
pub enum LLMRequest {
    RegisterOpenaiApiKey(RegisterApiKeyRequest),
    RegisterGroqApiKey(RegisterApiKeyRequest),
    RegisterOaiProviderEndpoint(RegisterEndpointRequest),
    Embedding,
    OpenaiChat,
    GroqChat,
    ChatImage,
    OaiProviderChat,
}

/// The byte that goes with the HTTP call for a request, and comes back
/// with the provider's answer.
pub open spec fn context_of(request: LLMRequest) -> u8 {
    match request {
        LLMRequest::RegisterOpenaiApiKey(_) => REGISTER_API_KEY_CONTEXT,
        LLMRequest::RegisterGroqApiKey(_) => REGISTER_API_KEY_CONTEXT,
        LLMRequest::RegisterOaiProviderEndpoint(_) => REGISTER_API_KEY_CONTEXT,
        LLMRequest::Embedding => EMBEDDING_CONTEXT,
        LLMRequest::OpenaiChat => OPENAI_CHAT_CONTEXT,
        LLMRequest::GroqChat => GROQ_CHAT_CONTEXT,
        LLMRequest::ChatImage => CHAT_IMAGE_CONTEXT,
        LLMRequest::OaiProviderChat => OAI_PROVIDER_CHAT_CONTEXT,
    }
}

/// The context byte of a request.
pub fn request_to_context(request: &LLMRequest) -> (res: u8)
    ensures
        res == context_of(*request),
{
    match request {
        LLMRequest::RegisterOpenaiApiKey(_)
        | LLMRequest::RegisterGroqApiKey(_)
        | LLMRequest::RegisterOaiProviderEndpoint(_) => REGISTER_API_KEY_CONTEXT,
        LLMRequest::Embedding => EMBEDDING_CONTEXT,
        LLMRequest::OpenaiChat => OPENAI_CHAT_CONTEXT,
        LLMRequest::GroqChat => GROQ_CHAT_CONTEXT,
        LLMRequest::ChatImage => CHAT_IMAGE_CONTEXT,
        LLMRequest::OaiProviderChat => OAI_PROVIDER_CHAT_CONTEXT,
    }
}

/// How the answer to a call with the context byte `tag` is read.
pub open spec fn reading_of(tag: u8) -> Reading {
    if tag == EMBEDDING_CONTEXT {
        Reading::Embedding
    } else if tag == OPENAI_CHAT_CONTEXT || tag == GROQ_CHAT_CONTEXT || tag == CHAT_IMAGE_CONTEXT
        || tag == OAI_PROVIDER_CHAT_CONTEXT {
        Reading::Chat
    } else {
        Reading::Nothing
    }
}

/// Decides from the context of a provider's answer how to read it.
pub fn handle_response(context: &[u8]) -> (res: Reading)
    requires
        context@.len() > 0,
    ensures
        res == reading_of(context@[0]),
{
    let tag = context[0];
    if tag == EMBEDDING_CONTEXT {
        Reading::Embedding
    } else if tag == OPENAI_CHAT_CONTEXT || tag == GROQ_CHAT_CONTEXT || tag == CHAT_IMAGE_CONTEXT
        || tag == OAI_PROVIDER_CHAT_CONTEXT {
        Reading::Chat
    } else {
        Reading::Nothing
    }
}

/// Why the sidecar cannot serve a request.
#[derive(Debug, Clone, Copy, PartialEq, Eq)]
pub enum SidecarError {
    /// A chat with the compatible provider was asked for before anything
    /// was registered.
    StateNotSet,
    /// A chat with the compatible provider was asked for before its
    /// endpoint was registered.
    BaseUrlNotSet,
    /// A key is needed and nothing was registered.
    StateNotInitialized,
    /// The context byte names no provider.
    InvalidContext,
}

impl SidecarError {
    /// The words of the error.
    pub open spec fn spec_message(self) -> Seq<char> {
        match self {
            SidecarError::StateNotSet => "state must be set before calling OaiProviderChat"@,
            SidecarError::BaseUrlNotSet => {
                "oai_provider_base_url must be set before calling OaiProviderChat"@
            },
            SidecarError::StateNotInitialized => "State not initialized"@,
            SidecarError::InvalidContext => "Invalid context for API key"@,
        }
    }

    /// Whether the requester is answered with the error.
    pub open spec fn is_answered(self) -> bool {
        self == SidecarError::StateNotSet || self == SidecarError::BaseUrlNotSet
    }

    /// The error in words.
    pub fn message(&self) -> (res: String)
        ensures
            res@ == self.spec_message(),
    {
        match self {
            SidecarError::StateNotSet => {
                "state must be set before calling OaiProviderChat".to_owned()
            },
            SidecarError::BaseUrlNotSet => {
                "oai_provider_base_url must be set before calling OaiProviderChat".to_owned()
            },
            SidecarError::StateNotInitialized => "State not initialized".to_owned(),
            SidecarError::InvalidContext => "Invalid context for API key".to_owned(),
        }
    }

    /// The text of the error response that the requester gets, if it gets
    /// one.
    pub fn reply(&self) -> (res: Option<String>)
        ensures
            res is Some <==> self.is_answered(),
            res is Some ==> res->Some_0@ == self.spec_message(),
    {
        match self {
            SidecarError::StateNotSet | SidecarError::BaseUrlNotSet => Some(self.message()),
            _ => None,
        }
    }
}

/// What the sidecar does with a request that it can serve.
#[derive(Debug, PartialEq, Eq)]
pub enum Served {
    /// The state was changed: save it, and answer with `Ok`.
    Registered,
    /// Make the call, with the request's parameters as its body.
    Call(HttpCall),
}

/// The key that goes with a call under the context byte `context`: the
/// OpenAI key, the Groq key, or none for the compatible provider.
pub open spec fn key_for(state: Option<StateView>, context: u8) -> Result<
    Option<Seq<char>>,
    SidecarError,
> {
    if context == OPENAI_CHAT_CONTEXT || context == EMBEDDING_CONTEXT || context
        == CHAT_IMAGE_CONTEXT {
        match state {
            Some(s) => Ok(Some(s.openai_api_key)),
            None => Err(SidecarError::StateNotInitialized),
        }
    } else if context == GROQ_CHAT_CONTEXT {
        match state {
            Some(s) => Ok(Some(s.groq_api_key)),
            None => Err(SidecarError::StateNotInitialized),
        }
    } else if context == OAI_PROVIDER_CHAT_CONTEXT {
        Ok(None)
    } else {
        Err(SidecarError::InvalidContext)
    }
}

/// How long the sidecar waits for the provider.
pub open spec fn timeout_or_default(timeout: Option<u16>) -> u64 {
    match timeout {
        Some(t) => t as u64,
        None => DEFAULT_TIMEOUT_SECONDS as u64,
    }
}

/// The call to `endpoint` under the context byte `context`.
pub open spec fn generic_call(
    state: Option<StateView>,
    context: u8,
    endpoint: Seq<char>,
    timeout: Option<u16>,
) -> Result<HttpCallView, SidecarError> {
    match key_for(state, context) {
        Ok(Some(key)) => Ok(
            post_json(endpoint, seq![bearer_header(key)], timeout_or_default(timeout), context),
        ),
        Ok(None) => Ok(post_json(endpoint, seq![], timeout_or_default(timeout), context)),
        Err(e) => Err(e),
    }
}

/// Plans the call to a provider: a `POST` of JSON to `endpoint`, with the
/// provider's key as a bearer token where the provider wants one.
pub fn handle_generic_request(
    state: &Option<State>,
    context: u8,
    endpoint: &str,
    timeout: Option<u16>,
) -> (res: Result<HttpCall, SidecarError>)
    ensures
        match res {
            Ok(call) => generic_call(state_view(*state), context, endpoint@, timeout) == Ok::<
                HttpCallView,
                SidecarError,
            >(call@),
            Err(e) => generic_call(state_view(*state), context, endpoint@, timeout) == Err::<
                HttpCallView,
                SidecarError,
            >(e),
        },
{
    let mut more: Vec<Header> = Vec::new();
    if context == OPENAI_CHAT_CONTEXT || context == EMBEDDING_CONTEXT || context
        == CHAT_IMAGE_CONTEXT {
        match state {
            Some(s) => more.push(bearer(s.openai_api_key.as_str())),
            None => {
                return Err(SidecarError::StateNotInitialized);
            },
        }
    } else if context == GROQ_CHAT_CONTEXT {
        match state {
            Some(s) => more.push(bearer(s.groq_api_key.as_str())),
            None => {
                return Err(SidecarError::StateNotInitialized);
            },
        }
    } else if context == OAI_PROVIDER_CHAT_CONTEXT {
    } else {
        return Err(SidecarError::InvalidContext);
    }
    let timeout_seconds = match timeout {
        Some(t) => t as u64,
        None => DEFAULT_TIMEOUT_SECONDS as u64,
    };
    proof {
        let views = more@.map_values(|h: Header| h@);
        match key_for(state_view(*state), context) {
            Ok(Some(key)) => {
                assert(views =~= seq![bearer_header(key)]);
            },
            Ok(None) => {
                assert(views =~= Seq::<HeaderView>::empty());
            },
            Err(_) => {},
        }
    }
    Ok(post(endpoint.to_owned(), more, timeout_seconds, context))
}

/// Stores the OpenAI key, in a new state if there is none yet.
pub fn register_openai_api_key(api_request: &RegisterApiKeyRequest, state: &mut Option<State>)
    ensures
        state_view(*final(state)) == Some(
            StateView {
                openai_api_key: api_request.api_key@,
                ..state_or_empty(state_view(*old(state)))
            },
        ),
{
    let mut stored = match state.take() {
        Some(s) => s,
        None => State::new(),
    };
    stored.openai_api_key = api_request.api_key.clone();
    *state = Some(stored);
}

/// Stores the Groq key, in a new state if there is none yet.
pub fn register_groq_api_key(api_request: &RegisterApiKeyRequest, state: &mut Option<State>)
    ensures
        state_view(*final(state)) == Some(
            StateView {
                groq_api_key: api_request.api_key@,
                ..state_or_empty(state_view(*old(state)))
            },
        ),
{
    let mut stored = match state.take() {
        Some(s) => s,
        None => State::new(),
    };
    stored.groq_api_key = api_request.api_key.clone();
    *state = Some(stored);
}

/// Stores the endpoint of the compatible provider, in a new state if there
/// is none yet.
pub fn register_oai_provider_endpoint(
    endpoint_request: &RegisterEndpointRequest,
    state: &mut Option<State>,
)
    ensures
        state_view(*final(state)) == Some(
            StateView {
                oai_provider_base_url: Some(endpoint_request.endpoint@),
                ..state_or_empty(state_view(*old(state)))
            },
        ),
{
    let mut stored = match state.take() {
        Some(s) => s,
        None => State::new(),
    };
    stored.oai_provider_base_url = Some(endpoint_request.endpoint.clone());
    *state = Some(stored);
}

/// The state after a request.
pub open spec fn state_after(state: Option<StateView>, request: LLMRequest) -> Option<StateView> {
    match request {
        LLMRequest::RegisterOpenaiApiKey(r) => Some(
            StateView { openai_api_key: r.api_key@, ..state_or_empty(state) },
        ),
        LLMRequest::RegisterGroqApiKey(r) => Some(
            StateView { groq_api_key: r.api_key@, ..state_or_empty(state) },
        ),
        LLMRequest::RegisterOaiProviderEndpoint(r) => Some(
            StateView { oai_provider_base_url: Some(r.endpoint@), ..state_or_empty(state) },
        ),
        _ => state,
    }
}

/// The call that serves a request, `None` for a request that registers
/// something, or the reason why the request cannot be served.
pub open spec fn call_for(state: Option<StateView>, request: LLMRequest) -> Result<
    Option<HttpCallView>,
    SidecarError,
> {
    let context = context_of(request);
    let planned = match request {
        LLMRequest::Embedding => generic_call(
            state,
            context,
            OPENAI_BASE_URL@ + "/embeddings"@,
            None,
        ),
        LLMRequest::OpenaiChat => generic_call(
            state,
            context,
            OPENAI_BASE_URL@ + "/chat/completions"@,
            None,
        ),
        LLMRequest::GroqChat => generic_call(
            state,
            context,
            GROQ_BASE_URL@ + "/chat/completions"@,
            None,
        ),
        LLMRequest::ChatImage => generic_call(
            state,
            context,
            OPENAI_BASE_URL@ + "/chat/completions"@,
            None,
        ),
        LLMRequest::OaiProviderChat => match state {
            None => Err(SidecarError::StateNotSet),
            Some(s) => match s.oai_provider_base_url {
                None => Err(SidecarError::BaseUrlNotSet),
                Some(base_url) => generic_call(
                    state,
                    context,
                    base_url + "/chat/completions"@,
                    Some(OAI_PROVIDER_TIMEOUT_SECONDS),
                ),
            },
        },
        _ => Err(SidecarError::InvalidContext),
    };
    match request {
        LLMRequest::RegisterOpenaiApiKey(_) => Ok(None),
        LLMRequest::RegisterGroqApiKey(_) => Ok(None),
        LLMRequest::RegisterOaiProviderEndpoint(_) => Ok(None),
        _ => match planned {
            Ok(call) => Ok(Some(call)),
            Err(e) => Err(e),
        },
    }
}

/// The mathematical value of what the sidecar does with a request.
pub open spec fn served_view(served: Served) -> Option<HttpCallView> {
    match served {
        Served::Registered => None,
        Served::Call(call) => Some(call@),
    }
}

/// Handles a request. A key or an endpoint is stored. A chat or an
/// embedding becomes a call to the provider's endpoint, with the
/// provider's key; a chat with the compatible provider needs its endpoint
/// to be registered first.
pub fn handle_request(request: &LLMRequest, state: &mut Option<State>) -> (res: Result<
    Served,
    SidecarError,
>)
    ensures
        match res {
            Ok(served) => call_for(state_view(*old(state)), *request) == Ok::<
                Option<HttpCallView>,
                SidecarError,
            >(served_view(served)) && state_view(*final(state)) == state_after(
                state_view(*old(state)),
                *request,
            ),
            Err(e) => call_for(state_view(*old(state)), *request) == Err::<
                Option<HttpCallView>,
                SidecarError,
            >(e) && *final(state) == *old(state),
        },
{
    let context = request_to_context(request);
    match request {
        LLMRequest::RegisterOpenaiApiKey(api_request) => {
            register_openai_api_key(api_request, state);
            Ok(Served::Registered)
        },
        LLMRequest::RegisterGroqApiKey(api_request) => {
            register_groq_api_key(api_request, state);
            Ok(Served::Registered)
        },
        LLMRequest::RegisterOaiProviderEndpoint(endpoint_request) => {
            register_oai_provider_endpoint(endpoint_request, state);
            Ok(Served::Registered)
        },
        LLMRequest::Embedding => {
            let endpoint = OPENAI_BASE_URL.to_owned().concat("/embeddings");
            Ok(Served::Call(handle_generic_request(state, context, endpoint.as_str(), None)?))
        },
        LLMRequest::OpenaiChat => {
            let endpoint = OPENAI_BASE_URL.to_owned().concat("/chat/completions");
            Ok(Served::Call(handle_generic_request(state, context, endpoint.as_str(), None)?))
        },
        LLMRequest::GroqChat => {
            let endpoint = GROQ_BASE_URL.to_owned().concat("/chat/completions");
            Ok(Served::Call(handle_generic_request(state, context, endpoint.as_str(), None)?))
        },
        LLMRequest::ChatImage => {
            let endpoint = OPENAI_BASE_URL.to_owned().concat("/chat/completions");
            Ok(Served::Call(handle_generic_request(state, context, endpoint.as_str(), None)?))
        },
        LLMRequest::OaiProviderChat => {
            let endpoint = match state {
                None => {
                    return Err(SidecarError::StateNotSet);
                },
                Some(s) => match &s.oai_provider_base_url {
                    None => {
                        return Err(SidecarError::BaseUrlNotSet);
                    },
                    Some(base_url) => base_url.clone().concat("/chat/completions"),
                },
            };
            Ok(
                Served::Call(
                    handle_generic_request(
                        state,
                        context,
                        endpoint.as_str(),
                        Some(OAI_PROVIDER_TIMEOUT_SECONDS),
                    )?,
                ),
            )
        },
    }
}

} // verus!
