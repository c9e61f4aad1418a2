//! The HTTP call that a sidecar asks the node's HTTP client to make, and how
//! the answer is read.

use vstd::prelude::*;
use vstd::string::StringExecFns;

verus! {

/// How a sidecar reads the blob of a provider's answer.
#[derive(Debug, Clone, Copy, PartialEq, Eq)]
pub enum Reading {
    /// As the provider's embedding response, to be answered as an
    /// embedding.
    Embedding,
    /// As a chat response, to be answered as a chat.
    Chat,
    /// As a chat response of Anthropic.
    ClaudeChat,
    /// Not at all.
    Nothing,
}

/// One header of a request: its name and its value.
#[derive(Debug, PartialEq, Eq)]
pub struct Header {
    pub name: String,
    pub value: String,
}

/// The mathematical value of a [`Header`].
pub ghost struct HeaderView {
    pub name: Seq<char>,
    pub value: Seq<char>,
}

impl View for Header {
    type V = HeaderView;

    open spec fn view(&self) -> HeaderView {
        HeaderView { name: self.name@, value: self.value@ }
    }
}

/// A request for the HTTP client. The version is left to the client.
#[derive(Debug, PartialEq, Eq)]
pub struct OutgoingHttpRequest {
    pub method: String,
    pub version: Option<String>,
    pub url: String,
    pub headers: Vec<Header>,
}

/// An HTTP call together with how long to wait for its answer and the one
/// byte of context that tells the answers apart.
#[derive(Debug, PartialEq, Eq)]
pub struct HttpCall {
    pub request: OutgoingHttpRequest,
    pub timeout_seconds: u64,
    pub context: u8,
}

/// The mathematical value of an [`HttpCall`].
pub ghost struct HttpCallView {
    pub method: Seq<char>,
    pub version: Option<Seq<char>>,
    pub url: Seq<char>,
    pub headers: Seq<HeaderView>,
    pub timeout_seconds: u64,
    pub context: u8,
}

impl View for HttpCall {
    type V = HttpCallView;

    open spec fn view(&self) -> HttpCallView {
        HttpCallView {
            method: self.request.method@,
            version: match self.request.version {
                Some(v) => Some(v@),
                None => None,
            },
            url: self.request.url@,
            headers: self.request.headers@.map_values(|h: Header| h@),
            timeout_seconds: self.timeout_seconds,
            context: self.context,
        }
    }
}

/// The header that says the body is JSON.
pub open spec fn json_header() -> HeaderView {
    HeaderView { name: "Content-Type"@, value: "application/json"@ }
}

/// The header that carries `api_key` as a bearer token.
pub open spec fn bearer_header(api_key: Seq<char>) -> HeaderView {
    HeaderView { name: "Authorization"@, value: "Bearer "@ + api_key }
}

/// A `POST` of JSON to `url` with the headers `more` after the content
/// type.
pub open spec fn post_json(url: Seq<char>, more: Seq<HeaderView>, timeout_seconds: u64, context: u8)
    -> HttpCallView {
    HttpCallView {
        method: "POST"@,
        version: None,
        url,
        headers: seq![json_header()] + more,
        timeout_seconds,
        context,
    }
}

/// Builds the header `name: value`.
pub fn header(name: &str, value: String) -> (res: Header)
    ensures
        res@ == (HeaderView { name: name@, value: value@ }),
{
    Header { name: name.to_owned(), value }
}

/// Builds the header that carries `api_key` as a bearer token.
pub fn bearer(api_key: &str) -> (res: Header)
    ensures
        res@ == bearer_header(api_key@),
{
    header("Authorization", "Bearer ".to_owned().concat(api_key))
}

/// Builds a `POST` of JSON to `url` with the headers `more` after the
/// content type.
pub fn post(url: String, more: Vec<Header>, timeout_seconds: u64, context: u8) -> (res: HttpCall)
    ensures
        res@ == post_json(url@, more@.map_values(|h: Header| h@), timeout_seconds, context),
{
    let mut headers: Vec<Header> = Vec::new();
    headers.push(header("Content-Type", "application/json".to_owned()));
    let mut more = more;
    let ghost rest = more@.map_values(|h: Header| h@);
    headers.append(&mut more);
    let res = HttpCall {
        request: OutgoingHttpRequest { method: "POST".to_owned(), version: None, url, headers },
        timeout_seconds,
        context,
    };
    proof {
        assert(res@.headers =~= seq![json_header()] + rest);
    }
    res
}

} // verus!
