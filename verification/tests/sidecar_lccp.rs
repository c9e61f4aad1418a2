use llm_provider::llm::lccp::EmbeddingRequest as LccpEmbeddingRequest;
use llm_provider::sidecar::http::{Header, HttpCall, OutgoingHttpRequest, Reading};
use llm_provider::sidecar::lccp::{
    handle_chat_request, handle_chat_request_non_streaming, handle_chat_request_streaming,
    handle_embedding_request, handle_request, handle_response, send_request, ChatRequest,
    LLMRequest,
};

fn h(name: &str, value: &str) -> Header {
    Header { name: name.to_string(), value: value.to_string() }
}

fn call(url: &str, more: Vec<Header>, timeout_seconds: u64, context: u8) -> HttpCall {
    let mut headers = vec![h("Content-Type", "application/json")];
    headers.extend(more);
    HttpCall {
        request: OutgoingHttpRequest {
            method: "POST".to_string(),
            version: None,
            url: url.to_string(),
            headers,
        },
        timeout_seconds,
        context,
    }
}

#[test]
fn lccp_sidecar() {
    assert_eq!(handle_response(&[0]), Reading::Chat);
    assert_eq!(handle_response(&[1]), Reading::Nothing);
    assert_eq!(handle_response(&[2]), Reading::Embedding);
    assert_eq!(handle_response(&[3]), Reading::Nothing);
    let embedding = LccpEmbeddingRequest { content: "text".to_string(), image_data: None };
    assert_eq!(
        handle_embedding_request(&embedding),
        call("http://127.0.0.1:3000/embedding", vec![], 30, 2)
    );
    assert_eq!(
        handle_request(&LLMRequest::Embedding(embedding)),
        call("http://127.0.0.1:3000/embedding", vec![], 30, 2)
    );
    let plain = call("http://127.0.0.1:3000/completion", vec![], 30, 0);
    let streaming = call("http://127.0.0.1:3000/completion", vec![], 30, 1);
    assert_eq!(handle_chat_request(&ChatRequest { stream: None }), plain);
    assert_eq!(handle_chat_request(&ChatRequest { stream: Some(false) }), plain);
    assert_eq!(handle_chat_request(&ChatRequest { stream: Some(true) }), streaming);
    assert_eq!(handle_request(&LLMRequest::Chat(ChatRequest { stream: Some(true) })), streaming);
    assert_eq!(handle_chat_request_streaming(&ChatRequest { stream: None }), streaming);
    assert_eq!(handle_chat_request_non_streaming(&ChatRequest { stream: Some(true) }), plain);
    assert_eq!(send_request("x", 9), call("http://127.0.0.1:3000/x", vec![], 30, 9));
}
