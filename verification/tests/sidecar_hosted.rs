use llm_provider::llm::openai::RegisterApiKeyRequest;
use llm_provider::sidecar::hosted::{
    handle_generic_request, handle_request, handle_response, register_api_key,
    request_to_context, ApiKeyType, LLMRequest, Served, SidecarError, State,
};
use llm_provider::sidecar::http::{Header, HttpCall, OutgoingHttpRequest, Reading};

fn h(name: &str, value: &str) -> Header {
    Header { name: name.to_string(), value: value.to_string() }
}

fn call(url: &str, more: Vec<Header>, timeout_seconds: u64, context: u8) -> HttpCall {
    let mut headers = vec![h("Content-Type", "application/json")];
    headers.extend(more);
    HttpCall {
        request: OutgoingHttpRequest {
            method: "POST".to_string(),
            version: None,
            url: url.to_string(),
            headers,
        },
        timeout_seconds,
        context,
    }
}

fn key(api_key: &str) -> RegisterApiKeyRequest {
    RegisterApiKeyRequest { api_key: api_key.to_string() }
}

#[test]
fn hosted_sidecar() {
    assert_eq!(request_to_context(&LLMRequest::RegisterClaudeApiKey(key("k"))), 0);
    assert_eq!(request_to_context(&LLMRequest::RegisterOpenaiApiKey(key("k"))), 0);
    assert_eq!(request_to_context(&LLMRequest::RegisterGroqApiKey(key("k"))), 0);
    assert_eq!(request_to_context(&LLMRequest::Embedding), 1);
    assert_eq!(request_to_context(&LLMRequest::OpenaiChat), 2);
    assert_eq!(request_to_context(&LLMRequest::GroqChat), 3);
    assert_eq!(request_to_context(&LLMRequest::ChatImage), 4);
    assert_eq!(request_to_context(&LLMRequest::ClaudeChat), 5);

    assert_eq!(handle_response(&[0]), Reading::Nothing);
    assert_eq!(handle_response(&[1]), Reading::Embedding);
    assert_eq!(handle_response(&[2]), Reading::Chat);
    assert_eq!(handle_response(&[3]), Reading::Chat);
    assert_eq!(handle_response(&[4]), Reading::Chat);
    assert_eq!(handle_response(&[5]), Reading::ClaudeChat);
    assert_eq!(handle_response(&[200]), Reading::Nothing);

    let mut state: Option<State> = None;
    assert_eq!(
        handle_request(&LLMRequest::ClaudeChat, &mut state),
        Err(SidecarError::StateNotInitialized)
    );
    assert_eq!(
        handle_request(&LLMRequest::RegisterClaudeApiKey(key("ck")), &mut state),
        Ok(Served::Registered)
    );
    register_api_key(&key("ok"), &mut state, ApiKeyType::OpenAI);
    register_api_key(&key("gk"), &mut state, ApiKeyType::Groq);
    assert_eq!(
        state,
        Some(State {
            openai_api_key: "ok".to_string(),
            groq_api_key: "gk".to_string(),
            claude_api_key: "ck".to_string(),
        })
    );
    assert_eq!(
        handle_request(&LLMRequest::ClaudeChat, &mut state),
        Ok(Served::Call(call(
            "https://api.anthropic.com/v1/messages",
            vec![h("x-api-key", "ck"), h("anthropic-version", "2023-06-01")],
            30,
            5
        )))
    );
    assert_eq!(
        handle_request(&LLMRequest::Embedding, &mut state),
        Ok(Served::Call(call(
            "https://api.openai.com/v1/embeddings",
            vec![h("Authorization", "Bearer ok")],
            30,
            1
        )))
    );
    assert_eq!(
        handle_request(&LLMRequest::GroqChat, &mut state),
        Ok(Served::Call(call(
            "https://api.groq.com/openai/v1/chat/completions",
            vec![h("Authorization", "Bearer gk")],
            30,
            3
        )))
    );
    assert_eq!(
        handle_request(&LLMRequest::OpenaiChat, &mut state),
        handle_request(&LLMRequest::ChatImage, &mut state).map(|s| match s {
            Served::Call(mut c) => {
                c.context = 2;
                Served::Call(c)
            }
            other => other,
        })
    );
    assert_eq!(
        handle_generic_request(&state, 0, "http://x"),
        Err(SidecarError::InvalidContext)
    );
    assert_eq!(
        handle_generic_request(&None, 6, "http://x"),
        Err(SidecarError::InvalidContext)
    );
}
