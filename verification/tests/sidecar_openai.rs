use llm_provider::llm::openai::{RegisterApiKeyRequest, RegisterEndpointRequest};
use llm_provider::sidecar::http::{
    bearer, header, post, Header, HttpCall, OutgoingHttpRequest, Reading,
};
use llm_provider::sidecar::openai::{
    handle_generic_request, handle_request, handle_response, register_oai_provider_endpoint,
    request_to_context, LLMRequest, Served, SidecarError, State,
};

fn h(name: &str, value: &str) -> Header {
    Header { name: name.to_string(), value: value.to_string() }
}

fn call(url: &str, more: Vec<Header>, timeout_seconds: u64, context: u8) -> HttpCall {
    let mut headers = vec![h("Content-Type", "application/json")];
    headers.extend(more);
    HttpCall {
        request: OutgoingHttpRequest {
            method: "POST".to_string(),
            version: None,
            url: url.to_string(),
            headers,
        },
        timeout_seconds,
        context,
    }
}

fn key(api_key: &str) -> RegisterApiKeyRequest {
    RegisterApiKeyRequest { api_key: api_key.to_string() }
}

#[test]
fn http_helpers() {
    assert_eq!(header("a", "b".to_string()), h("a", "b"));
    assert_eq!(bearer("k"), h("Authorization", "Bearer k"));
    assert_eq!(
        post("http://x/y".to_string(), vec![h("a", "b")], 3, 9),
        call("http://x/y", vec![h("a", "b")], 3, 9)
    );
}

#[test]
fn openai_contexts() {
    assert_eq!(request_to_context(&LLMRequest::RegisterOpenaiApiKey(key("k"))), 0);
    assert_eq!(request_to_context(&LLMRequest::RegisterGroqApiKey(key("k"))), 0);
    assert_eq!(
        request_to_context(&LLMRequest::RegisterOaiProviderEndpoint(
            RegisterEndpointRequest { endpoint: "e".to_string() }
        )),
        0
    );
    assert_eq!(request_to_context(&LLMRequest::Embedding), 1);
    assert_eq!(request_to_context(&LLMRequest::OpenaiChat), 2);
    assert_eq!(request_to_context(&LLMRequest::GroqChat), 3);
    assert_eq!(request_to_context(&LLMRequest::ChatImage), 4);
    assert_eq!(request_to_context(&LLMRequest::OaiProviderChat), 5);
}

#[test]
fn openai_reads_answers_by_context() {
    assert_eq!(handle_response(&[0]), Reading::Nothing);
    assert_eq!(handle_response(&[1]), Reading::Embedding);
    assert_eq!(handle_response(&[2]), Reading::Chat);
    assert_eq!(handle_response(&[3]), Reading::Chat);
    assert_eq!(handle_response(&[4]), Reading::Chat);
    assert_eq!(handle_response(&[5]), Reading::Chat);
    assert_eq!(handle_response(&[6]), Reading::Nothing);
    assert_eq!(handle_response(&[1, 2, 3]), Reading::Embedding);
}

#[test]
fn openai_registers_keys_and_endpoint() {
    let mut state: Option<State> = None;
    assert_eq!(
        handle_request(&LLMRequest::RegisterOpenaiApiKey(key("ok")), &mut state),
        Ok(Served::Registered)
    );
    assert_eq!(
        state,
        Some(State {
            openai_api_key: "ok".to_string(),
            groq_api_key: String::new(),
            oai_provider_base_url: None,
        })
    );
    assert_eq!(
        handle_request(&LLMRequest::RegisterGroqApiKey(key("gk")), &mut state),
        Ok(Served::Registered)
    );
    assert_eq!(
        handle_request(
            &LLMRequest::RegisterOaiProviderEndpoint(RegisterEndpointRequest {
                endpoint: "http://localhost:8080/v1".to_string()
            }),
            &mut state
        ),
        Ok(Served::Registered)
    );
    assert_eq!(
        state,
        Some(State {
            openai_api_key: "ok".to_string(),
            groq_api_key: "gk".to_string(),
            oai_provider_base_url: Some("http://localhost:8080/v1".to_string()),
        })
    );
    let mut fresh: Option<State> = None;
    register_oai_provider_endpoint(
        &RegisterEndpointRequest { endpoint: "e".to_string() },
        &mut fresh,
    );
    assert_eq!(
        fresh,
        Some(State {
            openai_api_key: String::new(),
            groq_api_key: String::new(),
            oai_provider_base_url: Some("e".to_string()),
        })
    );
    assert_eq!(State::new().openai_api_key, "");
}

#[test]
fn openai_plans_calls() {
    let mut state = Some(State {
        openai_api_key: "ok".to_string(),
        groq_api_key: "gk".to_string(),
        oai_provider_base_url: Some("http://localhost:8080/v1".to_string()),
    });
    assert_eq!(
        handle_request(&LLMRequest::Embedding, &mut state),
        Ok(Served::Call(call(
            "https://api.openai.com/v1/embeddings",
            vec![h("Authorization", "Bearer ok")],
            30,
            1
        )))
    );
    assert_eq!(
        handle_request(&LLMRequest::OpenaiChat, &mut state),
        Ok(Served::Call(call(
            "https://api.openai.com/v1/chat/completions",
            vec![h("Authorization", "Bearer ok")],
            30,
            2
        )))
    );
    assert_eq!(
        handle_request(&LLMRequest::GroqChat, &mut state),
        Ok(Served::Call(call(
            "https://api.groq.com/openai/v1/chat/completions",
            vec![h("Authorization", "Bearer gk")],
            30,
            3
        )))
    );
    assert_eq!(
        handle_request(&LLMRequest::ChatImage, &mut state),
        Ok(Served::Call(call(
            "https://api.openai.com/v1/chat/completions",
            vec![h("Authorization", "Bearer ok")],
            30,
            4
        )))
    );
    assert_eq!(
        handle_request(&LLMRequest::OaiProviderChat, &mut state),
        Ok(Served::Call(call("http://localhost:8080/v1/chat/completions", vec![], 60, 5)))
    );
    assert_eq!(
        handle_generic_request(&state, 2, "http://x", Some(7)),
        Ok(call("http://x", vec![h("Authorization", "Bearer ok")], 7, 2))
    );
}

#[test]
fn openai_errors() {
    let mut none: Option<State> = None;
    let e = handle_request(&LLMRequest::OaiProviderChat, &mut none).unwrap_err();
    assert_eq!(e, SidecarError::StateNotSet);
    assert_eq!(e.message(), "state must be set before calling OaiProviderChat");
    assert_eq!(e.reply(), Some("state must be set before calling OaiProviderChat".to_string()));

    let mut no_url = Some(State::new());
    let e = handle_request(&LLMRequest::OaiProviderChat, &mut no_url).unwrap_err();
    assert_eq!(e, SidecarError::BaseUrlNotSet);
    assert_eq!(e.message(), "oai_provider_base_url must be set before calling OaiProviderChat");
    assert!(e.reply().is_some());

    let e = handle_request(&LLMRequest::OpenaiChat, &mut none).unwrap_err();
    assert_eq!(e, SidecarError::StateNotInitialized);
    assert_eq!(e.message(), "State not initialized");
    assert_eq!(e.reply(), None);
    assert_eq!(
        handle_request(&LLMRequest::GroqChat, &mut none),
        Err(SidecarError::StateNotInitialized)
    );
    assert_eq!(none, None);

    let e = handle_generic_request(&no_url, 0, "http://x", None).unwrap_err();
    assert_eq!(e, SidecarError::InvalidContext);
    assert_eq!(e.message(), "Invalid context for API key");
    assert_eq!(
        handle_generic_request(&none, 9, "http://x", None),
        Err(SidecarError::InvalidContext)
    );
    // The compatible provider needs no key, and so no state.
    assert_eq!(
        handle_generic_request(&none, 5, "http://x", None),
        Ok(call("http://x", vec![], 30, 5))
    );
}
