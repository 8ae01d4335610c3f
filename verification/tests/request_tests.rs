use promptwire::build_api_request;
use promptwire::model::{Api, ApiConfig, ApiError, ConfigError, Message, Prompt};
use promptwire::request::{AnthropicPrompt, DeeplPrompt, OpenAiPrompt};

fn config(api_key: &str) -> ApiConfig {
    ApiConfig {
        url: "http://localhost/v1/chat".to_string(),
        api_key: api_key.to_string(),
        default_model: None,
        timeout_seconds: Some(30),
        version: None,
    }
}

fn prompt(api: Api, model: Option<&str>, msgs: &[(&str, &str)]) -> Prompt {
    Prompt {
        api,
        model: model.map(|m| m.to_string()),
        messages: msgs.iter().map(|(r, c)| Message::new(r, c)).collect(),
        temperature_centi: None,
        stream: None,
    }
}

#[test]
fn openai_messages_pass_through_unchanged() {
    let p = prompt(Api::Openai, Some("gpt"), &[("system", "a"), ("user", "b")]);
    let q = OpenAiPrompt::build(&p).unwrap();
    assert_eq!(q.model, "gpt");
    assert_eq!(q.messages.len(), 2);
    assert_eq!(q.messages[0].role, "system");
    assert_eq!(q.messages[0].content, "a");
    assert_eq!(q.messages[1].role, "user");
    assert_eq!(q.messages[1].content, "b");
}

#[test]
fn openai_body_exact() {
    let p = prompt(Api::Openai, Some("gpt"), &[("user", "hi")]);
    let r = build_api_request(&config("k"), &p).unwrap();
    assert_eq!(
        r.body,
        "{\"model\":\"gpt\",\"messages\":[{\"role\":\"user\",\"content\":\"hi\"}],\"stream\":false}"
    );
    assert_eq!(r.url, "http://localhost/v1/chat");
}

#[test]
fn stream_forced_false_when_caller_asked_for_true() {
    let mut p = prompt(Api::Openai, Some("m"), &[("user", "x")]);
    p.stream = Some(true);
    let r = build_api_request(&config("k"), &p).unwrap();
    assert!(r.body.ends_with("\"stream\":false}"));
}

#[test]
fn stream_forced_false_when_caller_left_it_absent() {
    let p = prompt(Api::Ollama, Some("m"), &[("user", "x")]);
    let r = build_api_request(&config("k"), &p).unwrap();
    assert!(r.body.ends_with("\"stream\":false}"));
}

#[test]
fn stream_forced_false_when_caller_asked_for_false() {
    let mut p = prompt(Api::Groq, Some("m"), &[("user", "x")]);
    p.stream = Some(false);
    let r = build_api_request(&config("k"), &p).unwrap();
    assert!(r.body.ends_with("\"stream\":false}"));
}

#[test]
fn temperature_rendered_with_two_fraction_digits() {
    let mut p = prompt(Api::Openai, Some("m"), &[("user", "x")]);
    p.temperature_centi = Some(70);
    let r = build_api_request(&config("k"), &p).unwrap();
    assert!(r.body.contains("\"temperature\":0.70,"));
    p.temperature_centi = Some(125);
    let r = build_api_request(&config("k"), &p).unwrap();
    assert!(r.body.contains("\"temperature\":1.25,"));
}

#[test]
fn temperature_absent_when_not_set() {
    let p = prompt(Api::Openai, Some("m"), &[("user", "x")]);
    let r = build_api_request(&config("k"), &p).unwrap();
    assert!(!r.body.contains("temperature"));
}

#[test]
fn anthropic_merges_system_into_following_user() {
    let p = prompt(
        Api::Anthropic,
        Some("a-model"),
        &[("system", "Be terse"), ("user", "Hi")],
    );
    let q = AnthropicPrompt::build(&p).unwrap();
    assert_eq!(q.messages.len(), 1);
    assert_eq!(q.messages[0].role, "user");
    assert_eq!(q.messages[0].content, "Be terse\n\nHi");
    assert_eq!(q.max_tokens, 4096);
}

#[test]
fn anthropic_keeps_alternating_roles_apart() {
    let p = prompt(
        Api::Anthropic,
        Some("a-model"),
        &[("user", "A"), ("assistant", "B"), ("user", "C")],
    );
    let q = AnthropicPrompt::build(&p).unwrap();
    assert_eq!(q.messages.len(), 3);
    assert_eq!(q.messages[0].role, "user");
    assert_eq!(q.messages[0].content, "A");
    assert_eq!(q.messages[1].role, "assistant");
    assert_eq!(q.messages[1].content, "B");
    assert_eq!(q.messages[2].role, "user");
    assert_eq!(q.messages[2].content, "C");
}

#[test]
fn anthropic_does_not_merge_nonadjacent_equal_roles() {
    let p = prompt(
        Api::Anthropic,
        Some("a-model"),
        &[("user", "A"), ("assistant", "B"), ("user", "C"), ("user", "D")],
    );
    let q = AnthropicPrompt::build(&p).unwrap();
    assert_eq!(q.messages.len(), 3);
    assert_eq!(q.messages[2].content, "C\n\nD");
}

#[test]
fn anthropic_body_carries_max_tokens() {
    let p = prompt(Api::Anthropic, Some("a-model"), &[("user", "Hi")]);
    let mut c = config("k");
    c.version = Some("2023-06-01".to_string());
    let r = build_api_request(&c, &p).unwrap();
    assert_eq!(
        r.body,
        "{\"model\":\"a-model\",\"messages\":[{\"role\":\"user\",\"content\":\"Hi\"}],\"max_tokens\":4096,\"stream\":false}"
    );
}

#[test]
fn deepl_splits_last_message_from_context() {
    let p = prompt(
        Api::Deepl,
        Some("DE"),
        &[("user", "ctx1"), ("user", "ctx2"), ("user", "Hello")],
    );
    let q = DeeplPrompt::build(&p).unwrap();
    assert_eq!(q.target_lang, "DE");
    assert_eq!(q.text, vec!["Hello".to_string()]);
    assert_eq!(q.context, "ctx1\nctx2");
    assert!(q.preserve_formatting);
}

#[test]
fn deepl_body_exact() {
    let p = prompt(Api::Deepl, Some("DE"), &[("user", "ctx"), ("user", "Hello")]);
    let r = build_api_request(&config("k"), &p).unwrap();
    assert_eq!(
        r.body,
        "{\"target_lang\":\"DE\",\"preserve_formatting\":true,\"context\":\"ctx\",\"text\":[\"Hello\"]}"
    );
}

#[test]
fn deepl_single_message_has_empty_context() {
    let p = prompt(Api::Deepl, Some("FR"), &[("user", "Hello")]);
    let q = DeeplPrompt::build(&p).unwrap();
    assert_eq!(q.context, "");
    assert_eq!(q.text, vec!["Hello".to_string()]);
}

#[test]
fn deepl_missing_target_lang_fails() {
    let p = prompt(Api::Deepl, None, &[("user", "Hello")]);
    let r = build_api_request(&config("k"), &p);
    assert_eq!(
        r.unwrap_err(),
        ApiError::Configuration(ConfigError::MissingTargetLang)
    );
}

#[test]
fn missing_model_fails_before_any_transport() {
    // The library never touches a transport: a missing model must surface
    // as a configuration error from the pure request builder itself.
    let p = prompt(Api::Openai, None, &[("user", "x")]);
    let r = build_api_request(&config("k"), &p);
    assert_eq!(r.unwrap_err(), ApiError::Configuration(ConfigError::MissingModel));
}

#[test]
fn default_model_fills_in_when_prompt_names_none() {
    let p = prompt(Api::Openai, None, &[("user", "x")]);
    let mut c = config("k");
    c.default_model = Some("fallback".to_string());
    let r = build_api_request(&c, &p).unwrap();
    assert!(r.body.starts_with("{\"model\":\"fallback\","));
}

#[test]
fn prompt_model_wins_over_default() {
    let p = prompt(Api::Openai, Some("mine"), &[("user", "x")]);
    let mut c = config("k");
    c.default_model = Some("fallback".to_string());
    let r = build_api_request(&c, &p).unwrap();
    assert!(r.body.starts_with("{\"model\":\"mine\","));
}

#[test]
fn empty_messages_fail_for_every_adapter() {
    for api in [Api::Openai, Api::Anthropic, Api::Deepl, Api::Ollama] {
        let p = prompt(api, Some("m"), &[]);
        let r = build_api_request(&config("k"), &p);
        assert_eq!(
            r.unwrap_err(),
            ApiError::Configuration(ConfigError::EmptyMessages)
        );
    }
}

#[test]
fn test_only_provider_never_dispatches() {
    let p = prompt(Api::AnotherApiForTests, Some("m"), &[("user", "x")]);
    let r = build_api_request(&config("k"), &p);
    assert_eq!(
        r.unwrap_err(),
        ApiError::Configuration(ConfigError::UnsupportedProvider)
    );
}

#[test]
fn json_string_escaping_in_bodies() {
    let p = prompt(
        Api::Openai,
        Some("m"),
        &[("user", "say \"hi\"\\ now\nplease\ttab\r")],
    );
    let r = build_api_request(&config("k"), &p).unwrap();
    assert!(r.body.contains("\"content\":\"say \\\"hi\\\"\\\\ now\\nplease\\ttab\\r\""));
}

#[test]
fn control_characters_get_unicode_escapes() {
    let p = prompt(Api::Openai, Some("m"), &[("user", "a\u{1}b\u{1f}c")]);
    let r = build_api_request(&config("k"), &p).unwrap();
    assert!(r.body.contains("a\\u0001b\\u001fc"));
}

#[test]
fn openai_family_bearer_auth() {
    for api in [Api::Openai, Api::Mistral, Api::Groq] {
        let p = prompt(api, Some("m"), &[("user", "x")]);
        let r = build_api_request(&config("sk-123"), &p).unwrap();
        assert!(r
            .headers
            .contains(&("Authorization".to_string(), "Bearer sk-123".to_string())));
        assert!(r
            .headers
            .contains(&("Content-Type".to_string(), "application/json".to_string())));
    }
}

#[test]
fn azure_uses_api_key_header() {
    let p = prompt(Api::AzureOpenai, Some("m"), &[("user", "x")]);
    let r = build_api_request(&config("az"), &p).unwrap();
    assert!(r.headers.contains(&("api-key".to_string(), "az".to_string())));
    assert!(!r.headers.iter().any(|h| h.0 == "Authorization"));
}

#[test]
fn cerebras_adds_user_agent_override() {
    let p = prompt(Api::Cerebras, Some("m"), &[("user", "x")]);
    let r = build_api_request(&config("ck"), &p).unwrap();
    assert!(r
        .headers
        .contains(&("User-Agent".to_string(), "CUSTOM_NAME/1.0".to_string())));
    assert!(r
        .headers
        .contains(&("Authorization".to_string(), "Bearer ck".to_string())));
}

#[test]
fn anthropic_headers_and_version_requirement() {
    let p = prompt(Api::Anthropic, Some("a-model"), &[("user", "x")]);
    let r = build_api_request(&config("ak"), &p);
    assert_eq!(
        r.unwrap_err(),
        ApiError::Configuration(ConfigError::MissingVersion)
    );
    let mut c = config("ak");
    c.version = Some("2023-06-01".to_string());
    let r = build_api_request(&c, &p).unwrap();
    assert!(r.headers.contains(&("x-api-key".to_string(), "ak".to_string())));
    assert!(r
        .headers
        .contains(&("anthropic-version".to_string(), "2023-06-01".to_string())));
}

#[test]
fn deepl_auth_key_header() {
    let p = prompt(Api::Deepl, Some("DE"), &[("user", "x")]);
    let r = build_api_request(&config("dk"), &p).unwrap();
    assert!(r
        .headers
        .contains(&("Authorization".to_string(), "DeepL-Auth-Key dk".to_string())));
}

#[test]
fn ollama_needs_no_auth() {
    let p = prompt(Api::Ollama, Some("m"), &[("user", "x")]);
    let r = build_api_request(&config("unused"), &p).unwrap();
    assert_eq!(
        r.headers,
        vec![("Content-Type".to_string(), "application/json".to_string())]
    );
}

#[test]
fn caller_prompt_is_never_mutated() {
    let p = prompt(Api::Openai, Some("m"), &[("user", "x")]);
    let _ = build_api_request(&config("k"), &p).unwrap();
    assert_eq!(p.stream, None);
    assert_eq!(p.model.as_deref(), Some("m"));
    assert_eq!(p.messages.len(), 1);
}
