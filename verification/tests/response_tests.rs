use promptwire::model::{Api, ApiError, ConfigError, ShapeError};
use promptwire::response::parse_api_response;

#[test]
fn openai_response_extracts_first_choice() {
    let body = "{\"choices\": [{\"message\": {\"role\":\"assistant\",\"content\":\"hi\"}}]}";
    let m = parse_api_response(Api::Openai, body).unwrap();
    assert_eq!(m.role, "assistant");
    assert_eq!(m.content, "hi");
}

#[test]
fn openai_empty_choices_fail() {
    let r = parse_api_response(Api::Openai, "{\"choices\": []}");
    assert_eq!(r.unwrap_err(), ApiError::ResponseShape(ShapeError::EmptyChoices));
}

#[test]
fn openai_extraction_ignores_extra_members() {
    let body = "{\"id\":\"x\",\"choices\":[{\"index\":0,\"message\":{\"role\":\"assistant\",\"content\":\"first\"}},{\"message\":{\"role\":\"assistant\",\"content\":\"second\"}}],\"usage\":{\"total_tokens\":5}}";
    let m = parse_api_response(Api::Groq, body).unwrap();
    assert_eq!(m.content, "first");
}

#[test]
fn anthropic_response_extracts_first_content() {
    let body = "{\"content\": [{\"text\": \"yo\", \"type\": \"text\"}]}";
    let m = parse_api_response(Api::Anthropic, body).unwrap();
    assert_eq!(m.role, "assistant");
    assert_eq!(m.content, "yo");
}

#[test]
fn anthropic_empty_content_fails() {
    let r = parse_api_response(Api::Anthropic, "{\"content\": []}");
    assert_eq!(r.unwrap_err(), ApiError::ResponseShape(ShapeError::EmptyContent));
}

#[test]
fn ollama_response_extracts_message_content() {
    let body = "{\"message\": {\"role\": \"assistant\", \"content\": \"local\"}}";
    let m = parse_api_response(Api::Ollama, body).unwrap();
    assert_eq!(m.content, "local");
}

#[test]
fn deepl_empty_translations_fail_with_diagnostic() {
    let r = parse_api_response(Api::Deepl, "{\"translations\": []}");
    let e = r.unwrap_err();
    assert_eq!(e, ApiError::ResponseShape(ShapeError::EmptyTranslations));
    assert_eq!(e.message(), "no translations available");
}

#[test]
fn deepl_translation_text_returned_verbatim() {
    let body = "{\"translations\": [{\"detected_source_language\": \"EN\", \"text\": \"Hallo Welt\"}]}";
    let m = parse_api_response(Api::Deepl, body).unwrap();
    assert_eq!(m.content, "Hallo Welt");
}

#[test]
fn malformed_bodies_are_rejected() {
    for body in ["", "not json", "{\"choices\":", "{\"choices\": {}}", "42 43"] {
        let r = parse_api_response(Api::Openai, body);
        assert_eq!(r.unwrap_err(), ApiError::ResponseShape(ShapeError::Malformed));
    }
}

#[test]
fn wrong_shape_is_malformed_not_a_panic() {
    let r = parse_api_response(Api::Openai, "{\"message\": {\"content\": \"x\"}}");
    assert_eq!(r.unwrap_err(), ApiError::ResponseShape(ShapeError::Malformed));
    let r = parse_api_response(Api::Ollama, "{\"choices\": []}");
    assert_eq!(r.unwrap_err(), ApiError::ResponseShape(ShapeError::Malformed));
}

#[test]
fn test_only_provider_fails_response_side_too() {
    let r = parse_api_response(Api::AnotherApiForTests, "{\"choices\": []}");
    assert_eq!(
        r.unwrap_err(),
        ApiError::Configuration(ConfigError::UnsupportedProvider)
    );
}

#[test]
fn response_string_escapes_are_decoded() {
    let body = "{\"message\":{\"content\":\"a\\nb\\tc\\\"d\\\\e\\u0041\"}}";
    let m = parse_api_response(Api::Ollama, body).unwrap();
    assert_eq!(m.content, "a\nb\tc\"d\\eA");
}

#[test]
fn response_surrogate_pairs_are_decoded() {
    let body = "{\"message\":{\"content\":\"\\uD83D\\uDE00\"}}";
    let m = parse_api_response(Api::Ollama, body).unwrap();
    assert_eq!(m.content, "\u{1F600}");
}

#[test]
fn lone_surrogate_is_malformed() {
    let body = "{\"message\":{\"content\":\"\\uD83D\"}}";
    let r = parse_api_response(Api::Ollama, body);
    assert_eq!(r.unwrap_err(), ApiError::ResponseShape(ShapeError::Malformed));
}

#[test]
fn whitespace_around_and_inside_bodies_is_tolerated() {
    let body = "  \n {\n  \"message\" : { \"content\" : \"ok\" , \"role\" : \"assistant\" }\n } \t ";
    let m = parse_api_response(Api::Ollama, body).unwrap();
    assert_eq!(m.content, "ok");
}

#[test]
fn numbers_booleans_and_null_parse_inside_responses() {
    let body = "{\"choices\":[{\"message\":{\"content\":\"x\",\"refusal\":null,\"flag\":true,\"n\":-1.5e3}}],\"created\":1700000000}";
    let m = parse_api_response(Api::Openai, body).unwrap();
    assert_eq!(m.content, "x");
}

#[test]
fn missing_model_error_message_names_both_sources() {
    let e = ApiError::Configuration(ConfigError::MissingModel);
    assert_eq!(
        e.message(),
        "model must be specified either in the api config or in the prompt config"
    );
}
