//! A provider-agnostic adapter layer for text-generation and translation
//! HTTP APIs.
//!
//! A caller supplies a unified [`model::Prompt`] (conversation history, an
//! optional model name, sampling temperature, streaming flag) together with
//! the connection settings of one provider ([`model::ApiConfig`]). The
//! library selects the wire format that provider expects, builds the JSON
//! request body and the authentication headers, and turns the provider's
//! raw JSON response back into a single assistant [`model::Message`]. The
//! HTTP transport itself is left to the caller: [`build_api_request`]
//! yields everything an HTTP client needs to send, and
//! [`response::parse_api_response`] consumes the raw body it got back.

pub mod headers;
pub mod json_read;
pub mod json_write;
pub mod model;
pub mod request;
pub mod response;

use vstd::prelude::*;
use crate::headers::{build_headers, header_views, headers_spec};
use crate::model::{Api, ApiConfig, ApiError, ConfigError, Prompt, msgs_view};
use crate::request::{
    ANTHROPIC_MAX_TOKENS, AnthropicPrompt, DeeplPrompt, OpenAiPrompt, anthropic_json, deepl_json,
    join_contents, merge_consecutive, openai_json, resolve_prompt, resolved_model,
};

verus! {

/// Everything the transport needs to perform one call: the endpoint, the
/// assembled headers, and the serialized JSON body of a POST.
#[derive(Debug)]
pub struct OutboundRequest {
    pub url: String,
    pub headers: Vec<(String, String)>,
    pub body: String,
}

/// The exact body owed to each provider, from the caller's prompt and the
/// provider settings: the model resolved from the prompt or the configured
/// default, streaming forced off, and the wire layout of the provider's
/// family; or the configuration error owed when messages are missing or no
/// model (for DeepL: no target language) can be resolved.
pub open spec fn body_spec(p: Prompt, c: ApiConfig) -> Result<Seq<char>, ApiError> {
    let model = resolved_model(p, c);
    let vs = msgs_view(p.messages@);
    if p.messages@.len() == 0 {
        Err(ApiError::Configuration(ConfigError::EmptyMessages))
    } else {
        match p.api {
            Api::Anthropic => match model {
                Option::Some(m) => Ok(
                    anthropic_json(
                        m,
                        merge_consecutive(vs),
                        p.temperature_centi,
                        ANTHROPIC_MAX_TOKENS as nat,
                        Some(false),
                    ),
                ),
                Option::None => Err(ApiError::Configuration(ConfigError::MissingModel)),
            },
            Api::Deepl => match model {
                Option::Some(m) => Ok(
                    deepl_json(
                        m,
                        true,
                        join_contents(msgs_view(p.messages@.drop_last())),
                        seq![p.messages@.last().content@],
                    ),
                ),
                Option::None => Err(ApiError::Configuration(ConfigError::MissingTargetLang)),
            },
            _ => match model {
                Option::Some(m) => Ok(openai_json(m, vs, p.temperature_centi, Some(false))),
                Option::None => Err(ApiError::Configuration(ConfigError::MissingModel)),
            },
        }
    }
}

/// What dispatching a prompt yields: the URL, headers and body of the one
/// request to send, or the configuration error owed. The test-only
/// provider tag is refused before anything is built.
pub open spec fn build_spec(p: Prompt, c: ApiConfig) -> Result<
    (Seq<char>, Seq<(Seq<char>, Seq<char>)>, Seq<char>),
    ApiError,
> {
    if p.api is AnotherApiForTests {
        Err(ApiError::Configuration(ConfigError::UnsupportedProvider))
    } else {
        match body_spec(p, c) {
            Err(e) => Err(e),
            Ok(b) => match headers_spec(p.api, c) {
                Err(e) => Err(e),
                Ok(h) => Ok((c.url@, h, b)),
            },
        }
    }
}

/// The built request never streams: whatever `stream` value the caller's
/// prompt carries (true, false, or absent), the dispatched request is the
/// same one, with streaming forced off.
pub proof fn lemma_stream_ignored(p: Prompt, c: ApiConfig, st: Option<bool>)
    ensures
        build_spec(Prompt { stream: st, ..p }, c) == build_spec(p, c),
{
}

/// Builds the one outbound request a prompt dispatches to: exactly the
/// URL, headers and body that [`build_spec`] states, or the configuration
/// error owed. The caller's prompt and settings are read, never changed;
/// no transport is touched. Streaming is forced off whatever the caller
/// asked for, and the test-only provider tag always fails here.
pub fn build_api_request(c: &ApiConfig, p: &Prompt) -> (r: Result<OutboundRequest, ApiError>)
    ensures
        match (r, build_spec(*p, *c)) {
            (Ok(o), Ok(t)) => o.url@ == t.0 && header_views(o.headers@) == t.1 && o.body@ == t.2,
            (Err(e), Err(f)) => e == f,
            _ => false,
        },
        p.api is AnotherApiForTests ==> r == Err::<OutboundRequest, ApiError>(
            ApiError::Configuration(ConfigError::UnsupportedProvider),
        ),
{
    match p.api {
        Api::AnotherApiForTests => {
            return Err(ApiError::Configuration(ConfigError::UnsupportedProvider));
        },
        _ => {},
    }
    let rp = resolve_prompt(p, c);
    proof {
        assert(msgs_view(rp.messages@).len() == rp.messages@.len());
        assert(msgs_view(p.messages@).len() == p.messages@.len());
    }
    let body: String = match p.api {
        Api::Anthropic => match AnthropicPrompt::build(&rp) {
            Ok(q) => q.to_json(),
            Err(e) => {
                return Err(e);
            },
        },
        Api::Deepl => match DeeplPrompt::build(&rp) {
            Ok(q) => {
                proof {
                    request::lemma_msgs_view_drop_last(rp.messages@, p.messages@);
                }
                q.to_json()
            },
            Err(e) => {
                return Err(e);
            },
        },
        _ => match OpenAiPrompt::build(&rp) {
            Ok(q) => q.to_json(),
            Err(e) => {
                return Err(e);
            },
        },
    };
    let headers = match build_headers(p.api, c) {
        Ok(h) => h,
        Err(e) => {
            return Err(e);
        },
    };
    Ok(OutboundRequest { url: c.url.clone(), headers, body })
}

} // verus!
