//! The auth/header assembler: which headers authenticate and annotate a
//! request, per provider identity.

use vstd::prelude::*;
use vstd::string::StringExecFns;
use crate::model::{Api, ApiConfig, ApiError, ConfigError};

verus! {

/// The views of a header list: each name and value as character sequences.
pub open spec fn header_views(hs: Seq<(String, String)>) -> Seq<(Seq<char>, Seq<char>)> {
    hs.map_values(|h: (String, String)| (h.0@, h.1@))
}

/// The exact header set owed to each provider: a JSON content type on
/// every request; a bearer token for the OpenAI-compatible providers
/// except Azure, which takes `api-key`; a fixed user-agent override for
/// Cerebras; `x-api-key` plus a mandatory protocol version for Anthropic;
/// a DeepL auth key for DeepL; nothing further for Ollama. The test-only
/// provider is refused.
pub open spec fn headers_spec(api: Api, c: ApiConfig) -> Result<
    Seq<(Seq<char>, Seq<char>)>,
    ApiError,
> {
    let ct = ("Content-Type"@, "application/json"@);
    match api {
        Api::Ollama => Ok(seq![ct]),
        Api::Openai | Api::Mistral | Api::Groq => Ok(
            seq![ct, ("Authorization"@, "Bearer "@ + c.api_key@)],
        ),
        Api::Cerebras => Ok(
            seq![
                ct,
                ("User-Agent"@, "CUSTOM_NAME/1.0"@),
                ("Authorization"@, "Bearer "@ + c.api_key@),
            ],
        ),
        Api::AzureOpenai => Ok(seq![ct, ("api-key"@, c.api_key@)]),
        Api::Deepl => Ok(seq![ct, ("Authorization"@, "DeepL-Auth-Key "@ + c.api_key@)]),
        Api::Anthropic => match c.version {
            Option::Some(v) => Ok(
                seq![ct, ("x-api-key"@, c.api_key@), ("anthropic-version"@, v@)],
            ),
            Option::None => Err(ApiError::Configuration(ConfigError::MissingVersion)),
        },
        Api::AnotherApiForTests => Err(ApiError::Configuration(ConfigError::UnsupportedProvider)),
    }
}

/// Assembles the header list for the given provider and settings.
pub fn build_headers(api: Api, c: &ApiConfig) -> (r: Result<Vec<(String, String)>, ApiError>)
    ensures
        match (r, headers_spec(api, *c)) {
            (Ok(h), Ok(t)) => header_views(h@) == t,
            (Err(e), Err(f)) => e == f,
            _ => false,
        },
{
    let mut h: Vec<(String, String)> = Vec::new();
    h.push((String::from_str("Content-Type"), String::from_str("application/json")));
    match api {
        Api::Ollama => {},
        Api::Openai | Api::Mistral | Api::Groq => {
            let mut v = String::from_str("Bearer ");
            v.append(c.api_key.as_str());
            h.push((String::from_str("Authorization"), v));
        },
        Api::Cerebras => {
            h.push((String::from_str("User-Agent"), String::from_str("CUSTOM_NAME/1.0")));
            let mut v = String::from_str("Bearer ");
            v.append(c.api_key.as_str());
            h.push((String::from_str("Authorization"), v));
        },
        Api::AzureOpenai => {
            h.push((String::from_str("api-key"), c.api_key.clone()));
        },
        Api::Deepl => {
            let mut v = String::from_str("DeepL-Auth-Key ");
            v.append(c.api_key.as_str());
            h.push((String::from_str("Authorization"), v));
        },
        Api::Anthropic => {
            match &c.version {
                Some(ver) => {
                    h.push((String::from_str("x-api-key"), c.api_key.clone()));
                    h.push((String::from_str("anthropic-version"), ver.clone()));
                },
                None => {
                    return Err(ApiError::Configuration(ConfigError::MissingVersion));
                },
            }
        },
        Api::AnotherApiForTests => {
            return Err(ApiError::Configuration(ConfigError::UnsupportedProvider));
        },
    }
    proof {
        if let Ok(t) = headers_spec(api, *c) {
            assert(header_views(h@) =~= t);
        }
    }
    Ok(h)
}

} // verus!
