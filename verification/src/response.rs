//! The response adapters: from a provider's raw response body to the
//! single generated text, with the exact shape each provider documents.

use vstd::prelude::*;
use vstd::string::StringExecFns;
use crate::json_read::{
    Json, JsonView, fields_view, json_of, lemma_arr_view, lemma_obj_view, parse_json, views_of,
};
use crate::model::{Api, ApiError, ConfigError, Message, ShapeError};

verus! {

/// The value of the first member with the given name, if any.
pub open spec fn lookup(fs: Seq<(Seq<char>, JsonView)>, key: Seq<char>) -> Option<JsonView>
    decreases fs.len(),
{
    if fs.len() == 0 {
        Option::None
    } else if fs[0].0 == key {
        Option::Some(fs[0].1)
    } else {
        lookup(fs.drop_first(), key)
    }
}

fn lookup_field<'a>(fs: &'a Vec<(String, Json)>, key: &String) -> (r: Option<&'a Json>)
    ensures
        match r {
            Some(j) => lookup(fields_view(fs@), key@) == Some(j.view()),
            None => lookup(fields_view(fs@), key@) is None,
        },
{
    let ghost fv = fields_view(fs@);
    proof {
        assert(fv.subrange(0, fv.len() as int) =~= fv);
    }
    let mut i: usize = 0;
    while i < fs.len()
        invariant
            i <= fs@.len(),
            fv == fields_view(fs@),
            fv.len() == fs@.len(),
            lookup(fv, key@) == lookup(fv.subrange(i as int, fv.len() as int), key@),
        decreases fs@.len() - i,
    {
        proof {
            assert(fv[i as int] == (fs@[i as int].0@, fs@[i as int].1.view()));
            assert(fv.subrange(i as int, fv.len() as int)[0] == fv[i as int]);
            assert(fv.subrange(i as int, fv.len() as int).drop_first() =~= fv.subrange(
                i + 1,
                fv.len() as int,
            ));
        }
        if fs[i].0 == *key {
            return Some(&fs[i].1);
        }
        i = i + 1;
    }
    proof {
        assert(fv.subrange(fv.len() as int, fv.len() as int).len() == 0);
    }
    None
}

/// What an OpenAI-compatible response reduces to: the content of the first
/// choice's message; an empty `choices` array is reported as such; any
/// other shape is malformed.
pub open spec fn openai_extract(j: JsonView) -> Result<Seq<char>, ApiError> {
    match j {
        JsonView::Obj(fs) => match lookup(fs, "choices"@) {
            Option::Some(JsonView::Arr(cs)) => if cs.len() == 0 {
                Err(ApiError::ResponseShape(ShapeError::EmptyChoices))
            } else {
                match cs[0] {
                    JsonView::Obj(c0) => match lookup(c0, "message"@) {
                        Option::Some(JsonView::Obj(mf)) => match lookup(mf, "content"@) {
                            Option::Some(JsonView::Str(t)) => Ok(t),
                            _ => Err(ApiError::ResponseShape(ShapeError::Malformed)),
                        },
                        _ => Err(ApiError::ResponseShape(ShapeError::Malformed)),
                    },
                    _ => Err(ApiError::ResponseShape(ShapeError::Malformed)),
                }
            },
            _ => Err(ApiError::ResponseShape(ShapeError::Malformed)),
        },
        _ => Err(ApiError::ResponseShape(ShapeError::Malformed)),
    }
}

/// What an Anthropic response reduces to: the text of the first element of
/// its `content` array; an empty array is reported as such.
pub open spec fn anthropic_extract(j: JsonView) -> Result<Seq<char>, ApiError> {
    match j {
        JsonView::Obj(fs) => match lookup(fs, "content"@) {
            Option::Some(JsonView::Arr(cs)) => if cs.len() == 0 {
                Err(ApiError::ResponseShape(ShapeError::EmptyContent))
            } else {
                match cs[0] {
                    JsonView::Obj(c0) => match lookup(c0, "text"@) {
                        Option::Some(JsonView::Str(t)) => Ok(t),
                        _ => Err(ApiError::ResponseShape(ShapeError::Malformed)),
                    },
                    _ => Err(ApiError::ResponseShape(ShapeError::Malformed)),
                }
            },
            _ => Err(ApiError::ResponseShape(ShapeError::Malformed)),
        },
        _ => Err(ApiError::ResponseShape(ShapeError::Malformed)),
    }
}

/// What an Ollama response reduces to: its `message.content` field.
pub open spec fn ollama_extract(j: JsonView) -> Result<Seq<char>, ApiError> {
    match j {
        JsonView::Obj(fs) => match lookup(fs, "message"@) {
            Option::Some(JsonView::Obj(mf)) => match lookup(mf, "content"@) {
                Option::Some(JsonView::Str(t)) => Ok(t),
                _ => Err(ApiError::ResponseShape(ShapeError::Malformed)),
            },
            _ => Err(ApiError::ResponseShape(ShapeError::Malformed)),
        },
        _ => Err(ApiError::ResponseShape(ShapeError::Malformed)),
    }
}

/// What a DeepL response reduces to: the text of the first element of its
/// `translations` array; an empty array means no translations are
/// available.
pub open spec fn deepl_extract(j: JsonView) -> Result<Seq<char>, ApiError> {
    match j {
        JsonView::Obj(fs) => match lookup(fs, "translations"@) {
            Option::Some(JsonView::Arr(ts)) => if ts.len() == 0 {
                Err(ApiError::ResponseShape(ShapeError::EmptyTranslations))
            } else {
                match ts[0] {
                    JsonView::Obj(t0) => match lookup(t0, "text"@) {
                        Option::Some(JsonView::Str(t)) => Ok(t),
                        _ => Err(ApiError::ResponseShape(ShapeError::Malformed)),
                    },
                    _ => Err(ApiError::ResponseShape(ShapeError::Malformed)),
                }
            },
            _ => Err(ApiError::ResponseShape(ShapeError::Malformed)),
        },
        _ => Err(ApiError::ResponseShape(ShapeError::Malformed)),
    }
}

/// Which extraction each provider's responses get; the test-only provider
/// is refused.
pub open spec fn extract_spec(api: Api, j: JsonView) -> Result<Seq<char>, ApiError> {
    match api {
        Api::Anthropic => anthropic_extract(j),
        Api::Deepl => deepl_extract(j),
        Api::Ollama => ollama_extract(j),
        Api::AnotherApiForTests => Err(ApiError::Configuration(ConfigError::UnsupportedProvider)),
        _ => openai_extract(j),
    }
}

fn extract_openai(j: &Json) -> (r: Result<String, ApiError>)
    ensures
        match (r, openai_extract(j.view())) {
            (Ok(s), Ok(t)) => s@ == t,
            (Err(e), Err(f)) => e == f,
            _ => false,
        },
{
    match j {
        Json::Obj(fs) => {
            proof {
                lemma_obj_view(*fs);
            }
            match lookup_field(fs, &String::from_str("choices")) {
                Some(cj) => match cj {
                    Json::Arr(cs) => {
                        proof {
                            lemma_arr_view(*cs);
                        }
                        if cs.len() == 0 {
                            Err(ApiError::ResponseShape(ShapeError::EmptyChoices))
                        } else {
                            proof {
                                assert(views_of(cs@)[0] == cs@[0].view());
                            }
                            match &cs[0] {
                                Json::Obj(c0) => {
                                    proof {
                                        lemma_obj_view(*c0);
                                    }
                                    match lookup_field(c0, &String::from_str("message")) {
                                        Some(mj) => match mj {
                                            Json::Obj(mf) => {
                                                proof {
                                                    lemma_obj_view(*mf);
                                                }
                                                match lookup_field(
                                                    mf,
                                                    &String::from_str("content"),
                                                ) {
                                                    Some(tj) => match tj {
                                                        Json::Str(t) => Ok(t.clone()),
                                                        _ => Err(
                                                            ApiError::ResponseShape(
                                                                ShapeError::Malformed,
                                                            ),
                                                        ),
                                                    },
                                                    None => Err(
                                                        ApiError::ResponseShape(
                                                            ShapeError::Malformed,
                                                        ),
                                                    ),
                                                }
                                            },
                                            _ => Err(
                                                ApiError::ResponseShape(ShapeError::Malformed),
                                            ),
                                        },
                                        None => Err(
                                            ApiError::ResponseShape(ShapeError::Malformed),
                                        ),
                                    }
                                },
                                _ => Err(ApiError::ResponseShape(ShapeError::Malformed)),
                            }
                        }
                    },
                    _ => Err(ApiError::ResponseShape(ShapeError::Malformed)),
                },
                None => Err(ApiError::ResponseShape(ShapeError::Malformed)),
            }
        },
        _ => Err(ApiError::ResponseShape(ShapeError::Malformed)),
    }
}

fn extract_anthropic(j: &Json) -> (r: Result<String, ApiError>)
    ensures
        match (r, anthropic_extract(j.view())) {
            (Ok(s), Ok(t)) => s@ == t,
            (Err(e), Err(f)) => e == f,
            _ => false,
        },
{
    match j {
        Json::Obj(fs) => {
            proof {
                lemma_obj_view(*fs);
            }
            match lookup_field(fs, &String::from_str("content")) {
                Some(cj) => match cj {
                    Json::Arr(cs) => {
                        proof {
                            lemma_arr_view(*cs);
                        }
                        if cs.len() == 0 {
                            Err(ApiError::ResponseShape(ShapeError::EmptyContent))
                        } else {
                            proof {
                                assert(views_of(cs@)[0] == cs@[0].view());
                            }
                            match &cs[0] {
                                Json::Obj(c0) => {
                                    proof {
                                        lemma_obj_view(*c0);
                                    }
                                    match lookup_field(c0, &String::from_str("text")) {
                                        Some(tj) => match tj {
                                            Json::Str(t) => Ok(t.clone()),
                                            _ => Err(
                                                ApiError::ResponseShape(ShapeError::Malformed),
                                            ),
                                        },
                                        None => Err(
                                            ApiError::ResponseShape(ShapeError::Malformed),
                                        ),
                                    }
                                },
                                _ => Err(ApiError::ResponseShape(ShapeError::Malformed)),
                            }
                        }
                    },
                    _ => Err(ApiError::ResponseShape(ShapeError::Malformed)),
                },
                None => Err(ApiError::ResponseShape(ShapeError::Malformed)),
            }
        },
        _ => Err(ApiError::ResponseShape(ShapeError::Malformed)),
    }
}

fn extract_ollama(j: &Json) -> (r: Result<String, ApiError>)
    ensures
        match (r, ollama_extract(j.view())) {
            (Ok(s), Ok(t)) => s@ == t,
            (Err(e), Err(f)) => e == f,
            _ => false,
        },
{
    match j {
        Json::Obj(fs) => {
            proof {
                lemma_obj_view(*fs);
            }
            match lookup_field(fs, &String::from_str("message")) {
                Some(mj) => match mj {
                    Json::Obj(mf) => {
                        proof {
                            lemma_obj_view(*mf);
                        }
                        match lookup_field(mf, &String::from_str("content")) {
                            Some(tj) => match tj {
                                Json::Str(t) => Ok(t.clone()),
                                _ => Err(ApiError::ResponseShape(ShapeError::Malformed)),
                            },
                            None => Err(ApiError::ResponseShape(ShapeError::Malformed)),
                        }
                    },
                    _ => Err(ApiError::ResponseShape(ShapeError::Malformed)),
                },
                None => Err(ApiError::ResponseShape(ShapeError::Malformed)),
            }
        },
        _ => Err(ApiError::ResponseShape(ShapeError::Malformed)),
    }
}

fn extract_deepl(j: &Json) -> (r: Result<String, ApiError>)
    ensures
        match (r, deepl_extract(j.view())) {
            (Ok(s), Ok(t)) => s@ == t,
            (Err(e), Err(f)) => e == f,
            _ => false,
        },
{
    match j {
        Json::Obj(fs) => {
            proof {
                lemma_obj_view(*fs);
            }
            match lookup_field(fs, &String::from_str("translations")) {
                Some(cj) => match cj {
                    Json::Arr(ts) => {
                        proof {
                            lemma_arr_view(*ts);
                        }
                        if ts.len() == 0 {
                            Err(ApiError::ResponseShape(ShapeError::EmptyTranslations))
                        } else {
                            proof {
                                assert(views_of(ts@)[0] == ts@[0].view());
                            }
                            match &ts[0] {
                                Json::Obj(t0) => {
                                    proof {
                                        lemma_obj_view(*t0);
                                    }
                                    match lookup_field(t0, &String::from_str("text")) {
                                        Some(tj) => match tj {
                                            Json::Str(t) => Ok(t.clone()),
                                            _ => Err(
                                                ApiError::ResponseShape(ShapeError::Malformed),
                                            ),
                                        },
                                        None => Err(
                                            ApiError::ResponseShape(ShapeError::Malformed),
                                        ),
                                    }
                                },
                                _ => Err(ApiError::ResponseShape(ShapeError::Malformed)),
                            }
                        }
                    },
                    _ => Err(ApiError::ResponseShape(ShapeError::Malformed)),
                },
                None => Err(ApiError::ResponseShape(ShapeError::Malformed)),
            }
        },
        _ => Err(ApiError::ResponseShape(ShapeError::Malformed)),
    }
}

/// Reduces a parsed response to the generated text, per provider.
pub fn extract_text(api: Api, j: &Json) -> (r: Result<String, ApiError>)
    ensures
        match (r, extract_spec(api, j.view())) {
            (Ok(s), Ok(t)) => s@ == t,
            (Err(e), Err(f)) => e == f,
            _ => false,
        },
{
    match api {
        Api::Anthropic => extract_anthropic(j),
        Api::Deepl => extract_deepl(j),
        Api::Ollama => extract_ollama(j),
        Api::AnotherApiForTests => Err(ApiError::Configuration(ConfigError::UnsupportedProvider)),
        _ => extract_openai(j),
    }
}

/// Parses a raw response body and wraps the extracted text as an assistant
/// message: exactly the text that the provider's extraction gives the
/// body's parsed value, the extraction's own error where it gives one, and
/// a malformed-shape error where the body is not JSON at all. The
/// test-only provider is always refused.
pub fn parse_api_response(api: Api, body: &str) -> (r: Result<Message, ApiError>)
    ensures
        api is AnotherApiForTests ==> r == Err::<Message, ApiError>(
            ApiError::Configuration(ConfigError::UnsupportedProvider),
        ),
        !(api is AnotherApiForTests) ==> match json_of(body@) {
            Some(jv) => match extract_spec(api, jv) {
                Ok(t) => r matches Ok(m) && m.role@ == "assistant"@ && m.content@ == t,
                Err(e) => r == Err::<Message, ApiError>(e),
            },
            None => r == Err::<Message, ApiError>(ApiError::ResponseShape(ShapeError::Malformed)),
        },
{
    match api {
        Api::AnotherApiForTests => {
            return Err(ApiError::Configuration(ConfigError::UnsupportedProvider));
        },
        _ => {},
    }
    match parse_json(body) {
        Err(_) => Err(ApiError::ResponseShape(ShapeError::Malformed)),
        Ok(j) => match extract_text(api, &j) {
            Err(e) => Err(e),
            Ok(t) => Ok(Message::assistant(t.as_str())),
        },
    }
}

} // verus!
