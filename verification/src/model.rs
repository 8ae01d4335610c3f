//! The unified data model: messages, prompts, provider identities,
//! connection settings, and the error kinds of a call.

use vstd::prelude::*;

verus! {

/// One turn of a conversation: a free-form role tag ("system", "user",
/// "assistant") and arbitrary text content.
#[derive(Debug)]
pub struct Message {
    pub role: String,
    pub content: String,
}

/// The view of a message: its role and its content, as character sequences.
pub open spec fn msg_view(m: Message) -> (Seq<char>, Seq<char>) {
    (m.role@, m.content@)
}

/// The views of a sequence of messages, element for element, in order.
pub open spec fn msgs_view(ms: Seq<Message>) -> Seq<(Seq<char>, Seq<char>)> {
    ms.map_values(|m: Message| msg_view(m))
}

impl Message {
    /// A message with the given role and content.
    pub fn new(role: &str, content: &str) -> (m: Message)
        ensures
            m.role@ == role@,
            m.content@ == content@,
    {
        Message { role: role.to_owned(), content: content.to_owned() }
    }

    /// A reply message: role "assistant", the given content.
    pub fn assistant(content: &str) -> (m: Message)
        ensures
            m.role@ == "assistant"@,
            m.content@ == content@,
    {
        Message { role: "assistant".to_owned(), content: content.to_owned() }
    }

    /// A structurally equal copy of this message.
    pub fn duplicate(&self) -> (m: Message)
        ensures
            msg_view(m) == msg_view(*self),
    {
        Message { role: self.role.clone(), content: self.content.clone() }
    }
}

/// The closed set of supported provider identities. `AnotherApiForTests`
/// exists only to exercise test doubles and must never reach dispatch.
#[derive(Clone, Copy, PartialEq, Eq, Structural, Debug)]
pub enum Api {
    Openai,
    AzureOpenai,
    Mistral,
    Groq,
    Cerebras,
    Ollama,
    Anthropic,
    Deepl,
    AnotherApiForTests,
}

/// Connection settings for one provider, owned by the caller and never
/// mutated by the library.
pub struct ApiConfig {
    /// The endpoint URL that the request body is POSTed to.
    pub url: String,
    /// The credential presented in the provider's auth header.
    pub api_key: String,
    /// The model used when the prompt names none.
    pub default_model: Option<String>,
    /// An upper bound, in seconds, on the transport round trip.
    pub timeout_seconds: Option<u32>,
    /// The protocol version header value; required by Anthropic.
    pub version: Option<String>,
}

/// A provider-agnostic conversation request.
///
/// The sampling temperature is held in hundredths (70 stands for 0.70), so
/// that the request body carries an exact decimal.
pub struct Prompt {
    pub api: Api,
    pub model: Option<String>,
    pub messages: Vec<Message>,
    pub temperature_centi: Option<u32>,
    pub stream: Option<bool>,
}

/// A mistake in the caller's configuration, detected before any network
/// access.
#[derive(PartialEq, Eq, Debug)]
pub enum ConfigError {
    /// No model was named in the prompt and the provider has no default.
    MissingModel,
    /// DeepL's target language (carried in the model field) is absent.
    MissingTargetLang,
    /// Anthropic requires a protocol version and none is configured.
    MissingVersion,
    /// The prompt carries no messages.
    EmptyMessages,
    /// The test-only provider tag reached dispatch.
    UnsupportedProvider,
}

/// A transported response whose body lacks the expected parts.
#[derive(PartialEq, Eq, Debug)]
pub enum ShapeError {
    /// The body is not the JSON shape the provider documents.
    Malformed,
    /// An OpenAI-compatible response with an empty `choices` array.
    EmptyChoices,
    /// An Anthropic response with an empty `content` array.
    EmptyContent,
    /// A DeepL response with an empty `translations` array.
    EmptyTranslations,
}

/// Everything that can go wrong in a call. Configuration and shape errors
/// are the caller's or the provider's mistakes; transport errors are
/// environmental and worth retrying.
#[derive(PartialEq, Eq, Debug)]
pub enum ApiError {
    Configuration(ConfigError),
    Transport(String),
    ResponseShape(ShapeError),
}

/// The diagnostic text of each error, naming the field or part at fault.
pub open spec fn spec_message(e: ApiError) -> Seq<char> {
    match e {
        ApiError::Configuration(ConfigError::MissingModel) => "model must be specified either in the api config or in the prompt config"@,
        ApiError::Configuration(ConfigError::MissingTargetLang) => "target language ('model') must be specified either in the api config or in the prompt config"@,
        ApiError::Configuration(ConfigError::MissingVersion) => "version required for Anthropic, please add version key to your api config"@,
        ApiError::Configuration(ConfigError::EmptyMessages) => "no messages specified"@,
        ApiError::Configuration(ConfigError::UnsupportedProvider) => "this api is not made for actual use"@,
        ApiError::Transport(detail) => detail@,
        ApiError::ResponseShape(ShapeError::Malformed) => "malformed response body"@,
        ApiError::ResponseShape(ShapeError::EmptyChoices) => "no choices available"@,
        ApiError::ResponseShape(ShapeError::EmptyContent) => "no content available"@,
        ApiError::ResponseShape(ShapeError::EmptyTranslations) => "no translations available"@,
    }
}

impl ApiError {
    /// A human-readable diagnostic for this error; exactly the text of
    /// [`spec_message`], for every variant.
    pub fn message(&self) -> (r: String)
        ensures
            r@ == spec_message(*self),
    {
        match self {
            ApiError::Configuration(ConfigError::MissingModel) => "model must be specified either in the api config or in the prompt config".to_owned(),
            ApiError::Configuration(ConfigError::MissingTargetLang) => "target language ('model') must be specified either in the api config or in the prompt config".to_owned(),
            ApiError::Configuration(ConfigError::MissingVersion) => "version required for Anthropic, please add version key to your api config".to_owned(),
            ApiError::Configuration(ConfigError::EmptyMessages) => "no messages specified".to_owned(),
            ApiError::Configuration(ConfigError::UnsupportedProvider) => "this api is not made for actual use".to_owned(),
            ApiError::Transport(detail) => detail.clone(),
            ApiError::ResponseShape(ShapeError::Malformed) => "malformed response body".to_owned(),
            ApiError::ResponseShape(ShapeError::EmptyChoices) => "no choices available".to_owned(),
            ApiError::ResponseShape(ShapeError::EmptyContent) => "no content available".to_owned(),
            ApiError::ResponseShape(ShapeError::EmptyTranslations) => "no translations available".to_owned(),
        }
    }
}

} // verus!
