//! What the services declare of themselves: how they are set up, and how chat requests are sent.

use vstd::prelude::*;

use crate::opencode::backend::Backend;

verus! {

/// The protocol that a provider speaks.
#[derive(Debug, Clone, Copy, PartialEq, Eq, Structural)]
pub enum Protocol {
    Openai,
}

/// A provider that is supported without further configuration.
#[derive(Debug)]
pub struct BuiltInProvider {
    pub slug: &'static str,
    pub display_name: &'static str,
    pub protocol: Protocol,
    pub default_base_url: &'static str,
    pub default_api_key_env: &'static str,
    /// The plans that can be subscribed to, where there are any.
    pub plans: Option<&'static [&'static str]>,
    /// Where to get a key.
    pub login_url: Option<&'static str>,
    /// The user has to give an address.
    pub needs_url: bool,
}

/// The model of Go that is chosen where none was, as the service's slug, a slash and its
/// identifier.
pub const GO_DEFAULT_MODEL: &'static str = "opencode-go/deepseek-v4-flash";

/// How chat requests are sent.
#[derive(Debug)]
pub struct OpenAiCompatConfig {
    /// The environment variable of the key. Empty where the key is found by other means.
    pub api_key_env: &'static str,
    /// The address. Empty where it is found by other means.
    pub base_url: &'static str,
    /// The field that limits the tokens of an answer.
    pub max_tokens_field: &'static str,
    /// The usage is asked for along with the answer.
    pub include_stream_usage: bool,
    pub provider_name: &'static str,
}

impl Backend {
    /// What the service declares of itself.
    pub fn builtin(&self) -> (provider: BuiltInProvider)
        ensures
            provider.slug@ == self.kind_view().slug(),
            provider.display_name@ == (match self {
                Backend::Zen => "Opencode Zen"@,
                Backend::Go => "Opencode Go"@,
            }),
            provider.protocol == Protocol::Openai,
            provider.default_base_url@ == (match self {
                Backend::Zen => "https://opencode.ai/zen/v1"@,
                Backend::Go => "https://opencode.ai/zen/go/v1"@,
            }),
            provider.default_api_key_env@ == "OPENCODE_API_KEY"@,
            provider.plans is None,
            provider.login_url matches Some(url) && url@ == "https://opencode.ai/auth"@,
            !provider.needs_url,
    {
        match self {
            Backend::Zen => BuiltInProvider {
                slug: "opencode-zen",
                display_name: "Opencode Zen",
                protocol: Protocol::Openai,
                default_base_url: "https://opencode.ai/zen/v1",
                default_api_key_env: "OPENCODE_API_KEY",
                plans: None,
                login_url: Some("https://opencode.ai/auth"),
                needs_url: false,
            },
            Backend::Go => BuiltInProvider {
                slug: "opencode-go",
                display_name: "Opencode Go",
                protocol: Protocol::Openai,
                default_base_url: "https://opencode.ai/zen/go/v1",
                default_api_key_env: "OPENCODE_API_KEY",
                plans: None,
                login_url: Some("https://opencode.ai/auth"),
                needs_url: false,
            },
        }
    }

    /// The model that is chosen where none was. Zen starts with the first-party model
    /// `first_party`; Go with one of its own.
    pub fn default_model(&self, first_party: &str) -> (spec: String)
        ensures
            spec@ == (match self {
                Backend::Zen => "opencode-zen/opencode/"@ + first_party@,
                Backend::Go => "opencode-go/deepseek-v4-flash"@,
            }),
    {
        match self {
            Backend::Zen => "opencode-zen/opencode/".to_owned().concat(first_party),
            Backend::Go => GO_DEFAULT_MODEL.to_owned(),
        }
    }

    /// How chat requests of the service are sent.
    pub fn chat_config(&self) -> (config: OpenAiCompatConfig)
        ensures
            sends_as(config, match self {
                Backend::Zen => "Opencode Zen"@,
                Backend::Go => "Opencode Go"@,
            }),
    {
        chat_config_of(
            match self {
                Backend::Zen => "Opencode Zen",
                Backend::Go => "Opencode Go",
            },
        )
    }
}

/// Chat requests are sent in the name of `name`, with an address and key found by other means.
pub open spec fn sends_as(config: OpenAiCompatConfig, name: Seq<char>) -> bool {
    &&& config.api_key_env@ == ""@
    &&& config.base_url@ == ""@
    &&& config.max_tokens_field@ == "max_tokens"@
    &&& config.include_stream_usage
    &&& config.provider_name@ == name
}

/// How chat requests are sent in the name of `name`.
fn chat_config_of(name: &'static str) -> (config: OpenAiCompatConfig)
    ensures
        sends_as(config, name@),
{
    OpenAiCompatConfig {
        api_key_env: "",
        base_url: "",
        max_tokens_field: "max_tokens",
        include_stream_usage: true,
        provider_name: name,
    }
}

/// How chat requests of third-party providers are sent.
pub fn catalog_chat_config() -> (config: OpenAiCompatConfig)
    ensures
        sends_as(config, "catalog"@),
{
    chat_config_of("catalog")
}

} // verus!
