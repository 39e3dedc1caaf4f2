//! The kinds of providers and what is known of each.

use std::sync::Arc;

use vstd::prelude::*;

use crate::assoc::MapKey;
use crate::catalog::registry::{CatalogProviderInfoView, Registry};
use crate::model::ModelFamily;
use crate::opencode::backend::Backend;
use crate::text;
use crate::text::{join, same_text};

verus! {

/// A kind of provider.
#[derive(Debug, PartialEq, Eq, Hash)]
pub enum ProviderKind {
    Anthropic,
    OpenAi,
    Google,
    Copilot,
    Ollama,
    LlamaCpp,
    Mistral,
    Zai,
    DeepSeek,
    OpenRouter,
    Synthetic,
    TensorX,
    OpencodeZen,
    OpencodeGo,
    /// A third-party provider that was discovered in the index.
    Catalog(Arc<str>),
}

/// What a kind of provider stands for.
pub enum KindView {
    Anthropic,
    OpenAi,
    Google,
    Copilot,
    Ollama,
    LlamaCpp,
    Mistral,
    Zai,
    DeepSeek,
    OpenRouter,
    Synthetic,
    TensorX,
    OpencodeZen,
    OpencodeGo,
    Catalog(Seq<char>),
}

impl View for ProviderKind {
    type V = KindView;

    open spec fn view(&self) -> KindView {
        match self {
            ProviderKind::Anthropic => KindView::Anthropic,
            ProviderKind::OpenAi => KindView::OpenAi,
            ProviderKind::Google => KindView::Google,
            ProviderKind::Copilot => KindView::Copilot,
            ProviderKind::Ollama => KindView::Ollama,
            ProviderKind::LlamaCpp => KindView::LlamaCpp,
            ProviderKind::Mistral => KindView::Mistral,
            ProviderKind::Zai => KindView::Zai,
            ProviderKind::DeepSeek => KindView::DeepSeek,
            ProviderKind::OpenRouter => KindView::OpenRouter,
            ProviderKind::Synthetic => KindView::Synthetic,
            ProviderKind::TensorX => KindView::TensorX,
            ProviderKind::OpencodeZen => KindView::OpencodeZen,
            ProviderKind::OpencodeGo => KindView::OpencodeGo,
            ProviderKind::Catalog(slug) => KindView::Catalog((**slug)@),
        }
    }
}

impl DeepView for ProviderKind {
    type V = KindView;

    open spec fn deep_view(&self) -> KindView {
        self@
    }
}

/// A text that can be shared, by `Arc::<str>::from`: it reads as the text that it was made of.
#[verifier::external_body]
pub(crate) fn shared_text(text: &str) -> (shared: Arc<str>)
    ensures
        (*shared)@ == text@,
{
    Arc::from(text)
}

impl Clone for ProviderKind {
    fn clone(&self) -> (copy: Self)
        ensures
            copy@ == self@,
    {
        match self {
            ProviderKind::Anthropic => ProviderKind::Anthropic,
            ProviderKind::OpenAi => ProviderKind::OpenAi,
            ProviderKind::Google => ProviderKind::Google,
            ProviderKind::Copilot => ProviderKind::Copilot,
            ProviderKind::Ollama => ProviderKind::Ollama,
            ProviderKind::LlamaCpp => ProviderKind::LlamaCpp,
            ProviderKind::Mistral => ProviderKind::Mistral,
            ProviderKind::Zai => ProviderKind::Zai,
            ProviderKind::DeepSeek => ProviderKind::DeepSeek,
            ProviderKind::OpenRouter => ProviderKind::OpenRouter,
            ProviderKind::Synthetic => ProviderKind::Synthetic,
            ProviderKind::TensorX => ProviderKind::TensorX,
            ProviderKind::OpencodeZen => ProviderKind::OpencodeZen,
            ProviderKind::OpencodeGo => ProviderKind::OpencodeGo,
            ProviderKind::Catalog(slug) => ProviderKind::Catalog(slug.clone()),
        }
    }
}

impl MapKey for ProviderKind {
    fn same_key(&self, other: &Self) -> (same: bool) {
        match (self, other) {
            (ProviderKind::Anthropic, ProviderKind::Anthropic) => true,
            (ProviderKind::OpenAi, ProviderKind::OpenAi) => true,
            (ProviderKind::Google, ProviderKind::Google) => true,
            (ProviderKind::Copilot, ProviderKind::Copilot) => true,
            (ProviderKind::Ollama, ProviderKind::Ollama) => true,
            (ProviderKind::LlamaCpp, ProviderKind::LlamaCpp) => true,
            (ProviderKind::Mistral, ProviderKind::Mistral) => true,
            (ProviderKind::Zai, ProviderKind::Zai) => true,
            (ProviderKind::DeepSeek, ProviderKind::DeepSeek) => true,
            (ProviderKind::OpenRouter, ProviderKind::OpenRouter) => true,
            (ProviderKind::Synthetic, ProviderKind::Synthetic) => true,
            (ProviderKind::TensorX, ProviderKind::TensorX) => true,
            (ProviderKind::OpencodeZen, ProviderKind::OpencodeZen) => true,
            (ProviderKind::OpencodeGo, ProviderKind::OpencodeGo) => true,
            (ProviderKind::Catalog(a), ProviderKind::Catalog(b)) => same_text(&**a, &**b),
            _ => false,
        }
    }
}

/// The words that say that a slug names no kind.
pub const UNKNOWN_KIND: &'static str = "unknown provider kind";

/// The kind that a slug names, other than a third-party provider.
pub open spec fn builtin_of(slug: Seq<char>) -> Option<KindView> {
    if slug == "anthropic"@ {
        Some(KindView::Anthropic)
    } else if slug == "openai"@ {
        Some(KindView::OpenAi)
    } else if slug == "google"@ {
        Some(KindView::Google)
    } else if slug == "copilot"@ {
        Some(KindView::Copilot)
    } else if slug == "ollama"@ {
        Some(KindView::Ollama)
    } else if slug == "llama-cpp"@ {
        Some(KindView::LlamaCpp)
    } else if slug == "mistral"@ {
        Some(KindView::Mistral)
    } else if slug == "zai"@ {
        Some(KindView::Zai)
    } else if slug == "deepseek"@ {
        Some(KindView::DeepSeek)
    } else if slug == "openrouter"@ {
        Some(KindView::OpenRouter)
    } else if slug == "synthetic"@ {
        Some(KindView::Synthetic)
    } else if slug == "tensorx"@ {
        Some(KindView::TensorX)
    } else if slug == "opencode-zen"@ {
        Some(KindView::OpencodeZen)
    } else if slug == "opencode-go"@ {
        Some(KindView::OpencodeGo)
    } else if slug == "opencode"@ {
        Some(KindView::OpencodeZen)
    } else {
        None
    }
}

/// The kind that a slug names. What is no other kind is a third-party provider.
pub open spec fn kind_of(slug: Seq<char>) -> KindView {
    match builtin_of(slug) {
        Some(kind) => kind,
        None => KindView::Catalog(slug),
    }
}

/// The kinds other than third-party providers, in the order in which they are listed.
pub open spec fn builtin_views() -> Seq<KindView> {
    seq![
        KindView::Anthropic,
        KindView::OpenAi,
        KindView::Google,
        KindView::Copilot,
        KindView::Ollama,
        KindView::LlamaCpp,
        KindView::Mistral,
        KindView::Zai,
        KindView::DeepSeek,
        KindView::OpenRouter,
        KindView::Synthetic,
        KindView::TensorX,
        KindView::OpencodeZen,
        KindView::OpencodeGo,
    ]
}

/// What is registered of a third-party provider.
pub open spec fn registered_as(
    registry: Map<Seq<char>, CatalogProviderInfoView>,
    slug: Seq<char>,
) -> Option<CatalogProviderInfoView> {
    if registry.contains_key(slug) {
        Some(registry[slug])
    } else {
        None
    }
}

impl KindView {
    /// The slug of the kind.
    pub open spec fn slug(self) -> Seq<char> {
        match self {
            KindView::Anthropic => "anthropic"@,
            KindView::OpenAi => "openai"@,
            KindView::Google => "google"@,
            KindView::Copilot => "copilot"@,
            KindView::Ollama => "ollama"@,
            KindView::LlamaCpp => "llama-cpp"@,
            KindView::Mistral => "mistral"@,
            KindView::Zai => "zai"@,
            KindView::DeepSeek => "deepseek"@,
            KindView::OpenRouter => "openrouter"@,
            KindView::Synthetic => "synthetic"@,
            KindView::TensorX => "tensorx"@,
            KindView::OpencodeZen => "opencode-zen"@,
            KindView::OpencodeGo => "opencode-go"@,
            KindView::Catalog(slug) => slug,
        }
    }

    /// The name that is shown.
    pub open spec fn display_name(self, registry: Map<Seq<char>, CatalogProviderInfoView>) -> Seq<char> {
        match self {
            KindView::Anthropic => "Anthropic"@,
            KindView::OpenAi => "OpenAI"@,
            KindView::Google => "Google"@,
            KindView::Copilot => "Copilot"@,
            KindView::Ollama => "Ollama"@,
            KindView::LlamaCpp => "LlamaCpp"@,
            KindView::Mistral => "Mistral"@,
            KindView::Zai => "Z.AI"@,
            KindView::DeepSeek => "DeepSeek"@,
            KindView::OpenRouter => "OpenRouter"@,
            KindView::Synthetic => "Synthetic"@,
            KindView::TensorX => "TensorX"@,
            KindView::OpencodeZen => "OpencodeZen"@,
            KindView::OpencodeGo => "OpencodeGo"@,
            KindView::Catalog(slug) => match registered_as(registry, slug) {
                Some(info) => info.display_name,
                None => slug,
            },
        }
    }

    /// The environment variables that may hold the key, with commas between them.
    pub open spec fn api_key_env(self, registry: Map<Seq<char>, CatalogProviderInfoView>) -> Seq<char> {
        match self {
            KindView::Anthropic => "ANTHROPIC_API_KEY"@,
            KindView::OpenAi => "OPENAI_API_KEY"@,
            KindView::Google => "GEMINI_API_KEY"@,
            KindView::Copilot => "GH_COPILOT_TOKEN"@,
            KindView::Ollama => "OLLAMA_API_KEY"@,
            KindView::LlamaCpp => "LLAMA_CPP_API_KEY"@,
            KindView::Mistral => "MISTRAL_API_KEY"@,
            KindView::Zai => "ZHIPU_API_KEY"@,
            KindView::DeepSeek => "DEEPSEEK_API_KEY"@,
            KindView::OpenRouter => "OPENROUTER_API_KEY"@,
            KindView::Synthetic => "SYNTHETIC_API_KEY"@,
            KindView::TensorX => "TENSORX_API_KEY"@,
            KindView::OpencodeZen => "OPENCODE_API_KEY"@,
            KindView::OpencodeGo => "OPENCODE_API_KEY"@,
            KindView::Catalog(slug) => match registered_as(registry, slug) {
                Some(info) => text::joined(info.env_keys, ","@),
                None => Seq::empty(),
            },
        }
    }

    /// The address of the service.
    pub open spec fn base_url(self, registry: Map<Seq<char>, CatalogProviderInfoView>) -> Seq<char> {
        match self {
            KindView::Anthropic => "https://api.anthropic.com/v1/messages"@,
            KindView::OpenAi => "https://api.openai.com/v1"@,
            KindView::Google => "https://generativelanguage.googleapis.com/v1beta"@,
            KindView::Copilot => "https://api.githubcopilot.com (or GraphQL-discovered Copilot API endpoint)"@,
            KindView::Ollama => "http://localhost:11434/v1"@,
            KindView::LlamaCpp => "http://localhost:8080/v1"@,
            KindView::Mistral => "https://api.mistral.ai/v1"@,
            KindView::Zai => "https://api.z.ai/api/paas/v4"@,
            KindView::DeepSeek => "https://api.deepseek.com"@,
            KindView::OpenRouter => "https://openrouter.ai/api/v1"@,
            KindView::Synthetic => "https://api.synthetic.new/openai/v1"@,
            KindView::TensorX => "https://api.tensorx.ai/v1"@,
            KindView::OpencodeZen => "https://opencode.ai/zen/v1"@,
            KindView::OpencodeGo => "https://opencode.ai/zen/go/v1"@,
            KindView::Catalog(slug) => match registered_as(registry, slug) {
                Some(info) => match info.base_url {
                    Some(url) => url,
                    None => Seq::empty(),
                },
                None => Seq::empty(),
            },
        }
    }

    /// The line that describes the kind.
    pub open spec fn features(self, registry: Map<Seq<char>, CatalogProviderInfoView>) -> Seq<char> {
        match self {
            KindView::Anthropic => "Prompt caching, thinking mode (adaptive/budgeted), advanced tool use"@,
            KindView::OpenAi => "ChatGPT, GPT-4, DALL-E, Whisper, and more"@,
            KindView::Google => "Native Gemini API with thinking support"@,
            KindView::Copilot => "Native Copilot Chat HTTP API with model endpoint discovery"@,
            KindView::Ollama => "Local or remote inference via OLLAMA_HOST, cloud fallback via OLLAMA_API_KEY"@,
            KindView::LlamaCpp => "Local or remote inference via LLAMA_CPP_HOST"@,
            KindView::Mistral => "Le Chat and Le Chat Enterprise"@,
            KindView::Zai => "Zhipu AI GLM models"@,
            KindView::DeepSeek => "Thinking mode toggle (on/off), open-weight models"@,
            KindView::OpenRouter => "300+ models from all providers, prompt caching, provider routing"@,
            KindView::Synthetic => "Reasoning effort support (low/medium/high), open-weight models"@,
            KindView::TensorX => "Open-weight models, zero data retention, prompt caching"@,
            KindView::OpencodeZen => "Dynamically discovered models via [models.dev](https://models.dev/) + all the models provided by Opencode Zen API"@,
            KindView::OpencodeGo => "Dynamically discovered models via [models.dev](https://models.dev/)"@,
            KindView::Catalog(slug) => match registered_as(registry, slug) {
                Some(info) => info.features,
                None => "Third-party provider"@,
            },
        }
    }

    /// The models can think before they answer.
    pub open spec fn supports_thinking(self) -> bool {
        match self {
            KindView::Anthropic => true,
            KindView::OpenAi => true,
            KindView::Google => true,
            KindView::Copilot => false,
            KindView::Ollama => false,
            KindView::LlamaCpp => true,
            KindView::Mistral => true,
            KindView::Zai => false,
            KindView::DeepSeek => true,
            KindView::OpenRouter => true,
            KindView::Synthetic => true,
            KindView::TensorX => true,
            KindView::OpencodeZen => true,
            KindView::OpencodeGo => true,
            KindView::Catalog(_) => false,
        }
    }

    /// The family of the models.
    pub open spec fn family(self) -> ModelFamily {
        match self {
            KindView::Anthropic => ModelFamily::Claude,
            KindView::OpenAi => ModelFamily::Gpt,
            KindView::Google => ModelFamily::Gemini,
            KindView::Copilot => ModelFamily::Generic,
            KindView::Ollama => ModelFamily::Generic,
            KindView::LlamaCpp => ModelFamily::Generic,
            KindView::Mistral => ModelFamily::Generic,
            KindView::Zai => ModelFamily::Glm,
            KindView::DeepSeek => ModelFamily::Generic,
            KindView::OpenRouter => ModelFamily::Generic,
            KindView::Synthetic => ModelFamily::Synthetic,
            KindView::TensorX => ModelFamily::Generic,
            KindView::OpencodeZen => ModelFamily::Generic,
            KindView::OpencodeGo => ModelFamily::Generic,
            KindView::Catalog(_) => ModelFamily::Generic,
        }
    }

    /// Models that are in no table may be asked for.
    pub open spec fn accepts_arbitrary_models(self) -> bool {
        match self {
            KindView::Anthropic => false,
            KindView::OpenAi => false,
            KindView::Google => true,
            KindView::Copilot => true,
            KindView::Ollama => true,
            KindView::LlamaCpp => true,
            KindView::Mistral => true,
            KindView::Zai => false,
            KindView::DeepSeek => false,
            KindView::OpenRouter => true,
            KindView::Synthetic => false,
            KindView::TensorX => true,
            KindView::OpencodeZen => true,
            KindView::OpencodeGo => true,
            KindView::Catalog(_) => true,
        }
    }

    /// The tokens that a model can give out where nothing is known of it. `None` means that it is
    /// not limited.
    pub open spec fn fallback_max_output(self) -> Option<u32> {
        match self {
            KindView::Anthropic => Some(128_000u32),
            KindView::OpenAi => Some(100_000u32),
            KindView::Google => Some(65_536u32),
            KindView::Copilot => Some(100_000u32),
            KindView::Ollama => Some(16_384u32),
            KindView::LlamaCpp => None,
            KindView::Mistral => Some(32_000u32),
            KindView::Zai => Some(16_000u32),
            KindView::DeepSeek => Some(384_000u32),
            KindView::OpenRouter => Some(128_000u32),
            KindView::Synthetic => Some(32_000u32),
            KindView::TensorX => None,
            KindView::OpencodeZen => Some(128_000u32),
            KindView::OpencodeGo => Some(128_000u32),
            KindView::Catalog(_) => None,
        }
    }

    /// The tokens that a model can take in where nothing is known of it.
    pub open spec fn fallback_context_window(self) -> u32 {
        match self {
            KindView::Anthropic => 200_000u32,
            KindView::OpenAi => 200_000u32,
            KindView::Google => 1_000_000u32,
            KindView::Copilot => 200_000u32,
            KindView::Ollama => 128_000u32,
            KindView::LlamaCpp => 128_000u32,
            KindView::Mistral => 128_000u32,
            KindView::Zai => 128_000u32,
            KindView::DeepSeek => 1_000_000u32,
            KindView::OpenRouter => 200_000u32,
            KindView::Synthetic => 128_000u32,
            KindView::TensorX => 200_000u32,
            KindView::OpencodeZen => 256_000u32,
            KindView::OpencodeGo => 256_000u32,
            KindView::Catalog(_) => 128_000u32,
        }
    }

    /// The service behind the kind, where it is one of the two first-party services.
    pub open spec fn backend(self) -> Option<Backend> {
        match self {
            KindView::OpencodeZen => Some(Backend::Zen),
            KindView::OpencodeGo => Some(Backend::Go),
            _ => None,
        }
    }

    /// The form of a model identifier in lookups and listings.
    pub open spec fn normalized(self, id: Seq<char>) -> Seq<char> {
        match self.backend() {
            Some(backend) => backend.normalized(id),
            None => id,
        }
    }

    /// The form of a model identifier that is shown.
    pub open spec fn displayed(self, id: Seq<char>) -> Seq<char> {
        match self.backend() {
            Some(backend) => backend.displayed(id),
            None => id,
        }
    }
}

/// The kinds other than third-party providers.
pub const BUILTIN_KINDS: [ProviderKind; 14] = [
    ProviderKind::Anthropic,
    ProviderKind::OpenAi,
    ProviderKind::Google,
    ProviderKind::Copilot,
    ProviderKind::Ollama,
    ProviderKind::LlamaCpp,
    ProviderKind::Mistral,
    ProviderKind::Zai,
    ProviderKind::DeepSeek,
    ProviderKind::OpenRouter,
    ProviderKind::Synthetic,
    ProviderKind::TensorX,
    ProviderKind::OpencodeZen,
    ProviderKind::OpencodeGo,
];

impl std::str::FromStr for ProviderKind {
    type Err = &'static str;

    fn from_str(s: &str) -> (result: Result<Self, &'static str>)
        ensures
            match result {
                Ok(kind) => builtin_of(s@) == Some(kind@),
                Err(words) => builtin_of(s@) is None && words@ == UNKNOWN_KIND@,
            },
    {
        if same_text(s, "anthropic") {
            Ok(ProviderKind::Anthropic)
        } else if same_text(s, "openai") {
            Ok(ProviderKind::OpenAi)
        } else if same_text(s, "google") {
            Ok(ProviderKind::Google)
        } else if same_text(s, "copilot") {
            Ok(ProviderKind::Copilot)
        } else if same_text(s, "ollama") {
            Ok(ProviderKind::Ollama)
        } else if same_text(s, "llama-cpp") {
            Ok(ProviderKind::LlamaCpp)
        } else if same_text(s, "mistral") {
            Ok(ProviderKind::Mistral)
        } else if same_text(s, "zai") {
            Ok(ProviderKind::Zai)
        } else if same_text(s, "deepseek") {
            Ok(ProviderKind::DeepSeek)
        } else if same_text(s, "openrouter") {
            Ok(ProviderKind::OpenRouter)
        } else if same_text(s, "synthetic") {
            Ok(ProviderKind::Synthetic)
        } else if same_text(s, "tensorx") {
            Ok(ProviderKind::TensorX)
        } else if same_text(s, "opencode-zen") {
            Ok(ProviderKind::OpencodeZen)
        } else if same_text(s, "opencode-go") {
            Ok(ProviderKind::OpencodeGo)
        } else if same_text(s, "opencode") {
            Ok(ProviderKind::OpencodeZen)
        } else {
            Err(UNKNOWN_KIND)
        }
    }
}

impl ProviderKind {
    /// The kind that `slug` names. What is no other kind is a third-party provider.
    pub fn from_slug(slug: &str) -> (kind: Self)
        ensures
            kind@ == kind_of(slug@),
    {
        match <ProviderKind as std::str::FromStr>::from_str(slug) {
            Ok(kind) => kind,
            Err(_) => ProviderKind::Catalog(shared_text(slug)),
        }
    }

    /// The slug of a third-party provider.
    pub fn slug(&self) -> (slug: Option<&str>)
        ensures
            slug.deep_view() == (match self@ {
                KindView::Catalog(s) => Some(s),
                _ => None,
            }),
    {
        match self {
            ProviderKind::Catalog(slug) => Some(&**slug),
            _ => None,
        }
    }

    /// The slug of the kind.
    pub fn to_string(&self) -> (slug: String)
        ensures
            slug@ == self@.slug(),
    {
        match self {
            ProviderKind::Anthropic => "anthropic".to_owned(),
            ProviderKind::OpenAi => "openai".to_owned(),
            ProviderKind::Google => "google".to_owned(),
            ProviderKind::Copilot => "copilot".to_owned(),
            ProviderKind::Ollama => "ollama".to_owned(),
            ProviderKind::LlamaCpp => "llama-cpp".to_owned(),
            ProviderKind::Mistral => "mistral".to_owned(),
            ProviderKind::Zai => "zai".to_owned(),
            ProviderKind::DeepSeek => "deepseek".to_owned(),
            ProviderKind::OpenRouter => "openrouter".to_owned(),
            ProviderKind::Synthetic => "synthetic".to_owned(),
            ProviderKind::TensorX => "tensorx".to_owned(),
            ProviderKind::OpencodeZen => "opencode-zen".to_owned(),
            ProviderKind::OpencodeGo => "opencode-go".to_owned(),
            ProviderKind::Catalog(slug) => (&**slug).to_owned(),
        }
    }

    /// The name that is shown.
    pub fn display_name(&self, registry: &Registry) -> (name: String)
        ensures
            name@ == self@.display_name(registry@),
    {
        match self {
            ProviderKind::Anthropic => "Anthropic".to_owned(),
            ProviderKind::OpenAi => "OpenAI".to_owned(),
            ProviderKind::Google => "Google".to_owned(),
            ProviderKind::Copilot => "Copilot".to_owned(),
            ProviderKind::Ollama => "Ollama".to_owned(),
            ProviderKind::LlamaCpp => "LlamaCpp".to_owned(),
            ProviderKind::Mistral => "Mistral".to_owned(),
            ProviderKind::Zai => "Z.AI".to_owned(),
            ProviderKind::DeepSeek => "DeepSeek".to_owned(),
            ProviderKind::OpenRouter => "OpenRouter".to_owned(),
            ProviderKind::Synthetic => "Synthetic".to_owned(),
            ProviderKind::TensorX => "TensorX".to_owned(),
            ProviderKind::OpencodeZen => "OpencodeZen".to_owned(),
            ProviderKind::OpencodeGo => "OpencodeGo".to_owned(),
            ProviderKind::Catalog(slug) => match registry.get(&**slug) {
                Some(info) => info.display_name,
                None => (&**slug).to_owned(),
            },
        }
    }

    /// The environment variables that may hold the key, with commas between them.
    pub fn api_key_env(&self, registry: &Registry) -> (names: String)
        ensures
            names@ == self@.api_key_env(registry@),
    {
        match self {
            ProviderKind::Anthropic => "ANTHROPIC_API_KEY".to_owned(),
            ProviderKind::OpenAi => "OPENAI_API_KEY".to_owned(),
            ProviderKind::Google => "GEMINI_API_KEY".to_owned(),
            ProviderKind::Copilot => "GH_COPILOT_TOKEN".to_owned(),
            ProviderKind::Ollama => "OLLAMA_API_KEY".to_owned(),
            ProviderKind::LlamaCpp => "LLAMA_CPP_API_KEY".to_owned(),
            ProviderKind::Mistral => "MISTRAL_API_KEY".to_owned(),
            ProviderKind::Zai => "ZHIPU_API_KEY".to_owned(),
            ProviderKind::DeepSeek => "DEEPSEEK_API_KEY".to_owned(),
            ProviderKind::OpenRouter => "OPENROUTER_API_KEY".to_owned(),
            ProviderKind::Synthetic => "SYNTHETIC_API_KEY".to_owned(),
            ProviderKind::TensorX => "TENSORX_API_KEY".to_owned(),
            ProviderKind::OpencodeZen => "OPENCODE_API_KEY".to_owned(),
            ProviderKind::OpencodeGo => "OPENCODE_API_KEY".to_owned(),
            ProviderKind::Catalog(slug) => match registry.get(&**slug) {
                Some(info) => join(&info.env_keys, ","),
                None => String::new(),
            },
        }
    }

    /// The address of the service.
    pub fn base_url(&self, registry: &Registry) -> (url: String)
        ensures
            url@ == self@.base_url(registry@),
    {
        match self {
            ProviderKind::Anthropic => "https://api.anthropic.com/v1/messages".to_owned(),
            ProviderKind::OpenAi => "https://api.openai.com/v1".to_owned(),
            ProviderKind::Google => "https://generativelanguage.googleapis.com/v1beta".to_owned(),
            ProviderKind::Copilot => "https://api.githubcopilot.com (or GraphQL-discovered Copilot API endpoint)".to_owned(),
            ProviderKind::Ollama => "http://localhost:11434/v1".to_owned(),
            ProviderKind::LlamaCpp => "http://localhost:8080/v1".to_owned(),
            ProviderKind::Mistral => "https://api.mistral.ai/v1".to_owned(),
            ProviderKind::Zai => "https://api.z.ai/api/paas/v4".to_owned(),
            ProviderKind::DeepSeek => "https://api.deepseek.com".to_owned(),
            ProviderKind::OpenRouter => "https://openrouter.ai/api/v1".to_owned(),
            ProviderKind::Synthetic => "https://api.synthetic.new/openai/v1".to_owned(),
            ProviderKind::TensorX => "https://api.tensorx.ai/v1".to_owned(),
            ProviderKind::OpencodeZen => "https://opencode.ai/zen/v1".to_owned(),
            ProviderKind::OpencodeGo => "https://opencode.ai/zen/go/v1".to_owned(),
            ProviderKind::Catalog(slug) => match registry.get(&**slug) {
                Some(info) => match info.base_url {
                    Some(url) => url,
                    None => String::new(),
                },
                None => String::new(),
            },
        }
    }

    /// Whether the models can think before they answer.
    pub fn supports_thinking(&self) -> (thinks: bool)
        ensures
            thinks == self@.supports_thinking(),
    {
        match self {
            ProviderKind::Catalog(_) => false,
            ProviderKind::Anthropic
            | ProviderKind::Google
            | ProviderKind::Mistral
            | ProviderKind::DeepSeek
            | ProviderKind::Synthetic
            | ProviderKind::OpenAi
            | ProviderKind::OpenRouter
            | ProviderKind::LlamaCpp
            | ProviderKind::TensorX
            | ProviderKind::OpencodeZen
            | ProviderKind::OpencodeGo => true,
            _ => false,
        }
    }

    /// The line that describes the kind.
    pub fn features(&self, registry: &Registry) -> (line: Option<String>)
        ensures
            line.deep_view() == Some(self@.features(registry@)),
    {
        match self {
            ProviderKind::Anthropic => Some("Prompt caching, thinking mode (adaptive/budgeted), advanced tool use".to_owned()),
            ProviderKind::OpenAi => Some("ChatGPT, GPT-4, DALL-E, Whisper, and more".to_owned()),
            ProviderKind::Google => Some("Native Gemini API with thinking support".to_owned()),
            ProviderKind::Copilot => Some("Native Copilot Chat HTTP API with model endpoint discovery".to_owned()),
            ProviderKind::Ollama => Some("Local or remote inference via OLLAMA_HOST, cloud fallback via OLLAMA_API_KEY".to_owned()),
            ProviderKind::LlamaCpp => Some("Local or remote inference via LLAMA_CPP_HOST".to_owned()),
            ProviderKind::Mistral => Some("Le Chat and Le Chat Enterprise".to_owned()),
            ProviderKind::Zai => Some("Zhipu AI GLM models".to_owned()),
            ProviderKind::DeepSeek => Some("Thinking mode toggle (on/off), open-weight models".to_owned()),
            ProviderKind::OpenRouter => Some("300+ models from all providers, prompt caching, provider routing".to_owned()),
            ProviderKind::Synthetic => Some("Reasoning effort support (low/medium/high), open-weight models".to_owned()),
            ProviderKind::TensorX => Some("Open-weight models, zero data retention, prompt caching".to_owned()),
            ProviderKind::OpencodeZen => Some("Dynamically discovered models via [models.dev](https://models.dev/) + all the models provided by Opencode Zen API".to_owned()),
            ProviderKind::OpencodeGo => Some("Dynamically discovered models via [models.dev](https://models.dev/)".to_owned()),
            ProviderKind::Catalog(slug) => match registry.get(&**slug) {
                Some(info) => Some(info.features),
                None => Some("Third-party provider".to_owned()),
            },
        }
    }

    /// The family of the models.
    pub fn family(&self) -> (family: ModelFamily)
        ensures
            family == self@.family(),
    {
        match self {
            ProviderKind::Anthropic => ModelFamily::Claude,
            ProviderKind::OpenAi => ModelFamily::Gpt,
            ProviderKind::Google => ModelFamily::Gemini,
            ProviderKind::Copilot => ModelFamily::Generic,
            ProviderKind::Ollama => ModelFamily::Generic,
            ProviderKind::LlamaCpp => ModelFamily::Generic,
            ProviderKind::Mistral => ModelFamily::Generic,
            ProviderKind::Zai => ModelFamily::Glm,
            ProviderKind::DeepSeek => ModelFamily::Generic,
            ProviderKind::OpenRouter => ModelFamily::Generic,
            ProviderKind::Synthetic => ModelFamily::Synthetic,
            ProviderKind::TensorX => ModelFamily::Generic,
            ProviderKind::OpencodeZen => ModelFamily::Generic,
            ProviderKind::OpencodeGo => ModelFamily::Generic,
            ProviderKind::Catalog(_) => ModelFamily::Generic,
        }
    }

    /// Whether models that are in no table may be asked for.
    pub fn accepts_arbitrary_models(&self) -> (accepts: bool)
        ensures
            accepts == self@.accepts_arbitrary_models(),
    {
        match self {
            ProviderKind::Catalog(_) => true,
            ProviderKind::Ollama
            | ProviderKind::LlamaCpp
            | ProviderKind::Google
            | ProviderKind::Copilot
            | ProviderKind::OpenRouter
            | ProviderKind::TensorX
            | ProviderKind::Mistral
            | ProviderKind::OpencodeZen
            | ProviderKind::OpencodeGo => true,
            _ => false,
        }
    }

    /// The tokens that a model can give out where nothing is known of it. `None` means that it is
    /// not limited.
    pub fn fallback_max_output(&self) -> (tokens: Option<u32>)
        ensures
            tokens == self@.fallback_max_output(),
    {
        match self {
            ProviderKind::Anthropic => Some(128_000),
            ProviderKind::OpenAi => Some(100_000),
            ProviderKind::Google => Some(65_536),
            ProviderKind::Copilot => Some(100_000),
            ProviderKind::Ollama => Some(16_384),
            ProviderKind::LlamaCpp => None,
            ProviderKind::Mistral => Some(32_000),
            ProviderKind::Zai => Some(16_000),
            ProviderKind::DeepSeek => Some(384_000),
            ProviderKind::OpenRouter => Some(128_000),
            ProviderKind::Synthetic => Some(32_000),
            ProviderKind::TensorX => None,
            ProviderKind::OpencodeZen => Some(128_000),
            ProviderKind::OpencodeGo => Some(128_000),
            ProviderKind::Catalog(_) => None,
        }
    }

    /// The tokens that a model can take in where nothing is known of it.
    pub fn fallback_context_window(&self) -> (tokens: u32)
        ensures
            tokens == self@.fallback_context_window(),
    {
        match self {
            ProviderKind::Anthropic => 200_000,
            ProviderKind::OpenAi => 200_000,
            ProviderKind::Google => 1_000_000,
            ProviderKind::Copilot => 200_000,
            ProviderKind::Ollama => 128_000,
            ProviderKind::LlamaCpp => 128_000,
            ProviderKind::Mistral => 128_000,
            ProviderKind::Zai => 128_000,
            ProviderKind::DeepSeek => 1_000_000,
            ProviderKind::OpenRouter => 200_000,
            ProviderKind::Synthetic => 128_000,
            ProviderKind::TensorX => 200_000,
            ProviderKind::OpencodeZen => 256_000,
            ProviderKind::OpencodeGo => 256_000,
            ProviderKind::Catalog(_) => 128_000,
        }
    }

    /// The form of `model_id` in lookups and listings.
    pub fn normalize_model_id(&self, model_id: &str) -> (id: String)
        ensures
            id@ == self@.normalized(model_id@),
    {
        match self {
            ProviderKind::OpencodeZen => Backend::Zen.normalize_model_id(model_id),
            ProviderKind::OpencodeGo => Backend::Go.normalize_model_id(model_id),
            _ => model_id.to_owned(),
        }
    }

    /// The form of `model_id` that is shown.
    pub fn display_model_id<'a>(&self, model_id: &'a str) -> (id: &'a str)
        ensures
            id@ == self@.displayed(model_id@),
    {
        match self {
            ProviderKind::OpencodeZen => Backend::Zen.display_model_id(model_id),
            _ => model_id,
        }
    }
}

} // verus!
