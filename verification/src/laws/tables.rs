//! What is known of every kind of provider, and of third parties by their registration.

use vstd::prelude::*;

use crate::catalog::registry::Registry;
use crate::laws::kinds;
use crate::model::ModelFamily;
use crate::opencode::backend::Backend;
use crate::opencode::request;
use crate::opencode::request::{BuiltInProvider, OpenAiCompatConfig};
use crate::plan::RegistryView;
use crate::provider::{KindView, ProviderKind};
use crate::text;

verus! {

/// A kind is written as the slug that it was read from; but Zen, read from its former slug, is
/// written as its own.
pub proof fn written_as_read(slug: &str, kind: ProviderKind, written: String)
    requires
        call_ensures(ProviderKind::from_slug, (slug,), kind),
        call_ensures(ProviderKind::to_string, (&kind,), written),
    ensures
        slug@ != "opencode"@ ==> written@ == slug@,
        slug@ == "opencode"@ ==> kind is OpencodeZen && written@ == "opencode-zen"@,
{
    kinds::slug_round_trip(slug@);
}

/// A kind is read from what it is written as; but a third party under the slug of another kind is
/// read as that kind.
pub proof fn read_as_written(kind: &ProviderKind, written: String, slug: &str, read: ProviderKind)
    requires
        call_ensures(ProviderKind::to_string, (kind,), written),
        slug@ == written@,
        call_ensures(ProviderKind::from_slug, (slug,), read),
    ensures
        !(kind is Catalog) ==> read@ == kind@,
        kind is Catalog && read is Catalog ==> read@ == kind@,
{
    kinds::slug_round_trip(slug@);
    if !(kind is Catalog) {
        kinds::kind_round_trip(kind@);
    }
}

/// Only a third party tells its slug, and it is the one that it is written as.
pub proof fn third_party_tells_its_slug(
    kind: &ProviderKind,
    slug: Option<&str>,
    written: String,
)
    requires
        call_ensures(ProviderKind::slug, (kind,), slug),
        call_ensures(ProviderKind::to_string, (kind,), written),
    ensures
        slug is Some <==> kind is Catalog,
        slug matches Some(s) ==> s@ == written@,
{
}

/// A registered third party is known by what is registered of it: its name, its variables with
/// commas between them, its address and its line.
pub proof fn registered_third_party_is_known_so(
    kind: &ProviderKind,
    slug: Seq<char>,
    registered: &Registry,
    name: String,
    names: String,
    url: String,
    line: Option<String>,
)
    requires
        kind@ == KindView::Catalog(slug),
        registered@.contains_key(slug),
        call_ensures(ProviderKind::display_name, (kind, registered), name),
        call_ensures(ProviderKind::api_key_env, (kind, registered), names),
        call_ensures(ProviderKind::base_url, (kind, registered), url),
        call_ensures(ProviderKind::features, (kind, registered), line),
    ensures
        ({
            let info = registered@[slug];
            &&& name@ == info.display_name
            &&& names@ == text::joined(info.env_keys, seq![','])
            &&& info.base_url matches Some(address) ==> url@ == address
            &&& info.base_url is None ==> url@.len() == 0
            &&& line matches Some(l) && l@ == info.features
        }),
{
    reveal_strlit(",");
    assert(","@ =~= seq![',']);
}

/// A third party that is not registered is known by its slug alone.
pub proof fn unregistered_third_party_is_known_by_its_slug(
    kind: &ProviderKind,
    slug: Seq<char>,
    registered: &Registry,
    name: String,
    names: String,
    url: String,
    line: Option<String>,
)
    requires
        kind@ == KindView::Catalog(slug),
        !registered@.contains_key(slug),
        call_ensures(ProviderKind::display_name, (kind, registered), name),
        call_ensures(ProviderKind::api_key_env, (kind, registered), names),
        call_ensures(ProviderKind::base_url, (kind, registered), url),
        call_ensures(ProviderKind::features, (kind, registered), line),
    ensures
        name@ == slug,
        names@.len() == 0,
        url@.len() == 0,
        line matches Some(l) && l@ == "Third-party provider"@,
{
}

/// What is registered decides nothing of a kind other than a third party; and each has a name, a
/// variable and an address.
pub proof fn registration_decides_third_parties_alone(
    kind: &ProviderKind,
    before: &Registry,
    after: &Registry,
    names: (String, String),
    variables: (String, String),
    addresses: (String, String),
)
    requires
        !(kind is Catalog),
        call_ensures(ProviderKind::display_name, (kind, before), names.0),
        call_ensures(ProviderKind::display_name, (kind, after), names.1),
        call_ensures(ProviderKind::api_key_env, (kind, before), variables.0),
        call_ensures(ProviderKind::api_key_env, (kind, after), variables.1),
        call_ensures(ProviderKind::base_url, (kind, before), addresses.0),
        call_ensures(ProviderKind::base_url, (kind, after), addresses.1),
    ensures
        names.0@ == names.1@,
        variables.0@ == variables.1@,
        addresses.0@ == addresses.1@,
{
}

/// Two kinds other than third parties have different names and different addresses; and they share
/// the variable of their key exactly where they are the two services.
pub proof fn kinds_are_told_apart(
    a: &ProviderKind,
    b: &ProviderKind,
    registered: &Registry,
    names: (String, String),
    variables: (String, String),
    addresses: (String, String),
)
    requires
        !(a is Catalog),
        !(b is Catalog),
        a@ != b@,
        call_ensures(ProviderKind::display_name, (a, registered), names.0),
        call_ensures(ProviderKind::display_name, (b, registered), names.1),
        call_ensures(ProviderKind::api_key_env, (a, registered), variables.0),
        call_ensures(ProviderKind::api_key_env, (b, registered), variables.1),
        call_ensures(ProviderKind::base_url, (a, registered), addresses.0),
        call_ensures(ProviderKind::base_url, (b, registered), addresses.1),
    ensures
        names.0@ != names.1@,
        addresses.0@ != addresses.1@,
        variables.0@ == variables.1@ <==> (a is OpencodeZen || a is OpencodeGo) && (b is OpencodeZen
            || b is OpencodeGo),
{
    names_apart(a@, b@, registered@);
    if !((a is OpencodeZen || a is OpencodeGo) && (b is OpencodeZen || b is OpencodeGo)) {
        variables_apart(a@, b@, registered@);
    }
    addresses_apart(a@, b@, registered@);
}

/// Two kinds other than third parties have different names.
proof fn names_apart(a: KindView, b: KindView, registered: RegistryView)
    requires
        !(a is Catalog),
        !(b is Catalog),
        a != b,
    ensures
        a.display_name(registered) != b.display_name(registered),
{
    reveal_strlit("Anthropic");
    reveal_strlit("OpenAI");
    reveal_strlit("Google");
    reveal_strlit("Copilot");
    reveal_strlit("Ollama");
    reveal_strlit("LlamaCpp");
    reveal_strlit("Mistral");
    reveal_strlit("Z.AI");
    reveal_strlit("DeepSeek");
    reveal_strlit("OpenRouter");
    reveal_strlit("Synthetic");
    reveal_strlit("TensorX");
    reveal_strlit("OpencodeZen");
    reveal_strlit("OpencodeGo");
    let x = a.display_name(registered);
    let y = b.display_name(registered);
    assert(x.len() != y.len() || x[0] != y[0] || x[1] != y[1] || x[4] != y[4]);
}

/// Two kinds other than third parties have different variables, unless they are the two services.
proof fn variables_apart(a: KindView, b: KindView, registered: RegistryView)
    requires
        !(a is Catalog),
        !(b is Catalog),
        a != b,
        !((a is OpencodeZen || a is OpencodeGo) && (b is OpencodeZen || b is OpencodeGo)),
    ensures
        a.api_key_env(registered) != b.api_key_env(registered),
{
    reveal_strlit("ANTHROPIC_API_KEY");
    reveal_strlit("OPENAI_API_KEY");
    reveal_strlit("GEMINI_API_KEY");
    reveal_strlit("GH_COPILOT_TOKEN");
    reveal_strlit("OLLAMA_API_KEY");
    reveal_strlit("LLAMA_CPP_API_KEY");
    reveal_strlit("MISTRAL_API_KEY");
    reveal_strlit("ZHIPU_API_KEY");
    reveal_strlit("DEEPSEEK_API_KEY");
    reveal_strlit("OPENROUTER_API_KEY");
    reveal_strlit("SYNTHETIC_API_KEY");
    reveal_strlit("TENSORX_API_KEY");
    reveal_strlit("OPENCODE_API_KEY");
    let x = a.api_key_env(registered);
    let y = b.api_key_env(registered);
    assert(x.len() != y.len() || x[0] != y[0] || x[2] != y[2]);
}

/// Two kinds other than third parties have different addresses.
proof fn addresses_apart(a: KindView, b: KindView, registered: RegistryView)
    requires
        !(a is Catalog),
        !(b is Catalog),
        a != b,
    ensures
        a.base_url(registered) != b.base_url(registered),
{
    reveal_strlit("https://api.anthropic.com/v1/messages");
    reveal_strlit("https://api.openai.com/v1");
    reveal_strlit("https://generativelanguage.googleapis.com/v1beta");
    reveal_strlit("https://api.githubcopilot.com (or GraphQL-discovered Copilot API endpoint)");
    reveal_strlit("http://localhost:11434/v1");
    reveal_strlit("http://localhost:8080/v1");
    reveal_strlit("https://api.mistral.ai/v1");
    reveal_strlit("https://api.z.ai/api/paas/v4");
    reveal_strlit("https://api.deepseek.com");
    reveal_strlit("https://openrouter.ai/api/v1");
    reveal_strlit("https://api.synthetic.new/openai/v1");
    reveal_strlit("https://api.tensorx.ai/v1");
    reveal_strlit("https://opencode.ai/zen/v1");
    reveal_strlit("https://opencode.ai/zen/go/v1");
    let x = a.base_url(registered);
    let y = b.base_url(registered);
    assert(x.len() != y.len() || x[4] != y[4] || x[8] != y[8] || x[12] != y[12]);
}

/// Nothing is known of the models of a third party: any may be asked for, none is said to think,
/// and answers are not limited. A kind that lists all its models accepts no other.
pub proof fn third_party_models_are_open(
    kind: &ProviderKind,
    thinks: bool,
    accepts: bool,
    output: Option<u32>,
    family: ModelFamily,
)
    requires
        call_ensures(ProviderKind::supports_thinking, (kind,), thinks),
        call_ensures(ProviderKind::accepts_arbitrary_models, (kind,), accepts),
        call_ensures(ProviderKind::fallback_max_output, (kind,), output),
        call_ensures(ProviderKind::family, (kind,), family),
    ensures
        kind is Catalog ==> !thinks && accepts && output is None && family is Generic,
        !accepts <==> kind is Anthropic || kind is OpenAi || kind is Zai || kind is DeepSeek
            || kind is Synthetic,
        !thinks <==> kind is Copilot || kind is Ollama || kind is Zai || kind is Catalog,
        output is None <==> kind is LlamaCpp || kind is TensorX || kind is Catalog,
        family is Claude <==> kind is Anthropic,
        family is Gpt <==> kind is OpenAi,
        family is Gemini <==> kind is Google,
        family is Glm <==> kind is Zai,
        family is Synthetic <==> kind is Synthetic,
{
}

/// Where nothing is known of a model, what it gives out fits into what it takes in, and both are
/// something.
pub proof fn output_fits_into_context(kind: &ProviderKind, output: Option<u32>, context: u32)
    requires
        call_ensures(ProviderKind::fallback_max_output, (kind,), output),
        call_ensures(ProviderKind::fallback_context_window, (kind,), context),
    ensures
        output matches Some(tokens) ==> 0 < tokens < context,
        output == Some(384_000u32) <==> kind is DeepSeek,
        output == Some(128_000u32) <==> kind is Anthropic || kind is OpenRouter
            || kind is OpencodeZen || kind is OpencodeGo,
        output == Some(100_000u32) <==> kind is OpenAi || kind is Copilot,
        output == Some(65_536u32) <==> kind is Google,
        output == Some(32_000u32) <==> kind is Mistral || kind is Synthetic,
        output == Some(16_384u32) <==> kind is Ollama,
        output == Some(16_000u32) <==> kind is Zai,
        context == 1_000_000 <==> kind is Google || kind is DeepSeek,
        context == 256_000 <==> kind is OpencodeZen || kind is OpencodeGo,
        context == 128_000 <==> kind is Ollama || kind is LlamaCpp || kind is Mistral || kind is Zai
            || kind is Synthetic || kind is Catalog,
        context == 200_000 <==> kind is Anthropic || kind is OpenAi || kind is Copilot
            || kind is OpenRouter || kind is TensorX,
{
}

/// Each service is of its own kind, and declares the slug, the variable and the address that are
/// known of that kind; it needs no address from the user and has no plans.
pub proof fn service_declares_what_is_known_of_its_kind(
    b: &Backend,
    kind: ProviderKind,
    declared: BuiltInProvider,
    registered: &Registry,
    slug: String,
    variable: String,
    address: String,
)
    requires
        call_ensures(Backend::kind, (b,), kind),
        call_ensures(Backend::builtin, (b,), declared),
        call_ensures(ProviderKind::to_string, (&kind,), slug),
        call_ensures(ProviderKind::api_key_env, (&kind, registered), variable),
        call_ensures(ProviderKind::base_url, (&kind, registered), address),
    ensures
        b is Zen <==> kind is OpencodeZen,
        b is Go <==> kind is OpencodeGo,
        declared.slug@ == slug@,
        declared.default_api_key_env@ == variable@,
        declared.default_base_url@ == address@,
        !declared.needs_url,
        declared.plans is None,
{
}

/// The model that is chosen where none was is one of the service: its slug, a slash and the model's
/// identifier; and chat requests are sent in the name that the service declares, limited by the
/// same field as those of third parties, with an address and key found by other means.
pub proof fn service_starts_with_a_model_of_its_own(
    b: &Backend,
    declared: BuiltInProvider,
    first_party: &str,
    chosen: String,
    config: OpenAiCompatConfig,
    others: OpenAiCompatConfig,
)
    requires
        call_ensures(Backend::builtin, (b,), declared),
        call_ensures(Backend::default_model, (b, first_party), chosen),
        call_ensures(Backend::chat_config, (b,), config),
        call_ensures(request::catalog_chat_config, (), others),
    ensures
        b is Zen ==> chosen@ == declared.slug@ + "/opencode/"@ + first_party@,
        b is Go ==> chosen@ == declared.slug@ + "/deepseek-v4-flash"@,
        config.provider_name@ == declared.display_name@,
        config.max_tokens_field@ == others.max_tokens_field@,
        config.max_tokens_field@ == "max_tokens"@,
        config.include_stream_usage && others.include_stream_usage,
        config.base_url@.len() == 0 && others.base_url@.len() == 0,
        config.api_key_env@.len() == 0 && others.api_key_env@.len() == 0,
        others.provider_name@ == "catalog"@,
{
    reveal_strlit("");
    reveal_strlit("opencode-zen");
    reveal_strlit("/opencode/");
    reveal_strlit("opencode-zen/opencode/");
    reveal_strlit("opencode-go");
    reveal_strlit("/deepseek-v4-flash");
    reveal_strlit("opencode-go/deepseek-v4-flash");
    assert("opencode-zen/opencode/"@ =~= "opencode-zen"@ + "/opencode/"@);
    assert("opencode-go/deepseek-v4-flash"@ =~= "opencode-go"@ + "/deepseek-v4-flash"@);
}

} // verus!
