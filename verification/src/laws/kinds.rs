//! Kinds and their slugs.

use vstd::prelude::*;

use crate::provider;
use crate::provider::KindView;

verus! {

/// The slugs of two kinds other than third-party providers, and the former slug of Zen, are all
/// different from each other.
proof fn slugs_apart()
    ensures
        forall|i: int, j: int|
            0 <= i < j < slug_list().len() ==> (#[trigger] slug_list()[i]) != (
            #[trigger] slug_list()[j]),
        slug_list()[0] == "anthropic"@,
        slug_list()[1] == "openai"@,
        slug_list()[2] == "google"@,
        slug_list()[3] == "copilot"@,
        slug_list()[4] == "ollama"@,
        slug_list()[5] == "llama-cpp"@,
        slug_list()[6] == "mistral"@,
        slug_list()[7] == "zai"@,
        slug_list()[8] == "deepseek"@,
        slug_list()[9] == "openrouter"@,
        slug_list()[10] == "synthetic"@,
        slug_list()[11] == "tensorx"@,
        slug_list()[12] == "opencode-zen"@,
        slug_list()[13] == "opencode-go"@,
        slug_list()[14] == "opencode"@,
{
    reveal_strlit("anthropic");
    reveal_strlit("openai");
    reveal_strlit("google");
    reveal_strlit("copilot");
    reveal_strlit("ollama");
    reveal_strlit("llama-cpp");
    reveal_strlit("mistral");
    reveal_strlit("zai");
    reveal_strlit("deepseek");
    reveal_strlit("openrouter");
    reveal_strlit("synthetic");
    reveal_strlit("tensorx");
    reveal_strlit("opencode-zen");
    reveal_strlit("opencode-go");
    reveal_strlit("opencode");
    assert forall|i: int, j: int| 0 <= i < j < slug_list().len() implies (#[trigger] slug_list()[i])
        != (#[trigger] slug_list()[j]) by {
        let a = slug_list()[i];
        let b = slug_list()[j];
        assert(a.len() != b.len() || a[0] != b[0] || a[1] != b[1]);
    }
}

/// The slugs of the kinds other than third-party providers, and the former slug of Zen.
spec fn slug_list() -> Seq<Seq<char>> {
    seq![
        "anthropic"@,
        "openai"@,
        "google"@,
        "copilot"@,
        "ollama"@,
        "llama-cpp"@,
        "mistral"@,
        "zai"@,
        "deepseek"@,
        "openrouter"@,
        "synthetic"@,
        "tensorx"@,
        "opencode-zen"@,
        "opencode-go"@,
        "opencode"@,
    ]
}

/// A kind is found again by its slug, unless it is a third-party provider under the slug of
/// another kind.
pub proof fn kind_round_trip(kind: KindView)
    requires
        kind matches KindView::Catalog(slug) ==> provider::builtin_of(slug) is None,
    ensures
        provider::kind_of(kind.slug()) == kind,
{
    slugs_apart();
}

/// The kind that a slug names has that slug, but for the former slug of Zen, which names Zen.
pub proof fn slug_round_trip(slug: Seq<char>)
    ensures
        slug == "opencode"@ ==> provider::kind_of(slug) is OpencodeZen,
        provider::kind_of(slug).slug() == (if slug == "opencode"@ {
            "opencode-zen"@
        } else {
            slug
        }),
{
    slugs_apart();
}

/// Two different kinds other than third-party providers have different slugs.
pub proof fn builtin_slugs_distinct(a: KindView, b: KindView)
    requires
        !(a is Catalog),
        !(b is Catalog),
        a != b,
    ensures
        a.slug() != b.slug(),
{
    kind_round_trip(a);
    kind_round_trip(b);
}

/// The list of kinds holds every kind other than third-party providers, each once, and nothing
/// else.
pub proof fn builtin_kinds_complete(kind: KindView)
    ensures
        provider::builtin_views().contains(kind) <==> !(kind is Catalog),
        provider::builtin_views().no_duplicates(),
{
    let l = provider::builtin_views();
    assert(l[0] is Anthropic && l[1] is OpenAi && l[2] is Google && l[3] is Copilot);
    assert(l[4] is Ollama && l[5] is LlamaCpp && l[6] is Mistral && l[7] is Zai);
    assert(l[8] is DeepSeek && l[9] is OpenRouter && l[10] is Synthetic && l[11] is TensorX);
    assert(l[12] is OpencodeZen && l[13] is OpencodeGo);
}

/// Where the tokens that a model can give out are not known, they are not said to be none.
pub proof fn unknown_output_is_not_zero(kind: KindView)
    ensures
        kind.fallback_max_output() matches Some(tokens) ==> tokens > 0,
        kind.fallback_context_window() > 0,
{
}

} // verus!
