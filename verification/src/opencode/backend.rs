//! Which part of the index each service admits, and how a model identifier is looked up in it.

use vstd::prelude::*;

use crate::assoc;
use crate::assoc::AssocMap;
use crate::catalog::data;
use crate::catalog::data::{
    AuthView, CatalogIndex, CatalogIndexView, CatalogModel, CatalogProvider, CatalogProviderView,
    EndpointType, Meta, MetaView, ModelKey, ResolvedAuth, ANTHROPIC_NPM, OPENAI_COMPATIBLE_NPM,
    ZEN_CATALOG_KEY,
};
use crate::catalog::registry::{
    CatalogModelInfo, CatalogModelInfoView, CatalogProviderInfo, CatalogProviderInfoView, Registry,
};
use crate::error::AgentError;
use crate::laws;
use crate::model;
use crate::model::{
    model_info, send_as, Model, ModelInfo, ModelInfoView, ModelView, PreparedRequest,
    PreparedRequestView,
};
use crate::opencode::catalog::{GO_PROVIDER_ID, PUBLIC_KEY};
use crate::provider::{KindView, ProviderKind};
use crate::sorting;
use crate::sorting::sort_by_label;
use crate::text;
use crate::text::{
    contains_char, copy_text, copy_texts, join, lists_text, same_text, split_once, strip_prefix,
};

verus! {

/// What a service offers: models by provider and identifier, and how each provider is reached.
pub struct Catalog {
    pub entries: AssocMap<ModelKey, Meta>,
    /// How to reach a provider by the chat completions protocol.
    pub auths: AssocMap<String, ResolvedAuth>,
    /// How to reach a provider by the messages protocol.
    pub anthropic_auths: AssocMap<String, ResolvedAuth>,
    /// Every admitted provider, whether or not it can be reached.
    pub providers: AssocMap<String, CatalogProvider>,
}

/// What a `Catalog` stands for.
#[verifier::ext_equal]
pub struct CatalogView {
    pub entries: Map<(Seq<char>, Seq<char>), MetaView>,
    pub auths: Map<Seq<char>, AuthView>,
    pub anthropic_auths: Map<Seq<char>, AuthView>,
    pub providers: Map<Seq<char>, CatalogProviderView>,
}

impl View for Catalog {
    type V = CatalogView;

    open spec fn view(&self) -> CatalogView {
        CatalogView {
            entries: self.entries@,
            auths: self.auths@,
            anthropic_auths: self.anthropic_auths@,
            providers: self.providers@,
        }
    }
}

impl DeepView for Catalog {
    type V = CatalogView;

    open spec fn deep_view(&self) -> CatalogView {
        self@
    }
}

impl CatalogView {
    /// The catalog that offers nothing.
    pub open spec fn nothing() -> CatalogView {
        CatalogView {
            entries: Map::empty(),
            auths: Map::empty(),
            anthropic_auths: Map::empty(),
            providers: Map::empty(),
        }
    }

    /// No model is offered.
    pub open spec fn is_empty(self) -> bool {
        self.entries == Map::<(Seq<char>, Seq<char>), MetaView>::empty()
    }
}

impl Catalog {
    /// The catalog that offers nothing.
    pub fn empty() -> (catalog: Self)
        ensures
            catalog@ == CatalogView::nothing(),
    {
        Catalog {
            entries: AssocMap::new(),
            auths: AssocMap::new(),
            anthropic_auths: AssocMap::new(),
            providers: AssocMap::new(),
        }
    }
}

/// Keys of providers by their identifiers, as far as they could be found.
pub type KeysView = Map<Seq<char>, Option<Seq<char>>>;

/// A provider is served by other means and left out of the catalogs.
pub open spec fn blocked(provider_id: Seq<char>) -> bool {
    provider_id == "zai-coding-plan"@ || provider_id == "github-copilot"@
}

/// A provider speaks a protocol that is understood, at an address that is known.
pub open spec fn admitted(provider: CatalogProviderView) -> bool {
    &&& provider.npm == OPENAI_COMPATIBLE_NPM@ || provider.npm == ANTHROPIC_NPM@
    &&& provider.api is Some
}

/// A model costs nothing to ask and nothing to answer. What has no price costs nothing.
pub open spec fn free(model: CatalogModel) -> bool {
    let cost = data::cost_or_unsaid(model.cost);
    data::price_or_zero(cost.input).spec_is_zero() && data::price_or_zero(cost.output).spec_is_zero()
}

/// Zen takes provider `provider_id` from the index. `builtins` are the slugs of the providers that
/// are supported without it.
pub open spec fn zen_takes(
    provider_id: Seq<char>,
    provider: CatalogProviderView,
    builtins: Seq<Seq<char>>,
) -> bool {
    &&& provider_id != GO_PROVIDER_ID@
    &&& provider_id == ZEN_CATALOG_KEY@ || !(blocked(provider_id) || builtins.contains(provider_id))
    &&& admitted(provider)
}

/// The key that was found for a provider.
pub open spec fn key_for(keys: KeysView, provider_id: Seq<char>) -> Option<Seq<char>> {
    if keys.contains_key(provider_id) {
        keys[provider_id]
    } else {
        None
    }
}

/// Zen offers a model of provider `provider_id`, whose key is `key`: free models only where they
/// are enabled, and without a key only the free models of the first-party provider.
pub open spec fn zen_offers(
    provider_id: Seq<char>,
    model: CatalogModel,
    key: Option<Seq<char>>,
    enable_free_models: bool,
) -> bool {
    &&& free(model) ==> enable_free_models
    &&& key is Some || provider_id == ZEN_CATALOG_KEY@ && free(model)
}

/// The key that Zen sends to a provider.
pub open spec fn zen_key(key: Option<Seq<char>>) -> Seq<char> {
    match key {
        Some(k) => k,
        None => PUBLIC_KEY@,
    }
}

/// Zen offers some model of a provider.
pub open spec fn zen_offers_any(
    provider_id: Seq<char>,
    models: Map<Seq<char>, CatalogModel>,
    key: Option<Seq<char>>,
    enable_free_models: bool,
) -> bool {
    exists|id: Seq<char>|
        #[trigger] models.contains_key(id) && zen_offers(
            provider_id,
            models[id],
            key,
            enable_free_models,
        )
}

/// The models that Zen offers.
pub open spec fn zen_entries(
    index: CatalogIndexView,
    keys: KeysView,
    enable_free_models: bool,
    builtins: Seq<Seq<char>>,
) -> Map<(Seq<char>, Seq<char>), MetaView> {
    Map::new(
        |k: (Seq<char>, Seq<char>)|
            {
                &&& index.contains_key(k.0)
                &&& zen_takes(k.0, index[k.0], builtins)
                &&& index[k.0].models.contains_key(k.1)
                &&& zen_offers(k.0, index[k.0].models[k.1], key_for(keys, k.0), enable_free_models)
            },
        |k: (Seq<char>, Seq<char>)|
            data::meta_of(index[k.0].models[k.1], k.0, EndpointType::of_npm(index[k.0].npm)),
    )
}

/// How Zen reaches the providers of which it offers a model.
pub open spec fn zen_auths(
    index: CatalogIndexView,
    keys: KeysView,
    enable_free_models: bool,
    builtins: Seq<Seq<char>>,
    endpoint: EndpointType,
) -> Map<Seq<char>, AuthView> {
    Map::new(
        |p: Seq<char>|
            {
                &&& index.contains_key(p)
                &&& zen_takes(p, index[p], builtins)
                &&& zen_offers_any(p, index[p].models, key_for(keys, p), enable_free_models)
            },
        |p: Seq<char>| data::provider_auth(index[p], zen_key(key_for(keys, p)), endpoint),
    )
}

/// The providers that Zen takes from the index.
pub open spec fn zen_providers(index: CatalogIndexView, builtins: Seq<Seq<char>>) -> Map<
    Seq<char>,
    CatalogProviderView,
> {
    Map::new(
        |p: Seq<char>| index.contains_key(p) && zen_takes(p, index[p], builtins),
        |p: Seq<char>| index[p],
    )
}

/// What Zen makes of the index.
pub open spec fn zen_catalog(
    index: CatalogIndexView,
    keys: KeysView,
    enable_free_models: bool,
    builtins: Seq<Seq<char>>,
) -> CatalogView {
    CatalogView {
        entries: zen_entries(index, keys, enable_free_models, builtins),
        auths: zen_auths(index, keys, enable_free_models, builtins, EndpointType::ChatCompletions),
        anthropic_auths: zen_auths(
            index,
            keys,
            enable_free_models,
            builtins,
            EndpointType::Messages,
        ),
        providers: zen_providers(index, builtins),
    }
}

/// What Go makes of the index: its own entry and no other, and only where its key was found.
pub open spec fn go_catalog(index: CatalogIndexView, keys: KeysView) -> CatalogView {
    let go = GO_PROVIDER_ID@;
    if !index.contains_key(go) || !admitted(index[go]) {
        CatalogView::nothing()
    } else {
        let provider = index[go];
        let providers = Map::empty().insert(go, provider);
        match key_for(keys, go) {
            None => CatalogView { providers, ..CatalogView::nothing() },
            Some(key) => CatalogView {
                entries: Map::new(
                    |k: (Seq<char>, Seq<char>)| k.0 == go && provider.models.contains_key(k.1),
                    |k: (Seq<char>, Seq<char>)|
                        data::meta_of(provider.models[k.1], go, EndpointType::of_npm(provider.npm)),
                ),
                auths: Map::empty().insert(
                    go,
                    data::provider_auth(provider, key, EndpointType::ChatCompletions),
                ),
                anthropic_auths: Map::empty().insert(
                    go,
                    data::provider_auth(provider, key, EndpointType::Messages),
                ),
                providers,
            },
        }
    }
}

/// Whether the provider speaks a protocol that is understood, at an address that is known.
pub fn admit_provider(provider: &CatalogProvider) -> (ok: bool)
    ensures
        ok == admitted(provider@),
{
    let npm = provider.npm.as_str();
    (same_text(npm, OPENAI_COMPATIBLE_NPM) || same_text(npm, ANTHROPIC_NPM))
        && provider.api.is_some()
}

/// Whether the model costs nothing to ask and nothing to answer.
pub fn model_is_free(model: &CatalogModel) -> (is_free: bool)
    ensures
        is_free == free(*model),
{
    match model.cost {
        Some(cost) => data::or_zero(cost.input).is_zero() && data::or_zero(cost.output).is_zero(),
        None => true,
    }
}

fn is_blocked(provider_id: &str) -> (b: bool)
    ensures
        b == blocked(provider_id@),
{
    same_text(provider_id, "zai-coding-plan") || same_text(provider_id, "github-copilot")
}

/// Whether Zen takes the provider from the index.
fn takes_for_zen(provider_id: &str, provider: &CatalogProvider, builtins: &Vec<String>) -> (ok: bool)
    ensures
        ok == zen_takes(provider_id@, provider@, builtins.deep_view()),
{
    !same_text(provider_id, GO_PROVIDER_ID) && (same_text(provider_id, ZEN_CATALOG_KEY) || !(
    is_blocked(provider_id) || lists_text(builtins, provider_id))) && admit_provider(provider)
}

/// The models that Zen offers of one provider.
spec fn zen_offered(
    provider_id: Seq<char>,
    models: Map<Seq<char>, CatalogModel>,
    endpoint: EndpointType,
    key: Option<Seq<char>>,
    enable_free_models: bool,
) -> Map<(Seq<char>, Seq<char>), MetaView> {
    Map::new(
        |k: (Seq<char>, Seq<char>)|
            k.0 == provider_id && models.contains_key(k.1) && zen_offers(
                provider_id,
                models[k.1],
                key,
                enable_free_models,
            ),
        |k: (Seq<char>, Seq<char>)| data::meta_of(models[k.1], provider_id, endpoint),
    )
}

/// A catalog with one more provider that Zen takes.
spec fn zen_with(
    catalog: CatalogView,
    provider_id: Seq<char>,
    provider: CatalogProviderView,
    key: Option<Seq<char>>,
    enable_free_models: bool,
) -> CatalogView {
    let endpoint = EndpointType::of_npm(provider.npm);
    let any = zen_offers_any(provider_id, provider.models, key, enable_free_models);
    CatalogView {
        entries: catalog.entries.union_prefer_right(
            zen_offered(provider_id, provider.models, endpoint, key, enable_free_models),
        ),
        auths: if any {
            catalog.auths.insert(
                provider_id,
                data::provider_auth(provider, zen_key(key), EndpointType::ChatCompletions),
            )
        } else {
            catalog.auths
        },
        anthropic_auths: if any {
            catalog.anthropic_auths.insert(
                provider_id,
                data::provider_auth(provider, zen_key(key), EndpointType::Messages),
            )
        } else {
            catalog.anthropic_auths
        },
        providers: catalog.providers.insert(provider_id, provider),
    }
}

proof fn zen_catalog_next(
    index: CatalogIndexView,
    provider_id: Seq<char>,
    provider: CatalogProviderView,
    keys: KeysView,
    enable_free_models: bool,
    builtins: Seq<Seq<char>>,
)
    requires
        !index.contains_key(provider_id),
    ensures
        zen_catalog(index.insert(provider_id, provider), keys, enable_free_models, builtins) == (
        if zen_takes(provider_id, provider, builtins) {
            zen_with(
                zen_catalog(index, keys, enable_free_models, builtins),
                provider_id,
                provider,
                key_for(keys, provider_id),
                enable_free_models,
            )
        } else {
            zen_catalog(index, keys, enable_free_models, builtins)
        }),
{
    let before = zen_catalog(index, keys, enable_free_models, builtins);
    let after = zen_catalog(
        index.insert(provider_id, provider),
        keys,
        enable_free_models,
        builtins,
    );
    let key = key_for(keys, provider_id);
    let target = if zen_takes(provider_id, provider, builtins) {
        zen_with(before, provider_id, provider, key, enable_free_models)
    } else {
        before
    };
    assert(after.entries =~= target.entries);
    assert(after.auths =~= target.auths);
    assert(after.anthropic_auths =~= target.anthropic_auths);
    assert(after.providers =~= target.providers);
}

/// Adds a provider that Zen takes, and the models of it that Zen offers.
fn add_zen_provider(
    catalog: &mut Catalog,
    provider_id: &String,
    provider: &CatalogProvider,
    key: Option<&String>,
    enable_free_models: bool,
)
    ensures
        final(catalog)@ == zen_with(
            old(catalog)@,
            provider_id@,
            provider@,
            match key {
                Some(k) => Some(k@),
                None => None,
            },
            enable_free_models,
        ),
{
    let ghost before = catalog@;
    let ghost found: Option<Seq<char>> = match key {
        Some(k) => Some(k@),
        None => None,
    };
    catalog.providers.insert(provider_id.clone(), provider.clone());
    let is_opencode = same_text(provider_id.as_str(), ZEN_CATALOG_KEY);
    let has_key = key.is_some();
    if !has_key && !is_opencode {
        proof {
            let target = zen_with(before, provider_id@, provider@, found, enable_free_models);
            assert(catalog@.entries =~= target.entries);
        }
        return;
    }
    let api_key = match key {
        Some(k) => k.clone(),
        None => PUBLIC_KEY.to_owned(),
    };
    let endpoint = EndpointType::from_npm(provider.npm.as_str());
    let mut any = false;
    let n: usize = provider.models.len();
    let ghost pairs = provider.models.pairs();
    proof {
        assert(pairs.take(0) == Seq::<(Seq<char>, CatalogModel)>::empty());
        assert(catalog@.entries =~= before.entries.union_prefer_right(
            zen_offered(
                provider_id@,
                assoc::map_of(pairs.take(0)),
                endpoint,
                found,
                enable_free_models,
            ),
        ));
    }
    for i in 0..n
        invariant
            n == pairs.len(),
            pairs == provider.models.pairs(),
            assoc::distinct_keys(pairs),
            has_key == (found is Some),
            is_opencode == (provider_id@ == ZEN_CATALOG_KEY@),
            catalog@.entries == before.entries.union_prefer_right(
                zen_offered(
                    provider_id@,
                    assoc::map_of(pairs.take(i as int)),
                    endpoint,
                    found,
                    enable_free_models,
                ),
            ),
            any == zen_offers_any(
                provider_id@,
                assoc::map_of(pairs.take(i as int)),
                found,
                enable_free_models,
            ),
            catalog@.auths == before.auths,
            catalog@.anthropic_auths == before.anthropic_auths,
            catalog@.providers == before.providers.insert(provider_id@, provider@),
    {
        let (model_id, model) = provider.models.entry(i);
        let ghost seen = assoc::map_of(pairs.take(i as int));
        let ghost seen_next = assoc::map_of(pairs.take(i + 1));
        proof {
            assoc::map_of_next(pairs, i as int);
            assoc::map_of_fresh(pairs, i as int);
            assert(seen_next == seen.insert(model_id@, *model));
            assert forall|id: Seq<char>| #[trigger] seen.contains_key(id) implies
                seen_next.contains_key(id) && seen_next[id] == seen[id] by {
                assert(id != model_id@);
            }
        }
        let is_free = model_is_free(model);
        let offered = (!is_free || enable_free_models) && (has_key || is_opencode && is_free);
        if offered {
            let meta = data::model_meta(model, provider_id.as_str(), endpoint);
            catalog.entries.insert((provider_id.clone(), model_id.clone()), meta);
            any = true;
        }
        proof {
            assert(offered == zen_offers(provider_id@, *model, found, enable_free_models));
            let target = before.entries.union_prefer_right(
                zen_offered(provider_id@, seen_next, endpoint, found, enable_free_models),
            );
            assert(catalog@.entries =~= target);
            if offered {
                assert(seen_next.contains_key(model_id@));
            } else if zen_offers_any(provider_id@, seen_next, found, enable_free_models) {
                let id = choose|id: Seq<char>|
                    #[trigger] seen_next.contains_key(id) && zen_offers(
                        provider_id@,
                        seen_next[id],
                        found,
                        enable_free_models,
                    );
                assert(seen.contains_key(id));
            }
            if zen_offers_any(provider_id@, seen, found, enable_free_models) {
                let id = choose|id: Seq<char>|
                    #[trigger] seen.contains_key(id) && zen_offers(
                        provider_id@,
                        seen[id],
                        found,
                        enable_free_models,
                    );
                assert(seen_next.contains_key(id));
            }
        }
    }
    assert(pairs.take(n as int) == pairs);
    if any {
        let auth = provider.build_auth(api_key.as_str(), EndpointType::ChatCompletions);
        let anthropic_auth = provider.build_auth(api_key.as_str(), EndpointType::Messages);
        catalog.auths.insert(provider_id.clone(), auth);
        catalog.anthropic_auths.insert(provider_id.clone(), anthropic_auth);
    }
}

/// The parts of a catalog of Zen fit together: a provider is reached, by either protocol, exactly
/// where one of its models is offered; a model is filed under its own provider, which is among the
/// admitted ones; and those are the providers that Zen takes from the index, unchanged, with or
/// without a key, and never Go's entry.
pub open spec fn zen_parts_fit(
    catalog: CatalogView,
    index: CatalogIndexView,
    builtins: Seq<Seq<char>>,
) -> bool {
    &&& catalog.auths.dom() == catalog.anthropic_auths.dom()
    &&& forall|p: Seq<char>| #[trigger]
        catalog.auths.contains_key(p) <==> exists|m: Seq<char>| #[trigger]
            catalog.entries.contains_key((p, m))
    &&& forall|k: (Seq<char>, Seq<char>)| #[trigger]
        catalog.entries.contains_key(k) ==> catalog.entries[k].provider_id == k.0
            && catalog.providers.contains_key(k.0)
    &&& forall|p: Seq<char>| #[trigger]
        catalog.providers.contains_key(p) <==> index.contains_key(p) && zen_takes(
            p,
            index[p],
            builtins,
        )
    &&& forall|p: Seq<char>| #[trigger]
        catalog.providers.contains_key(p) ==> catalog.providers[p] == index[p]
    &&& !catalog.providers.contains_key(GO_PROVIDER_ID@)
}

/// What Zen makes of the index. The third-party providers are registered anew.
pub fn build_zen_catalog(
    index: &CatalogIndex,
    keys: &AssocMap<String, Option<String>>,
    enable_free_models: bool,
    builtins: &Vec<String>,
    registry: &mut Registry,
) -> (catalog: Catalog)
    ensures
        catalog@ == zen_catalog(index@, keys@, enable_free_models, builtins.deep_view()),
        zen_parts_fit(catalog@, index@, builtins.deep_view()),
        is_zen_registry(final(registry)@, index@, enable_free_models, builtins.deep_view()),
{
    registry.replace(build_zen_registry(index, enable_free_models, builtins));
    let mut catalog = Catalog::empty();
    let n: usize = index.len();
    let ghost pairs = index.pairs();
    let ghost slugs = builtins.deep_view();
    proof {
        assert(pairs.take(0) == Seq::<(Seq<char>, CatalogProviderView)>::empty());
        assert(catalog@ =~= zen_catalog(
            assoc::map_of(pairs.take(0)),
            keys@,
            enable_free_models,
            slugs,
        ));
    }
    for i in 0..n
        invariant
            n == pairs.len(),
            pairs == index.pairs(),
            slugs == builtins.deep_view(),
            assoc::distinct_keys(pairs),
            catalog@ == zen_catalog(
                assoc::map_of(pairs.take(i as int)),
                keys@,
                enable_free_models,
                slugs,
            ),
    {
        let (provider_id, provider) = index.entry(i);
        proof {
            assoc::map_of_next(pairs, i as int);
            assoc::map_of_fresh(pairs, i as int);
            zen_catalog_next(
                assoc::map_of(pairs.take(i as int)),
                provider_id@,
                provider@,
                keys@,
                enable_free_models,
                slugs,
            );
        }
        if takes_for_zen(provider_id.as_str(), provider, builtins) {
            let key: Option<&String> = match keys.get(provider_id) {
                Some(k) => k.as_ref(),
                None => None,
            };
            add_zen_provider(&mut catalog, provider_id, provider, key, enable_free_models);
        }
    }
    assert(pairs.take(n as int) == pairs);
    proof {
        laws::catalogs::zen_catalog_fits_together(index@, keys@, enable_free_models, slugs);
    }
    catalog
}

/// A model is listed in the registry.
pub open spec fn registered(model: CatalogModel, enable_free_models: bool) -> bool {
    enable_free_models || !free(model)
}

/// `list` holds the registered models of a provider, each once and no others.
pub open spec fn lists_models(
    list: Seq<CatalogModelInfoView>,
    provider_id: Seq<char>,
    endpoint: EndpointType,
    models: Map<Seq<char>, CatalogModel>,
    enable_free_models: bool,
) -> bool {
    &&& forall|i: int, j: int|
        0 <= i < j < list.len() ==> (#[trigger] list[i]).id != (#[trigger] list[j]).id
    &&& forall|i: int|
        0 <= i < list.len() ==> {
            let model = #[trigger] list[i];
            &&& models.contains_key(model.id)
            &&& registered(models[model.id], enable_free_models)
            &&& model.meta == data::meta_of(models[model.id], provider_id, endpoint)
        }
    &&& forall|id: Seq<char>|
        #[trigger] models.contains_key(id) && registered(models[id], enable_free_models)
            ==> exists|i: int| 0 <= i < list.len() && (#[trigger] list[i]).id == id
}

/// Some model of the list can think before it answers.
pub open spec fn any_thinks(list: Seq<CatalogModelInfoView>) -> bool {
    exists|i: int| 0 <= i < list.len() && (#[trigger] list[i]).meta.supports_thinking
}

/// Some model of the list takes pictures.
pub open spec fn any_sees(list: Seq<CatalogModelInfoView>) -> bool {
    exists|i: int| 0 <= i < list.len() && (#[trigger] list[i]).meta.vision
}

/// What the models of a provider can do, in words.
pub open spec fn capabilities(thinking: bool, vision: bool) -> Seq<Seq<char>> {
    (if thinking {
        seq!["thinking support"@]
    } else {
        Seq::empty()
    }) + (if vision {
        seq!["vision support"@]
    } else {
        Seq::empty()
    })
}

/// The line that describes a provider.
pub open spec fn features_line(name: Seq<char>, thinking: bool, vision: bool) -> Seq<char> {
    let caps = capabilities(thinking, vision);
    if caps.len() == 0 {
        name + " models"@
    } else {
        name + " models with "@ + text::joined(caps, ", "@)
    }
}

/// `info` is what the registry says of a provider.
pub open spec fn describes(
    info: CatalogProviderInfoView,
    provider_id: Seq<char>,
    provider: CatalogProviderView,
    enable_free_models: bool,
) -> bool {
    &&& info.display_name == provider.name
    &&& info.env_keys == provider.env
    &&& info.base_url == provider.api
    &&& info.features == features_line(
        provider.name,
        any_thinks(info.models),
        any_sees(info.models),
    )
    &&& lists_models(
        info.models,
        provider_id,
        EndpointType::of_npm(provider.npm),
        provider.models,
        enable_free_models,
    )
}

/// `registry` holds what Zen says of the third-party providers of the index that it takes, and
/// nothing else.
pub open spec fn is_zen_registry(
    registry: Map<Seq<char>, CatalogProviderInfoView>,
    index: CatalogIndexView,
    enable_free_models: bool,
    builtins: Seq<Seq<char>>,
) -> bool {
    &&& forall|p: Seq<char>| #[trigger]
        registry.contains_key(p) <==> (index.contains_key(p) && zen_takes(p, index[p], builtins) && p
            != ZEN_CATALOG_KEY@)
    &&& forall|p: Seq<char>| #[trigger]
        registry.contains_key(p) ==> describes(registry[p], p, index[p], enable_free_models)
}

/// The registered models of a provider.
fn registered_models(
    provider_id: &str,
    provider: &CatalogProvider,
    enable_free_models: bool,
) -> (list: Vec<CatalogModelInfo>)
    ensures
        lists_models(
            list.deep_view(),
            provider_id@,
            EndpointType::of_npm(provider@.npm),
            provider@.models,
            enable_free_models,
        ),
{
    let endpoint = EndpointType::from_npm(provider.npm.as_str());
    let mut list: Vec<CatalogModelInfo> = Vec::new();
    let n: usize = provider.models.len();
    let ghost pairs = provider.models.pairs();
    assert(pairs.take(0) == Seq::<(Seq<char>, CatalogModel)>::empty());
    for i in 0..n
        invariant
            n == pairs.len(),
            pairs == provider.models.pairs(),
            assoc::distinct_keys(pairs),
            lists_models(
                list.deep_view(),
                provider_id@,
                endpoint,
                assoc::map_of(pairs.take(i as int)),
                enable_free_models,
            ),
    {
        let (id, model) = provider.models.entry(i);
        let ghost before = list.deep_view();
        let ghost seen = assoc::map_of(pairs.take(i as int));
        let ghost seen_next = assoc::map_of(pairs.take(i + 1));
        proof {
            assoc::map_of_next(pairs, i as int);
            assoc::map_of_fresh(pairs, i as int);
        }
        let keep = enable_free_models || !model_is_free(model);
        if keep {
            let meta = data::model_meta(model, provider_id, endpoint);
            list.push(CatalogModelInfo { id: id.clone(), meta });
        }
        proof {
            let after = list.deep_view();
            if keep {
                assert(after =~= before.push(after.last()));
                assert(after.last().id == id@);
            } else {
                assert(after =~= before);
            }
            assert forall|a: int, b: int| 0 <= a < b < after.len() implies (#[trigger] after[a]).id
                != (#[trigger] after[b]).id by {
                assert(before[a] == after[a]);
                assert(seen.contains_key(before[a].id));
                if b < before.len() {
                    assert(before[b] == after[b]);
                }
            }
            assert forall|a: int| 0 <= a < after.len() implies {
                let m = #[trigger] after[a];
                &&& seen_next.contains_key(m.id)
                &&& registered(seen_next[m.id], enable_free_models)
                &&& m.meta == data::meta_of(seen_next[m.id], provider_id@, endpoint)
            } by {
                if a < before.len() {
                    assert(before[a] == after[a]);
                }
            }
            assert forall|k: Seq<char>| #[trigger]
                seen_next.contains_key(k) && registered(
                    seen_next[k],
                    enable_free_models,
                ) implies exists|a: int| 0 <= a < after.len() && (#[trigger] after[a]).id == k by {
                if k == id@ {
                    assert(after[after.len() - 1].id == k);
                } else {
                    assert(seen.contains_key(k));
                    let a = choose|a: int| 0 <= a < before.len() && (#[trigger] before[a]).id == k;
                    assert(after[a].id == k);
                }
            }
        }
    }
    assert(pairs.take(n as int) == pairs);
    list
}

/// What the registry says of a provider.
fn registry_info(
    provider_id: &str,
    provider: &CatalogProvider,
    enable_free_models: bool,
) -> (info: CatalogProviderInfo)
    ensures
        describes(info@, provider_id@, provider@, enable_free_models),
{
    let models = registered_models(provider_id, provider, enable_free_models);
    let ghost list = models.deep_view();
    let mut has_thinking = false;
    let mut has_vision = false;
    for i in 0..models.len()
        invariant
            list == models.deep_view(),
            has_thinking <==> exists|j: int|
                0 <= j < i && (#[trigger] list[j]).meta.supports_thinking,
            has_vision <==> exists|j: int| 0 <= j < i && (#[trigger] list[j]).meta.vision,
    {
        assert(list[i as int] == models@[i as int]@);
        if models[i].meta.supports_thinking {
            has_thinking = true;
        }
        if models[i].meta.vision {
            has_vision = true;
        }
    }
    let mut caps: Vec<String> = Vec::new();
    if has_thinking {
        caps.push("thinking support".to_owned());
    }
    if has_vision {
        caps.push("vision support".to_owned());
    }
    assert(caps.deep_view() =~= capabilities(has_thinking, has_vision));
    let features = if caps.is_empty() {
        provider.name.clone().concat(" models")
    } else {
        provider.name.clone().concat(" models with ").concat(join(&caps, ", ").as_str())
    };
    CatalogProviderInfo {
        display_name: provider.name.clone(),
        env_keys: copy_texts(&provider.env),
        base_url: copy_text(&provider.api),
        features,
        models,
    }
}

/// What Zen says of the third-party providers of the index that it takes.
pub fn build_zen_registry(
    index: &CatalogIndex,
    enable_free_models: bool,
    builtins: &Vec<String>,
) -> (registry: AssocMap<String, CatalogProviderInfo>)
    ensures
        is_zen_registry(registry@, index@, enable_free_models, builtins.deep_view()),
{
    let mut registry: AssocMap<String, CatalogProviderInfo> = AssocMap::new();
    let n: usize = index.len();
    let ghost pairs = index.pairs();
    assert(pairs.take(0) == Seq::<(Seq<char>, CatalogProviderView)>::empty());
    for i in 0..n
        invariant
            n == pairs.len(),
            pairs == index.pairs(),
            assoc::distinct_keys(pairs),
            is_zen_registry(
                registry@,
                assoc::map_of(pairs.take(i as int)),
                enable_free_models,
                builtins.deep_view(),
            ),
    {
        let (provider_id, provider) = index.entry(i);
        proof {
            assoc::map_of_next(pairs, i as int);
            assoc::map_of_fresh(pairs, i as int);
        }
        if takes_for_zen(provider_id.as_str(), provider, builtins) && !same_text(
            provider_id.as_str(),
            ZEN_CATALOG_KEY,
        ) {
            let info = registry_info(provider_id.as_str(), provider, enable_free_models);
            registry.insert(provider_id.clone(), info);
        }
    }
    assert(pairs.take(n as int) == pairs);
    registry
}

/// What Go makes of the index.
pub fn build_go_catalog(
    index: &CatalogIndex,
    keys: &AssocMap<String, Option<String>>,
) -> (catalog: Catalog)
    ensures
        catalog@ == go_catalog(index@, keys@),
{
    let mut catalog = Catalog::empty();
    let go = GO_PROVIDER_ID.to_owned();
    let provider = match index.get(&go) {
        Some(p) => p,
        None => {
            return catalog;
        },
    };
    if !admit_provider(provider) {
        return catalog;
    }
    catalog.providers.insert(go.clone(), provider.clone());
    let key: Option<&String> = match keys.get(&go) {
        Some(k) => k.as_ref(),
        None => None,
    };
    let api_key = match key {
        Some(k) => k,
        None => {
            return catalog;
        },
    };
    let endpoint = EndpointType::from_npm(provider.npm.as_str());
    let n: usize = provider.models.len();
    let ghost pairs = provider.models.pairs();
    proof {
        assert(pairs.take(0) == Seq::<(Seq<char>, CatalogModel)>::empty());
        assert(catalog@.entries =~= go_offered(assoc::map_of(pairs.take(0)), endpoint));
    }
    for i in 0..n
        invariant
            n == pairs.len(),
            pairs == provider.models.pairs(),
            assoc::distinct_keys(pairs),
            go@ == GO_PROVIDER_ID@,
            catalog@.entries == go_offered(assoc::map_of(pairs.take(i as int)), endpoint),
            catalog@.auths == Map::<Seq<char>, AuthView>::empty(),
            catalog@.anthropic_auths == Map::<Seq<char>, AuthView>::empty(),
            catalog@.providers == Map::<Seq<char>, CatalogProviderView>::empty().insert(
                GO_PROVIDER_ID@,
                provider@,
            ),
    {
        let (model_id, model) = provider.models.entry(i);
        let meta = data::model_meta(model, GO_PROVIDER_ID, endpoint);
        catalog.entries.insert((go.clone(), model_id.clone()), meta);
        proof {
            assoc::map_of_next(pairs, i as int);
            assert(catalog@.entries =~= go_offered(assoc::map_of(pairs.take(i + 1)), endpoint));
        }
    }
    assert(pairs.take(n as int) == pairs);
    catalog.auths.insert(
        go.clone(),
        provider.build_auth(api_key.as_str(), EndpointType::ChatCompletions),
    );
    catalog.anthropic_auths.insert(
        go,
        provider.build_auth(api_key.as_str(), EndpointType::Messages),
    );
    assert(catalog@ =~= go_catalog(index@, keys@));
    catalog
}

/// The models of the Go entry.
spec fn go_offered(models: Map<Seq<char>, CatalogModel>, endpoint: EndpointType) -> Map<
    (Seq<char>, Seq<char>),
    MetaView,
> {
    Map::new(
        |k: (Seq<char>, Seq<char>)| k.0 == GO_PROVIDER_ID@ && models.contains_key(k.1),
        |k: (Seq<char>, Seq<char>)| data::meta_of(models[k.1], GO_PROVIDER_ID@, endpoint),
    )
}

/// Which of the two services.
#[derive(Debug, Clone, Copy, PartialEq, Eq, Structural)]
pub enum Backend {
    Zen,
    Go,
}

/// `id` without `prefix` and the slash behind it, or `id` itself where it does not start so.
pub open spec fn bare_id(id: Seq<char>, prefix: Seq<char>) -> Seq<char> {
    match text::without_prefix(id, prefix + "/"@) {
        Some(rest) => rest,
        None => id,
    }
}

/// The words that say that a model is not offered.
pub open spec fn no_such_model(id: Seq<char>) -> Seq<char> {
    "model '"@ + id + "' not found in catalog"@
}

/// The words that say that a provider cannot be reached.
pub open spec fn no_such_auth(provider_id: Seq<char>) -> Seq<char> {
    "auth for provider '"@ + provider_id + "' not found in catalog"@
}

impl Backend {
    /// What the service makes of the index.
    pub open spec fn catalog_of(
        self,
        index: CatalogIndexView,
        keys: KeysView,
        enable_free_models: bool,
        builtins: Seq<Seq<char>>,
    ) -> CatalogView {
        match self {
            Backend::Zen => zen_catalog(index, keys, enable_free_models, builtins),
            Backend::Go => go_catalog(index, keys),
        }
    }

    /// The provider and the model that an identifier names.
    pub open spec fn key_of(self, id: Seq<char>) -> (Seq<char>, Seq<char>) {
        match self {
            Backend::Zen => match text::split_at_first(id, '/') {
                Some((provider, model)) => (provider, model),
                None => (ZEN_CATALOG_KEY@, id),
            },
            Backend::Go => (GO_PROVIDER_ID@, id),
        }
    }

    /// The form of an identifier in the catalog.
    pub open spec fn normalized(self, id: Seq<char>) -> Seq<char> {
        match self {
            Backend::Zen => if id.contains('/') {
                id
            } else {
                ZEN_CATALOG_KEY@ + "/"@ + id
            },
            Backend::Go => bare_id(id, GO_PROVIDER_ID@),
        }
    }

    /// The form of an identifier that is shown.
    pub open spec fn displayed(self, id: Seq<char>) -> Seq<char> {
        match self {
            Backend::Zen => match text::split_at_first(id, '/') {
                Some((provider, model)) => if provider == ZEN_CATALOG_KEY@ {
                    model
                } else {
                    id
                },
                None => id,
            },
            Backend::Go => id,
        }
    }

    /// An address and key given from outside take the place of the catalog's. Zen allows that of
    /// the first-party provider alone.
    pub open spec fn overrides(self, provider_id: Seq<char>) -> bool {
        match self {
            Backend::Zen => provider_id == ZEN_CATALOG_KEY@,
            Backend::Go => true,
        }
    }

    /// What is known of the model that an identifier names, and how to reach it; or the words
    /// that say what is missing.
    pub open spec fn found(
        self,
        catalog: CatalogView,
        id: Seq<char>,
        auth_override: Option<AuthView>,
    ) -> Result<(MetaView, AuthView), Seq<char>> {
        let key = self.key_of(id);
        if !catalog.entries.contains_key(key) {
            Err(no_such_model(id))
        } else {
            let meta = catalog.entries[key];
            let auths = match meta.api_format {
                EndpointType::Messages => catalog.anthropic_auths,
                EndpointType::ChatCompletions => catalog.auths,
            };
            if !auths.contains_key(meta.provider_id) {
                Err(no_such_auth(meta.provider_id))
            } else {
                match auth_override {
                    Some(auth) if self.overrides(meta.provider_id) => Ok((meta, auth)),
                    _ => Ok((meta, auths[meta.provider_id])),
                }
            }
        }
    }

    /// The identifier under which the provider itself knows a model.
    pub open spec fn upstream_id(self, id: Seq<char>, provider_id: Seq<char>) -> Seq<char> {
        match self {
            Backend::Zen => bare_id(id, provider_id),
            Backend::Go => id,
        }
    }

    /// The request for a chosen model; or the words that say what is missing.
    pub open spec fn prepared(
        self,
        catalog: CatalogView,
        model: ModelView,
        auth_override: Option<AuthView>,
    ) -> Result<PreparedRequestView, Seq<char>> {
        match self.found(catalog, model.id, auth_override) {
            Ok((meta, auth)) => Ok(
                PreparedRequestView {
                    model: model::sent_as(
                        model,
                        self.upstream_id(model.id, meta.provider_id),
                        meta,
                    ),
                    endpoint: meta.api_format,
                    auth,
                },
            ),
            Err(words) => Err(words),
        }
    }

    /// The service lists a model of provider `provider_id` itself.
    pub open spec fn lists(self, provider_id: Seq<char>) -> bool {
        match self {
            Backend::Zen => provider_id == ZEN_CATALOG_KEY@,
            Backend::Go => true,
        }
    }

    /// The identifier under which the service lists a model.
    pub open spec fn listed_id(self, key: (Seq<char>, Seq<char>)) -> Seq<char> {
        match self {
            Backend::Zen => key.0 + "/"@ + key.1,
            Backend::Go => key.1,
        }
    }

    /// How the service lists the entries of a catalog, in the order in which they are walked.
    pub open spec fn listed(self, entries: Seq<((Seq<char>, Seq<char>), MetaView)>) -> Seq<
        ModelInfoView,
    > {
        entries.filter(self.keeps()).map_values(self.shows())
    }

    /// The entries that the service lists.
    pub open spec fn keeps(self) -> spec_fn(((Seq<char>, Seq<char>), MetaView)) -> bool {
        |e: ((Seq<char>, Seq<char>), MetaView)| self.lists(e.0.0)
    }

    /// `list` is what the service lists of a catalog's entries: each entry that it lists once, and
    /// all in the order of their identifiers.
    pub open spec fn lists_entries(
        self,
        list: Seq<ModelInfoView>,
        entries: Map<(Seq<char>, Seq<char>), MetaView>,
    ) -> bool {
        &&& sorting::in_label_order::<ModelInfo>(list)
        &&& exists|walk: Seq<((Seq<char>, Seq<char>), MetaView)>|
            {
                &&& assoc::distinct_keys(walk)
                &&& assoc::map_of(walk) == entries
                &&& list.to_multiset() == #[trigger] self.listed(walk).to_multiset()
            }
    }

    /// How the service lists an entry.
    pub open spec fn shows(self) -> spec_fn(((Seq<char>, Seq<char>), MetaView)) -> ModelInfoView {
        |e: ((Seq<char>, Seq<char>), MetaView)| model::listing(self.listed_id(e.0), e.1)
    }

    /// The kind of the service.
    pub open spec fn kind_view(self) -> KindView {
        match self {
            Backend::Zen => KindView::OpencodeZen,
            Backend::Go => KindView::OpencodeGo,
        }
    }

    /// The kind of the service.
    pub fn kind(&self) -> (kind: ProviderKind)
        ensures
            kind@ == self.kind_view(),
    {
        match self {
            Backend::Zen => ProviderKind::OpencodeZen,
            Backend::Go => ProviderKind::OpencodeGo,
        }
    }

    /// Whether an address and key given from outside take the place of the catalog's.
    pub fn allow_auth_override(&self, meta: &Meta) -> (allowed: bool)
        ensures
            allowed == self.overrides(meta@.provider_id),
    {
        match self {
            Backend::Zen => same_text(meta.provider_id.as_str(), ZEN_CATALOG_KEY),
            Backend::Go => true,
        }
    }

    /// What the service makes of the index, given the keys that were found and the slugs of the
    /// providers that are supported without it. Zen also registers the third-party providers anew.
    pub fn build_catalog(
        &self,
        index: CatalogIndex,
        keys: &AssocMap<String, Option<String>>,
        enable_free_models: bool,
        builtins: &Vec<String>,
        registry: &mut Registry,
    ) -> (catalog: Catalog)
        ensures
            catalog@ == self.catalog_of(
                index@,
                keys@,
                enable_free_models,
                builtins.deep_view(),
            ),
            match *self {
                Backend::Zen => is_zen_registry(
                    final(registry)@,
                    index@,
                    enable_free_models,
                    builtins.deep_view(),
                ),
                Backend::Go => *final(registry) == *old(registry),
            },
    {
        match self {
            Backend::Zen => build_zen_catalog(
                &index,
                keys,
                enable_free_models,
                builtins,
                registry,
            ),
            Backend::Go => build_go_catalog(&index, keys),
        }
    }

    /// What is known of the model that `model_id` names, and how to reach it.
    pub fn lookup(
        &self,
        catalog: &Catalog,
        model_id: &str,
        auth_override: Option<&ResolvedAuth>,
    ) -> (result: Result<(Meta, ResolvedAuth), AgentError>)
        ensures
            match result {
                Ok((meta, auth)) => self.found(
                    catalog@,
                    model_id@,
                    auth_override.deep_view(),
                ) == Ok::<(MetaView, AuthView), Seq<char>>((meta@, auth@)),
                Err(e) => self.found(catalog@, model_id@, auth_override.deep_view()) == Err::<
                    (MetaView, AuthView),
                    Seq<char>,
                >(e.words()),
            },
    {
        let key = self.lookup_key(model_id);
        let meta = match catalog.entries.get(&key) {
            Some(m) => m.clone(),
            None => {
                return Err(
                    AgentError::Config {
                        message: "model '".to_owned().concat(model_id).concat(
                            "' not found in catalog",
                        ),
                    },
                );
            },
        };
        let found = match meta.api_format {
            EndpointType::Messages => catalog.anthropic_auths.get(&meta.provider_id),
            EndpointType::ChatCompletions => catalog.auths.get(&meta.provider_id),
        };
        let catalog_auth = match found {
            Some(auth) => auth,
            None => {
                return Err(
                    AgentError::Config {
                        message: "auth for provider '".to_owned().concat(
                            meta.provider_id.as_str(),
                        ).concat("' not found in catalog"),
                    },
                );
            },
        };
        let auth = match auth_override {
            Some(given) => if self.allow_auth_override(&meta) {
                given.clone()
            } else {
                catalog_auth.clone()
            },
            None => catalog_auth.clone(),
        };
        Ok((meta, auth))
    }

    /// The request for a chosen model.
    pub fn prepare(
        &self,
        catalog: &Catalog,
        model: &Model,
        auth_override: Option<&ResolvedAuth>,
    ) -> (result: Result<PreparedRequest, AgentError>)
        ensures
            match result {
                Ok(request) => self.prepared(catalog@, model@, auth_override.deep_view()) == Ok::<
                    PreparedRequestView,
                    Seq<char>,
                >(request@),
                Err(e) => self.prepared(catalog@, model@, auth_override.deep_view()) == Err::<
                    PreparedRequestView,
                    Seq<char>,
                >(e.words()),
            },
    {
        let (meta, auth) = match self.lookup(catalog, model.id.as_str(), auth_override) {
            Ok(found) => found,
            Err(e) => {
                return Err(e);
            },
        };
        let id = match self {
            Backend::Zen => self.strip_prefix(model.id.as_str(), meta.provider_id.as_str()),
            Backend::Go => model.id.clone(),
        };
        Ok(PreparedRequest { model: send_as(model, id, &meta), endpoint: meta.api_format, auth })
    }

    /// The provider and the model that `model_id` names.
    pub fn lookup_key(&self, model_id: &str) -> (key: ModelKey)
        ensures
            key.deep_view() == self.key_of(model_id@),
    {
        match self {
            Backend::Zen => match split_once(model_id, '/') {
                Some((provider, model)) => (provider.to_owned(), model.to_owned()),
                None => (ZEN_CATALOG_KEY.to_owned(), model_id.to_owned()),
            },
            Backend::Go => (GO_PROVIDER_ID.to_owned(), model_id.to_owned()),
        }
    }

    /// `model_id` without `prefix` and the slash behind it.
    pub fn strip_prefix(&self, model_id: &str, prefix: &str) -> (id: String)
        ensures
            id@ == bare_id(model_id@, prefix@),
    {
        let needle = prefix.to_owned().concat("/");
        match strip_prefix(model_id, needle.as_str()) {
            Some(rest) => rest.to_owned(),
            None => model_id.to_owned(),
        }
    }

    /// The form of `model_id` in the catalog.
    pub fn normalize_model_id(&self, model_id: &str) -> (id: String)
        ensures
            id@ == self.normalized(model_id@),
    {
        match self {
            Backend::Zen => if contains_char(model_id, '/') {
                model_id.to_owned()
            } else {
                ZEN_CATALOG_KEY.to_owned().concat("/").concat(model_id)
            },
            Backend::Go => self.strip_prefix(model_id, GO_PROVIDER_ID),
        }
    }

    /// The form of `model_id` that is shown: Zen drops the name of the first-party provider.
    pub fn display_model_id<'a>(&self, model_id: &'a str) -> (id: &'a str)
        ensures
            id@ == self.displayed(model_id@),
    {
        match self {
            Backend::Zen => match split_once(model_id, '/') {
                Some((provider, model)) => if same_text(provider, ZEN_CATALOG_KEY) {
                    model
                } else {
                    model_id
                },
                None => model_id,
            },
            Backend::Go => model_id,
        }
    }

    /// The models that the service lists, in the order of their identifiers.
    pub fn all_models(&self, catalog: &Catalog) -> (models: Vec<ModelInfo>)
        ensures
            self.lists_entries(models.deep_view(), catalog@.entries),
    {
        let mut models: Vec<ModelInfo> = Vec::new();
        let n: usize = catalog.entries.len();
        let ghost pairs = catalog.entries.pairs();
        let ghost kept = self.keeps();
        proof {
            reveal(Seq::filter);
            assert(pairs.take(0) =~= Seq::<((Seq<char>, Seq<char>), MetaView)>::empty());
            assert(models.deep_view() =~= self.listed(pairs.take(0)));
        }
        for i in 0..n
            invariant
                n == pairs.len(),
                pairs == catalog.entries.pairs(),
                kept == self.keeps(),
                models.deep_view() == self.listed(pairs.take(i as int)),
        {
            let (key, meta) = catalog.entries.entry(i);
            let ghost before = models.deep_view();
            let keep = match self {
                Backend::Zen => same_text(key.0.as_str(), ZEN_CATALOG_KEY),
                Backend::Go => true,
            };
            if keep {
                let id = match self {
                    Backend::Zen => key.0.clone().concat("/").concat(key.1.as_str()),
                    Backend::Go => key.1.clone(),
                };
                models.push(model_info(id, meta));
            }
            proof {
                reveal(Seq::filter);
                let upto = pairs.take(i + 1);
                assert(upto.drop_last() =~= pairs.take(i as int));
                assert(upto.last() == pairs[i as int]);
                assert(kept(pairs[i as int]) == keep);
                let rest = pairs.take(i as int).filter(kept);
                if keep {
                    assert(upto.filter(kept) == rest.push(pairs[i as int]));
                    let shown = (self.shows())(pairs[i as int]);
                    assert(models.deep_view() =~= before.push(shown));
                    assert(self.listed(upto) =~= self.listed(pairs.take(i as int)).push(shown));
                } else {
                    assert(upto.filter(kept) == rest);
                    assert(models.deep_view() =~= before);
                }
            }
        }
        assert(pairs.take(n as int) =~= pairs);
        assert(self.listed(pairs).to_multiset() == models.deep_view().to_multiset());
        sort_by_label(models)
    }
}

} // verus!
