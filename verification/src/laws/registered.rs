//! What is registered, listed and shown of providers and their models.

use vstd::prelude::*;

use crate::assoc;
use crate::assoc::AssocMap;
use crate::catalog::data;
use crate::catalog::data::{
    CatalogIndex, CatalogIndexView, CatalogProvider, CatalogProviderView, MetaView,
};
use crate::catalog::provider_data::{ProviderData, ProviderDataView};
use crate::catalog::registry::{CatalogModelInfoView, CatalogProviderInfo, Registry};
use crate::laws::free_models;
use crate::laws::listings;
use crate::laws::requests;
use crate::model;
use crate::model::{ModelInfo, ModelInfoView};
use crate::opencode;
use crate::opencode::backend;
use crate::opencode::backend::{Backend, Catalog};
use crate::opencode::Catalogs;
use crate::plan::RegistryView;
use crate::text;

verus! {

/// A model of a provider is registered: it costs something, or free models are enabled.
pub open spec fn is_registered(
    provider: CatalogProviderView,
    id: Seq<char>,
    enabled: bool,
) -> bool {
    provider.models.contains_key(id) && (enabled || !free_models::costs_nothing(
        provider.models[id],
    ))
}

/// Some registered model of a provider can think before it answers.
pub open spec fn some_thinks(provider: CatalogProviderView, enabled: bool) -> bool {
    exists|id: Seq<char>| #[trigger]
        is_registered(provider, id, enabled) && provider.models[id].supports_thinking
}

/// Some registered model of a provider takes pictures.
pub open spec fn some_sees(provider: CatalogProviderView, enabled: bool) -> bool {
    exists|id: Seq<char>| #[trigger]
        is_registered(provider, id, enabled) && provider.models[id].vision
}

/// The line that describes a provider, by what its registered models can do.
pub open spec fn describing_line(name: Seq<char>, thinks: bool, sees: bool) -> Seq<char> {
    if thinks && sees {
        name + " models with "@ + ("thinking support"@ + ", "@ + "vision support"@)
    } else if thinks {
        name + " models with "@ + "thinking support"@
    } else if sees {
        name + " models with "@ + "vision support"@
    } else {
        name + " models"@
    }
}

/// The line that describes a provider says what its models can do.
proof fn features_line_says(name: Seq<char>, thinks: bool, sees: bool)
    ensures
        backend::features_line(name, thinks, sees) == describing_line(name, thinks, sees),
{
    let caps = backend::capabilities(thinks, sees);
    reveal_with_fuel(text::joined, 3);
    if thinks && sees {
        assert(caps.drop_last() =~= seq!["thinking support"@]);
        assert(caps[1] == "vision support"@);
    } else if thinks {
        assert(caps =~= seq!["thinking support"@]);
    } else if sees {
        assert(caps =~= seq!["vision support"@]);
    }
}

/// `list` has the registered models of a provider, each once, with what the index tells of them,
/// and no others.
pub open spec fn has_registered_models(
    list: Seq<CatalogModelInfoView>,
    id: Seq<char>,
    provider: CatalogProviderView,
    enabled: bool,
) -> bool {
    &&& forall|model: Seq<char>| #[trigger]
        is_registered(provider, model, enabled) <==> exists|i: int|
            0 <= i < list.len() && (#[trigger] list[i]).id == model
    &&& forall|i: int|
        0 <= i < list.len() ==> free_models::tells_of(
            (#[trigger] list[i]).meta,
            id,
            provider,
            provider.models[list[i].id],
        )
    &&& forall|i: int, j: int|
        0 <= i < j < list.len() ==> (#[trigger] list[i]).id != (#[trigger] list[j]).id
}

/// The provider is registered exactly where Zen admits it and it is not the first party: with its
/// name, its variables, its address, the line that describes it and its registered models.
pub open spec fn registers_as_in_the_index(
    registry: RegistryView,
    index: CatalogIndexView,
    enabled: bool,
    builtins: Seq<Seq<char>>,
    id: Seq<char>,
) -> bool {
    &&& registry.contains_key(id) <==> free_models::zen_admits(index, builtins, id) && id
        != "opencode"@
    &&& registry.contains_key(id) ==> {
        let info = registry[id];
        let provider = index[id];
        &&& info.display_name == provider.name
        &&& info.env_keys == provider.env
        &&& info.base_url == provider.api
        &&& info.features == describing_line(
            provider.name,
            some_thinks(provider, enabled),
            some_sees(provider, enabled),
        )
        &&& has_registered_models(info.models, id, provider, enabled)
    }
}

/// What Zen registers is what the index has.
pub(crate) proof fn zen_registers_as_in_the_index(
    registry: RegistryView,
    index: CatalogIndexView,
    enabled: bool,
    builtins: Seq<Seq<char>>,
    id: Seq<char>,
)
    requires
        backend::is_zen_registry(registry, index, enabled, builtins),
    ensures
        registers_as_in_the_index(registry, index, enabled, builtins, id),
{
    if registry.contains_key(id) {
        let info = registry[id];
        let provider = index[id];
        let list = info.models;
        assert(backend::describes(info, id, provider, enabled));
        features_line_says(provider.name, backend::any_thinks(list), backend::any_sees(list));
        assert forall|model: Seq<char>| #[trigger]
            is_registered(provider, model, enabled) <==> exists|i: int|
                0 <= i < list.len() && (#[trigger] list[i]).id == model by {
            if is_registered(provider, model, enabled) {
                assert(provider.models.contains_key(model));
                let i = choose|i: int| 0 <= i < list.len() && (#[trigger] list[i]).id == model;
                assert(list[i].id == model);
            }
        }
        assert(backend::any_thinks(list) == some_thinks(provider, enabled)) by {
            if backend::any_thinks(list) {
                let i = choose|i: int|
                    0 <= i < list.len() && (#[trigger] list[i]).meta.supports_thinking;
                assert(is_registered(provider, list[i].id, enabled));
            }
            if some_thinks(provider, enabled) {
                let m = choose|m: Seq<char>| #[trigger]
                    is_registered(provider, m, enabled) && provider.models[m].supports_thinking;
                let i = choose|i: int| 0 <= i < list.len() && (#[trigger] list[i]).id == m;
                assert(list[i].meta.supports_thinking);
            }
        }
        assert(backend::any_sees(list) == some_sees(provider, enabled)) by {
            if backend::any_sees(list) {
                let i = choose|i: int| 0 <= i < list.len() && (#[trigger] list[i]).meta.vision;
                assert(is_registered(provider, list[i].id, enabled));
            }
            if some_sees(provider, enabled) {
                let m = choose|m: Seq<char>| #[trigger]
                    is_registered(provider, m, enabled) && provider.models[m].vision;
                let i = choose|i: int| 0 <= i < list.len() && (#[trigger] list[i]).id == m;
                assert(list[i].meta.vision);
            }
        }
    }
}

/// Every provider is registered as the index has it, or not at all.
pub proof fn registered_as_in_the_index(
    index: &CatalogIndex,
    enabled: bool,
    builtins: &Vec<String>,
    registry: AssocMap<String, CatalogProviderInfo>,
    id: Seq<char>,
)
    requires
        call_ensures(backend::build_zen_registry, (index, enabled, builtins), registry),
    ensures
        registers_as_in_the_index(registry@, index@, enabled, builtins.deep_view(), id),
{
    zen_registers_as_in_the_index(registry@, index@, enabled, builtins.deep_view(), id);
}

/// A service lists of a catalog: Zen the models of the first party, under its name and a slash; Go
/// every model, under its own name.
pub open spec fn is_listed_as(
    b: Backend,
    key: (Seq<char>, Seq<char>),
    meta: MetaView,
    info: ModelInfoView,
) -> bool {
    &&& b is Zen ==> key.0 == "opencode"@
    &&& requests::lists_as_known(
        info,
        if b is Zen {
            "opencode"@ + seq!['/'] + key.1
        } else {
            key.1
        },
        meta,
    )
}

/// `list` is, in the order of the identifiers, exactly what a service lists of the models.
pub open spec fn is_listing(
    b: Backend,
    list: Seq<ModelInfoView>,
    entries: Map<(Seq<char>, Seq<char>), MetaView>,
) -> bool {
    &&& forall|info: ModelInfoView| #[trigger]
        list.contains(info) <==> exists|key: (Seq<char>, Seq<char>)| #[trigger]
            entries.contains_key(key) && is_listed_as(b, key, entries[key], info)
    &&& forall|i: int, j: int|
        0 <= i < j < list.len() ==> text::text_le(
            (#[trigger] list[i]).id,
            (#[trigger] list[j]).id,
        )
}

/// What is listed of the models is what a service lists of them.
pub(crate) proof fn entries_are_listed(
    b: Backend,
    list: Seq<ModelInfoView>,
    entries: Map<(Seq<char>, Seq<char>), MetaView>,
)
    requires
        b.lists_entries(list, entries),
    ensures
        is_listing(b, list, entries),
{
    reveal_strlit("/");
    assert("/"@ =~= seq!['/']);
    assert forall|info: ModelInfoView| #[trigger] list.contains(info) <==> exists|
        key: (Seq<char>, Seq<char>),
    | #[trigger] entries.contains_key(key) && is_listed_as(b, key, entries[key], info) by {
        listings::listing_is_exact(b, list, entries, info);
        if exists|k: (Seq<char>, Seq<char>)| #[trigger]
            entries.contains_key(k) && is_listed_as(b, k, entries[k], info) {
            let k = choose|k: (Seq<char>, Seq<char>)| #[trigger]
                entries.contains_key(k) && is_listed_as(b, k, entries[k], info);
            let target = model::listing(b.listed_id(k), entries[k]);
            assert(info.pricing == target.pricing);
            assert(info == target);
            assert(b.lists(k.0));
        }
        if list.contains(info) {
            let k = choose|k: (Seq<char>, Seq<char>)| #[trigger]
                entries.contains_key(k) && b.lists(k.0) && info == model::listing(
                    b.listed_id(k),
                    entries[k],
                );
            assert(is_listed_as(b, k, entries[k], info));
        }
    }
}

/// What a service lists is, in the order of the identifiers, exactly what it lists of the catalog.
pub proof fn service_lists_its_models(b: &Backend, c: &Catalog, models: Vec<ModelInfo>)
    requires
        call_ensures(Backend::all_models, (b, c), models),
    ensures
        is_listing(*b, models.deep_view(), c@.entries),
{
    entries_are_listed(*b, models.deep_view(), c@.entries);
}

/// `shown` shows a provider: under the slug that users know it by, with its name, its variables,
/// its address, its package and the protocol of that package.
pub open spec fn shows(
    shown: ProviderDataView,
    id: Seq<char>,
    provider: CatalogProviderView,
) -> bool {
    &&& shown.slug == (if id == "opencode"@ {
        "opencode-zen"@
    } else {
        id
    })
    &&& shown.display_name == provider.name
    &&& shown.env_keys == provider.env
    &&& shown.base_url == provider.api
    &&& shown.npm == provider.npm
    &&& shown.api_format is Messages <==> provider.npm == "@ai-sdk/anthropic"@
}

/// A provider is shown as the index has it.
pub proof fn shown_as_in_the_index(id: &str, provider: &CatalogProvider, shown: ProviderData)
    requires
        call_ensures(ProviderData::from_catalog_entry, (id, provider), shown),
    ensures
        shows(shown@, id@, provider@),
{
}

/// Users know the first party by its own slug, and every other provider by its identifier.
pub proof fn users_know_the_slug(id: &str, slug: &str)
    requires
        call_ensures(data::maki_slug_for, (id,), slug),
    ensures
        slug@ == (if id@ == "opencode"@ {
            "opencode-zen"@
        } else {
            id@
        }),
{
}

/// A provider of a catalog is known to users under the slug, and is shown so.
pub open spec fn shows_under(
    providers: Map<Seq<char>, CatalogProviderView>,
    slug: Seq<char>,
    shown: ProviderDataView,
    id: Seq<char>,
) -> bool {
    providers.contains_key(id) && shown.slug == slug && shows(shown, id, providers[id])
}

/// A provider of the walk is found under a slug exactly where one has it.
proof fn first_shown_shows(walk: opencode::WalkView, slug: Seq<char>)
    requires
        assoc::distinct_keys(walk),
    ensures
        match opencode::first_shown(walk, slug) {
            Some(shown) => exists|id: Seq<char>| #[trigger]
                shows_under(assoc::map_of(walk), slug, shown, id),
            None => forall|id: Seq<char>, shown: ProviderDataView|
                !#[trigger] shows_under(assoc::map_of(walk), slug, shown, id),
        },
{
    listings::first_shown_is_a_provider(walk, slug);
    let providers = assoc::map_of(walk);
    match opencode::first_shown(walk, slug) {
        Some(shown) => {
            let id = choose|id: Seq<char>|
                {
                    &&& #[trigger] providers.contains_key(id)
                    &&& data::slug_of(id) == slug
                    &&& shown == crate::catalog::provider_data::shown(id, providers[id])
                };
            assert(shows_under(providers, slug, shown, id));
        },
        None => {
            assert forall|id: Seq<char>, shown: ProviderDataView|
                !#[trigger] shows_under(providers, slug, shown, id) by {
                if shows_under(providers, slug, shown, id) {
                    assert(providers.contains_key(id) && data::slug_of(id) == slug);
                }
            }
        },
    }
}

/// A provider is found under a slug in Zen's catalog where one has it there, and else in Go's; and
/// nothing is found exactly where neither has one.
pub proof fn zen_is_asked_then_go(
    catalogs: &Catalogs,
    zen: &Catalog,
    go: &Catalog,
    slug: &str,
    found: Option<ProviderData>,
)
    requires
        catalogs.zen == Some(*zen),
        catalogs.go == Some(*go),
        assoc::distinct_keys(zen.providers.pairs()),
        assoc::distinct_keys(go.providers.pairs()),
        call_ensures(opencode::catalog_provider, (catalogs, slug), found),
    ensures
        match found {
            Some(data) => {
                ||| exists|id: Seq<char>| #[trigger]
                    shows_under(zen.providers@, slug@, data@, id)
                ||| (forall|id: Seq<char>, shown: ProviderDataView|
                    !#[trigger] shows_under(zen.providers@, slug@, shown, id)) && exists|
                    id: Seq<char>,
                | #[trigger] shows_under(go.providers@, slug@, data@, id)
            },
            None => {
                &&& forall|id: Seq<char>, shown: ProviderDataView|
                    !#[trigger] shows_under(zen.providers@, slug@, shown, id)
                &&& forall|id: Seq<char>, shown: ProviderDataView|
                    !#[trigger] shows_under(go.providers@, slug@, shown, id)
            },
        },
{
    opencode::first_walk_goes_first(zen.providers.pairs(), go.providers.pairs(), slug@);
    first_shown_shows(zen.providers.pairs(), slug@);
    first_shown_shows(go.providers.pairs(), slug@);
    assert(catalogs.walk() == zen.providers.pairs() + go.providers.pairs());
    assert(zen.providers@ == assoc::map_of(zen.providers.pairs()));
    assert(go.providers@ == assoc::map_of(go.providers.pairs()));
}

/// The list of shown providers has, under every slug, what is found under it, each slug once and
/// all in the order of the slugs; and there is a list exactly where some catalog was built.
pub proof fn list_and_search_agree(
    catalogs: &Catalogs,
    list: Option<Vec<ProviderData>>,
    slug: &str,
    found: Option<ProviderData>,
)
    requires
        call_ensures(opencode::catalog_providers_if_available, (catalogs,), list),
        call_ensures(opencode::catalog_provider, (catalogs, slug), found),
    ensures
        list is Some <==> catalogs.zen is Some || catalogs.go is Some,
        list is None ==> found is None,
        list matches Some(l) ==> {
            &&& found matches Some(data) ==> data@.slug == slug@ && l.deep_view().contains(data@)
            &&& found is None ==> forall|i: int|
                0 <= i < l@.len() ==> (#[trigger] l@[i]).slug@ != slug@
            &&& forall|i: int, j: int|
                0 <= i < j < l@.len() ==> text::text_le(
                    (#[trigger] l@[i]).slug@,
                    (#[trigger] l@[j]).slug@,
                ) && l@[i].slug@ != l@[j].slug@
        },
{
    match list {
        Some(l) => {
            let views = l.deep_view();
            opencode::shown_under_its_slug(catalogs.walk(), slug@);
            if found is None {
                assert forall|i: int| 0 <= i < l@.len() implies (#[trigger] l@[i]).slug@ != slug@ by {
                    assert(views[i] == l@[i]@);
                    assert(views.contains(views[i]));
                }
            } else {
                assert(views.contains(found->0@));
            }
            assert forall|i: int, j: int| 0 <= i < j < l@.len() implies text::text_le(
                (#[trigger] l@[i]).slug@,
                (#[trigger] l@[j]).slug@,
            ) && l@[i].slug@ != l@[j].slug@ by {
                assert(views[i] == l@[i]@ && views[j] == l@[j]@);
            }
        },
        None => {},
    }
}

/// There is a list of all providers exactly where both catalogs were built, and then it holds what
/// the list of those that are there holds.
pub proof fn list_waits_for_both(
    catalogs: &Catalogs,
    all: Option<Vec<ProviderData>>,
    there: Option<Vec<ProviderData>>,
    shown: ProviderDataView,
)
    requires
        call_ensures(opencode::catalog_providers, (catalogs,), all),
        call_ensures(opencode::catalog_providers_if_available, (catalogs,), there),
    ensures
        all is Some <==> catalogs.zen is Some && catalogs.go is Some,
        there is Some <==> catalogs.zen is Some || catalogs.go is Some,
        all is Some ==> all->0.deep_view().contains(shown) == there->0.deep_view().contains(shown),
{
}

/// The slugs of the third parties are those that are registered, each once; and under each stands
/// what is registered of it.
pub proof fn slugs_are_the_registered(
    catalogs: &Catalogs,
    slugs: Vec<String>,
    slug: &str,
    info: Option<CatalogProviderInfo>,
)
    requires
        call_ensures(opencode::catalog_provider_slugs, (catalogs,), slugs),
        call_ensures(opencode::catalog_provider_info, (catalogs, slug), info),
    ensures
        info is Some <==> slugs.deep_view().contains(slug@),
        info is Some <==> catalogs.registry@.contains_key(slug@),
        info matches Some(i) ==> i@ == catalogs.registry@[slug@],
        forall|i: int, j: int|
            0 <= i < j < slugs@.len() ==> (#[trigger] slugs@[i])@ != (#[trigger] slugs@[j])@,
{
    let list = slugs.deep_view();
    assert(list.to_set().contains(slug@) == catalogs.registry@.dom().contains(slug@));
    assert forall|i: int, j: int| 0 <= i < j < slugs@.len() implies (#[trigger] slugs@[i])@ != (
    #[trigger] slugs@[j])@ by {
        assert(list[i] == slugs@[i]@ && list[j] == slugs@[j]@);
    }
}

/// What is registered is what was put there last, and nothing after all was removed.
pub proof fn registered_is_what_was_put(
    registry: &mut Registry,
    infos: AssocMap<String, CatalogProviderInfo>,
    emptied: &mut Registry,
    slug: Seq<char>,
)
    requires
        call_ensures(Registry::replace, (registry, infos), ()),
        call_ensures(Registry::clear, (emptied,), ()),
    ensures
        final(registry)@.contains_key(slug) <==> infos@.contains_key(slug),
        infos@.contains_key(slug) ==> final(registry)@[slug] == infos@[slug],
        !final(emptied)@.contains_key(slug),
{
}

/// A third party is there exactly where something is registered of it, and that is found.
pub proof fn registered_is_found(
    registry: &Registry,
    slug: &str,
    there: bool,
    info: Option<CatalogProviderInfo>,
)
    requires
        call_ensures(Registry::contains, (registry, slug), there),
        call_ensures(Registry::get, (registry, slug), info),
    ensures
        there <==> registry@.contains_key(slug@),
        info is Some <==> there,
        info matches Some(i) ==> i@ == registry@[slug@],
{
}

} // verus!
