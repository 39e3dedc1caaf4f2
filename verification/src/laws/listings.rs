//! Lists of models and providers: that they hold what they should, each once and in one order.

use vstd::prelude::*;

use crate::assoc;
use crate::catalog::cat_provider;
use crate::catalog::data;
use crate::catalog::data::{
    AuthView, CatalogIndexView, CatalogProviderView, MetaView, ZEN_CATALOG_KEY, ZEN_MAKI_SLUG,
};
use crate::catalog::provider_data;
use crate::catalog::provider_data::{ProviderData, ProviderDataView};
use crate::catalog::registry::CatalogModelInfoView;
use crate::laws::catalogs;
use crate::model;
use crate::model::{ModelInfo, ModelInfoView, ModelView};
use crate::opencode;
use crate::opencode::backend::{Backend, KeysView};
use crate::opencode::catalog::GO_PROVIDER_ID;
use crate::opencode::{Catalogs, WalkView};
use crate::sorting;
use crate::sorting::Labelled;

verus! {

/// What is left of a list is what it holds and what is kept.
pub proof fn filter_members<A>(list: Seq<A>, keep: spec_fn(A) -> bool, x: A)
    ensures
        list.filter(keep).contains(x) <==> list.contains(x) && keep(x),
{
    let kept = list.filter(keep);
    if kept.contains(x) {
        let i = choose|i: int| 0 <= i < kept.len() && kept[i] == x;
        list.lemma_filter_pred(keep, i);
        list.lemma_filter_contains_rev(keep, x);
    }
    if list.contains(x) && keep(x) {
        let i = choose|i: int| 0 <= i < list.len() && list[i] == x;
        list.lemma_filter_contains(keep, i);
    }
}

/// Leaving pairs out makes no key occur twice.
proof fn filter_keeps_keys_distinct<A, B>(pairs: Seq<(A, B)>, keep: spec_fn((A, B)) -> bool)
    requires
        assoc::distinct_keys(pairs),
    ensures
        assoc::distinct_keys(pairs.filter(keep)),
    decreases pairs.len(),
{
    reveal(Seq::filter);
    if pairs.len() > 0 {
        let rest = pairs.drop_last();
        assert forall|i: int, j: int| 0 <= i < j < rest.len() implies (#[trigger] rest[i]).0 != (
        #[trigger] rest[j]).0 by {
            assert(pairs[i].0 != pairs[j].0);
        }
        filter_keeps_keys_distinct(rest, keep);
        let kept = rest.filter(keep);
        let all = pairs.filter(keep);
        if keep(pairs.last()) {
            assert(all == kept.push(pairs.last()));
            assert forall|i: int, j: int| 0 <= i < j < all.len() implies (#[trigger] all[i]).0 != (
            #[trigger] all[j]).0 by {
                assert(kept[i] == all[i]);
                if j < kept.len() {
                    assert(kept[j] == all[j]);
                } else {
                    filter_members(rest, keep, kept[i]);
                    let k = choose|k: int| 0 <= k < rest.len() && rest[k] == kept[i];
                    assert(pairs[k].0 != pairs[pairs.len() - 1].0);
                }
            }
        }
    }
}

/// Two listed models are told apart by their identifiers: on Zen always, on Go where all are its
/// own.
pub open spec fn ids_tell_apart(
    b: Backend,
    entries: Map<(Seq<char>, Seq<char>), MetaView>,
) -> bool {
    b is Go ==> forall|k: (Seq<char>, Seq<char>)| #[trigger]
        entries.contains_key(k) ==> k.0 == GO_PROVIDER_ID@
}

/// In every catalog that a service builds, listed models are told apart by their identifiers.
pub proof fn built_ids_tell_apart(
    b: Backend,
    index: CatalogIndexView,
    keys: KeysView,
    enabled: bool,
    builtins: Seq<Seq<char>>,
)
    ensures
        ids_tell_apart(b, b.catalog_of(index, keys, enabled, builtins).entries),
{
}

/// The service lists a model exactly where it is one of the entries that it lists.
pub proof fn listing_is_exact(
    b: Backend,
    list: Seq<ModelInfoView>,
    entries: Map<(Seq<char>, Seq<char>), MetaView>,
    info: ModelInfoView,
)
    requires
        b.lists_entries(list, entries),
    ensures
        list.contains(info) <==> exists|k: (Seq<char>, Seq<char>)| #[trigger]
            entries.contains_key(k) && b.lists(k.0) && info == model::listing(
                b.listed_id(k),
                entries[k],
            ),
{
    let walk = choose|walk: Seq<((Seq<char>, Seq<char>), MetaView)>|
        {
            &&& assoc::distinct_keys(walk)
            &&& assoc::map_of(walk) == entries
            &&& list.to_multiset() == #[trigger] b.listed(walk).to_multiset()
        };
    let listed = b.listed(walk);
    let kept = walk.filter(b.keeps());
    sorting::reordered_contains(listed, list, info);
    if list.contains(info) {
        let i = choose|i: int| 0 <= i < listed.len() && listed[i] == info;
        filter_members(walk, b.keeps(), kept[i]);
        let j = choose|j: int| 0 <= j < walk.len() && walk[j] == kept[i];
        assoc::map_of_value(walk, j);
        assert(entries.contains_key(kept[i].0));
        assert((b.keeps())(kept[i]));
        assert(listed[i] == (b.shows())(kept[i]));
    }
    if exists|k: (Seq<char>, Seq<char>)| #[trigger]
        entries.contains_key(k) && b.lists(k.0) && info == model::listing(
            b.listed_id(k),
            entries[k],
        ) {
        let k = choose|k: (Seq<char>, Seq<char>)| #[trigger]
            entries.contains_key(k) && b.lists(k.0) && info == model::listing(
                b.listed_id(k),
                entries[k],
            );
        assoc::map_of_keys(walk, k);
        let j = choose|j: int| 0 <= j < walk.len() && (#[trigger] walk[j]).0 == k;
        assoc::map_of_value(walk, j);
        filter_members(walk, b.keeps(), walk[j]);
        let i = choose|i: int| 0 <= i < kept.len() && kept[i] == walk[j];
        assert(listed[i] == (b.shows())(kept[i]));
        assert(listed[i] == info);
    }
}

/// No identifier is listed twice.
pub proof fn listed_once(
    b: Backend,
    list: Seq<ModelInfoView>,
    entries: Map<(Seq<char>, Seq<char>), MetaView>,
)
    requires
        b.lists_entries(list, entries),
        ids_tell_apart(b, entries),
    ensures
        sorting::distinct_labels::<ModelInfo>(list),
{
    let walk = choose|walk: Seq<((Seq<char>, Seq<char>), MetaView)>|
        {
            &&& assoc::distinct_keys(walk)
            &&& assoc::map_of(walk) == entries
            &&& list.to_multiset() == #[trigger] b.listed(walk).to_multiset()
        };
    let listed = b.listed(walk);
    let kept = walk.filter(b.keeps());
    filter_keeps_keys_distinct(walk, b.keeps());
    assert forall|i: int, j: int| 0 <= i < j < listed.len() implies ModelInfo::label_of(
        #[trigger] listed[i],
    ) != ModelInfo::label_of(#[trigger] listed[j]) by {
        let p = kept[i].0;
        let q = kept[j].0;
        assert(p != q);
        filter_members(walk, b.keeps(), kept[i]);
        filter_members(walk, b.keeps(), kept[j]);
        let a = choose|a: int| 0 <= a < walk.len() && walk[a] == kept[i];
        let c = choose|c: int| 0 <= c < walk.len() && walk[c] == kept[j];
        assoc::map_of_value(walk, a);
        assoc::map_of_value(walk, c);
        assert((b.keeps())(kept[i]) && (b.keeps())(kept[j]));
        assert(listed[i] == (b.shows())(kept[i]) && listed[j] == (b.shows())(kept[j]));
        assert(p.0 == q.0);
        if b.listed_id(p) == b.listed_id(q) && b is Zen {
            let n = (p.0 + "/"@).len() as int;
            assert(b.listed_id(p).skip(n) =~= p.1);
            assert(b.listed_id(q).skip(n) =~= q.1);
        }
    }
    sorting::reordered_distinct_labels::<ModelInfo>(listed, list);
}

/// What a service lists of a catalog does not depend on how the catalog is walked.
pub proof fn listing_is_unique(
    b: Backend,
    first: Seq<ModelInfoView>,
    second: Seq<ModelInfoView>,
    entries: Map<(Seq<char>, Seq<char>), MetaView>,
)
    requires
        b.lists_entries(first, entries),
        b.lists_entries(second, entries),
        ids_tell_apart(b, entries),
    ensures
        first == second,
{
    listed_once(b, first, entries);
    listed_once(b, second, entries);
    assert forall|x: ModelInfoView| #[trigger] first.contains(x) <==> second.contains(x) by {
        listing_is_exact(b, first, entries, x);
        listing_is_exact(b, second, entries, x);
    }
    sorting::order_is_unique::<ModelInfo>(first, second);
}

/// Whatever a service lists of the catalog that it built can be looked up under the identifier
/// that it is listed under, and is known as it is listed.
pub proof fn everything_listed_is_found(
    b: Backend,
    index: CatalogIndexView,
    keys: KeysView,
    enabled: bool,
    builtins: Seq<Seq<char>>,
    list: Seq<ModelInfoView>,
    info: ModelInfoView,
    auth_override: Option<AuthView>,
)
    requires
        b.lists_entries(list, b.catalog_of(index, keys, enabled, builtins).entries),
        list.contains(info),
    ensures
        b.found(b.catalog_of(index, keys, enabled, builtins), info.id, auth_override) matches Ok(
            (meta, auth),
        ) && info == model::listing(info.id, meta),
{
    let entries = b.catalog_of(index, keys, enabled, builtins).entries;
    listing_is_exact(b, list, entries, info);
    let k = choose|k: (Seq<char>, Seq<char>)| #[trigger]
        entries.contains_key(k) && b.lists(k.0) && info == model::listing(
            b.listed_id(k),
            entries[k],
        );
    catalogs::listed_is_found(b, index, keys, enabled, builtins, k, auth_override);
}

/// What is found under a slug is what the list shows under it; and where the list shows nothing
/// under the slug, nothing is found.
pub proof fn found_is_listed(
    list: Seq<ProviderDataView>,
    walk: WalkView,
    slug: Seq<char>,
    shown: ProviderDataView,
)
    requires
        opencode::collected(list, walk),
    ensures
        opencode::first_shown(walk, slug) == Some(shown) <==> list.contains(shown) && shown.slug
            == slug,
        opencode::first_shown(walk, slug) is None <==> !opencode::shows_slug(list, slug),
{
    opencode::shown_under_its_slug(walk, slug);
    if opencode::shows_slug(list, slug) {
        let i = choose|i: int| 0 <= i < list.len() && (#[trigger] list[i]).slug == slug;
        assert(list.contains(list[i]));
    }
    if opencode::first_shown(walk, slug) is Some {
        let x = opencode::first_shown(walk, slug)->0;
        assert(list.contains(x));
        let i = choose|i: int| 0 <= i < list.len() && list[i] == x;
        assert(list[i].slug == slug);
    }
}

/// Before a catalog is built nothing is found under any slug.
pub proof fn nothing_is_found_before_building(catalogs: Catalogs, slug: Seq<char>)
    requires
        catalogs@.zen is None,
        catalogs@.go is None,
    ensures
        opencode::first_shown(catalogs.walk(), slug) is None,
{
}

/// There is only one list of the providers of a walk.
pub proof fn collection_is_unique(
    first: Seq<ProviderDataView>,
    second: Seq<ProviderDataView>,
    walk: WalkView,
)
    requires
        opencode::collected(first, walk),
        opencode::collected(second, walk),
    ensures
        first == second,
{
    assert forall|x: ProviderDataView| #[trigger] first.contains(x) <==> second.contains(x) by {}
    sorting::order_is_unique::<ProviderData>(first, second);
}

/// What both services have under a slug is shown as Zen has it; what Zen has not, as Go has it.
pub proof fn zen_is_shown_first(zen: WalkView, go: WalkView, slug: Seq<char>)
    ensures
        opencode::first_shown(zen + go, slug) == (match opencode::first_shown(zen, slug) {
            Some(shown) => Some(shown),
            None => opencode::first_shown(go, slug),
        }),
{
    opencode::first_walk_goes_first(zen, go, slug);
}

/// Some provider is known to users under the slug.
pub open spec fn has_slug(providers: Map<Seq<char>, CatalogProviderView>, slug: Seq<char>) -> bool {
    exists|id: Seq<char>| #[trigger] providers.contains_key(id) && data::slug_of(id) == slug
}

/// What is shown first under a slug is how one of the providers is shown; and something is shown
/// exactly where a provider has the slug.
pub proof fn first_shown_is_a_provider(walk: WalkView, slug: Seq<char>)
    requires
        assoc::distinct_keys(walk),
    ensures
        match opencode::first_shown(walk, slug) {
            Some(shown) => exists|id: Seq<char>|
                {
                    &&& #[trigger] assoc::map_of(walk).contains_key(id)
                    &&& data::slug_of(id) == slug
                    &&& shown == provider_data::shown(id, assoc::map_of(walk)[id])
                },
            None => !has_slug(assoc::map_of(walk), slug),
        },
{
    let providers = assoc::map_of(walk);
    first_shown_at(walk, slug);
    match opencode::first_shown(walk, slug) {
        Some(shown) => {
            let i = choose|i: int|
                {
                    &&& 0 <= i < walk.len()
                    &&& data::slug_of((#[trigger] walk[i]).0) == slug
                    &&& shown == provider_data::shown(walk[i].0, walk[i].1)
                };
            assoc::map_of_value(walk, i);
            assert(providers.contains_key(walk[i].0));
        },
        None => {
            if has_slug(providers, slug) {
                let id = choose|id: Seq<char>| #[trigger]
                    providers.contains_key(id) && data::slug_of(id) == slug;
                assoc::map_of_keys(walk, id);
                let j = choose|j: int| 0 <= j < walk.len() && (#[trigger] walk[j]).0 == id;
                assert(data::slug_of(walk[j].0) == slug);
            }
        },
    }
}

/// What is shown first under a slug stands somewhere in the walk.
proof fn first_shown_at(walk: WalkView, slug: Seq<char>)
    ensures
        match opencode::first_shown(walk, slug) {
            Some(shown) => exists|i: int|
                {
                    &&& 0 <= i < walk.len()
                    &&& data::slug_of((#[trigger] walk[i]).0) == slug
                    &&& shown == provider_data::shown(walk[i].0, walk[i].1)
                },
            None => forall|i: int|
                0 <= i < walk.len() ==> data::slug_of((#[trigger] walk[i]).0) != slug,
        },
    decreases walk.len(),
{
    if walk.len() > 0 && data::slug_of(walk[0].0) != slug {
        let rest = walk.drop_first();
        first_shown_at(rest, slug);
        match opencode::first_shown(rest, slug) {
            Some(shown) => {
                let i = choose|i: int|
                    {
                        &&& 0 <= i < rest.len()
                        &&& data::slug_of((#[trigger] rest[i]).0) == slug
                        &&& shown == provider_data::shown(rest[i].0, rest[i].1)
                    };
                assert(walk[i + 1] == rest[i]);
            },
            None => {
                assert forall|i: int| 0 <= i < walk.len() implies data::slug_of(
                    (#[trigger] walk[i]).0,
                ) != slug by {
                    if i > 0 {
                        assert(rest[i - 1] == walk[i]);
                    }
                }
            },
        }
    } else if walk.len() > 0 {
        assert(data::slug_of(walk[0].0) == slug);
    }
}

/// The providers are told apart by their slugs.
pub open spec fn slugs_tell_apart(providers: Map<Seq<char>, CatalogProviderView>) -> bool {
    forall|p: Seq<char>, q: Seq<char>| #[trigger]
        providers.contains_key(p) && #[trigger] providers.contains_key(q) && data::slug_of(p)
            == data::slug_of(q) ==> p == q
}

/// In every catalog that a service builds, the providers are told apart by their slugs, where Zen's
/// slug is among those of the providers that are supported without the index.
pub proof fn built_slugs_tell_apart(
    b: Backend,
    index: CatalogIndexView,
    keys: KeysView,
    enabled: bool,
    builtins: Seq<Seq<char>>,
)
    requires
        b is Zen ==> builtins.contains(ZEN_MAKI_SLUG@),
    ensures
        slugs_tell_apart(b.catalog_of(index, keys, enabled, builtins).providers),
{
    reveal_strlit("opencode");
    reveal_strlit("opencode-zen");
    assert(ZEN_MAKI_SLUG@.len() != ZEN_CATALOG_KEY@.len());
}

/// Where providers are told apart by their slugs, what is shown under a slug does not depend on how
/// they are walked.
pub proof fn shown_whatever_the_walk(first: WalkView, second: WalkView, slug: Seq<char>)
    requires
        assoc::distinct_keys(first),
        assoc::distinct_keys(second),
        assoc::map_of(first) == assoc::map_of(second),
        slugs_tell_apart(assoc::map_of(first)),
    ensures
        opencode::first_shown(first, slug) == opencode::first_shown(second, slug),
{
    first_shown_is_a_provider(first, slug);
    first_shown_is_a_provider(second, slug);
}

/// A model that is known by its identifier is in the list.
proof fn meta_in_finds(list: Seq<CatalogModelInfoView>, id: Seq<char>)
    ensures
        cat_provider::meta_in(list, id) is Some <==> exists|i: int|
            0 <= i < list.len() && (#[trigger] list[i]).id == id,
    decreases list.len(),
{
    if list.len() > 0 {
        let rest = list.drop_first();
        meta_in_finds(rest, id);
        if exists|i: int| 0 <= i < list.len() && (#[trigger] list[i]).id == id {
            let i = choose|i: int| 0 <= i < list.len() && (#[trigger] list[i]).id == id;
            if i > 0 {
                assert(rest[i - 1].id == id);
            }
        }
        if exists|i: int| 0 <= i < rest.len() && (#[trigger] rest[i]).id == id {
            let i = choose|i: int| 0 <= i < rest.len() && (#[trigger] rest[i]).id == id;
            assert(list[i + 1].id == id);
        }
        if list[0].id == id {
            assert(0 <= 0 < list.len() && list[0].id == id);
        }
    }
}

/// A model can be asked of a third-party provider exactly where the provider lists it.
pub proof fn listed_third_party_models_can_be_asked(
    provider: cat_provider::CatalogProviderView,
    chosen: ModelView,
)
    ensures
        provider.prepared(chosen) is Ok <==> exists|i: int|
            0 <= i < cat_provider::listed_models(provider.info.models).len() && (
            #[trigger] cat_provider::listed_models(provider.info.models)[i]).id == chosen.id,
{
    let models = provider.info.models;
    let listed = cat_provider::listed_models(models);
    meta_in_finds(models, chosen.id);
    if exists|i: int| 0 <= i < models.len() && (#[trigger] models[i]).id == chosen.id {
        let i = choose|i: int| 0 <= i < models.len() && (#[trigger] models[i]).id == chosen.id;
        assert(listed[i].id == chosen.id);
    }
    if exists|i: int| 0 <= i < listed.len() && (#[trigger] listed[i]).id == chosen.id {
        let i = choose|i: int| 0 <= i < listed.len() && (#[trigger] listed[i]).id == chosen.id;
        assert(models[i].id == chosen.id);
    }
}

} // verus!
