//! The models that can be chosen, and the providers that serve them.

use vstd::prelude::*;

use crate::catalog::cat_provider;
use crate::catalog::data;
use crate::catalog::data::{AuthView, CatalogProviderView, ZEN_MAKI_SLUG};
use crate::catalog::registry;
use crate::credentials;
use crate::credentials::TextsView;
use crate::discovery;
use crate::discovery::{FetchJobView, TablesView};
use crate::host::{DynamicProviderView, HostView};
use crate::laws::kinds;
use crate::laws::listings;
use crate::model::{ModelInfoView, ModelView};
use crate::model_registry::KnownView;
use crate::opencode;
use crate::opencode::backend::{Backend, CatalogView};
use crate::opencode::catalog;
use crate::opencode::catalog::OPENCODE_KEY_VAR;
use crate::plan;
use crate::plan::{PlanView, RegistryView};
use crate::provider;
use crate::provider::KindView;

verus! {

/// Adding what is new keeps the list as its beginning, holds everything of both lists and nothing
/// else.
pub proof fn with_new_holds_both(list: Seq<Seq<char>>, more: Seq<Seq<char>>, x: Seq<char>)
    ensures
        list.is_prefix_of(discovery::with_new(list, more)),
        discovery::with_new(list, more).contains(x) <==> list.contains(x) || more.contains(x),
    decreases more.len(),
{
    if more.len() > 0 {
        let rest = more.drop_last();
        let last = more.last();
        with_new_holds_both(list, rest, x);
        with_new_holds_both(list, rest, last);
        let earlier = discovery::with_new(list, rest);
        let whole = discovery::with_new(list, more);
        assert(more[more.len() - 1] == last);
        if rest.contains(x) {
            let i = choose|i: int| 0 <= i < rest.len() && rest[i] == x;
            assert(more[i] == x);
        }
        if more.contains(x) && x != last {
            let i = choose|i: int| 0 <= i < more.len() && more[i] == x;
            assert(rest[i] == x);
        }
        if !earlier.contains(last) {
            assert(whole == earlier.push(last));
            assert(whole[whole.len() - 1] == last);
            if earlier.contains(x) {
                let i = choose|i: int| 0 <= i < earlier.len() && earlier[i] == x;
                assert(whole[i] == x);
            }
            if whole.contains(x) && x != last {
                let i = choose|i: int| 0 <= i < whole.len() && whole[i] == x;
                assert(earlier[i] == x);
            }
        }
    }
}

/// Adding what is new makes nothing occur twice.
pub proof fn with_new_adds_no_duplicate(list: Seq<Seq<char>>, more: Seq<Seq<char>>)
    requires
        list.no_duplicates(),
    ensures
        discovery::with_new(list, more).no_duplicates(),
    decreases more.len(),
{
    if more.len() > 0 {
        with_new_adds_no_duplicate(list, more.drop_last());
    }
}

/// Models of one provider that have different identifiers are written differently.
pub proof fn specs_tell_apart(slug: Seq<char>, a: Seq<char>, b: Seq<char>)
    requires
        discovery::spec_of(slug, a) == discovery::spec_of(slug, b),
    ensures
        a == b,
{
    let n = (slug + "/"@).len() as int;
    assert(discovery::spec_of(slug, a).skip(n) =~= a);
    assert(discovery::spec_of(slug, b).skip(n) =~= b);
}

/// Once a provider listed its models, all of them and all of the tables can be chosen; and where
/// it listed none twice, none can be chosen twice.
pub proof fn listed_models_can_be_chosen(
    kind: KindView,
    models: Seq<ModelInfoView>,
    tables: TablesView,
    registered: RegistryView,
    spec: Seq<char>,
)
    ensures
        ({
            let batch = discovery::builtin_batched(kind, Ok(models), tables, registered);
            let listed = discovery::specs_of(kind.slug(), discovery::ids_of(models));
            &&& batch.models.contains(spec) <==> listed.contains(spec) || discovery::static_specs(
                kind,
                tables,
            ).contains(spec)
            &&& discovery::ids_of(models).no_duplicates() ==> batch.models.no_duplicates()
            &&& batch.warnings.len() == 0
        }),
{
    let ids = discovery::ids_of(models);
    let listed = discovery::specs_of(kind.slug(), ids);
    with_new_holds_both(listed, discovery::static_specs(kind, tables), spec);
    if ids.no_duplicates() {
        assert forall|i: int, j: int| 0 <= i < listed.len() && 0 <= j < listed.len() && i
            != j implies listed[i] != listed[j] by {
            if listed[i] == listed[j] {
                specs_tell_apart(kind.slug(), ids[i], ids[j]);
            }
        }
        with_new_adds_no_duplicate(listed, discovery::static_specs(kind, tables));
    }
}

/// What is in one part of the third-party models is in the whole.
proof fn catalog_specs_hold(slugs: Seq<Seq<char>>, known: KnownView, i: int, spec: Seq<char>)
    requires
        0 <= i < slugs.len(),
        known.contains_key(KindView::Catalog(slugs[i])),
        discovery::specs_of(
            slugs[i],
            discovery::ids_of(known[KindView::Catalog(slugs[i])]),
        ).contains(spec),
    ensures
        discovery::catalog_specs(slugs, known).contains(spec),
    decreases slugs.len(),
{
    let rest = slugs.drop_last();
    let earlier = discovery::catalog_specs(rest, known);
    let whole = discovery::catalog_specs(slugs, known);
    if i < rest.len() {
        assert(rest[i] == slugs[i]);
        catalog_specs_hold(rest, known, i, spec);
        let j = choose|j: int| 0 <= j < earlier.len() && earlier[j] == spec;
        assert(whole[j] == spec);
    } else {
        let part = discovery::specs_of(
            slugs[i],
            discovery::ids_of(known[KindView::Catalog(slugs[i])]),
        );
        let j = choose|j: int| 0 <= j < part.len() && part[j] == spec;
        assert(whole[earlier.len() + j] == spec);
    }
}

/// Once a service was started, every model of a registered third-party provider can be chosen
/// without asking any provider.
pub proof fn started_service_offers_third_parties(
    b: Backend,
    catalog: CatalogView,
    registered: RegistryView,
    slugs: Seq<Seq<char>>,
    before: KnownView,
    known: KnownView,
    tables: TablesView,
    host: HostView,
    slug: Seq<char>,
    i: int,
)
    requires
        opencode::seeded(before, known, b, catalog, registered),
        slugs.to_set() == registered.dom(),
        registered.contains_key(slug),
        0 <= i < registered[slug].models.len(),
    ensures
        discovery::offline_specs(tables, registered, slugs, known, host).contains(
            discovery::spec_of(slug, registered[slug].models[i].id),
        ),
{
    let kind = KindView::Catalog(slug);
    let spec = discovery::spec_of(slug, registered[slug].models[i].id);
    assert(known.contains_key(kind));
    assert(known[kind] == cat_provider::listed_models(registered[slug].models));
    let part = discovery::specs_of(slug, discovery::ids_of(known[kind]));
    assert(part[i] == spec);
    assert(slugs.to_set().contains(slug));
    let j = choose|j: int| 0 <= j < slugs.len() && slugs[j] == slug;
    catalog_specs_hold(slugs, known, j, spec);
    let third = discovery::catalog_specs(slugs, known);
    let whole = discovery::offline_specs(tables, registered, slugs, known, host);
    let n = whole.len() - third.len();
    let m = choose|m: int| 0 <= m < third.len() && third[m] == spec;
    assert(whole[n + m] == spec);
}

/// Every model that the user declared can be chosen without asking any provider.
pub proof fn declared_models_can_be_chosen(
    tables: TablesView,
    registered: RegistryView,
    slugs: Seq<Seq<char>>,
    known: KnownView,
    host: HostView,
    spec: Seq<char>,
)
    requires
        host.declared.contains(spec),
    ensures
        discovery::offline_specs(tables, registered, slugs, known, host).contains(spec),
{
    let base = discovery::builtin_specs(
        provider::builtin_views(),
        tables,
        registered,
        host,
    ) + discovery::dynamic_specs(host.dynamic);
    with_new_holds_both(base, host.declared, spec);
    let first = discovery::with_new(base, host.declared);
    let i = choose|i: int| 0 <= i < first.len() && first[i] == spec;
    assert(discovery::offline_specs(tables, registered, slugs, known, host)[i] == spec);
}

/// What is in one part of the models of the tables is in the whole.
proof fn builtin_specs_hold(
    kinds: Seq<KindView>,
    tables: TablesView,
    registered: RegistryView,
    host: HostView,
    i: int,
    spec: Seq<char>,
)
    requires
        0 <= i < kinds.len(),
        plan::available(kinds[i], registered, host),
        discovery::static_specs(kinds[i], tables).contains(spec),
    ensures
        discovery::builtin_specs(kinds, tables, registered, host).contains(spec),
    decreases kinds.len(),
{
    let rest = kinds.drop_last();
    let earlier = discovery::builtin_specs(rest, tables, registered, host);
    let whole = discovery::builtin_specs(kinds, tables, registered, host);
    if i < rest.len() {
        assert(rest[i] == kinds[i]);
        builtin_specs_hold(rest, tables, registered, host, i, spec);
        let j = choose|j: int| 0 <= j < earlier.len() && earlier[j] == spec;
        assert(whole[j] == spec);
    } else {
        let part = discovery::static_specs(kinds[i], tables);
        let j = choose|j: int| 0 <= j < part.len() && part[j] == spec;
        assert(whole[earlier.len() + j] == spec);
    }
}

/// Every model of the tables whose provider can be made can be chosen without asking it.
pub proof fn available_tables_can_be_chosen(
    tables: TablesView,
    registered: RegistryView,
    slugs: Seq<Seq<char>>,
    known: KnownView,
    host: HostView,
    kind: KindView,
    spec: Seq<char>,
)
    requires
        !(kind is Catalog),
        plan::available(kind, registered, host),
        discovery::static_specs(kind, tables).contains(spec),
    ensures
        discovery::offline_specs(tables, registered, slugs, known, host).contains(spec),
{
    kinds::builtin_kinds_complete(kind);
    let all = provider::builtin_views();
    let i = choose|i: int| 0 <= i < all.len() && all[i] == kind;
    builtin_specs_hold(all, tables, registered, host, i, spec);
    let builtin = discovery::builtin_specs(all, tables, registered, host);
    let base = builtin + discovery::dynamic_specs(host.dynamic);
    let j = choose|j: int| 0 <= j < builtin.len() && builtin[j] == spec;
    assert(base[j] == spec);
    with_new_holds_both(base, host.declared, spec);
    let first = discovery::with_new(base, host.declared);
    let m = choose|m: int| 0 <= m < first.len() && first[m] == spec;
    assert(discovery::offline_specs(tables, registered, slugs, known, host)[m] == spec);
}

/// A kind is available exactly where a provider of it comes about.
pub proof fn available_means_made(kind: KindView, registered: RegistryView, host: HostView)
    ensures
        plan::available(kind, registered, host) <==> plan::comes_about(kind, registered, host),
{
}

/// The first-party services always come about, and a plan fails for third-party providers alone.
pub proof fn services_always_come_about(kind: KindView, registered: RegistryView, host: HostView)
    ensures
        kind is OpencodeZen || kind is OpencodeGo ==> plan::comes_about(kind, registered, host),
        plan::planned(kind, registered, host) is Err ==> kind is Catalog,
{
}

/// A model is answered by the provider without configuration exactly where no provider was planned
/// for it or the planned one could not be made.
pub proof fn fallback_is_the_last_resort(
    model: ModelView,
    registered: RegistryView,
    host: HostView,
    made: bool,
)
    ensures
        plan::settled(plan::model_planned(model, registered, host), made) is Unconfigured <==> (
        plan::model_planned(model, registered, host) is Err || !made),
        made ==> (plan::model_planned(model, registered, host) matches Ok(p) ==> plan::settled(
            plan::model_planned(model, registered, host),
            made,
        ) == p),
{
}

/// A model of a provider that the user set up is served by it, whatever its kind.
pub proof fn slug_goes_before_kind(model: ModelView, registered: RegistryView, host: HostView)
    requires
        model.dynamic_slug is Some,
    ensures
        plan::model_planned(model, registered, host) == Ok::<PlanView, Seq<char>>(
            plan::slug_planned(model.dynamic_slug->0, host),
        ),
{
}

/// A third-party provider that can be made is reached at the registered address, with the key that
/// was found for it as a bearer token.
pub proof fn third_party_is_reached(slug: Seq<char>, registered: RegistryView, host: HostView)
    requires
        plan::available(KindView::Catalog(slug), registered, host),
    ensures
        ({
            let info = registered[slug];
            let key = registry::catalog_key(slug, info.env_keys, host.env, host.saved);
            &&& plan::planned(KindView::Catalog(slug), registered, host) matches Ok(
                PlanView::Catalog(provider),
            )
            &&& provider.slug == slug
            &&& provider.info == info
            &&& key is Some
            &&& provider.auth == (AuthView {
                base_url: info.base_url,
                headers: data::bearer_auth(key->0).headers,
            })
        }),
{
}

/// A key in the environment is used, whatever is saved.
pub proof fn environment_goes_first(
    provider: CatalogProviderView,
    slug: Seq<char>,
    env: TextsView,
    saved: TextsView,
)
    requires
        credentials::first_text(provider.env, env) is Some,
    ensures
        catalog::provider_key(provider, saved, slug, env) == credentials::first_text(
            provider.env,
            env,
        ),
        registry::catalog_key(slug, provider.env, env, saved) == credentials::first_text(
            provider.env,
            env,
        ),
{
}

/// What is saved under Zen's own name is used before what is saved under its former name.
pub proof fn own_name_goes_before_former(
    provider: CatalogProviderView,
    env: TextsView,
    saved: TextsView,
    key: Seq<char>,
)
    requires
        credentials::first_text(provider.env, env) is None,
        provider.env.contains(OPENCODE_KEY_VAR@),
        credentials::text_of(saved, ZEN_MAKI_SLUG@) == Some(key),
    ensures
        catalog::provider_key(provider, saved, ZEN_MAKI_SLUG@, env) == Some(
            key,
        ),
{
}

/// What is in a list is in it once more under a wrapper, and nothing else is.
proof fn wrapped_members<A, B>(list: Seq<A>, wrap: spec_fn(A) -> B, x: A)
    requires
        forall|a: A, b: A| #[trigger] wrap(a) == #[trigger] wrap(b) ==> a == b,
    ensures
        list.map_values(wrap).contains(wrap(x)) <==> list.contains(x),
{
    let wrapped = list.map_values(wrap);
    if wrapped.contains(wrap(x)) {
        let i = choose|i: int| 0 <= i < wrapped.len() && wrapped[i] == wrap(x);
        assert(list[i] == x);
    }
    if list.contains(x) {
        let i = choose|i: int| 0 <= i < list.len() && list[i] == x;
        assert(wrapped[i] == wrap(x));
    }
}

/// Every provider of a kind that can be made is asked for its models, and every registered
/// third-party provider that the user did not set up in another way; no others of these are.
pub proof fn available_providers_are_asked(
    registered: RegistryView,
    slugs: Seq<Seq<char>>,
    host: HostView,
    kind: KindView,
    slug: Seq<char>,
)
    ensures
        discovery::fetch_plan(registered, slugs, host).contains(FetchJobView::Builtin(kind))
            <==> !(kind is Catalog) && plan::available(kind, registered, host),
        discovery::fetch_plan(registered, slugs, host).contains(FetchJobView::Catalog(slug))
            <==> slugs.contains(slug) && discovery::asked(slug, host),
{
    let wrap_kind = |k: KindView| FetchJobView::Builtin(k);
    let wrap_slug = |s: Seq<char>| FetchJobView::Catalog(s);
    let made = provider::builtin_views().filter(discovery::makes(registered, host));
    let third = slugs.filter(discovery::asks(host));
    let first = made.map_values(wrap_kind);
    let second = third.map_values(wrap_slug);
    let dynamic = host.dynamic.map_values(|d: DynamicProviderView| FetchJobView::Dynamic(d.slug));
    let last = seq![FetchJobView::Custom];
    let whole = discovery::fetch_plan(registered, slugs, host);
    assert(whole =~= first + second + dynamic + last);
    kinds::builtin_kinds_complete(kind);
    listings::filter_members(
        provider::builtin_views(),
        discovery::makes(registered, host),
        kind,
    );
    listings::filter_members(slugs, discovery::asks(host), slug);
    wrapped_members(made, wrap_kind, kind);
    wrapped_members(third, wrap_slug, slug);
    let job = FetchJobView::Builtin(kind);
    if first.contains(job) {
        let i = choose|i: int| 0 <= i < first.len() && first[i] == job;
        assert(whole[i] == job);
    }
    if whole.contains(job) {
        let i = choose|i: int| 0 <= i < whole.len() && whole[i] == job;
        if i >= first.len() {
            let j = i - first.len();
            if j < second.len() {
                assert(whole[i] == second[j]);
            } else if j - second.len() < dynamic.len() {
                assert(whole[i] == dynamic[j - second.len()]);
            } else {
                assert(whole[i] == last[0]);
            }
        }
        assert(first[i] == job);
    }
    let job = FetchJobView::Catalog(slug);
    if second.contains(job) {
        let i = choose|i: int| 0 <= i < second.len() && second[i] == job;
        assert(whole[first.len() + i] == job);
    }
    if whole.contains(job) {
        let i = choose|i: int| 0 <= i < whole.len() && whole[i] == job;
        if i < first.len() {
            assert(whole[i] == first[i]);
        } else {
            let j = i - first.len();
            if j >= second.len() {
                if j - second.len() < dynamic.len() {
                    assert(whole[i] == dynamic[j - second.len()]);
                } else {
                    assert(whole[i] == last[0]);
                }
            }
            assert(second[j] == job);
        }
    }
}

} // verus!
