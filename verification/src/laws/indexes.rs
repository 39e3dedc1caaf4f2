//! How the catalogs and the registry come about of an index.

use vstd::prelude::*;

use crate::assoc::AssocMap;
use crate::catalog::data;
use crate::catalog::data::{
    CatalogIndex, CatalogIndexView, CatalogModel, CatalogProvider, CatalogProviderView,
    EndpointType, Meta, ResolvedAuth,
};
use crate::catalog::registry::Registry;
use crate::host::Host;
use crate::laws::free_models;
use crate::laws::registered;
use crate::laws::requests;
use crate::opencode::backend;
use crate::opencode::backend::{Backend, Catalog, CatalogView, KeysView};
use crate::opencode::building;
use crate::opencode::building::{BuildAction, BuildEvent};
use crate::opencode::catalog;

verus! {

/// A service offers the model: Zen where it admits its provider, free models only where they are
/// enabled, and without a key only what is free at the first party; Go where the model is of its
/// own entry and that has a key.
pub open spec fn is_offered(
    b: Backend,
    index: CatalogIndexView,
    keys: KeysView,
    enabled: bool,
    builtins: Seq<Seq<char>>,
    key: (Seq<char>, Seq<char>),
) -> bool {
    let model = index[key.0].models[key.1];
    &&& is_taken(b, index, builtins, key.0)
    &&& index[key.0].models.contains_key(key.1)
    &&& b is Zen ==> {
        &&& enabled || !free_models::costs_nothing(model)
        &&& free_models::has_key(keys, key.0) || key.0 == "opencode"@ && free_models::costs_nothing(
            model,
        )
    }
    &&& b is Go ==> free_models::has_key(keys, key.0)
}

/// A service takes the provider from the index.
pub open spec fn is_taken(
    b: Backend,
    index: CatalogIndexView,
    builtins: Seq<Seq<char>>,
    id: Seq<char>,
) -> bool {
    match b {
        Backend::Zen => free_models::zen_admits(index, builtins, id),
        Backend::Go => id == "opencode-go"@ && index.contains_key(id)
            && free_models::can_be_spoken_to(index[id]),
    }
}

/// The catalog has, of provider `key.0` and its model `key.1`, what the service offers of the
/// index: what the index tells of the model, the provider as it is, and two ways to it at its
/// address, each with the key as the protocol takes it. Zen has ways to the providers of which it
/// offers a model; Go to its own, where that has a key.
pub open spec fn has_what_is_offered(
    b: Backend,
    c: CatalogView,
    index: CatalogIndexView,
    keys: KeysView,
    enabled: bool,
    builtins: Seq<Seq<char>>,
    key: (Seq<char>, Seq<char>),
) -> bool {
    let provider = index[key.0];
    let reached = match b {
        Backend::Zen => exists|m: Seq<char>| #[trigger]
            is_offered(b, index, keys, enabled, builtins, (key.0, m)),
        Backend::Go => is_taken(b, index, builtins, key.0) && free_models::has_key(keys, key.0),
    };
    &&& c.entries.contains_key(key) <==> is_offered(b, index, keys, enabled, builtins, key)
    &&& c.entries.contains_key(key) ==> free_models::tells_of(
        c.entries[key],
        key.0,
        provider,
        provider.models[key.1],
    )
    &&& c.providers.contains_key(key.0) <==> is_taken(b, index, builtins, key.0)
    &&& c.providers.contains_key(key.0) ==> c.providers[key.0] == provider
    &&& c.auths.contains_key(key.0) <==> reached
    &&& c.anthropic_auths.contains_key(key.0) <==> reached
    &&& reached ==> requests::sends_key(
        c.auths[key.0],
        provider.api,
        requests::sent_key(keys, key.0),
        EndpointType::ChatCompletions,
    ) && requests::sends_key(
        c.anthropic_auths[key.0],
        provider.api,
        requests::sent_key(keys, key.0),
        EndpointType::Messages,
    )
}

/// What a service makes of an index has what it offers of it.
proof fn made_of_index_has_what_is_offered(
    b: Backend,
    index: CatalogIndexView,
    keys: KeysView,
    enabled: bool,
    builtins: Seq<Seq<char>>,
    key: (Seq<char>, Seq<char>),
)
    ensures
        has_what_is_offered(
            b,
            b.catalog_of(index, keys, enabled, builtins),
            index,
            keys,
            enabled,
            builtins,
            key,
        ),
{
    if b is Zen {
        let p = key.0;
        let any = backend::zen_offers_any(
            p,
            index[p].models,
            backend::key_for(keys, p),
            enabled,
        );
        if is_taken(b, index, builtins, p) && any {
            let m = choose|m: Seq<char>| #[trigger]
                index[p].models.contains_key(m) && backend::zen_offers(
                    p,
                    index[p].models[m],
                    backend::key_for(keys, p),
                    enabled,
                );
            assert(is_offered(b, index, keys, enabled, builtins, (p, m)));
        }
        if exists|m: Seq<char>| #[trigger] is_offered(b, index, keys, enabled, builtins, (p, m)) {
            let m = choose|m: Seq<char>| #[trigger]
                is_offered(b, index, keys, enabled, builtins, (p, m));
            assert(index[p].models.contains_key(m));
            assert(any);
        }
    }
}

/// A service makes of an index the catalog of what it offers; Zen registers the third parties anew,
/// and Go leaves them as they are.
pub proof fn builder_makes_what_is_offered(
    b: &Backend,
    index: CatalogIndex,
    keys: &AssocMap<String, Option<String>>,
    enabled: bool,
    builtins: &Vec<String>,
    registry: &mut Registry,
    made: Catalog,
    key: (Seq<char>, Seq<char>),
)
    requires
        call_ensures(Backend::build_catalog, (b, index, keys, enabled, builtins, registry), made),
    ensures
        has_what_is_offered(*b, made@, index@, keys@, enabled, builtins.deep_view(), key),
        b is Zen ==> registered::registers_as_in_the_index(
            final(registry)@,
            index@,
            enabled,
            builtins.deep_view(),
            key.0,
        ),
        b is Go ==> final(registry)@ == old(registry)@,
{
    made_of_index_has_what_is_offered(*b, index@, keys@, enabled, builtins.deep_view(), key);
    if b is Zen {
        registered::zen_registers_as_in_the_index(
            final(registry)@,
            index@,
            enabled,
            builtins.deep_view(),
            key.0,
        );
    }
}

/// Zen's own builder makes the catalog of what Zen offers and registers the third parties anew.
pub proof fn zen_builder_makes_what_is_offered(
    index: &CatalogIndex,
    keys: &AssocMap<String, Option<String>>,
    enabled: bool,
    builtins: &Vec<String>,
    registry: &mut Registry,
    made: Catalog,
    key: (Seq<char>, Seq<char>),
)
    requires
        call_ensures(
            backend::build_zen_catalog,
            (index, keys, enabled, builtins, registry),
            made,
        ),
    ensures
        has_what_is_offered(
            Backend::Zen,
            made@,
            index@,
            keys@,
            enabled,
            builtins.deep_view(),
            key,
        ),
        registered::registers_as_in_the_index(
            final(registry)@,
            index@,
            enabled,
            builtins.deep_view(),
            key.0,
        ),
{
    made_of_index_has_what_is_offered(
        Backend::Zen,
        index@,
        keys@,
        enabled,
        builtins.deep_view(),
        key,
    );
    registered::zen_registers_as_in_the_index(
        final(registry)@,
        index@,
        enabled,
        builtins.deep_view(),
        key.0,
    );
}

/// Go's own builder makes the catalog of what Go offers.
pub proof fn go_builder_makes_what_is_offered(
    index: &CatalogIndex,
    keys: &AssocMap<String, Option<String>>,
    made: Catalog,
    key: (Seq<char>, Seq<char>),
)
    requires
        call_ensures(backend::build_go_catalog, (index, keys), made),
    ensures
        has_what_is_offered(Backend::Go, made@, index@, keys@, false, Seq::empty(), key),
{
    made_of_index_has_what_is_offered(Backend::Go, index@, keys@, false, Seq::empty(), key);
}

/// What is assembled is what the service offers with the keys that are found in the surroundings,
/// and with free models where the configuration enables them.
pub proof fn assembled_with_the_hosts_keys(
    b: Backend,
    index: CatalogIndex,
    host: &Host,
    registry: &mut Registry,
    made: Catalog,
    keys: AssocMap<String, Option<String>>,
    enabled: bool,
    key: (Seq<char>, Seq<char>),
)
    requires
        call_ensures(building::assemble, (b, index, host, registry), made),
        call_ensures(catalog::resolve_provider_keys, (&index, &host.saved, &host.env), keys),
        call_ensures(building::enable_free_models, (b, &host.config), enabled),
    ensures
        has_what_is_offered(b, made@, index@, keys@, enabled, host.builtins.deep_view(), key),
        b is Zen ==> registered::registers_as_in_the_index(
            final(registry)@,
            index@,
            enabled,
            host.builtins.deep_view(),
            key.0,
        ),
        b is Go ==> final(registry)@ == old(registry)@,
{
    let slugs = host.builtins.deep_view();
    made_of_index_has_what_is_offered(b, index@, keys@, enabled, slugs, key);
    if b is Zen {
        registered::zen_registers_as_in_the_index(
            final(registry)@,
            index@,
            enabled,
            slugs,
            key.0,
        );
    }
}

/// The cache is read first. Only where it holds no index is one asked for, in the name of the
/// service; one that came is put into the cache as it is; and where none came the catalog is empty
/// and overrides are left alone. None of this touches the registry.
pub proof fn cache_goes_before_asking(
    b: Backend,
    event: BuildEvent,
    host: &Host,
    registry: &mut Registry,
    action: BuildAction,
)
    requires
        call_ensures(building::next_build_action, (b, event, host, registry), action),
        event is Started || event is Fetched || event == BuildEvent::CacheRead(None),
    ensures
        action is ReadCache <==> event is Started,
        action is Fetch <==> event is CacheRead,
        action matches BuildAction::Fetch(name) ==> name@ == (if b is Zen {
            "opencode-zen"@
        } else {
            "opencode-go"@
        }) + " catalog"@,
        event matches BuildEvent::Fetched(Some(index)) ==> action == BuildAction::Save(index),
        event == BuildEvent::Fetched(None) ==> (action matches BuildAction::Finish {
            catalog: made,
            migrate,
        } && !migrate && forall|key: (Seq<char>, Seq<char>)|
            !#[trigger] made@.entries.contains_key(key) && !made@.providers.contains_key(key.0)
                && !made@.auths.contains_key(key.0) && !made@.anthropic_auths.contains_key(key.0)),
        final(registry)@ == old(registry)@,
{
    reveal_strlit("opencode-zen");
    reveal_strlit("opencode-go");
    reveal_strlit(" catalog");
    reveal_strlit("opencode-zen catalog");
    reveal_strlit("opencode-go catalog");
    assert("opencode-zen catalog"@ =~= "opencode-zen"@ + " catalog"@);
    assert("opencode-go catalog"@ =~= "opencode-go"@ + " catalog"@);
}

/// An index that was in the cache, and one that was put there, are used alike: the catalog is what
/// is assembled of the index, and overrides are brought up to date.
pub proof fn index_is_used_at_once(
    b: Backend,
    index: CatalogIndex,
    saved: bool,
    host: &Host,
    registry: &mut Registry,
    action: BuildAction,
    other: &mut Registry,
    assembled: Catalog,
)
    requires
        call_ensures(
            building::next_build_action,
            (
                b,
                if saved {
                    BuildEvent::Saved(index)
                } else {
                    BuildEvent::CacheRead(Some(index))
                },
                host,
                registry,
            ),
            action,
        ),
        call_ensures(building::assemble, (b, index, host, other), assembled),
    ensures
        action matches BuildAction::Finish { catalog: made, migrate } && migrate && made@
            == assembled@,
        b is Go ==> final(registry)@ == old(registry)@,
        b is Zen ==> final(registry)@.dom() == final(other)@.dom(),
{
    if b is Zen {
        assert(final(registry)@.dom() =~= final(other)@.dom()) by {
            assert forall|p: Seq<char>| #[trigger]
                final(registry)@.contains_key(p) <==> final(other)@.contains_key(p) by {}
        }
    }
}

/// A provider is reached at its address, with the key as the protocol takes it.
pub proof fn provider_is_reached_by_the_protocol(
    provider: &CatalogProvider,
    key: &str,
    protocol: EndpointType,
    auth: ResolvedAuth,
)
    requires
        call_ensures(CatalogProvider::build_auth, (provider, key, protocol), auth),
    ensures
        requests::sends_key(auth@, provider@.api, key@, protocol),
{
}

/// A key alone is sent without an address, as each of the two protocols takes it.
pub proof fn key_alone_has_no_address(key: &str, bearer: ResolvedAuth, own: ResolvedAuth)
    requires
        call_ensures(ResolvedAuth::bearer, (key,), bearer),
        call_ensures(ResolvedAuth::api_key, (key,), own),
    ensures
        requests::sends_key(bearer@, None, key@, EndpointType::ChatCompletions),
        requests::sends_key(own@, None, key@, EndpointType::Messages),
{
}

/// A provider is admitted exactly where it can be spoken to.
pub proof fn admitted_can_be_spoken_to(provider: &CatalogProvider, ok: bool)
    requires
        call_ensures(backend::admit_provider, (provider,), ok),
    ensures
        ok <==> free_models::can_be_spoken_to(provider@),
{
}

/// Only one package speaks messages; every other speaks chat completions.
pub proof fn one_package_speaks_messages(npm: &str, protocol: EndpointType)
    requires
        call_ensures(EndpointType::from_npm, (npm,), protocol),
    ensures
        protocol is Messages <==> npm@ == "@ai-sdk/anthropic"@,
{
}

/// What is known of a model is what the index tells of it, with the protocol of its provider where
/// it has none of its own.
pub proof fn known_is_what_the_index_tells(
    model: &CatalogModel,
    provider: CatalogProviderView,
    id: &str,
    protocol: EndpointType,
    meta: Meta,
)
    requires
        call_ensures(data::model_meta, (model, id, protocol), meta),
        protocol is Messages <==> provider.npm == "@ai-sdk/anthropic"@,
    ensures
        free_models::tells_of(meta@, id@, provider, *model),
{
}

} // verus!
