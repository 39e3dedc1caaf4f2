//! Catalogs: what they offer, and that what they offer can be reached.

use vstd::prelude::*;

use crate::catalog::data;
use crate::catalog::data::{
    AuthView, CatalogIndexView, CatalogModel, EndpointType, MetaView, ZEN_CATALOG_KEY,
};
use crate::laws::identifiers;
use crate::model;
use crate::model::ModelView;
use crate::opencode::backend;
use crate::opencode::backend::{Backend, CatalogView, KeysView};
use crate::opencode::catalog::{GO_PROVIDER_ID, PUBLIC_KEY};
use crate::plan::RegistryView;

verus! {

/// Every model of a catalog belongs to the provider under which it is filed, and that provider can
/// be reached by either protocol and is among the admitted ones.
pub open spec fn reachable(c: CatalogView) -> bool {
    forall|k: (Seq<char>, Seq<char>)| #[trigger]
        c.entries.contains_key(k) ==> {
            &&& c.entries[k].provider_id == k.0
            &&& c.auths.contains_key(k.0)
            &&& c.anthropic_auths.contains_key(k.0)
            &&& c.providers.contains_key(k.0)
        }
}

/// Every catalog that a service builds is reachable.
pub proof fn built_is_reachable(
    b: Backend,
    index: CatalogIndexView,
    keys: KeysView,
    enabled: bool,
    builtins: Seq<Seq<char>>,
)
    ensures
        reachable(b.catalog_of(index, keys, enabled, builtins)),
{
    let c = b.catalog_of(index, keys, enabled, builtins);
    assert forall|k: (Seq<char>, Seq<char>)| #[trigger] c.entries.contains_key(k) implies {
        &&& c.entries[k].provider_id == k.0
        &&& c.auths.contains_key(k.0)
        &&& c.anthropic_auths.contains_key(k.0)
        &&& c.providers.contains_key(k.0)
    } by {
        if b is Zen {
            assert(backend::zen_offers_any(
                k.0,
                index[k.0].models,
                backend::key_for(keys, k.0),
                enabled,
            )) by {
                assert(index[k.0].models.contains_key(k.1));
            }
        }
    }
}

/// The parts of Zen's catalog fit together, whatever keys were found.
pub proof fn zen_catalog_fits_together(
    index: CatalogIndexView,
    keys: KeysView,
    enabled: bool,
    builtins: Seq<Seq<char>>,
)
    ensures
        backend::zen_parts_fit(
            backend::zen_catalog(index, keys, enabled, builtins),
            index,
            builtins,
        ),
{
    let c = backend::zen_catalog(index, keys, enabled, builtins);
    assert(c.auths.dom() =~= c.anthropic_auths.dom());
    assert forall|p: Seq<char>| #[trigger] c.auths.contains_key(p) <==> exists|m: Seq<char>|
        #[trigger] c.entries.contains_key((p, m)) by {
        let models = index[p].models;
        let key = backend::key_for(keys, p);
        if c.auths.contains_key(p) {
            let m = choose|m: Seq<char>| #[trigger]
                models.contains_key(m) && backend::zen_offers(p, models[m], key, enabled);
            assert(c.entries.contains_key((p, m)));
        }
        if exists|m: Seq<char>| #[trigger] c.entries.contains_key((p, m)) {
            let m = choose|m: Seq<char>| #[trigger] c.entries.contains_key((p, m));
            assert(models.contains_key(m) && backend::zen_offers(p, models[m], key, enabled));
        }
    }
}

/// Every model that a service offers is found under every identifier that names it, with what the
/// catalog knows of it.
pub proof fn offered_is_found(
    b: Backend,
    index: CatalogIndexView,
    keys: KeysView,
    enabled: bool,
    builtins: Seq<Seq<char>>,
    id: Seq<char>,
    auth_override: Option<AuthView>,
)
    requires
        b.catalog_of(index, keys, enabled, builtins).entries.contains_key(b.key_of(id)),
    ensures
        b.found(b.catalog_of(index, keys, enabled, builtins), id, auth_override) matches Ok(
            (meta, auth),
        ) && meta == b.catalog_of(index, keys, enabled, builtins).entries[b.key_of(id)],
{
    built_is_reachable(b, index, keys, enabled, builtins);
}

/// Every model that Zen offers is found under the name of its provider, a slash and its own name,
/// where the name of the provider holds no slash.
pub proof fn offered_is_found_by_name(
    index: CatalogIndexView,
    keys: KeysView,
    enabled: bool,
    builtins: Seq<Seq<char>>,
    key: (Seq<char>, Seq<char>),
    auth_override: Option<AuthView>,
)
    requires
        Backend::Zen.catalog_of(index, keys, enabled, builtins).entries.contains_key(key),
        !key.0.contains('/'),
    ensures
        Backend::Zen.found(
            Backend::Zen.catalog_of(index, keys, enabled, builtins),
            key.0 + "/"@ + key.1,
            auth_override,
        ) matches Ok((meta, auth)) && meta == Backend::Zen.catalog_of(
            index,
            keys,
            enabled,
            builtins,
        ).entries[key],
{
    identifiers::listed_id_names_the_model(Backend::Zen, key);
    let id = key.0 + "/"@ + key.1;
    offered_is_found(Backend::Zen, index, keys, enabled, builtins, id, auth_override);
}

/// Every model that a service lists is found under the identifier under which it is listed.
pub proof fn listed_is_found(
    b: Backend,
    index: CatalogIndexView,
    keys: KeysView,
    enabled: bool,
    builtins: Seq<Seq<char>>,
    key: (Seq<char>, Seq<char>),
    auth_override: Option<AuthView>,
)
    requires
        b.catalog_of(index, keys, enabled, builtins).entries.contains_key(key),
        b.lists(key.0),
    ensures
        b.found(
            b.catalog_of(index, keys, enabled, builtins),
            b.listed_id(key),
            auth_override,
        ) matches Ok((meta, auth)) && meta == b.catalog_of(index, keys, enabled, builtins).entries[key],
{
    identifiers::zen_name_has_no_slash();
    identifiers::listed_id_names_the_model(b, key);
    offered_is_found(b, index, keys, enabled, builtins, b.listed_id(key), auth_override);
}

/// A request for a model that a service offers goes to the model's provider, under the name that
/// the model has there and with the limits that the catalog gives.
pub proof fn offered_can_be_asked(
    b: Backend,
    index: CatalogIndexView,
    keys: KeysView,
    enabled: bool,
    builtins: Seq<Seq<char>>,
    chosen: ModelView,
    auth_override: Option<AuthView>,
)
    requires
        b.catalog_of(index, keys, enabled, builtins).entries.contains_key(b.key_of(chosen.id)),
    ensures
        ({
            let c = b.catalog_of(index, keys, enabled, builtins);
            let meta = c.entries[b.key_of(chosen.id)];
            &&& b.prepared(c, chosen, auth_override) matches Ok(request)
            &&& request.model == model::sent_as(chosen, b.key_of(chosen.id).1, meta)
            &&& request.endpoint == meta.api_format
        }),
{
    offered_is_found(b, index, keys, enabled, builtins, chosen.id, auth_override);
    built_is_reachable(b, index, keys, enabled, builtins);
    identifiers::upstream_id_is_the_models(b, chosen.id);
}

/// What is not offered is not found.
pub proof fn unoffered_is_not_found(
    b: Backend,
    c: CatalogView,
    id: Seq<char>,
    auth_override: Option<AuthView>,
)
    requires
        !c.entries.contains_key(b.key_of(id)),
    ensures
        b.found(c, id, auth_override) == Err::<(MetaView, AuthView), Seq<char>>(
            backend::no_such_model(id),
        ),
{
}

/// Zen offers nothing of Go's entry, and Go nothing of any other.
pub proof fn services_do_not_mix(
    b: Backend,
    index: CatalogIndexView,
    keys: KeysView,
    enabled: bool,
    builtins: Seq<Seq<char>>,
    key: (Seq<char>, Seq<char>),
)
    requires
        b.catalog_of(index, keys, enabled, builtins).entries.contains_key(key),
    ensures
        b is Go <==> key.0 == GO_PROVIDER_ID@,
{
}

/// The providers that a service admits are providers of the index that speak a protocol that is
/// understood at an address that is known. Zen leaves out Go's entry and, but for its own, what is
/// supported by other means; Go takes its own alone.
pub proof fn providers_are_admitted(
    b: Backend,
    index: CatalogIndexView,
    keys: KeysView,
    enabled: bool,
    builtins: Seq<Seq<char>>,
    id: Seq<char>,
)
    ensures
        b.catalog_of(index, keys, enabled, builtins).providers.contains_key(id) <==> {
            &&& index.contains_key(id)
            &&& backend::admitted(index[id])
            &&& b is Go <==> id == GO_PROVIDER_ID@
            &&& b is Zen && id != ZEN_CATALOG_KEY@ ==> !backend::blocked(id)
                && !builtins.contains(id)
        },
        b.catalog_of(index, keys, enabled, builtins).providers.contains_key(id)
            ==> b.catalog_of(index, keys, enabled, builtins).providers[id] == index[id],
{
}

/// Without a key Zen offers only free models of the first-party provider, and Go offers nothing.
pub proof fn without_key_only_free_first_party(
    b: Backend,
    index: CatalogIndexView,
    keys: KeysView,
    enabled: bool,
    builtins: Seq<Seq<char>>,
    key: (Seq<char>, Seq<char>),
)
    requires
        b.catalog_of(index, keys, enabled, builtins).entries.contains_key(key),
        backend::key_for(keys, key.0) is None,
    ensures
        b is Zen,
        key.0 == ZEN_CATALOG_KEY@,
        backend::free(index[key.0].models[key.1]),
{
}

/// Where free models are not enabled Zen offers none.
pub proof fn disabled_offers_no_free_model(
    index: CatalogIndexView,
    keys: KeysView,
    enabled: bool,
    builtins: Seq<Seq<char>>,
    key: (Seq<char>, Seq<char>),
)
    requires
        Backend::Zen.catalog_of(index, keys, enabled, builtins).entries.contains_key(key),
        !enabled,
    ensures
        !backend::free(index[key.0].models[key.1]),
{
}

/// With a key a service offers every model of an admitted provider, but for the free models of Zen
/// where they are not enabled.
pub proof fn with_key_everything_is_offered(
    b: Backend,
    index: CatalogIndexView,
    keys: KeysView,
    enabled: bool,
    builtins: Seq<Seq<char>>,
    key: (Seq<char>, Seq<char>),
)
    requires
        b.catalog_of(index, keys, enabled, builtins).providers.contains_key(key.0),
        index[key.0].models.contains_key(key.1),
        backend::key_for(keys, key.0) is Some,
        b is Zen && backend::free(index[key.0].models[key.1]) ==> enabled,
    ensures
        b.catalog_of(index, keys, enabled, builtins).entries.contains_key(key),
{
}

/// What is sent to a provider is its own key, at its own address. The public key is sent to the
/// first-party provider alone, and only where it has no key.
pub proof fn keys_go_to_their_providers(
    b: Backend,
    index: CatalogIndexView,
    keys: KeysView,
    enabled: bool,
    builtins: Seq<Seq<char>>,
    id: Seq<char>,
)
    requires
        b.catalog_of(index, keys, enabled, builtins).auths.contains_key(id),
    ensures
        ({
            let c = b.catalog_of(index, keys, enabled, builtins);
            let key = match backend::key_for(keys, id) {
                Some(k) => k,
                None => PUBLIC_KEY@,
            };
            &&& c.auths[id] == data::provider_auth(index[id], key, EndpointType::ChatCompletions)
            &&& c.anthropic_auths.contains_key(id)
            &&& c.anthropic_auths[id] == data::provider_auth(
                index[id],
                key,
                EndpointType::Messages,
            )
            &&& backend::key_for(keys, id) is None ==> b is Zen && id == ZEN_CATALOG_KEY@
        }),
{
}

/// An address and key given from outside change nothing for the third-party providers of Zen.
pub proof fn third_party_keeps_its_auth(
    index: CatalogIndexView,
    keys: KeysView,
    enabled: bool,
    builtins: Seq<Seq<char>>,
    id: Seq<char>,
    given: AuthView,
)
    requires
        Backend::Zen.key_of(id).0 != ZEN_CATALOG_KEY@,
    ensures
        ({
            let c = Backend::Zen.catalog_of(index, keys, enabled, builtins);
            Backend::Zen.found(c, id, Some(given)) == Backend::Zen.found(c, id, None)
        }),
{
    built_is_reachable(Backend::Zen, index, keys, enabled, builtins);
}

/// An address and key given from outside are used for every model of Go and for the first-party
/// models of Zen.
pub proof fn own_models_take_the_given_auth(
    b: Backend,
    index: CatalogIndexView,
    keys: KeysView,
    enabled: bool,
    builtins: Seq<Seq<char>>,
    id: Seq<char>,
    given: AuthView,
)
    requires
        b.catalog_of(index, keys, enabled, builtins).entries.contains_key(b.key_of(id)),
        b is Zen ==> b.key_of(id).0 == ZEN_CATALOG_KEY@,
    ensures
        b.found(b.catalog_of(index, keys, enabled, builtins), id, Some(given)) == Ok::<
            (MetaView, AuthView),
            Seq<char>,
        >((b.catalog_of(index, keys, enabled, builtins).entries[b.key_of(id)], given)),
{
    built_is_reachable(b, index, keys, enabled, builtins);
}

/// A model that the index gives no cost for is free.
pub proof fn missing_cost_is_free(model: CatalogModel)
    requires
        model.cost is None,
    ensures
        backend::free(model),
{
}

/// A free model is known at the price of nothing for what is asked and answered.
pub proof fn free_models_cost_nothing(
    model: CatalogModel,
    provider_id: Seq<char>,
    endpoint: EndpointType,
)
    ensures
        backend::free(model) <==> data::meta_of(
            model,
            provider_id,
            endpoint,
        ).input_price.spec_is_zero() && data::meta_of(
            model,
            provider_id,
            endpoint,
        ).output_price.spec_is_zero(),
{
}

/// Zen registers the third-party providers that it admits, and no others.
pub proof fn registry_holds_third_parties(
    index: CatalogIndexView,
    keys: KeysView,
    enabled: bool,
    builtins: Seq<Seq<char>>,
    after: RegistryView,
    id: Seq<char>,
)
    requires
        backend::is_zen_registry(after, index, enabled, builtins),
    ensures
        after.contains_key(id) <==> Backend::Zen.catalog_of(
            index,
            keys,
            enabled,
            builtins,
        ).providers.contains_key(id) && id != ZEN_CATALOG_KEY@,
{
}

/// Every third-party model that Zen offers is registered with its provider, and known alike in
/// both places.
pub proof fn offered_is_registered(
    index: CatalogIndexView,
    keys: KeysView,
    enabled: bool,
    builtins: Seq<Seq<char>>,
    after: RegistryView,
    key: (Seq<char>, Seq<char>),
)
    requires
        backend::is_zen_registry(after, index, enabled, builtins),
        Backend::Zen.catalog_of(index, keys, enabled, builtins).entries.contains_key(key),
        key.0 != ZEN_CATALOG_KEY@,
    ensures
        after.contains_key(key.0),
        exists|i: int|
            {
                &&& 0 <= i < after[key.0].models.len()
                &&& (#[trigger] after[key.0].models[i]).id == key.1
                &&& after[key.0].models[i].meta == Backend::Zen.catalog_of(
                    index,
                    keys,
                    enabled,
                    builtins,
                ).entries[key]
            },
{
    assert(after.contains_key(key.0));
    let info = after[key.0];
    let models = index[key.0].models;
    assert(backend::describes(
        info,
        key.0,
        index[key.0],
        enabled,
    ));
    assert(models.contains_key(key.1));
    let i = choose|i: int| 0 <= i < info.models.len() && (#[trigger] info.models[i]).id == key.1;
    let c = Backend::Zen.catalog_of(index, keys, enabled, builtins);
    assert(info.models[i].meta == c.entries[key]);
}

} // verus!
