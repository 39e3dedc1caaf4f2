//! Lookups and requests: which model an identifier names, how it is reached, and what is sent.

use std::sync::Arc;

use vstd::prelude::*;

use crate::catalog::cat_provider;
use crate::catalog::cat_provider::CatalogProvider;
use crate::catalog::data::{AuthView, CatalogIndexView, EndpointType, Meta, MetaView, ResolvedAuth};
use crate::catalog::registry::{CatalogModelInfoView, CatalogProviderInfo};
use crate::error::AgentError;
use crate::laws::free_models;
use crate::laws::identifiers;
use crate::model;
use crate::model::{
    Model, ModelInfo, ModelInfoView, ModelView, PreparedRequest, PreparedRequestView,
};
use crate::opencode::backend::{Backend, Catalog, CatalogView, KeysView};
use crate::opencode::{Catalogs, Opencode};

verus! {

/// `id` names model `key.1` of provider `key.0`: on Go every identifier names a model of its own;
/// on Zen one with a slash is a provider's name, the first slash and the model's name, and one
/// without names a model of the first party.
pub open spec fn names(b: Backend, id: Seq<char>, key: (Seq<char>, Seq<char>)) -> bool {
    match b {
        Backend::Go => key == ("opencode-go"@, id),
        Backend::Zen => if id.contains('/') {
            !key.0.contains('/') && id == key.0 + seq!['/'] + key.1
        } else {
            key == ("opencode"@, id)
        },
    }
}

/// An identifier names the one model that it is looked up as.
pub proof fn names_one(b: Backend, id: Seq<char>, key: (Seq<char>, Seq<char>))
    ensures
        names(b, id, key) <==> key == b.key_of(id),
{
    identifiers::zen_name_has_no_slash();
    id.index_of_first_ensures('/');
    if b is Zen && id.contains('/') {
        identifiers::joined_of_split(id);
        if names(b, id, key) {
            identifiers::split_of_joined(key.0, key.1);
        }
    }
}

/// An identifier is looked up as the model that it names.
pub proof fn looked_up_as_named(b: &Backend, id: &str, key: (String, String))
    requires
        call_ensures(Backend::lookup_key, (b, id), key),
    ensures
        names(*b, id@, (key.0@, key.1@)),
{
    names_one(*b, id@, (key.0@, key.1@));
}

/// How a provider is reached by the protocol.
pub open spec fn ways(c: CatalogView, protocol: EndpointType) -> Map<Seq<char>, AuthView> {
    match protocol {
        EndpointType::Messages => c.anthropic_auths,
        EndpointType::ChatCompletions => c.auths,
    }
}

/// An address and key given from outside are for the provider: on Go for any, on Zen for the first
/// party alone.
pub open spec fn given_is_for(b: Backend, provider: Seq<char>) -> bool {
    b is Go || provider == "opencode"@
}

/// `found` is the answer to a lookup of the model that `key` is: what the catalog holds of it, and
/// the way to its provider by the model's own protocol, or what was given from outside where that
/// is for the provider.
pub open spec fn answers(
    b: Backend,
    c: CatalogView,
    id: Seq<char>,
    key: (Seq<char>, Seq<char>),
    given: Option<AuthView>,
    found: Result<(MetaView, AuthView), Seq<char>>,
) -> bool {
    if !c.entries.contains_key(key) {
        found == Err::<(MetaView, AuthView), Seq<char>>(
            "model '"@ + id + "' not found in catalog"@,
        )
    } else {
        let meta = c.entries[key];
        let provider = meta.provider_id;
        if !ways(c, meta.api_format).contains_key(provider) {
            found == Err::<(MetaView, AuthView), Seq<char>>(
                "auth for provider '"@ + provider + "' not found in catalog"@,
            )
        } else {
            found == Ok::<(MetaView, AuthView), Seq<char>>(
                (
                    meta,
                    if given is Some && given_is_for(b, provider) {
                        given->0
                    } else {
                        ways(c, meta.api_format)[provider]
                    },
                ),
            )
        }
    }
}

/// What a lookup gave, as values.
pub open spec fn lookup_view(r: Result<(Meta, ResolvedAuth), AgentError>) -> Result<
    (MetaView, AuthView),
    Seq<char>,
> {
    match r {
        Ok((meta, auth)) => Ok((meta@, auth@)),
        Err(AgentError::Config { message }) => Err(message@),
    }
}

/// A lookup answers for the model that the identifier names.
pub proof fn lookup_answers(
    b: &Backend,
    c: &Catalog,
    id: &str,
    given: Option<&ResolvedAuth>,
    key: (Seq<char>, Seq<char>),
    r: Result<(Meta, ResolvedAuth), AgentError>,
)
    requires
        call_ensures(Backend::lookup, (b, c, id, given), r),
        names(*b, id@, key),
    ensures
        answers(*b, c@, id@, key, given.deep_view(), lookup_view(r)),
{
    names_one(*b, id@, key);
}

/// Without anything given from outside, a model is reached by its own protocol: the messages way
/// exactly where it asks for messages, and the chat way exactly where it asks for chat completions.
pub proof fn lookup_follows_the_models_protocol(
    b: &Backend,
    c: &Catalog,
    id: &str,
    meta: Meta,
    auth: ResolvedAuth,
)
    requires
        call_ensures(
            Backend::lookup,
            (b, c, id, None),
            Ok::<(Meta, ResolvedAuth), AgentError>((meta, auth)),
        ),
    ensures
        meta.api_format is Messages ==> c.anthropic_auths@.contains_key(meta.provider_id@) && auth@
            == c.anthropic_auths@[meta.provider_id@],
        meta.api_format is ChatCompletions ==> c.auths@.contains_key(meta.provider_id@) && auth@
            == c.auths@[meta.provider_id@],
{
}

/// The key that is sent to a provider: the one found for it, or the public one.
pub open spec fn sent_key(keys: KeysView, provider: Seq<char>) -> Seq<char> {
    if free_models::has_key(keys, provider) {
        keys[provider]->0
    } else {
        "public"@
    }
}

/// `auth` sends the key to the provider's address as the protocol takes it: as a bearer token for
/// chat completions, under its own header for messages.
pub open spec fn sends_key(
    auth: AuthView,
    address: Option<Seq<char>>,
    key: Seq<char>,
    protocol: EndpointType,
) -> bool {
    &&& auth.base_url == address
    &&& auth.headers.len() == 1
    &&& protocol is ChatCompletions ==> auth.headers[0] == ("authorization"@, "Bearer "@ + key)
    &&& protocol is Messages ==> auth.headers[0] == ("x-api-key"@, key)
}

/// Every model of a catalog that a service built of an index is found, as the index tells of it,
/// and is reached at its provider's address with its provider's key as the model's protocol takes
/// it.
pub proof fn offered_is_reached(
    b: &Backend,
    index: CatalogIndexView,
    keys: KeysView,
    enabled: bool,
    builtins: Seq<Seq<char>>,
    c: &Catalog,
    id: &str,
    key: (Seq<char>, Seq<char>),
    r: Result<(Meta, ResolvedAuth), AgentError>,
)
    requires
        c@ == b.catalog_of(index, keys, enabled, builtins),
        names(*b, id@, key),
        c@.entries.contains_key(key),
        call_ensures(Backend::lookup, (b, c, id, None), r),
    ensures
        r matches Ok((meta, auth)) && free_models::tells_of(
            meta@,
            key.0,
            index[key.0],
            index[key.0].models[key.1],
        ) && sends_key(auth@, index[key.0].api, sent_key(keys, key.0), meta.api_format),
{
    names_one(*b, id@, key);
    crate::laws::catalogs::built_is_reachable(*b, index, keys, enabled, builtins);
}

/// `request` asks for the chosen model under `id`, with the limits, the protocol and the way that
/// were found; all else of the model is as it was chosen.
pub open spec fn asks(
    request: PreparedRequestView,
    chosen: ModelView,
    id: Seq<char>,
    meta: MetaView,
    auth: AuthView,
) -> bool {
    &&& request.model.id == id
    &&& request.model.provider == chosen.provider
    &&& request.model.dynamic_slug == chosen.dynamic_slug
    &&& request.model.max_output_tokens == Some(meta.output)
    &&& request.model.context_window == meta.context
    &&& request.endpoint == meta.api_format
    &&& request.auth == auth
}

/// What was prepared, as values.
pub open spec fn request_view(r: Result<PreparedRequest, AgentError>) -> Result<
    PreparedRequestView,
    Seq<char>,
> {
    match r {
        Ok(request) => Ok(request@),
        Err(AgentError::Config { message }) => Err(message@),
    }
}

/// `r` is the request for the chosen model where a lookup finds it, and else the lookup's error.
/// Zen leaves the name of the model's provider out, where the identifier starts with it.
pub open spec fn asks_for_found(
    b: Backend,
    c: CatalogView,
    chosen: ModelView,
    key: (Seq<char>, Seq<char>),
    given: Option<AuthView>,
    r: Result<PreparedRequestView, Seq<char>>,
) -> bool {
    match r {
        Err(words) => answers(b, c, chosen.id, key, given, Err(words)),
        Ok(request) => {
            let meta = c.entries[key];
            let prefix = meta.provider_id + seq!['/'];
            let id = if b is Zen && prefix.is_prefix_of(chosen.id) {
                chosen.id.skip(prefix.len() as int)
            } else {
                chosen.id
            };
            &&& answers(b, c, chosen.id, key, given, Ok((meta, request.auth)))
            &&& asks(request, chosen, id, meta, request.auth)
        },
    }
}

/// A service prepares the request for the model that a lookup finds.
pub proof fn service_asks_for_found(
    b: &Backend,
    c: &Catalog,
    chosen: &Model,
    given: Option<&ResolvedAuth>,
    key: (Seq<char>, Seq<char>),
    r: Result<PreparedRequest, AgentError>,
)
    requires
        call_ensures(Backend::prepare, (b, c, chosen, given), r),
        names(*b, chosen@.id, key),
    ensures
        asks_for_found(*b, c@, chosen@, key, given.deep_view(), request_view(r)),
{
    identifiers::zen_name_has_no_slash();
    names_one(*b, chosen@.id, key);
}

/// A service in use prepares requests from its own catalog, with what was given to it.
pub proof fn service_in_use_asks_its_catalog(
    service: &Opencode,
    catalogs: &Catalogs,
    chosen: &Model,
    key: (Seq<char>, Seq<char>),
    r: Result<PreparedRequest, AgentError>,
)
    requires
        service.backend is Zen ==> catalogs.zen is Some,
        service.backend is Go ==> catalogs.go is Some,
        call_ensures(Opencode::prepare, (service, catalogs, chosen), r),
        names(service.backend, chosen@.id, key),
    ensures
        asks_for_found(
            service.backend,
            if service.backend is Zen {
                catalogs.zen->0@
            } else {
                catalogs.go->0@
            },
            chosen@,
            key,
            service.auth.deep_view(),
            request_view(r),
        ),
{
    identifiers::zen_name_has_no_slash();
    names_one(service.backend, chosen@.id, key);
}

/// In a catalog that a service built, a request goes out under the name that the model has at its
/// provider, by the protocol that the index gives the model.
pub proof fn request_goes_out_under_the_models_name(
    b: &Backend,
    index: CatalogIndexView,
    keys: KeysView,
    enabled: bool,
    builtins: Seq<Seq<char>>,
    c: &Catalog,
    chosen: &Model,
    key: (Seq<char>, Seq<char>),
    r: Result<PreparedRequest, AgentError>,
)
    requires
        c@ == b.catalog_of(index, keys, enabled, builtins),
        names(*b, chosen@.id, key),
        c@.entries.contains_key(key),
        call_ensures(Backend::prepare, (b, c, chosen, None), r),
    ensures
        r matches Ok(request) && request.model.id@ == key.1 && request.endpoint
            == free_models::protocol_of(index[key.0], index[key.0].models[key.1]) && sends_key(
            request.auth@,
            index[key.0].api,
            sent_key(keys, key.0),
            request.endpoint,
        ) && request.model.context_window == index[key.0].models[key.1].context
            && request.model.max_output_tokens == Some(index[key.0].models[key.1].output),
{
    names_one(*b, chosen@.id, key);
    crate::laws::catalogs::built_is_reachable(*b, index, keys, enabled, builtins);
    identifiers::upstream_id_is_the_models(*b, chosen@.id);
}

/// The first model of the list with the identifier stands at place `i`.
pub open spec fn first_at(list: Seq<CatalogModelInfoView>, id: Seq<char>, i: int) -> bool {
    &&& 0 <= i < list.len()
    &&& list[i].id == id
    &&& forall|j: int| 0 <= j < i ==> (#[trigger] list[j]).id != id
}

/// What is known of the first model with an identifier is what stands beside it; and nothing is
/// known where none has it.
pub proof fn meta_in_is_first(list: Seq<CatalogModelInfoView>, id: Seq<char>)
    ensures
        forall|i: int| #[trigger]
            first_at(list, id, i) ==> cat_provider::meta_in(list, id) == Some(list[i].meta),
        (forall|i: int| 0 <= i < list.len() ==> (#[trigger] list[i]).id != id)
            ==> cat_provider::meta_in(list, id) is None,
    decreases list.len(),
{
    if list.len() > 0 {
        let rest = list.drop_first();
        meta_in_is_first(rest, id);
        assert forall|i: int| #[trigger] first_at(list, id, i) implies cat_provider::meta_in(
            list,
            id,
        ) == Some(list[i].meta) by {
            if i > 0 {
                assert(list[0].id != id);
                assert forall|j: int| 0 <= j < i - 1 implies (#[trigger] rest[j]).id != id by {
                    assert(list[j + 1].id != id);
                }
                assert(rest[i - 1] == list[i]);
                assert(first_at(rest, id, i - 1));
            }
        }
        if forall|i: int| 0 <= i < list.len() ==> (#[trigger] list[i]).id != id {
            assert(list[0].id != id);
            assert forall|j: int| 0 <= j < rest.len() implies (#[trigger] rest[j]).id != id by {
                assert(list[j + 1].id != id);
            }
        }
    }
}

/// A request that a third-party provider prepares for one of its models carries the protocol and
/// the limits that are registered for the first model with the identifier, the identifier as it is,
/// and the provider's own address and key.
pub proof fn third_party_asks_as_registered(
    provider: &CatalogProvider,
    chosen: &Model,
    i: int,
    r: Result<PreparedRequest, AgentError>,
)
    requires
        call_ensures(CatalogProvider::prepare, (provider, chosen), r),
        first_at(provider.info@.models, chosen.id@, i),
    ensures
        r matches Ok(request) && asks(
            request@,
            chosen@,
            chosen.id@,
            provider.info.models@[i].meta@,
            provider.auth@,
        ) && request.endpoint == provider.info.models@[i].meta.api_format,
{
    meta_in_is_first(provider.info@.models, chosen.id@);
}

/// A third-party provider refuses every model that it does not have, and says which and where.
pub proof fn third_party_refuses_others(
    provider: &CatalogProvider,
    chosen: &Model,
    r: Result<PreparedRequest, AgentError>,
)
    requires
        call_ensures(CatalogProvider::prepare, (provider, chosen), r),
        forall|i: int|
            0 <= i < provider.info@.models.len() ==> (#[trigger] provider.info@.models[i]).id
                != chosen.id@,
    ensures
        request_view(r) == Err::<PreparedRequestView, Seq<char>>(
            "model '"@ + chosen.id@ + "' not found in catalog provider '"@ + (*provider.slug)@
                + "'"@,
        ),
{
    meta_in_is_first(provider.info@.models, chosen.id@);
}

/// A third-party provider is reached at the address that comes with the key, or else at the
/// registered one; slug, registration and headers are kept.
pub proof fn third_party_keeps_what_it_is_made_of(
    slug: Arc<str>,
    info: CatalogProviderInfo,
    auth: ResolvedAuth,
    provider: CatalogProvider,
)
    requires
        call_ensures(CatalogProvider::new, (slug, info, auth), provider),
    ensures
        (*provider.slug)@ == (*slug)@,
        provider.info@ == info@,
        provider.auth@.headers == auth@.headers,
        auth.base_url is Some ==> provider.auth@.base_url == Some(auth.base_url->0@),
        auth.base_url is None ==> provider.auth@.base_url == info@.base_url,
{
}

/// A listing says of a model what is known of it, and leaves open what the catalogs do not say.
pub open spec fn lists_as_known(info: ModelInfoView, id: Seq<char>, meta: MetaView) -> bool {
    &&& info.id == id
    &&& info.context_window == Some(meta.context)
    &&& info.max_output_tokens == Some(meta.output)
    &&& info.supports_thinking == Some(meta.supports_thinking)
    &&& info.supports_vision == Some(meta.vision)
    &&& info.provider_info is None
    &&& info.pricing matches Some(pricing) && pricing.input == meta.input_price && pricing.output
        == meta.output_price && pricing.cache_read == meta.cache_read && pricing.cache_write
        == meta.cache_write && pricing.fast is None
}

/// A third-party provider lists its registered models one for one, in their order.
pub proof fn third_party_lists_one_for_one(provider: &CatalogProvider, models: Vec<ModelInfo>)
    requires
        call_ensures(CatalogProvider::list_models, (provider,), models),
    ensures
        models@.len() == provider.info.models@.len(),
        forall|i: int|
            0 <= i < models@.len() ==> lists_as_known(
                (#[trigger] models@[i])@,
                provider.info.models@[i].id@,
                provider.info.models@[i].meta@,
            ),
{
    let listed = cat_provider::listed_models(provider.info@.models);
    assert(models.deep_view().len() == listed.len());
    assert forall|i: int| 0 <= i < models@.len() implies lists_as_known(
        (#[trigger] models@[i])@,
        provider.info.models@[i].id@,
        provider.info.models@[i].meta@,
    ) by {
        assert(models.deep_view()[i] == models@[i]@);
        assert(models.deep_view()[i] == listed[i]);
        assert(provider.info@.models[i] == provider.info.models@[i]@);
    }
}

/// A listing is made of what is known of the model.
pub proof fn listing_is_made_of_what_is_known(id: String, meta: &Meta, info: ModelInfo)
    requires
        call_ensures(model::model_info, (id, meta), info),
    ensures
        lists_as_known(info@, id@, meta@),
{
}

/// The registered models of a third party are listed one for one, in their order.
pub proof fn registered_are_listed_one_for_one(info: &CatalogProviderInfo, models: Vec<ModelInfo>)
    requires
        call_ensures(cat_provider::catalog_models_to_info, (info,), models),
    ensures
        models@.len() == info.models@.len(),
        forall|i: int|
            0 <= i < models@.len() ==> lists_as_known(
                (#[trigger] models@[i])@,
                info.models@[i].id@,
                info.models@[i].meta@,
            ),
{
    let listed = cat_provider::listed_models(info@.models);
    assert(models.deep_view().len() == listed.len());
    assert forall|i: int| 0 <= i < models@.len() implies lists_as_known(
        (#[trigger] models@[i])@,
        info.models@[i].id@,
        info.models@[i].meta@,
    ) by {
        assert(models.deep_view()[i] == models@[i]@);
        assert(models.deep_view()[i] == listed[i]);
        assert(info@.models[i] == info.models@[i]@);
    }
}

/// A model is sent under the identifier, with the limits that are known of it, and else as it was
/// chosen.
pub proof fn sent_with_the_known_limits(chosen: &Model, id: String, meta: &Meta, sent: Model)
    requires
        call_ensures(model::send_as, (chosen, id, meta), sent),
    ensures
        sent.id@ == id@,
        sent.max_output_tokens == Some(meta.output),
        sent.context_window == meta.context,
        sent.provider@ == chosen.provider@,
        sent.dynamic_slug.deep_view() == chosen.dynamic_slug.deep_view(),
{
    assert(sent@ == model::sent_as(chosen@, id@, meta@));
}

} // verus!
