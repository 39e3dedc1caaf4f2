//! Free models: what is free, who enables it, and what is offered then.

use vstd::prelude::*;

use crate::assoc::AssocMap;
use crate::catalog::data;
use crate::catalog::data::{
    CatalogIndex, CatalogIndexView, CatalogModel, CatalogProviderView, EndpointType, MetaView,
    Price,
};
use crate::host::{HostView, ProvidersConfig};
use crate::opencode::backend;
use crate::opencode::backend::{Backend, Catalog, KeysView};
use crate::opencode::building;

verus! {

/// There is no price, or it is zero of either sign.
pub open spec fn no_price(price: Option<Price>) -> bool {
    match price {
        None => true,
        Some(p) => p.bits == 0 || p.bits == 0x8000_0000_0000_0000u64,
    }
}

/// Neither asking nor answering costs anything.
pub open spec fn costs_nothing(model: CatalogModel) -> bool {
    match model.cost {
        None => true,
        Some(cost) => no_price(cost.input) && no_price(cost.output),
    }
}

/// What the configuration says of free models in the entry that Zen goes by: its own where there is
/// one, and else the one under its former name.
pub open spec fn zen_flag(config: Map<Seq<char>, Option<bool>>) -> Option<bool> {
    if config.contains_key("opencode-zen"@) {
        config["opencode-zen"@]
    } else if config.contains_key("opencode"@) {
        config["opencode"@]
    } else {
        None
    }
}

/// A provider speaks one of the two protocols, at an address.
pub open spec fn can_be_spoken_to(provider: CatalogProviderView) -> bool {
    &&& provider.npm == "@ai-sdk/openai-compatible"@ || provider.npm == "@ai-sdk/anthropic"@
    &&& provider.api is Some
}

/// Zen admits the provider: it can be spoken to, is not Go's entry and, unless it is the first
/// party, is not supported by other means.
pub open spec fn zen_admits(
    index: CatalogIndexView,
    builtins: Seq<Seq<char>>,
    id: Seq<char>,
) -> bool {
    &&& index.contains_key(id)
    &&& can_be_spoken_to(index[id])
    &&& id != "opencode-go"@
    &&& id != "opencode"@ ==> {
        &&& id != "zai-coding-plan"@
        &&& id != "github-copilot"@
        &&& !builtins.contains(id)
    }
}

/// A key was found for the provider.
pub open spec fn has_key(keys: KeysView, id: Seq<char>) -> bool {
    keys.contains_key(id) && keys[id] is Some
}

/// The protocol by which a model is asked: its own where it has one, and else its provider's.
pub open spec fn protocol_of(provider: CatalogProviderView, model: CatalogModel) -> EndpointType {
    match model.api_format {
        Some(own) => own,
        None => if provider.npm == "@ai-sdk/anthropic"@ {
            EndpointType::Messages
        } else {
            EndpointType::ChatCompletions
        },
    }
}

/// `price` is what the index gives, or zero where it gives nothing.
pub open spec fn price_is(price: Price, given: Option<Price>) -> bool {
    match given {
        Some(p) => price == p,
        None => price.bits == 0,
    }
}

/// `meta` says of a model what the index says of it.
pub open spec fn tells_of(
    meta: MetaView,
    id: Seq<char>,
    provider: CatalogProviderView,
    model: CatalogModel,
) -> bool {
    &&& meta.provider_id == id
    &&& meta.api_format == protocol_of(provider, model)
    &&& meta.context == model.context
    &&& meta.output == model.output
    &&& meta.vision == model.vision
    &&& meta.supports_thinking == model.supports_thinking
    &&& match model.cost {
        None => {
            &&& meta.input_price.bits == 0
            &&& meta.output_price.bits == 0
            &&& meta.cache_read.bits == 0
            &&& meta.cache_write.bits == 0
        },
        Some(cost) => {
            &&& price_is(meta.input_price, cost.input)
            &&& price_is(meta.output_price, cost.output)
            &&& price_is(meta.cache_read, cost.cache_read)
            &&& price_is(meta.cache_write, cost.cache_write)
        },
    }
}

/// Zen enables free models exactly where the entry that it goes by says yes. No entry, and an entry
/// that says no or nothing, enable none.
pub proof fn zen_enables_where_the_entry_says_yes(config: &ProvidersConfig, enabled: bool)
    requires
        call_ensures(building::enable_free_models, (Backend::Zen, config), enabled),
    ensures
        enabled <==> zen_flag(config@) == Some(true),
        zen_flag(config@) == Some(false) || zen_flag(config@) is None ==> !enabled,
{
}

/// Go enables no free models, whatever the configuration says.
pub proof fn go_enables_none(config: &ProvidersConfig, enabled: bool)
    requires
        call_ensures(building::enable_free_models, (Backend::Go, config), enabled),
    ensures
        !enabled,
{
}

/// What Zen's own entry says decides, whatever else the configuration holds.
pub proof fn own_entry_decides(
    before: &ProvidersConfig,
    after: &ProvidersConfig,
    flag: Option<bool>,
    enabled: bool,
)
    requires
        after@ == before@.insert("opencode-zen"@, flag),
        call_ensures(building::enable_free_models, (Backend::Zen, after), enabled),
    ensures
        enabled == (flag == Some(true)),
{
}

/// Entries of other providers decide nothing.
pub proof fn other_entries_decide_nothing(
    before: &ProvidersConfig,
    after: &ProvidersConfig,
    name: Seq<char>,
    flag: Option<bool>,
    was: bool,
    is: bool,
)
    requires
        name != "opencode-zen"@,
        name != "opencode"@,
        after@ == before@.insert(name, flag),
        call_ensures(building::enable_free_models, (Backend::Zen, before), was),
        call_ensures(building::enable_free_models, (Backend::Zen, after), is),
    ensures
        is == was,
{
}

/// A model is free exactly where neither asking nor answering costs anything.
pub proof fn free_is_costing_nothing(model: &CatalogModel, free: bool)
    requires
        call_ensures(backend::model_is_free, (model,), free),
    ensures
        free == costs_nothing(*model),
{
}

/// A user who did not switch free models on is offered none by Zen.
pub proof fn switched_off_offers_nothing_free(
    index: CatalogIndexView,
    host: HostView,
    key: (Seq<char>, Seq<char>),
)
    requires
        zen_flag(host.config) != Some(true),
        building::built(Backend::Zen, index, host).entries.contains_key(key),
    ensures
        !costs_nothing(index[key.0].models[key.1]),
{
}

/// A user who switched free models on is offered by Zen every free model of the first party, with
/// or without a key.
pub proof fn switched_on_offers_free_first_party(
    index: CatalogIndexView,
    host: HostView,
    model: Seq<char>,
)
    requires
        zen_flag(host.config) == Some(true),
        zen_admits(index, host.builtins, "opencode"@),
        index["opencode"@].models.contains_key(model),
        costs_nothing(index["opencode"@].models[model]),
    ensures
        building::built(Backend::Zen, index, host).entries.contains_key(("opencode"@, model)),
{
}

/// Zen offers a model exactly where it admits its provider, free models only where they are
/// enabled, and without a key only what is free at the first party; and says of it what the index
/// says.
pub proof fn zen_offers_exactly(
    index: CatalogIndexView,
    keys: KeysView,
    enabled: bool,
    builtins: Seq<Seq<char>>,
    key: (Seq<char>, Seq<char>),
)
    ensures
        ({
            let c = Backend::Zen.catalog_of(index, keys, enabled, builtins);
            let model = index[key.0].models[key.1];
            &&& c.entries.contains_key(key) <==> {
                &&& zen_admits(index, builtins, key.0)
                &&& index[key.0].models.contains_key(key.1)
                &&& enabled || !costs_nothing(model)
                &&& has_key(keys, key.0) || key.0 == "opencode"@ && costs_nothing(model)
            }
            &&& c.entries.contains_key(key) ==> tells_of(
                c.entries[key],
                key.0,
                index[key.0],
                model,
            )
            &&& c.providers.contains_key(key.0) <==> zen_admits(index, builtins, key.0)
            &&& c.providers.contains_key(key.0) ==> c.providers[key.0] == index[key.0]
        }),
{
}

/// Go offers every model of its own entry, free or not, where the entry can be spoken to and has a
/// key; and nothing else.
pub proof fn go_offers_exactly(
    index: &CatalogIndex,
    keys: &AssocMap<String, Option<String>>,
    catalog: Catalog,
    key: (Seq<char>, Seq<char>),
)
    requires
        call_ensures(backend::build_go_catalog, (index, keys), catalog),
    ensures
        ({
            let go = "opencode-go"@;
            let admitted = index@.contains_key(go) && can_be_spoken_to(index@[go]);
            &&& catalog@.entries.contains_key(key) <==> {
                &&& key.0 == go
                &&& admitted
                &&& has_key(keys@, go)
                &&& index@[go].models.contains_key(key.1)
            }
            &&& catalog@.entries.contains_key(key) ==> tells_of(
                catalog@.entries[key],
                go,
                index@[go],
                index@[go].models[key.1],
            )
            &&& catalog@.providers.contains_key(key.0) <==> key.0 == go && admitted
            &&& catalog@.providers.contains_key(go) ==> catalog@.providers[go] == index@[go]
            &&& catalog@.auths.contains_key(key.0) <==> key.0 == go && admitted && has_key(keys@, go)
            &&& catalog@.anthropic_auths.contains_key(key.0) <==> catalog@.auths.contains_key(key.0)
        }),
{
}

/// Both services make of an index what their catalogs say, through the one builder.
pub proof fn the_builder_goes_by_the_service(
    b: &Backend,
    index: CatalogIndex,
    keys: &AssocMap<String, Option<String>>,
    enabled: bool,
    builtins: &Vec<String>,
    registry: &mut crate::catalog::registry::Registry,
    catalog: Catalog,
    key: (Seq<char>, Seq<char>),
)
    requires
        call_ensures(
            Backend::build_catalog,
            (b, index, keys, enabled, builtins, registry),
            catalog,
        ),
        catalog@.entries.contains_key(key),
    ensures
        b is Go <==> key.0 == "opencode-go"@,
        has_key(keys@, key.0) || key.0 == "opencode"@ && enabled && costs_nothing(
            index@[key.0].models[key.1],
        ),
        tells_of(catalog@.entries[key], key.0, index@[key.0], index@[key.0].models[key.1]),
{
}

/// A price that is not given is zero, and zero of either sign is zero; no other price is.
pub proof fn missing_price_is_zero(given: Option<Price>, price: Price, zero: bool)
    requires
        call_ensures(data::or_zero, (given,), price),
        call_ensures(Price::is_zero, (price,), zero),
    ensures
        price_is(price, given),
        zero <==> no_price(given),
{
}

} // verus!
