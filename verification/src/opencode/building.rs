//! How the catalog of a service comes about: from the cached index, or else from a fetched one.

use vstd::prelude::*;

use crate::catalog::data::{CatalogIndex, CatalogIndexView, ZEN_CATALOG_KEY, ZEN_MAKI_SLUG};
use crate::catalog::registry::Registry;
use crate::host::{Host, HostView, ProvidersConfig};
use crate::opencode::backend;
use crate::opencode::backend::{Backend, Catalog, CatalogView};
use crate::opencode::catalog;
use crate::opencode::catalog::resolve_provider_keys;
use crate::plan::RegistryView;

verus! {

/// What has happened while a catalog comes about.
pub enum BuildEvent {
    /// Nothing yet.
    Started,
    /// The cache was read, and held an index or not.
    CacheRead(Option<CatalogIndex>),
    /// The index was asked for, and came or not.
    Fetched(Option<CatalogIndex>),
    /// The index that came was put into the cache.
    Saved(CatalogIndex),
}

/// What is to be done next.
pub enum BuildAction {
    ReadCache,
    /// Ask for the index, under this name.
    Fetch(&'static str),
    /// Put the index into the cache.
    Save(CatalogIndex),
    /// Use the catalog. Where it was built of an index, overrides of tiers are brought up to date.
    Finish { catalog: Catalog, migrate: bool },
}

/// Free models are enabled for the service. Zen goes by its own configuration or else by the one
/// under its former name.
pub open spec fn free_models_enabled(
    backend: Backend,
    config: Map<Seq<char>, Option<bool>>,
) -> bool {
    match backend {
        Backend::Zen => if config.contains_key(ZEN_MAKI_SLUG@) {
            config[ZEN_MAKI_SLUG@] == Some(true)
        } else {
            config.contains_key(ZEN_CATALOG_KEY@) && config[ZEN_CATALOG_KEY@] == Some(true)
        },
        Backend::Go => false,
    }
}

/// The catalog that the service makes of the index.
pub open spec fn built(backend: Backend, index: CatalogIndexView, host: HostView) -> CatalogView {
    backend.catalog_of(
        index,
        catalog::provider_keys(index, host.saved, host.env),
        free_models_enabled(backend, host.config),
        host.builtins,
    )
}

/// What is registered once the service has made a catalog of the index: Zen registers the
/// third-party providers anew.
pub open spec fn registers(
    backend: Backend,
    index: CatalogIndexView,
    host: HostView,
    before: RegistryView,
    after: RegistryView,
) -> bool {
    match backend {
        Backend::Zen => backend::is_zen_registry(
            after,
            index,
            free_models_enabled(backend, host.config),
            host.builtins,
        ),
        Backend::Go => after == before,
    }
}

/// The name under which a service asks for the index.
pub open spec fn client_name(backend: Backend) -> Seq<char> {
    match backend {
        Backend::Zen => "opencode-zen catalog"@,
        Backend::Go => "opencode-go catalog"@,
    }
}

/// Whether free models are enabled for the service.
pub fn enable_free_models(backend: Backend, config: &ProvidersConfig) -> (enabled: bool)
    ensures
        enabled == free_models_enabled(backend, config@),
{
    match backend {
        Backend::Zen => {
            let flag = match config.get(&ZEN_MAKI_SLUG.to_owned()) {
                Some(flag) => Some(flag),
                None => config.get(&ZEN_CATALOG_KEY.to_owned()),
            };
            match flag {
                Some(Some(enabled)) => *enabled,
                _ => false,
            }
        },
        Backend::Go => false,
    }
}

/// The catalog that the service makes of the index, with the keys that the surroundings hold.
pub fn assemble(backend: Backend, index: CatalogIndex, host: &Host, registry: &mut Registry) -> (
catalog: Catalog)
    ensures
        catalog@ == built(backend, index@, host@),
        registers(backend, index@, host@, old(registry)@, final(registry)@),
{
    let keys = resolve_provider_keys(&index, &host.saved, &host.env);
    let enabled = enable_free_models(backend, &host.config);
    backend.build_catalog(index, &keys, enabled, &host.builtins, registry)
}

/// What is to be done after `event`. An index is taken from the cache where it holds one; one that
/// was fetched is cached before it is used; and without any the catalog is empty.
pub fn next_build_action(
    backend: Backend,
    event: BuildEvent,
    host: &Host,
    registry: &mut Registry,
) -> (action: BuildAction)
    ensures
        match event {
            BuildEvent::Started => action == BuildAction::ReadCache,
            BuildEvent::CacheRead(None) => action matches BuildAction::Fetch(name) && name@
                == client_name(backend),
            BuildEvent::CacheRead(Some(index)) | BuildEvent::Saved(index) => {
                &&& action matches BuildAction::Finish { catalog, migrate }
                &&& catalog@ == built(backend, index@, host@)
                &&& migrate
                &&& registers(backend, index@, host@, old(registry)@, final(registry)@)
            },
            BuildEvent::Fetched(Some(index)) => action == BuildAction::Save(index),
            BuildEvent::Fetched(None) => {
                &&& action matches BuildAction::Finish { catalog, migrate }
                &&& catalog@ == CatalogView::nothing()
                &&& !migrate
            },
        },
        !(event is Saved || event matches BuildEvent::CacheRead(Some(_))) ==> *final(registry)
            == *old(registry),
{
    match event {
        BuildEvent::Started => BuildAction::ReadCache,
        BuildEvent::CacheRead(Some(index)) => BuildAction::Finish {
            catalog: assemble(backend, index, host, registry),
            migrate: true,
        },
        BuildEvent::CacheRead(None) => BuildAction::Fetch(
            match backend {
                Backend::Zen => "opencode-zen catalog",
                Backend::Go => "opencode-go catalog",
            },
        ),
        BuildEvent::Fetched(Some(index)) => BuildAction::Save(index),
        BuildEvent::Fetched(None) => BuildAction::Finish {
            catalog: Catalog::empty(),
            migrate: false,
        },
        BuildEvent::Saved(index) => BuildAction::Finish {
            catalog: assemble(backend, index, host, registry),
            migrate: true,
        },
    }
}

} // verus!
