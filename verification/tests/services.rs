use std::sync::Arc;

use maki_providers::assoc::AssocMap;
use maki_providers::catalog::data::{
    CatalogCost, CatalogIndex, CatalogModel, CatalogProvider, EndpointType, Meta, Price,
    ResolvedAuth,
};
use maki_providers::credentials::Texts;
use maki_providers::error::AgentError;
use maki_providers::host::Host;
use maki_providers::model::Model;
use maki_providers::opencode::backend::{Backend, Catalog};
use maki_providers::opencode::building::{
    assemble, enable_free_models, next_build_action, BuildAction, BuildEvent,
};
use maki_providers::opencode::catalog::GO_PROVIDER_ID;
use maki_providers::opencode::{
    catalog_provider, catalog_provider_info, catalog_provider_slugs, catalog_providers,
    catalog_providers_if_available, claim_rebuild_flag, Catalogs, Opencode, Start,
};
use maki_providers::provider::ProviderKind;

const TEST_MODEL_ID: &str = "rebuild-test-model";

fn texts(pairs: &[(&str, &str)]) -> Texts {
    AssocMap::from_pairs(pairs.iter().map(|(k, v)| (k.to_string(), v.to_string())).collect())
}

fn host() -> Host {
    Host {
        env: texts(&[]),
        saved: texts(&[]),
        builtins: vec!["anthropic".to_string(), "zai".to_string()],
        config: AssocMap::new(),
        bedrock: false,
        creatable: vec![],
        dynamic: vec![],
        dynamic_named: vec![],
        declared: vec![],
    }
}

fn go_catalog_with_model() -> Catalog {
    let mut catalog = Catalog::empty();
    catalog.entries.insert(
        (GO_PROVIDER_ID.to_string(), TEST_MODEL_ID.to_string()),
        Meta {
            provider_id: GO_PROVIDER_ID.to_string(),
            api_format: EndpointType::ChatCompletions,
            context: 128_000,
            output: 64_000,
            input_price: Price { bits: 0.0f64.to_bits() },
            output_price: Price { bits: 0.0f64.to_bits() },
            cache_read: Price { bits: 0.0f64.to_bits() },
            cache_write: Price { bits: 0.0f64.to_bits() },
            vision: false,
            supports_thinking: true,
        },
    );
    catalog
}

fn paid() -> CatalogModel {
    CatalogModel {
        cost: Some(CatalogCost {
            input: Some(Price { bits: 1.0f64.to_bits() }),
            output: Some(Price { bits: 2.0f64.to_bits() }),
            cache_read: None,
            cache_write: None,
        }),
        api_format: None,
        context: 1000,
        output: 100,
        vision: false,
        supports_thinking: false,
    }
}

fn provider(name: &str, env: &str, models: &[&str]) -> CatalogProvider {
    CatalogProvider {
        name: name.to_string(),
        env: vec![env.to_string()],
        npm: "@ai-sdk/openai-compatible".to_string(),
        api: Some(format!("https://{name}/v1")),
        models: AssocMap::from_pairs(models.iter().map(|m| (m.to_string(), paid())).collect()),
    }
}

fn index() -> CatalogIndex {
    AssocMap::from_pairs(vec![
        ("opencode".to_string(), provider("zen", "OPENCODE_API_KEY", &["z"])),
        ("opencode-go".to_string(), provider("go", "OPENCODE_API_KEY", &["g"])),
        ("nvidia".to_string(), provider("nvidia", "NV_KEY", &["n", "m"])),
    ])
}

fn model(id: &str, provider: ProviderKind) -> Model {
    Model {
        id: id.to_string(),
        provider,
        dynamic_slug: None,
        max_output_tokens: None,
        context_window: 0,
    }
}

fn keyed_host() -> Host {
    let mut h = host();
    h.env = texts(&[("OPENCODE_API_KEY", "oc"), ("NV_KEY", "nv")]);
    h
}

/// Both catalogs, built of the index with all keys.
fn built() -> Catalogs {
    let mut catalogs = Catalogs::new();
    let h = keyed_host();
    let zen = assemble(Backend::Zen, index(), &h, &mut catalogs.registry);
    catalogs.init_catalog(Backend::Zen, zen);
    let go = assemble(Backend::Go, index(), &h, &mut catalogs.registry);
    catalogs.init_catalog(Backend::Go, go);
    catalogs
}

fn ready(start: Start) -> (Opencode, bool) {
    match start {
        Start::Ready { service, rebuild } => (service, rebuild),
        Start::Build => panic!("the catalog is not built"),
    }
}

#[test]
fn claim_rebuild_flag_allows_one_rebuild_at_a_time() {
    let mut flag = false;
    assert!(claim_rebuild_flag(&mut flag));
    assert!(!claim_rebuild_flag(&mut flag));
    flag = false;
    assert!(claim_rebuild_flag(&mut flag));
    assert!(flag);
}

#[test]
fn apply_rebuilt_catalog_swaps_catalog_and_reseeds_registry() {
    let mut catalogs = Catalogs::new();
    catalogs.init_catalog(Backend::Go, Catalog::empty());
    catalogs.go_rebuild = true;

    catalogs.apply_rebuilt_catalog(
        Backend::Go,
        ProviderKind::OpencodeGo,
        go_catalog_with_model(),
    );

    assert_eq!(catalogs.catalog_for(Backend::Go).unwrap().entries.len(), 1);

    let info = catalogs
        .known
        .discovered(&ProviderKind::OpencodeGo, TEST_MODEL_ID)
        .expect("rebuilt catalog should re-seed the registry");
    assert_eq!(info.supports_thinking, Some(true));

    assert!(!catalogs.rebuild_flag_for(Backend::Go));
}

#[test]
fn apply_rebuilt_catalog_empty_catalog_preserves_rebuild_flag() {
    let mut catalogs = Catalogs::new();
    catalogs.init_catalog(Backend::Go, go_catalog_with_model());
    catalogs.go_rebuild = true;

    catalogs.apply_rebuilt_catalog(Backend::Go, ProviderKind::OpencodeGo, Catalog::empty());

    assert!(catalogs.catalog_for(Backend::Go).unwrap().entries.is_empty());
    assert!(
        catalogs.rebuild_flag_for(Backend::Go),
        "empty catalog rebuild should not clear the rebuild flag"
    );
}

#[test]
fn a_service_without_a_catalog_has_it_built_first() {
    let mut catalogs = Catalogs::new();
    assert!(matches!(Opencode::zen(&mut catalogs), Start::Build));
    assert!(!catalogs.rebuild_flag_for(Backend::Zen));
    assert!(catalogs.known.discovered_models(&ProviderKind::OpencodeZen).is_none());
}

#[test]
fn an_empty_catalog_is_rebuilt_once() {
    let mut catalogs = Catalogs::new();
    catalogs.init_catalog(Backend::Go, Catalog::empty());
    let (service, rebuild) = ready(Opencode::go(&mut catalogs));
    assert_eq!(service.backend, Backend::Go);
    assert!(rebuild);
    assert!(catalogs.rebuild_flag_for(Backend::Go));
    assert!(!catalogs.rebuild_flag_for(Backend::Zen));
    assert!(!ready(Opencode::go(&mut catalogs)).1);

    catalogs.apply_rebuilt_catalog(Backend::Go, ProviderKind::OpencodeGo, Catalog::empty());
    assert!(!ready(Opencode::go(&mut catalogs)).1);

    catalogs.apply_rebuilt_catalog(
        Backend::Go,
        ProviderKind::OpencodeGo,
        go_catalog_with_model(),
    );
    assert!(!catalogs.rebuild_flag_for(Backend::Go));
    assert!(!ready(Opencode::go(&mut catalogs)).1);
}

#[test]
fn a_built_catalog_is_not_built_again() {
    let mut catalogs = Catalogs::new();
    catalogs.init_catalog(Backend::Go, go_catalog_with_model());
    catalogs.init_catalog(Backend::Go, Catalog::empty());
    assert_eq!(catalogs.catalog_for(Backend::Go).unwrap().entries.len(), 1);
    assert!(catalogs.catalog_for(Backend::Zen).is_none());
}

#[test]
fn a_started_service_makes_its_models_and_the_third_parties_known() {
    let mut catalogs = built();
    let nvidia = ProviderKind::Catalog(Arc::from("nvidia"));
    assert!(catalogs.known.discovered_models(&nvidia).is_none());
    let (service, rebuild) = ready(Opencode::zen(&mut catalogs));
    assert!(!rebuild);
    assert!(service.auth.is_none() && service.system_prefix.is_none());
    let known = catalogs.known.discovered_models(&ProviderKind::OpencodeZen).unwrap();
    assert_eq!(known, &service.list_models(&catalogs));
    assert_eq!(known[0].id, "opencode/z");
    assert_eq!(catalogs.known.discovered_models(&nvidia).unwrap().len(), 2);
    assert!(catalogs.known.discovered(&nvidia, "n").is_some());
    assert!(catalogs.known.discovered(&nvidia, "z").is_none());
    assert!(catalogs.known.discovered_models(&ProviderKind::OpencodeGo).is_none());

    let before = catalogs.known.discovered_models(&nvidia).unwrap().clone();
    ready(Opencode::zen(&mut catalogs));
    assert_eq!(catalogs.known.discovered_models(&nvidia).unwrap(), &before);
}

#[test]
fn requests_go_through_the_services_catalog() {
    let mut catalogs = built();
    let (zen, _) = ready(Opencode::zen(&mut catalogs));
    let request = zen.prepare(&catalogs, &model("nvidia/n", ProviderKind::OpencodeZen)).unwrap();
    assert_eq!(request.model.id, "n");
    assert_eq!(request.auth.base_url.as_deref(), Some("https://nvidia/v1"));

    let (go, _) = ready(Opencode::with_auth(
        Backend::Go,
        ResolvedAuth::bearer("given"),
        &mut catalogs,
    ));
    let go = go.with_system_prefix(Some("prefix".to_string()));
    assert_eq!(go.system_prefix.as_deref(), Some("prefix"));
    let request = go.prepare(&catalogs, &model("g", ProviderKind::OpencodeGo)).unwrap();
    assert_eq!(request.auth.headers[0].1, "Bearer given");
    let AgentError::Config { message } =
        go.prepare(&catalogs, &model("z", ProviderKind::OpencodeGo)).unwrap_err();
    assert_eq!(message, "model 'z' not found in catalog");
}

#[test]
fn free_models_are_enabled_by_either_name_but_the_own_goes_first() {
    let config = |entries: &[(&str, Option<bool>)]| {
        AssocMap::from_pairs(entries.iter().map(|(k, v)| (k.to_string(), *v)).collect())
    };
    assert!(!enable_free_models(Backend::Zen, &config(&[])));
    assert!(enable_free_models(Backend::Zen, &config(&[("opencode-zen", Some(true))])));
    assert!(enable_free_models(Backend::Zen, &config(&[("opencode", Some(true))])));
    assert!(!enable_free_models(
        Backend::Zen,
        &config(&[("opencode-zen", None), ("opencode", Some(true))])
    ));
    assert!(!enable_free_models(Backend::Zen, &config(&[("opencode", Some(false))])));
    assert!(!enable_free_models(Backend::Go, &config(&[("opencode-zen", Some(true))])));
}

#[test]
fn a_catalog_comes_from_the_cache_or_is_fetched_and_cached() {
    let h = keyed_host();
    let mut registry = Catalogs::new().registry;
    let mut next = |event| next_build_action(Backend::Zen, event, &h, &mut registry);
    assert!(matches!(next(BuildEvent::Started), BuildAction::ReadCache));
    let BuildAction::Finish { catalog, migrate } = next(BuildEvent::CacheRead(Some(index())))
    else {
        panic!("the cache was not used");
    };
    assert!(migrate);
    assert_eq!(catalog.entries.len(), 3);
    assert!(matches!(
        next(BuildEvent::CacheRead(None)),
        BuildAction::Fetch("opencode-zen catalog")
    ));
    let BuildAction::Save(fetched) = next(BuildEvent::Fetched(Some(index()))) else {
        panic!("the index was not cached");
    };
    let BuildAction::Finish { catalog, migrate } = next(BuildEvent::Saved(fetched)) else {
        panic!("the index was not used");
    };
    assert!(migrate);
    assert_eq!(catalog.entries.len(), 3);
    let BuildAction::Finish { catalog, migrate } = next(BuildEvent::Fetched(None)) else {
        panic!("nothing was fetched");
    };
    assert!(!migrate);
    assert!(catalog.entries.is_empty() && catalog.providers.is_empty());
    assert!(registry.contains("nvidia"));
}

#[test]
fn go_fetches_under_its_own_name_and_registers_nothing() {
    let h = keyed_host();
    let mut registry = Catalogs::new().registry;
    assert!(matches!(
        next_build_action(Backend::Go, BuildEvent::CacheRead(None), &h, &mut registry),
        BuildAction::Fetch("opencode-go catalog")
    ));
    let event = BuildEvent::CacheRead(Some(index()));
    let BuildAction::Finish { catalog, .. } =
        next_build_action(Backend::Go, event, &h, &mut registry)
    else {
        panic!("the cache was not used");
    };
    assert_eq!(catalog.entries.len(), 1);
    assert!(registry.all_slugs().is_empty());
}

#[test]
fn providers_are_shown_in_order_under_distinct_slugs() {
    let catalogs = built();
    let shown = catalog_providers(&catalogs).unwrap();
    let slugs: Vec<&str> = shown.iter().map(|p| p.slug.as_str()).collect();
    assert_eq!(slugs, vec!["nvidia", "opencode-go", "opencode-zen"]);
    assert_eq!(shown[2].display_name, "zen");
    let again = catalog_providers_if_available(&catalogs).unwrap();
    assert_eq!(again.iter().map(|p| p.slug.as_str()).collect::<Vec<_>>(), slugs);
    assert_eq!(catalog_provider(&catalogs, "opencode-go").unwrap().display_name, "go");
    assert_eq!(catalog_provider(&catalogs, "opencode-zen").unwrap().display_name, "zen");
    assert!(catalog_provider(&catalogs, "opencode").is_none());
    assert_eq!(catalog_provider_slugs(&catalogs), vec!["nvidia"]);
    assert_eq!(catalog_provider_info(&catalogs, "nvidia").unwrap().display_name, "nvidia");
    assert!(catalog_provider_info(&catalogs, "opencode").is_none());
}

#[test]
fn zen_is_asked_before_go() {
    let mut catalogs = Catalogs::new();
    let mut zen = Catalog::empty();
    zen.providers.insert("shared".to_string(), provider("from-zen", "K", &[]));
    let mut go = Catalog::empty();
    go.providers.insert("shared".to_string(), provider("from-go", "K", &[]));
    go.providers.insert("only-go".to_string(), provider("only-go", "K", &[]));
    catalogs.init_catalog(Backend::Go, go);
    assert!(catalog_providers(&catalogs).is_none());
    assert_eq!(catalog_provider(&catalogs, "shared").unwrap().display_name, "from-go");
    catalogs.init_catalog(Backend::Zen, zen);
    assert_eq!(catalog_provider(&catalogs, "shared").unwrap().display_name, "from-zen");
    let shown = catalog_providers(&catalogs).unwrap();
    let names: Vec<&str> = shown.iter().map(|p| p.display_name.as_str()).collect();
    assert_eq!(names, vec!["only-go", "from-zen"]);
}

#[test]
fn nothing_is_shown_before_a_catalog_is_built() {
    let catalogs = Catalogs::new();
    assert!(catalog_providers_if_available(&catalogs).is_none());
    assert!(catalog_provider(&catalogs, "nvidia").is_none());
    assert!(catalog_provider_slugs(&catalogs).is_empty());
}

#[test]
fn everything_offered_is_found_and_every_third_party_model_is_registered() {
    let catalogs = built();
    let zen = catalogs.catalog_for(Backend::Zen).unwrap();
    assert_eq!(zen.entries.len(), 3);
    for i in 0..zen.entries.len() {
        let (key, meta) = zen.entries.entry(i);
        assert_eq!(meta.provider_id, key.0);
        let (found, _) = Backend::Zen.lookup(zen, &format!("{}/{}", key.0, key.1), None).unwrap();
        assert_eq!(found.provider_id, key.0);
        assert!(zen.providers.contains_key(&key.0));
        if key.0 != "opencode" {
            let info = catalogs.registry.get(&key.0).unwrap();
            let listed = info.models.iter().find(|m| m.id == key.1).unwrap();
            assert_eq!(listed.meta.output, meta.output);
        }
    }
    for listed in Backend::Zen.all_models(zen) {
        let (meta, _) = Backend::Zen.lookup(zen, &listed.id, None).unwrap();
        assert_eq!(listed.max_output_tokens, Some(meta.output));
    }
}

#[test]
fn what_is_found_under_a_slug_is_what_the_list_shows() {
    let mut catalogs = Catalogs::new();
    let mut zen = Catalog::empty();
    zen.providers.insert("opencode-zen".to_string(), provider("literal", "K", &[]));
    zen.providers.insert("opencode".to_string(), provider("renamed", "K", &[]));
    zen.providers.insert("nvidia".to_string(), provider("nvidia", "K", &[]));
    catalogs.init_catalog(Backend::Zen, zen);
    let shown = catalog_providers_if_available(&catalogs).unwrap();
    let names: Vec<&str> = shown.iter().map(|p| p.display_name.as_str()).collect();
    assert_eq!(names, vec!["nvidia", "literal"]);
    for p in &shown {
        assert_eq!(catalog_provider(&catalogs, &p.slug).unwrap().display_name, p.display_name);
    }
    assert!(catalog_provider(&catalogs, "opencode").is_none());
}
