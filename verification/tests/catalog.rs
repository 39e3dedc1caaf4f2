use std::sync::Arc;

use maki_providers::assoc::AssocMap;
use maki_providers::catalog::cat_provider::CatalogProvider;
use maki_providers::catalog::data::{
    maki_slug_for, CatalogProvider as IndexProvider, EndpointType, Meta, Price, ResolvedAuth,
};
use maki_providers::catalog::provider_data::ProviderData;
use maki_providers::catalog::registry::{CatalogModelInfo, CatalogProviderInfo};
use maki_providers::credentials::Texts;
use maki_providers::error::AgentError;
use maki_providers::model::Model;
use maki_providers::opencode::catalog::{resolve_provider_key, resolve_provider_keys};
use maki_providers::provider::ProviderKind;

fn texts(pairs: &[(&str, &str)]) -> Texts {
    AssocMap::from_pairs(pairs.iter().map(|(k, v)| (k.to_string(), v.to_string())).collect())
}

fn info_with_base_url(base_url: Option<&str>) -> CatalogProviderInfo {
    CatalogProviderInfo {
        display_name: "Neuralwatt".into(),
        env_keys: vec![],
        base_url: base_url.map(String::from),
        features: "Neuralwatt models".into(),
        models: Vec::new(),
    }
}

#[test]
fn new_propagates_info_base_url_to_auth() {
    let info = info_with_base_url(Some("https://api.neuralwatt.com/v1"));
    let auth = ResolvedAuth::bearer("token");
    assert!(auth.base_url.is_none());

    let provider = CatalogProvider::new(Arc::from("neuralwatt"), info, auth);

    assert_eq!(provider.auth.base_url.as_deref(), Some("https://api.neuralwatt.com/v1"));
}

#[test]
fn new_preserves_existing_auth_base_url_over_info_base_url() {
    let info = info_with_base_url(Some("https://api.neuralwatt.com/v1"));
    let mut auth = ResolvedAuth::bearer("token");
    auth.base_url = Some("https://override.example/v1".into());

    let provider = CatalogProvider::new(Arc::from("neuralwatt"), info, auth);

    assert_eq!(provider.auth.base_url.as_deref(), Some("https://override.example/v1"));
}

fn neuralwatt() -> CatalogProvider {
    let mut info = info_with_base_url(Some("https://api.neuralwatt.com/v1"));
    info.env_keys = vec!["NW_KEY".into()];
    let meta = |context: u32| Meta {
        provider_id: "neuralwatt".into(),
        api_format: EndpointType::ChatCompletions,
        context,
        output: 64,
        input_price: Price { bits: 1.5f64.to_bits() },
        output_price: Price { bits: 0 },
        cache_read: Price { bits: 0 },
        cache_write: Price { bits: 0 },
        vision: true,
        supports_thinking: false,
    };
    info.models = vec![
        CatalogModelInfo { id: "b".into(), meta: meta(1) },
        CatalogModelInfo { id: "a".into(), meta: meta(2) },
    ];
    CatalogProvider::new(Arc::from("neuralwatt"), info, ResolvedAuth::bearer("token"))
}

fn chosen(id: &str) -> Model {
    Model {
        id: id.into(),
        provider: ProviderKind::Catalog(Arc::from("neuralwatt")),
        dynamic_slug: Some("s".into()),
        max_output_tokens: None,
        context_window: 9,
    }
}

#[test]
fn third_party_requests_keep_the_id() {
    let request = neuralwatt().prepare(&chosen("a")).unwrap();
    assert_eq!(request.model.id, "a");
    assert_eq!(request.model.context_window, 2);
    assert_eq!(request.model.max_output_tokens, Some(64));
    assert_eq!(request.model.dynamic_slug.as_deref(), Some("s"));
    assert_eq!(request.model.provider.slug(), Some("neuralwatt"));
    assert_eq!(request.endpoint, EndpointType::ChatCompletions);
    assert_eq!(request.auth.headers[0].1, "Bearer token");
}

#[test]
fn third_party_requests_for_other_models_fail() {
    let AgentError::Config { message } = neuralwatt().prepare(&chosen("c")).unwrap_err();
    assert_eq!(message, "model 'c' not found in catalog provider 'neuralwatt'");
}

#[test]
fn third_party_models_are_listed_as_registered() {
    let models = neuralwatt().list_models();
    assert_eq!(models.iter().map(|m| m.id.as_str()).collect::<Vec<_>>(), vec!["b", "a"]);
    assert_eq!(models[1].context_window, Some(2));
    assert_eq!(models[1].supports_vision, Some(true));
    assert_eq!(models[1].supports_thinking, Some(false));
    assert_eq!(f64::from_bits(models[0].pricing.unwrap().input.bits), 1.5);
}

#[test]
fn reload_takes_the_new_key_or_keeps_the_old() {
    let mut provider = neuralwatt();
    let none = texts(&[]);
    let AgentError::Config { message } = provider.reload_auth(&none, &none).unwrap_err();
    assert_eq!(
        message,
        "catalog provider 'neuralwatt' not configured — set one of [\"NW_KEY\"] or run `maki auth login neuralwatt`"
    );
    assert_eq!(provider.auth.headers[0].1, "Bearer token");

    provider.reload_auth(&none, &texts(&[("neuralwatt", "saved")])).unwrap();
    assert_eq!(provider.auth.headers[0].1, "Bearer saved");
    assert_eq!(provider.auth.base_url.as_deref(), Some("https://api.neuralwatt.com/v1"));

    let saved = texts(&[("neuralwatt", "saved")]);
    provider.reload_auth(&texts(&[("NW_KEY", "env")]), &saved).unwrap();
    assert_eq!(provider.auth.headers[0].1, "Bearer env");
}

fn test_provider() -> ProviderData {
    ProviderData {
        slug: "test-provider".into(),
        display_name: "Test Provider".into(),
        env_keys: vec!["TEST_API_KEY".into()],
        base_url: Some("https://test.api/v1".into()),
        npm: "@ai-sdk/openai-compatible".into(),
        api_format: EndpointType::ChatCompletions,
    }
}

fn data(slug: &str, env_keys: &[&str]) -> ProviderData {
    ProviderData {
        slug: slug.into(),
        display_name: "Test".into(),
        env_keys: env_keys.iter().map(|k| k.to_string()).collect(),
        base_url: None,
        npm: "@ai-sdk/openai-compatible".into(),
        api_format: EndpointType::ChatCompletions,
    }
}

#[test]
fn load_key_from_storage_returns_key_when_saved() {
    let saved = texts(&[("test-provider", "sk-test-123")]);
    let pd = test_provider();
    assert_eq!(pd.load_key_from_storage(&saved), Some("sk-test-123".into()));
}

#[test]
fn load_key_from_storage_returns_none_when_not_saved() {
    let pd = test_provider();
    assert!(pd.load_key_from_storage(&texts(&[])).is_none());
}

#[test]
fn env_key_set_returns_env_var_name_when_set() {
    let env = texts(&[("MAKI_TEST_ENV_KEY_1", "dummy")]);
    let pd = data("test", &["MAKI_NONEXISTENT_2", "MAKI_TEST_ENV_KEY_1"]);
    assert_eq!(pd.env_key_set(&env), Some("MAKI_TEST_ENV_KEY_1"));
}

#[test]
fn env_key_set_returns_none_when_no_env_vars_set() {
    let pd = data("test", &["MAKI_NONEXISTENT_3"]);
    assert!(pd.env_key_set(&texts(&[])).is_none());
}

#[test]
fn resolve_api_key_prefers_env_over_storage() {
    let env = texts(&[("MAKI_TEST_ENV_FIRST_4", "from-env")]);
    let saved = texts(&[("test-env-first", "from-storage")]);
    let pd = data("test-env-first", &["MAKI_TEST_ENV_FIRST_4"]);
    assert_eq!(pd.resolve_api_key(&saved, &env), Some("from-env".into()));
}

#[test]
fn resolve_api_key_falls_back_to_storage() {
    let saved = texts(&[("test-fallback", "from-storage")]);
    let pd = data("test-fallback", &["MAKI_NONEXISTENT_5"]);
    assert_eq!(pd.resolve_api_key(&saved, &texts(&[])), Some("from-storage".into()));
}

#[test]
fn resolve_api_key_returns_none_when_nothing_available() {
    let pd = data("test-none", &["MAKI_NONEXISTENT_6"]);
    assert!(pd.resolve_api_key(&texts(&[]), &texts(&[])).is_none());
}

fn index_provider(name: &str, env: &str, npm: &str, api: Option<&str>) -> IndexProvider {
    IndexProvider {
        name: name.into(),
        env: vec![env.into()],
        npm: npm.into(),
        api: api.map(String::from),
        models: AssocMap::new(),
    }
}

fn opencode() -> IndexProvider {
    index_provider(
        "Opencode",
        "OPENCODE_API_KEY",
        "@ai-sdk/openai-compatible",
        Some("https://opencode.ai/zen/v1"),
    )
}

#[test]
fn resolve_provider_key_returns_none_when_env_unset() {
    let provider = index_provider("Test", "MAKI_TEST_UNUSED_VAR_1", "@ai-sdk/openai", None);
    assert_eq!(provider.env, vec!["MAKI_TEST_UNUSED_VAR_1"]);
    let key = resolve_provider_key(&provider, &texts(&[]), "opencode", &texts(&[]));
    assert!(key.is_none());
}

#[test]
fn resolve_provider_key_returns_saved_when_env_unset() {
    let saved = texts(&[("opencode-zen", "from-saved")]);
    let key = resolve_provider_key(&opencode(), &saved, "opencode-zen", &texts(&[]));
    assert_eq!(key, Some("from-saved".into()));
}

#[test]
fn resolve_provider_key_reads_legacy_saved_credentials() {
    let saved = texts(&[("opencode", "from-legacy-saved")]);
    let key = resolve_provider_key(&opencode(), &saved, "opencode-zen", &texts(&[]));
    assert_eq!(key, Some("from-legacy-saved".into()));
}

#[test]
fn resolve_provider_key_env_takes_priority_over_saved() {
    let saved = texts(&[("opencode-zen", "from-saved")]);
    let env = texts(&[("OPENCODE_API_KEY", "from-env")]);
    let key = resolve_provider_key(&opencode(), &saved, "opencode-zen", &env);
    assert_eq!(key, Some("from-env".into()));
}

#[test]
fn resolve_provider_key_returns_none_when_nothing_available() {
    let key = resolve_provider_key(&opencode(), &texts(&[]), "opencode-zen", &texts(&[]));
    assert!(key.is_none());
}

#[test]
fn saved_keys_are_for_the_services_alone() {
    let saved = texts(&[("nvidia", "k"), ("opencode", "former"), ("opencode-zen", "own")]);
    let nvidia = index_provider("NVIDIA", "NV_KEY", "@ai-sdk/openai-compatible", None);
    assert!(resolve_provider_key(&nvidia, &saved, "nvidia", &texts(&[])).is_none());
    let key = resolve_provider_key(&opencode(), &saved, "opencode-zen", &texts(&[]));
    assert_eq!(key, Some("own".into()));
    let saved = texts(&[("opencode", "former")]);
    assert!(resolve_provider_key(&opencode(), &saved, "opencode-go", &texts(&[])).is_none());
}

#[test]
fn keys_are_resolved_for_every_provider() {
    let index = AssocMap::from_pairs(vec![
        ("opencode".to_string(), opencode()),
        ("opencode-go".to_string(), opencode()),
        (
            "nvidia".to_string(),
            index_provider("NVIDIA", "NV_KEY", "@ai-sdk/openai-compatible", None),
        ),
    ]);
    let saved = texts(&[("opencode-zen", "zen"), ("opencode-go", "go")]);
    let keys = resolve_provider_keys(&index, &saved, &texts(&[("OTHER", "x")]));
    assert_eq!(keys.len(), 3);
    assert_eq!(keys.get(&"opencode".to_string()).unwrap().as_deref(), Some("zen"));
    assert_eq!(keys.get(&"opencode-go".to_string()).unwrap().as_deref(), Some("go"));
    assert_eq!(keys.get(&"nvidia".to_string()).unwrap().as_deref(), None);
}

#[test]
fn entries_are_shown_under_the_slugs_that_users_know() {
    let shown = ProviderData::from_catalog_entry("opencode", &opencode());
    assert_eq!(shown.slug, "opencode-zen");
    assert_eq!(shown.display_name, "Opencode");
    assert_eq!(shown.env_keys, vec!["OPENCODE_API_KEY"]);
    assert_eq!(shown.base_url.as_deref(), Some("https://opencode.ai/zen/v1"));
    assert_eq!(shown.api_format, EndpointType::ChatCompletions);
    assert_eq!(maki_slug_for("nvidia"), "nvidia");
    let copy = shown.clone();
    assert_eq!(copy.npm, "@ai-sdk/openai-compatible");
}
