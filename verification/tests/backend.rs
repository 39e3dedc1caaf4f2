use maki_providers::assoc::AssocMap;
use maki_providers::catalog::data::{
    CatalogCost, CatalogIndex, CatalogModel, CatalogProvider, EndpointType, Meta, Price,
    ResolvedAuth, ZEN_CATALOG_KEY,
};
use maki_providers::catalog::registry::Registry;
use maki_providers::error::AgentError;
use maki_providers::model::Model;
use maki_providers::opencode::backend::{
    admit_provider, build_go_catalog, build_zen_catalog, build_zen_registry, model_is_free, Backend,
    Catalog,
};
use maki_providers::opencode::catalog::{GO_PROVIDER_ID, PUBLIC_KEY};
use maki_providers::opencode::request::GO_DEFAULT_MODEL;
use maki_providers::provider::ProviderKind;

const COMPATIBLE: &str = "@ai-sdk/openai-compatible";

type Keys = AssocMap<String, Option<String>>;

fn price(value: f64) -> Price {
    Price { bits: value.to_bits() }
}

fn cost(input: f64, output: f64) -> Option<CatalogCost> {
    Some(CatalogCost {
        input: Some(price(input)),
        output: Some(price(output)),
        cache_read: None,
        cache_write: None,
    })
}

fn model_with(cost: Option<CatalogCost>, context: u32, output: u32) -> CatalogModel {
    CatalogModel {
        cost,
        api_format: None,
        context,
        output,
        vision: false,
        supports_thinking: false,
    }
}

fn paid_model() -> CatalogModel {
    model_with(cost(5.0, 25.0), 0, 0)
}

fn free_model() -> CatalogModel {
    model_with(cost(0.0, 0.0), 0, 0)
}

fn unpriced_model() -> CatalogModel {
    model_with(None, 0, 0)
}

fn provider_with_models(
    name: &str,
    env: Vec<&str>,
    npm: &str,
    api: Option<&str>,
    models: Vec<(&str, CatalogModel)>,
) -> CatalogProvider {
    CatalogProvider {
        name: name.to_string(),
        env: env.into_iter().map(String::from).collect(),
        npm: npm.to_string(),
        api: api.map(String::from),
        models: AssocMap::from_pairs(
            models.into_iter().map(|(id, m)| (id.to_string(), m)).collect(),
        ),
    }
}

fn index_of(providers: Vec<(&str, CatalogProvider)>) -> CatalogIndex {
    AssocMap::from_pairs(providers.into_iter().map(|(id, p)| (id.to_string(), p)).collect())
}

fn keys_of(keys: Vec<(&str, &str)>) -> Keys {
    AssocMap::from_pairs(
        keys.into_iter().map(|(id, k)| (id.to_string(), Some(k.to_string()))).collect(),
    )
}

fn builtins() -> Vec<String> {
    ["anthropic", "openai", "google", "zai", "opencode-zen", "opencode-go"]
        .iter()
        .map(|s| s.to_string())
        .collect()
}

fn build(backend: Backend, index: CatalogIndex, keys: &Keys, free: bool) -> Catalog {
    backend.build_catalog(index, keys, free, &builtins(), &mut Registry::new())
}

fn key(provider: &str, model: &str) -> (String, String) {
    (provider.to_string(), model.to_string())
}

fn opencode_entry(env: &str, models: Vec<(&str, CatalogModel)>) -> CatalogIndex {
    index_of(vec![(
        ZEN_CATALOG_KEY,
        provider_with_models(
            "Opencode",
            vec![env],
            COMPATIBLE,
            Some("https://opencode.ai/zen/v1"),
            models,
        ),
    )])
}

fn go_entry(models: Vec<(&str, CatalogModel)>) -> CatalogIndex {
    index_of(vec![(
        GO_PROVIDER_ID,
        provider_with_models(
            "Opencode Go",
            vec!["OPENCODE_API_KEY"],
            COMPATIBLE,
            Some("https://opencode.ai/zen/go/v1"),
            models,
        ),
    )])
}

fn ids(backend: Backend, catalog: &Catalog) -> Vec<String> {
    backend.all_models(catalog).iter().map(|m| m.id.clone()).collect()
}

fn message(e: AgentError) -> String {
    match e {
        AgentError::Config { message } => message,
    }
}

#[test]
fn lookup_zen_splits_sub_provider_and_model() {
    let index = index_of(vec![(
        "nvidia",
        provider_with_models(
            "NVIDIA",
            vec!["MAKI_TEST_NVIDIA_DIR"],
            COMPATIBLE,
            Some("https://nvapi.xyz/v1"),
            vec![("openai/gpt-oss-120b", free_model())],
        ),
    )]);
    let catalog = build(Backend::Zen, index, &keys_of(vec![("nvidia", "key")]), true);
    let (meta, _) = Backend::Zen
        .lookup(&catalog, "nvidia/openai/gpt-oss-120b", None)
        .unwrap();
    assert_eq!(meta.provider_id, "nvidia");
}

#[test]
fn lookup_zen_nested_model_with_sub_provider() {
    let index = index_of(vec![(
        "fireworks",
        provider_with_models(
            "Fireworks",
            vec!["MAKI_TEST_FIRE_DEEP"],
            COMPATIBLE,
            Some("https://fireworks.ai/v1"),
            vec![("deepseek-ai/DeepSeek-R1", free_model())],
        ),
    )]);
    let catalog = build(Backend::Zen, index, &keys_of(vec![("fireworks", "key")]), true);
    let (meta, _) = Backend::Zen
        .lookup(&catalog, "fireworks/deepseek-ai/DeepSeek-R1", None)
        .unwrap();
    assert_eq!(meta.provider_id, "fireworks");
}

#[test]
fn lookup_zen_collisions_preserve_both_entries() {
    let index = index_of(vec![
        (
            "opencode",
            provider_with_models(
                "Opencode",
                vec![],
                COMPATIBLE,
                Some("https://opencode.ai/zen/v1"),
                vec![("shared-model", free_model())],
            ),
        ),
        (
            "other-vendor",
            provider_with_models(
                "Other",
                vec!["MAKI_TEST_OTHER_COLL"],
                COMPATIBLE,
                Some("https://other.api/v1"),
                vec![("shared-model", free_model())],
            ),
        ),
    ]);
    let catalog = build(Backend::Zen, index, &keys_of(vec![("other-vendor", "key")]), true);
    assert!(catalog.entries.contains_key(&key(ZEN_CATALOG_KEY, "shared-model")));
    assert!(catalog.entries.contains_key(&key("other-vendor", "shared-model")));
    assert_eq!(catalog.entries.len(), 2);
    let (meta, _) = Backend::Zen.lookup(&catalog, "opencode/shared-model", None).unwrap();
    assert_eq!(meta.provider_id, "opencode");
}

#[test]
fn lookup_zen_filters_nonfree_without_key() {
    let index = index_of(vec![(
        "some-vendor",
        provider_with_models(
            "Vendor",
            vec!["MAKI_TEST_VENDOR_FILTER"],
            COMPATIBLE,
            Some("https://vendor.api/v1"),
            vec![("paid-model", paid_model()), ("free-model", free_model())],
        ),
    )]);
    let catalog = build(Backend::Zen, index, &keys_of(vec![]), true);
    assert!(catalog.entries.is_empty());
}

#[test]
fn zen_catalog_excludes_builtin_and_blocked_providers() {
    let provider = |name: &str| {
        provider_with_models(
            name,
            vec!["MAKI_TEST_PROVIDER_KEY"],
            COMPATIBLE,
            Some("https://provider.api/v1"),
            vec![("model", paid_model())],
        )
    };
    let index = index_of(vec![
        ("zai", provider("Z.AI")),
        ("zai-coding-plan", provider("Z.AI Coding Plan")),
        ("github-copilot", provider("GitHub Copilot")),
    ]);
    let keys = keys_of(vec![
        ("zai", "zai-key"),
        ("zai-coding-plan", "coding-plan-key"),
        ("github-copilot", "github-key"),
    ]);
    let catalog = build(Backend::Zen, index, &keys, true);
    assert!(catalog.entries.is_empty());
    assert!(catalog.providers.is_empty());
}

#[test]
fn missing_model_cost_is_free() {
    assert!(model_is_free(&unpriced_model()));
}

#[test]
fn lookup_zen_includes_free_models_for_opencode_without_key() {
    let index = opencode_entry(
        "MAKI_TEST_OPENCODE_FREE",
        vec![("paid-model", paid_model()), ("free-model", free_model())],
    );
    let catalog = build(Backend::Zen, index, &keys_of(vec![]), true);
    assert!(catalog.entries.contains_key(&key(ZEN_CATALOG_KEY, "free-model")));
    assert!(!catalog.entries.contains_key(&key(ZEN_CATALOG_KEY, "paid-model")));
    assert!(catalog.auths.contains_key(&ZEN_CATALOG_KEY.to_string()));
}

#[test]
fn lookup_zen_all_models_with_key() {
    let index = opencode_entry(
        "MAKI_TEST_OPENCODE_ALL",
        vec![("paid-model", paid_model()), ("free-model", free_model())],
    );
    let keys = keys_of(vec![(ZEN_CATALOG_KEY, "real-key")]);
    let catalog = build(Backend::Zen, index, &keys, true);
    assert!(catalog.entries.contains_key(&key(ZEN_CATALOG_KEY, "free-model")));
    assert!(catalog.entries.contains_key(&key(ZEN_CATALOG_KEY, "paid-model")));
    assert!(catalog.auths.contains_key(&ZEN_CATALOG_KEY.to_string()));
}

#[test]
fn lookup_zen_hides_free_models_when_disabled() {
    let index = opencode_entry(
        "MAKI_TEST_OPENCODE_NOFREE",
        vec![("paid-model", paid_model()), ("free-model", free_model())],
    );
    let keys = keys_of(vec![(ZEN_CATALOG_KEY, "real-key")]);
    let catalog = build(Backend::Zen, index, &keys, false);
    assert!(!catalog.entries.contains_key(&key(ZEN_CATALOG_KEY, "free-model")));
    assert!(catalog.entries.contains_key(&key(ZEN_CATALOG_KEY, "paid-model")));
    assert!(catalog.auths.contains_key(&ZEN_CATALOG_KEY.to_string()));
}

#[test]
fn lookup_zen_no_models_without_key_when_disabled() {
    let index = opencode_entry(
        "MAKI_TEST_OPENCODE_EMPTY",
        vec![("paid-model", paid_model()), ("free-model", free_model())],
    );
    let catalog = build(Backend::Zen, index, &keys_of(vec![]), false);
    assert!(catalog.entries.is_empty());
    assert!(!catalog.auths.contains_key(&ZEN_CATALOG_KEY.to_string()));
}

#[test]
fn lookup_zen_skips_providers_without_api_url() {
    let index = index_of(vec![(
        "no-api",
        provider_with_models("No API", vec![], COMPATIBLE, None, vec![]),
    )]);
    let catalog = build(Backend::Zen, index, &keys_of(vec![]), true);
    assert!(catalog.entries.is_empty());
    assert!(catalog.auths.is_empty());
}

#[test]
fn zen_free_key_admits_public_key_for_opencode() {
    let index = opencode_entry("OPENCODE_API_KEY", vec![("free-model", free_model())]);
    let catalog = build(Backend::Zen, index, &keys_of(vec![]), true);
    let auth = catalog.auths.get(&ZEN_CATALOG_KEY.to_string()).unwrap();
    assert_eq!(
        auth.headers,
        vec![("authorization".to_string(), format!("Bearer {}", PUBLIC_KEY))]
    );
}

#[test]
fn zen_free_key_rejects_non_opencode_without_key() {
    let index = index_of(vec![(
        "other-vendor",
        provider_with_models(
            "Other",
            vec!["MAKI_TEST_VENDOR_KEY"],
            COMPATIBLE,
            Some("https://other.api/v1"),
            vec![("free-model", free_model())],
        ),
    )]);
    let catalog = build(Backend::Zen, index, &keys_of(vec![]), true);
    assert!(catalog.entries.is_empty());
    assert!(catalog.auths.is_empty());
}

#[test]
fn zen_catalog_excludes_go_provider() {
    let index = index_of(vec![
        (
            ZEN_CATALOG_KEY,
            provider_with_models(
                "Opencode",
                vec!["OPENCODE_API_KEY"],
                COMPATIBLE,
                Some("https://opencode.ai/zen/v1"),
                vec![("sonnet", unpriced_model())],
            ),
        ),
        (
            GO_PROVIDER_ID,
            provider_with_models(
                "Opencode Go",
                vec!["OPENCODE_API_KEY"],
                COMPATIBLE,
                Some("https://opencode.ai/zen/go/v1"),
                vec![("deepseek-v4-flash", unpriced_model())],
            ),
        ),
    ]);
    let catalog = build(Backend::Zen, index, &keys_of(vec![]), true);
    let ids = ids(Backend::Zen, &catalog);
    assert!(!ids.iter().any(|id| id.starts_with(GO_PROVIDER_ID)));
    assert_eq!(ids, vec!["opencode/sonnet".to_string()]);
}

#[test]
fn go_default_model_exists_in_catalog() {
    let default = Backend::Go.default_model("unused");
    assert_eq!(default, GO_DEFAULT_MODEL);
    let (_, model_id) = default.split_once('/').unwrap();
    let index = go_entry(vec![(model_id, model_with(cost(0.0, 0.0), 128_000, 64_000))]);
    let keys = keys_of(vec![(GO_PROVIDER_ID, "test-key")]);
    let catalog = build(Backend::Go, index, &keys, false);
    let ids = ids(Backend::Go, &catalog);
    assert!(
        ids.contains(&model_id.to_string()),
        "default model '{default}' not found in Go catalog models: {ids:?}"
    );
}

#[test]
fn go_catalog_rebuild_with_credentials() {
    let index = || go_entry(vec![("deepseek-v4-flash", paid_model())]);

    let catalog = build(Backend::Go, index(), &keys_of(vec![]), false);
    assert!(catalog.entries.is_empty(), "expected empty catalog without credentials");
    assert!(catalog.auths.is_empty());

    let with_keys = keys_of(vec![(GO_PROVIDER_ID, "new-key")]);
    let catalog = build(Backend::Go, index(), &with_keys, false);
    assert!(!catalog.entries.is_empty(), "expected non-empty catalog with credentials");
    assert!(catalog.auths.contains_key(&GO_PROVIDER_ID.to_string()));
}

#[test]
fn lookup_go_bare_id() {
    let index = go_entry(vec![(
        "deepseek-v4-flash",
        model_with(cost(0.0, 0.0), 128_000, 64_000),
    )]);
    let keys = keys_of(vec![(GO_PROVIDER_ID, "go-key")]);
    let catalog = build(Backend::Go, index, &keys, false);
    let (meta, auth) = Backend::Go.lookup(&catalog, "deepseek-v4-flash", None).unwrap();
    assert_eq!(meta.provider_id, GO_PROVIDER_ID);
    assert_eq!(auth.base_url.as_deref(), Some("https://opencode.ai/zen/go/v1"));
}

#[test]
fn lookup_go_includes_paid_with_key() {
    let index = go_entry(vec![("paid-model", paid_model())]);
    let keys = keys_of(vec![(GO_PROVIDER_ID, "go-key")]);
    let catalog = build(Backend::Go, index, &keys, false);
    assert!(catalog.auths.contains_key(&GO_PROVIDER_ID.to_string()));
    assert_eq!(catalog.entries.len(), 1);
}

#[test]
fn lookup_go_skips_when_no_key() {
    let index = go_entry(vec![("any-model", unpriced_model())]);
    let catalog = build(Backend::Go, index, &keys_of(vec![]), false);
    assert!(catalog.entries.is_empty());
    assert!(catalog.auths.is_empty());
}

#[test]
fn lookup_go_ignores_other_providers() {
    let index = index_of(vec![(
        "other-provider",
        provider_with_models(
            "Other",
            vec!["OPENCODE_API_KEY"],
            COMPATIBLE,
            Some("https://other.api/v1"),
            vec![("other-model", unpriced_model())],
        ),
    )]);
    let keys = keys_of(vec![("other-provider", "key")]);
    let catalog = build(Backend::Go, index, &keys, false);
    assert!(catalog.entries.is_empty());
    assert!(catalog.auths.is_empty());
}

#[test]
fn lookup_go_anthropic_model() {
    let index = index_of(vec![(
        GO_PROVIDER_ID,
        provider_with_models(
            "Opencode Go Anthropic",
            vec!["OPENCODE_API_KEY"],
            "@ai-sdk/anthropic",
            Some("https://opencode.ai/zen/go/v1"),
            vec![("anthropic-test-model", model_with(cost(3.0, 15.0), 200_000, 16_000))],
        ),
    )]);
    let keys = keys_of(vec![(GO_PROVIDER_ID, "ant-key")]);
    let catalog = build(Backend::Go, index, &keys, false);
    assert!(catalog.anthropic_auths.contains_key(&GO_PROVIDER_ID.to_string()));
    assert!(catalog.auths.contains_key(&GO_PROVIDER_ID.to_string()));
    let (meta, auth) = Backend::Go.lookup(&catalog, "anthropic-test-model", None).unwrap();
    assert_eq!(meta.api_format, EndpointType::Messages);
    assert!(auth.headers.iter().any(|(k, _)| k == "x-api-key"));
    assert_eq!((meta.context, meta.output), (200_000, 16_000));
    assert_eq!(f64::from_bits(meta.input_price.bits), 3.0);
    assert_eq!(f64::from_bits(meta.output_price.bits), 15.0);
}

#[test]
fn normalize_model_id_cases() {
    for (backend, id, expected) in [
        (Backend::Zen, "sonnet-4-5", "opencode/sonnet-4-5"),
        (Backend::Zen, "opencode/sonnet-4-5", "opencode/sonnet-4-5"),
        (Backend::Zen, "nvidia/openai/gpt-oss-120b", "nvidia/openai/gpt-oss-120b"),
        (Backend::Go, "opencode-go/deepseek-v4-flash", "deepseek-v4-flash"),
        (Backend::Go, "deepseek-v4-flash", "deepseek-v4-flash"),
    ] {
        assert_eq!(backend.normalize_model_id(id), expected);
    }
}

#[test]
fn zen_display_model_id_cases() {
    for (id, expected) in [
        ("opencode/sonnet-4-5", "sonnet-4-5"),
        ("nvidia/openai/gpt-oss-120b", "nvidia/openai/gpt-oss-120b"),
        ("nvidia/shared-model", "nvidia/shared-model"),
    ] {
        assert_eq!(Backend::Zen.display_model_id(id), expected);
    }
}

#[test]
fn normalizing_twice_is_normalizing_once_but_for_a_doubled_name() {
    for id in ["x", "opencode/x", "nvidia/a/b", "/", ""] {
        let once = Backend::Zen.normalize_model_id(id);
        assert_eq!(Backend::Zen.normalize_model_id(&once), once);
        assert_eq!(Backend::Zen.lookup_key(&once), Backend::Zen.lookup_key(id));
    }
    let once = Backend::Go.normalize_model_id("opencode-go/opencode-go/x");
    assert_eq!(once, "opencode-go/x");
    assert_eq!(Backend::Go.normalize_model_id(&once), "x");
}

#[test]
fn what_is_shown_leads_back_to_the_model() {
    for id in ["opencode/x", "nvidia/x", "nvidia/openai/x"] {
        let shown = Backend::Zen.display_model_id(id);
        assert_eq!(Backend::Zen.normalize_model_id(shown), id);
    }
    assert_eq!(Backend::Zen.display_model_id("opencode/nvidia/x"), "nvidia/x");
}

#[test]
fn non_ascii_identifiers_are_split_by_characters() {
    assert_eq!(
        Backend::Zen.lookup_key("né/模型/x"),
        ("né".to_string(), "模型/x".to_string())
    );
    assert_eq!(Backend::Zen.strip_prefix("né/模型", "né"), "模型");
    assert_eq!(Backend::Zen.strip_prefix("né模型", "né"), "né模型");
    assert_eq!(Backend::Zen.display_model_id("opencode/模型"), "模型");
}

#[test]
fn lookup_names_what_is_missing() {
    let mut catalog = Catalog::empty();
    let e = Backend::Zen.lookup(&catalog, "nvidia/x", None).unwrap_err();
    assert_eq!(message(e), "model 'nvidia/x' not found in catalog");
    catalog.entries.insert(
        key("nvidia", "x"),
        Meta {
            provider_id: "nvidia".to_string(),
            api_format: EndpointType::Messages,
            context: 1,
            output: 1,
            input_price: Price { bits: 0 },
            output_price: Price { bits: 0 },
            cache_read: Price { bits: 0 },
            cache_write: Price { bits: 0 },
            vision: false,
            supports_thinking: false,
        },
    );
    catalog.auths.insert("nvidia".to_string(), ResolvedAuth::bearer("k"));
    let e = Backend::Zen.lookup(&catalog, "nvidia/x", None).unwrap_err();
    assert_eq!(message(e), "auth for provider 'nvidia' not found in catalog");
}

fn both_parties() -> Catalog {
    let provider = |api: &str| {
        provider_with_models("P", vec![], COMPATIBLE, Some(api), vec![("x", paid_model())])
    };
    let index = index_of(vec![
        (ZEN_CATALOG_KEY, provider("https://own/v1")),
        ("nvidia", provider("https://nv/v1")),
    ]);
    let keys = keys_of(vec![(ZEN_CATALOG_KEY, "own"), ("nvidia", "nv")]);
    build(Backend::Zen, index, &keys, true)
}

#[test]
fn given_auth_replaces_only_the_first_party_one_on_zen() {
    let catalog = both_parties();
    let given = ResolvedAuth::bearer("given");
    let (_, auth) = Backend::Zen.lookup(&catalog, "opencode/x", Some(&given)).unwrap();
    assert_eq!(auth, given);
    let (_, auth) = Backend::Zen.lookup(&catalog, "x", Some(&given)).unwrap();
    assert_eq!(auth, given);
    let (_, auth) = Backend::Zen.lookup(&catalog, "nvidia/x", Some(&given)).unwrap();
    assert_eq!(auth.headers[0].1, "Bearer nv");
    assert_eq!(auth.base_url.as_deref(), Some("https://nv/v1"));

    let index = go_entry(vec![("x", paid_model())]);
    let catalog = build(Backend::Go, index, &keys_of(vec![(GO_PROVIDER_ID, "go")]), false);
    let (_, auth) = Backend::Go.lookup(&catalog, "x", Some(&given)).unwrap();
    assert_eq!(auth, given);
}

#[test]
fn requests_carry_the_upstream_id_and_the_limits() {
    let index = index_of(vec![(
        "nvidia",
        provider_with_models(
            "NVIDIA",
            vec![],
            "@ai-sdk/anthropic",
            Some("https://nvapi.xyz/v1"),
            vec![("openai/gpt-oss-120b", model_with(cost(1.0, 2.0), 1000, 100))],
        ),
    )]);
    let catalog = build(Backend::Zen, index, &keys_of(vec![("nvidia", "nv")]), true);
    let chosen = Model {
        id: "nvidia/openai/gpt-oss-120b".to_string(),
        provider: ProviderKind::OpencodeZen,
        dynamic_slug: None,
        max_output_tokens: None,
        context_window: 7,
    };
    let request = Backend::Zen.prepare(&catalog, &chosen, None).unwrap();
    assert_eq!(request.model.id, "openai/gpt-oss-120b");
    assert_eq!(request.model.provider, ProviderKind::OpencodeZen);
    assert_eq!(request.model.max_output_tokens, Some(100));
    assert_eq!(request.model.context_window, 1000);
    assert_eq!(request.endpoint, EndpointType::Messages);
    assert_eq!(request.auth.headers, vec![("x-api-key".to_string(), "nv".to_string())]);

    let missing = Model { id: "nvidia/none".to_string(), ..chosen };
    assert_eq!(
        message(Backend::Zen.prepare(&catalog, &missing, None).unwrap_err()),
        "model 'nvidia/none' not found in catalog"
    );
}

#[test]
fn go_sends_the_id_unchanged() {
    let index = go_entry(vec![("opencode-go/x", paid_model())]);
    let catalog = build(Backend::Go, index, &keys_of(vec![(GO_PROVIDER_ID, "go")]), false);
    let chosen = Model {
        id: "opencode-go/x".to_string(),
        provider: ProviderKind::OpencodeGo,
        dynamic_slug: None,
        max_output_tokens: None,
        context_window: 0,
    };
    let request = Backend::Go.prepare(&catalog, &chosen, None).unwrap();
    assert_eq!(request.model.id, "opencode-go/x");
}

#[test]
fn models_are_listed_in_order_and_only_first_party_on_zen() {
    let index = index_of(vec![
        (
            ZEN_CATALOG_KEY,
            provider_with_models(
                "Opencode",
                vec![],
                COMPATIBLE,
                Some("https://own/v1"),
                vec![("b", paid_model()), ("a", paid_model()), ("a/c", paid_model())],
            ),
        ),
        (
            "nvidia",
            provider_with_models(
                "NVIDIA",
                vec![],
                COMPATIBLE,
                Some("https://nv/v1"),
                vec![("a", paid_model())],
            ),
        ),
    ]);
    let keys = keys_of(vec![(ZEN_CATALOG_KEY, "own"), ("nvidia", "nv")]);
    let catalog = build(Backend::Zen, index, &keys, true);
    assert_eq!(catalog.entries.len(), 4);
    assert_eq!(ids(Backend::Zen, &catalog), vec!["opencode/a", "opencode/a/c", "opencode/b"]);
    let listed = &Backend::Zen.all_models(&catalog)[0];
    assert_eq!(listed.pricing.unwrap().output, price(25.0));
    assert_eq!(listed.supports_thinking, Some(false));
    assert_eq!(listed.pricing.unwrap().fast, None);
    assert_eq!(listed.provider_info, None);
}

#[test]
fn a_model_can_ask_for_its_own_protocol() {
    let mut m = paid_model();
    m.api_format = Some(EndpointType::Messages);
    let index = go_entry(vec![("x", m)]);
    let catalog = build(Backend::Go, index, &keys_of(vec![(GO_PROVIDER_ID, "go")]), false);
    let (meta, auth) = Backend::Go.lookup(&catalog, "x", None).unwrap();
    assert_eq!(meta.api_format, EndpointType::Messages);
    assert_eq!(auth.headers, vec![("x-api-key".to_string(), "go".to_string())]);
}

#[test]
fn free_means_zero_of_either_sign_in_both_directions() {
    assert!(model_is_free(&model_with(cost(0.0, -0.0), 0, 0)));
    assert!(!model_is_free(&model_with(cost(0.0, 0.1), 0, 0)));
    assert!(!model_is_free(&model_with(cost(0.1, 0.0), 0, 0)));
    assert!(!model_is_free(&model_with(cost(f64::NAN, 0.0), 0, 0)));
    let only_output = Some(CatalogCost {
        input: None,
        output: Some(price(1.0)),
        cache_read: None,
        cache_write: None,
    });
    assert!(!model_is_free(&model_with(only_output, 0, 0)));
}

#[test]
fn providers_are_admitted_by_package_and_address() {
    let provider = |npm: &str, api: Option<&str>| {
        provider_with_models("P", vec![], npm, api, vec![])
    };
    assert!(admit_provider(&provider(COMPATIBLE, Some("https://p/v1"))));
    assert!(admit_provider(&provider("@ai-sdk/anthropic", Some("https://p/v1"))));
    assert!(!admit_provider(&provider("@ai-sdk/openai", Some("https://p/v1"))));
    assert!(!admit_provider(&provider(COMPATIBLE, None)));
}

#[test]
fn zen_registers_the_third_parties_that_it_takes() {
    let mut thinking = paid_model();
    thinking.supports_thinking = true;
    let mut seeing = free_model();
    seeing.vision = true;
    let index = || {
        index_of(vec![
            (
                "nvidia",
                provider_with_models(
                    "NVIDIA",
                    vec!["NV_KEY"],
                    COMPATIBLE,
                    Some("https://nv/v1"),
                    vec![("t", thinking), ("s", seeing)],
                ),
            ),
            (
                "plain",
                provider_with_models(
                    "Plain",
                    vec![],
                    COMPATIBLE,
                    Some("https://plain/v1"),
                    vec![("p", paid_model())],
                ),
            ),
            (
                ZEN_CATALOG_KEY,
                provider_with_models("Opencode", vec![], COMPATIBLE, Some("https://o/v1"), vec![]),
            ),
            (
                "zai",
                provider_with_models("Z.AI", vec![], COMPATIBLE, Some("https://z/v1"), vec![]),
            ),
        ])
    };
    let mut registry = Registry::new();
    let keys = keys_of(vec![]);
    Backend::Zen.build_catalog(index(), &keys, true, &builtins(), &mut registry);
    let mut slugs = registry.all_slugs();
    slugs.sort();
    assert_eq!(slugs, vec!["nvidia", "plain"]);
    assert!(registry.contains("nvidia"));
    assert!(!registry.contains(ZEN_CATALOG_KEY));
    let info = registry.get("nvidia").unwrap();
    assert_eq!(info.display_name, "NVIDIA");
    assert_eq!(info.env_keys, vec!["NV_KEY"]);
    assert_eq!(info.features, "NVIDIA models with thinking support, vision support");
    assert_eq!(info.models.len(), 2);
    assert_eq!(registry.get("plain").unwrap().features, "Plain models");

    Backend::Zen.build_catalog(index(), &keys, false, &builtins(), &mut registry);
    let info = registry.get("nvidia").unwrap();
    assert_eq!(info.features, "NVIDIA models with thinking support");
    assert_eq!(info.models.len(), 1);
    assert_eq!(info.models[0].id, "t");

    Backend::Go.build_catalog(index(), &keys, true, &builtins(), &mut registry);
    assert!(registry.contains("nvidia"));
    registry.clear();
    assert!(registry.all_slugs().is_empty());
    assert!(registry.get("nvidia").is_none());
}

#[test]
fn services_declare_themselves() {
    let zen = Backend::Zen.builtin();
    assert_eq!(zen.slug, "opencode-zen");
    assert_eq!(zen.display_name, "Opencode Zen");
    assert_eq!(Backend::Zen.default_model("some-model"), "opencode-zen/opencode/some-model");
    assert!(zen.plans.is_none());
    assert_eq!(zen.login_url, Some("https://opencode.ai/auth"));
    assert_eq!(Backend::Go.builtin().default_base_url, "https://opencode.ai/zen/go/v1");
    assert_eq!(Backend::Zen.chat_config().provider_name, "Opencode Zen");
    let config = maki_providers::opencode::request::catalog_chat_config();
    assert_eq!(config.provider_name, "catalog");
    assert_eq!(config.max_tokens_field, "max_tokens");
    assert!(config.include_stream_usage);
}

#[test]
fn the_parts_of_zens_catalog_fit_together() {
    let provider = |models: Vec<(&str, CatalogModel)>| {
        provider_with_models("P", vec![], COMPATIBLE, Some("https://p/v1"), models)
    };
    let index = index_of(vec![
        ("keyed", provider(vec![("x", paid_model())])),
        ("keyless", provider(vec![("x", paid_model())])),
        ("nothing", provider(vec![])),
        (GO_PROVIDER_ID, provider(vec![("x", paid_model())])),
    ]);
    let keys = keys_of(vec![("keyed", "k"), ("nothing", "n"), (GO_PROVIDER_ID, "g")]);
    let mut registry = Registry::new();
    let catalog = build_zen_catalog(&index, &keys, true, &builtins(), &mut registry);
    assert_eq!(catalog.entries.len(), 1);
    for id in ["keyed", "keyless", "nothing"] {
        let id = id.to_string();
        assert!(catalog.providers.contains_key(&id));
        assert_eq!(catalog.auths.contains_key(&id), id == "keyed");
        assert_eq!(catalog.anthropic_auths.contains_key(&id), id == "keyed");
        assert!(registry.contains(&id));
    }
    assert!(!catalog.providers.contains_key(&GO_PROVIDER_ID.to_string()));
    assert_eq!(build_zen_registry(&index, true, &builtins()).len(), 3);
    assert_eq!(build_go_catalog(&index, &keys).entries.len(), 1);
}
