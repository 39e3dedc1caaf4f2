use std::sync::Arc;

use maki_providers::assoc::AssocMap;
use maki_providers::catalog::data::{EndpointType, Meta, Price};
use maki_providers::catalog::registry::{CatalogModelInfo, CatalogProviderInfo, Registry};
use maki_providers::credentials::Texts;
use maki_providers::error::AgentError;
use maki_providers::host::Host;
use maki_providers::model::{Model, ModelFamily};
use maki_providers::opencode::backend::Backend;
use maki_providers::plan::{
    adjusts_model, from_model, from_model_fallback, not_configured, provider_for_slug, ProviderPlan,
};
use maki_providers::provider::{ProviderKind, BUILTIN_KINDS};

const UNKNOWN_PROVIDER_ERR: &str = "unknown provider kind";

fn texts(pairs: &[(&str, &str)]) -> Texts {
    AssocMap::from_pairs(pairs.iter().map(|(k, v)| (k.to_string(), v.to_string())).collect())
}

fn host(env: &[(&str, &str)], saved: &[(&str, &str)]) -> Host {
    Host {
        env: texts(env),
        saved: texts(saved),
        builtins: vec![],
        config: AssocMap::new(),
        bedrock: false,
        creatable: vec![],
        dynamic: vec![],
        dynamic_named: vec![],
        declared: vec![],
    }
}

fn meta(provider: &str) -> Meta {
    Meta {
        provider_id: provider.to_string(),
        api_format: EndpointType::ChatCompletions,
        context: 128_000,
        output: 64_000,
        input_price: Price { bits: 0 },
        output_price: Price { bits: 0 },
        cache_read: Price { bits: 0 },
        cache_write: Price { bits: 0 },
        vision: false,
        supports_thinking: true,
    }
}

fn registry() -> Registry {
    let mut registry = Registry::new();
    registry.replace(AssocMap::from_pairs(vec![(
        "nvidia".to_string(),
        CatalogProviderInfo {
            display_name: "NVIDIA".to_string(),
            env_keys: vec!["NVIDIA_API_KEY".to_string(), "NV_KEY".to_string()],
            base_url: Some("https://nvapi.xyz/v1".to_string()),
            features: "NVIDIA models with thinking support".to_string(),
            models: vec![CatalogModelInfo { id: "nemotron".to_string(), meta: meta("nvidia") }],
        },
    )]));
    registry
}

fn catalog(slug: &str) -> ProviderKind {
    ProviderKind::Catalog(Arc::from(slug))
}

fn model(provider: ProviderKind, dynamic_slug: Option<&str>) -> Model {
    Model {
        id: "m".to_string(),
        provider,
        dynamic_slug: dynamic_slug.map(String::from),
        max_output_tokens: None,
        context_window: 1,
    }
}

fn message(e: AgentError) -> String {
    match e {
        AgentError::Config { message } => message,
    }
}

#[test]
fn from_str_ok() {
    for (slug, expected) in [
        ("opencode", ProviderKind::OpencodeZen),
        ("opencode-zen", ProviderKind::OpencodeZen),
        ("opencode-go", ProviderKind::OpencodeGo),
    ] {
        assert_eq!(slug.parse::<ProviderKind>().unwrap(), expected);
    }
}

#[test]
fn from_str_err() {
    assert_eq!("nonexistent".parse::<ProviderKind>().unwrap_err(), UNKNOWN_PROVIDER_ERR);
}

#[test]
fn builtin_kinds_includes_all_compile_time_variants() {
    assert_eq!(BUILTIN_KINDS.len(), 14);
}

#[test]
fn from_slug_parses_builtin_or_creates_catalog() {
    assert_eq!(ProviderKind::from_slug("anthropic"), ProviderKind::Anthropic);
    assert_eq!(ProviderKind::from_slug("opencode-zen"), ProviderKind::OpencodeZen);
    assert_eq!(ProviderKind::from_slug("nvidia"), ProviderKind::Catalog(Arc::from("nvidia")));
}

#[test]
fn catalog_slug_accessor() {
    let kind = ProviderKind::Catalog(Arc::from("nvidia"));
    assert_eq!(kind.slug(), Some("nvidia"));
    assert_eq!(ProviderKind::Anthropic.slug(), None);
}

#[test]
fn catalog_round_trips_through_display_and_from_slug() {
    let kind = ProviderKind::Catalog(Arc::from("nvidia"));
    assert_eq!(kind.to_string(), "nvidia");
    assert_eq!(ProviderKind::from_slug(&kind.to_string()), kind);
}

#[test]
fn builtin_kinds_round_trip_and_have_distinct_slugs() {
    let slugs: Vec<String> = BUILTIN_KINDS.iter().map(|k| k.to_string()).collect();
    for (i, kind) in BUILTIN_KINDS.iter().enumerate() {
        assert_eq!(&ProviderKind::from_slug(&slugs[i]), kind);
        assert_eq!(&kind.clone(), kind);
        assert!(!slugs[..i].contains(&slugs[i]));
    }
    assert_eq!(slugs[5], "llama-cpp");
}

#[test]
fn third_party_under_a_builtin_slug_is_not_found_again() {
    let kind = catalog("opencode");
    assert_eq!(ProviderKind::from_slug(&kind.to_string()), ProviderKind::OpencodeZen);
}

#[test]
fn builtin_tables_give_exact_values() {
    let r = Registry::new();
    assert_eq!(ProviderKind::Zai.display_name(&r), "Z.AI");
    assert_eq!(ProviderKind::Google.api_key_env(&r), "GEMINI_API_KEY");
    assert_eq!(ProviderKind::OpencodeGo.base_url(&r), "https://opencode.ai/zen/go/v1");
    assert_eq!(
        ProviderKind::Ollama.features(&r).as_deref(),
        Some("Local or remote inference via OLLAMA_HOST, cloud fallback via OLLAMA_API_KEY")
    );
    assert_eq!(ProviderKind::Zai.family(), ModelFamily::Glm);
    assert!(ProviderKind::LlamaCpp.supports_thinking());
    assert!(!ProviderKind::Copilot.supports_thinking());
    assert!(ProviderKind::Copilot.accepts_arbitrary_models());
    assert!(!ProviderKind::Anthropic.accepts_arbitrary_models());
    assert_eq!(ProviderKind::DeepSeek.fallback_max_output(), Some(384_000));
    assert_eq!(ProviderKind::LlamaCpp.fallback_max_output(), None);
    assert_eq!(ProviderKind::TensorX.fallback_max_output(), None);
    assert_eq!(ProviderKind::Google.fallback_context_window(), 1_000_000);
}

#[test]
fn registered_third_party_is_described_by_its_registration() {
    let r = registry();
    let kind = catalog("nvidia");
    assert_eq!(kind.display_name(&r), "NVIDIA");
    assert_eq!(kind.api_key_env(&r), "NVIDIA_API_KEY,NV_KEY");
    assert_eq!(kind.base_url(&r), "https://nvapi.xyz/v1");
    assert_eq!(kind.features(&r).as_deref(), Some("NVIDIA models with thinking support"));
    assert_eq!(kind.family(), ModelFamily::Generic);
    assert!(!kind.supports_thinking());
    assert!(kind.accepts_arbitrary_models());
    assert_eq!(kind.fallback_max_output(), None);
    assert_eq!(kind.fallback_context_window(), 128_000);
}

#[test]
fn unregistered_third_party_falls_back_to_its_slug() {
    let r = Registry::new();
    let kind = catalog("nvidia");
    assert_eq!(kind.display_name(&r), "nvidia");
    assert_eq!(kind.api_key_env(&r), "");
    assert_eq!(kind.base_url(&r), "");
    assert_eq!(kind.features(&r).as_deref(), Some("Third-party provider"));
}

#[test]
fn only_the_services_change_model_ids() {
    assert_eq!(ProviderKind::OpencodeZen.normalize_model_id("x"), "opencode/x");
    assert_eq!(ProviderKind::OpencodeGo.normalize_model_id("opencode-go/x"), "x");
    assert_eq!(ProviderKind::Anthropic.normalize_model_id("x"), "x");
    assert_eq!(catalog("nvidia").normalize_model_id("x"), "x");
    assert_eq!(ProviderKind::OpencodeZen.display_model_id("opencode/x"), "x");
    assert_eq!(ProviderKind::OpencodeGo.display_model_id("opencode/x"), "opencode/x");
    assert_eq!(catalog("nvidia").display_model_id("opencode/x"), "opencode/x");
}

#[test]
fn create_chooses_the_provider_of_the_kind() {
    let r = registry();
    let mut h = host(&[], &[]);
    assert!(matches!(
        ProviderKind::Anthropic.create(&r, &h),
        Ok(ProviderPlan::Builtin(ProviderKind::Anthropic))
    ));
    h.bedrock = true;
    assert!(matches!(ProviderKind::Anthropic.create(&r, &h), Ok(ProviderPlan::Bedrock)));
    assert!(matches!(
        ProviderKind::OpenAi.create(&r, &h),
        Ok(ProviderPlan::Builtin(ProviderKind::OpenAi))
    ));
    assert!(matches!(
        ProviderKind::OpencodeGo.create(&r, &h),
        Ok(ProviderPlan::Opencode(Backend::Go))
    ));
}

#[test]
fn create_of_unknown_third_party_fails() {
    let Err(e) = catalog("nobody").create(&registry(), &host(&[], &[])) else {
        panic!("an unregistered provider was made");
    };
    assert_eq!(message(e), "unknown catalog provider 'nobody'");
}

#[test]
fn create_of_third_party_without_key_fails() {
    let Err(e) = catalog("nvidia").create(&registry(), &host(&[], &[("other", "k")])) else {
        panic!("a provider without a key was made");
    };
    assert_eq!(
        message(e),
        "catalog provider 'nvidia' not configured — set one of [\"NVIDIA_API_KEY\", \"NV_KEY\"] or run `maki auth login nvidia`"
    );
}

#[test]
fn create_of_third_party_takes_the_first_key() {
    let h = host(&[("NV_KEY", "second"), ("NVIDIA_API_KEY", "first")], &[("nvidia", "saved")]);
    let Ok(ProviderPlan::Catalog(p)) = catalog("nvidia").create(&registry(), &h) else {
        panic!("no provider");
    };
    assert_eq!(&*p.slug, "nvidia");
    assert_eq!(
        p.auth.headers,
        vec![("authorization".to_string(), "Bearer first".to_string())]
    );
    assert_eq!(p.auth.base_url.as_deref(), Some("https://nvapi.xyz/v1"));
}

#[test]
fn create_of_third_party_falls_back_to_the_saved_key() {
    let h = host(&[("OTHER", "x")], &[("nvidia", "saved")]);
    let Ok(ProviderPlan::Catalog(p)) = catalog("nvidia").create(&registry(), &h) else {
        panic!("no provider");
    };
    assert_eq!(
        p.auth.headers,
        vec![("authorization".to_string(), "Bearer saved".to_string())]
    );
}

#[test]
fn availability_follows_what_can_be_made() {
    let r = registry();
    let mut h = host(&[], &[]);
    h.creatable = vec![ProviderKind::Google];
    assert!(ProviderKind::OpencodeZen.is_available(&r, &h));
    assert!(ProviderKind::OpencodeGo.is_available(&r, &h));
    assert!(ProviderKind::Google.is_available(&r, &h));
    assert!(!ProviderKind::OpenAi.is_available(&r, &h));
    assert!(ProviderKind::OpenAi.create(&r, &h).is_ok());
    assert!(!ProviderKind::Anthropic.is_available(&r, &h));
    assert!(!catalog("nvidia").is_available(&r, &h));
    assert!(!catalog("nobody").is_available(&r, &h));
    h.saved = texts(&[("nvidia", "k")]);
    assert!(catalog("nvidia").is_available(&r, &h));
}

#[test]
fn slugs_of_the_user_go_before_kinds() {
    let r = registry();
    let mut h = host(&[], &[]);
    h.dynamic_named = vec!["script".to_string()];
    assert!(matches!(provider_for_slug("script", &h), ProviderPlan::Dynamic(s) if s == "script"));
    assert!(matches!(provider_for_slug("mine", &h), ProviderPlan::Custom(s) if s == "mine"));
    let m = model(catalog("nobody"), Some("mine"));
    assert!(matches!(from_model(&m, &r, &h), Ok(ProviderPlan::Custom(s)) if s == "mine"));
    assert!(!adjusts_model(&m));
    let m = model(ProviderKind::Mistral, None);
    assert!(matches!(
        from_model(&m, &r, &h),
        Ok(ProviderPlan::Builtin(ProviderKind::Mistral))
    ));
    assert!(adjusts_model(&m));
}

#[test]
fn fallback_is_the_unconfigured_provider() {
    let r = registry();
    let h = host(&[], &[]);
    let m = model(catalog("nobody"), None);
    assert!(from_model(&m, &r, &h).is_err());
    let planned = || from_model(&m, &r, &h);
    assert!(matches!(from_model_fallback(planned(), true), ProviderPlan::Unconfigured));
    assert!(matches!(from_model_fallback(planned(), false), ProviderPlan::Unconfigured));
    let m = model(ProviderKind::Mistral, None);
    let planned = || from_model(&m, &r, &h);
    assert!(matches!(
        from_model_fallback(planned(), true),
        ProviderPlan::Builtin(ProviderKind::Mistral)
    ));
    assert!(matches!(from_model_fallback(planned(), false), ProviderPlan::Unconfigured));
    assert_eq!(
        message(not_configured()),
        "no provider configured — run /login or `maki auth login`"
    );
}

#[test]
fn unknown_limits_are_never_zero() {
    for kind in BUILTIN_KINDS.iter() {
        assert_ne!(kind.fallback_max_output(), Some(0));
        assert_ne!(kind.fallback_context_window(), 0);
    }
}
