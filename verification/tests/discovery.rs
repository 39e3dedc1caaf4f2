use std::sync::Arc;

use maki_providers::assoc::AssocMap;
use maki_providers::catalog::data::{EndpointType, Meta, Price};
use maki_providers::catalog::registry::{CatalogModelInfo, CatalogProviderInfo, Registry};
use maki_providers::credentials::{find_set, find_text, Texts};
use maki_providers::discovery::{
    available_model_specs, builtin_batch, catalog_batch, catalog_slugs_to_fetch, custom_batch,
    dynamic_batch, fetch_jobs, FetchJob, ModelBatch, ModelEntry, ModelTables,
};
use maki_providers::host::{DynamicProvider, Host};
use maki_providers::model::{Handle, ModelInfo, ModelPricing};
use maki_providers::model_registry::ModelRegistry;
use maki_providers::provider::ProviderKind;
use maki_providers::text::{join, not_after};

fn strings(list: &[&str]) -> Vec<String> {
    list.iter().map(|s| s.to_string()).collect()
}

fn texts(pairs: &[(&str, &str)]) -> Texts {
    AssocMap::from_pairs(pairs.iter().map(|(k, v)| (k.to_string(), v.to_string())).collect())
}

fn host() -> Host {
    Host {
        env: texts(&[]),
        saved: texts(&[]),
        builtins: vec![],
        config: AssocMap::new(),
        bedrock: false,
        creatable: vec![],
        dynamic: vec![],
        dynamic_named: vec![],
        declared: vec![],
    }
}

fn tables() -> ModelTables {
    AssocMap::from_pairs(vec![
        (
            ProviderKind::OpenAi,
            vec![
                ModelEntry { prefixes: strings(&["gpt-5", "gpt-5-mini"]) },
                ModelEntry { prefixes: strings(&["o4"]) },
            ],
        ),
        (ProviderKind::Zai, vec![ModelEntry { prefixes: strings(&["glm"]) }]),
    ])
}

fn registry() -> Registry {
    let mut registry = Registry::new();
    registry.replace(AssocMap::from_pairs(vec![(
        "nvidia".to_string(),
        CatalogProviderInfo {
            display_name: "NVIDIA".to_string(),
            env_keys: vec!["NV_KEY".to_string()],
            base_url: None,
            features: String::new(),
            models: vec![CatalogModelInfo {
                id: "openai/oss".to_string(),
                meta: Meta {
                    provider_id: "nvidia".to_string(),
                    api_format: EndpointType::ChatCompletions,
                    context: 1,
                    output: 2,
                    input_price: Price { bits: 0 },
                    output_price: Price { bits: 0 },
                    cache_read: Price { bits: 0 },
                    cache_write: Price { bits: 0 },
                    vision: false,
                    supports_thinking: false,
                },
            }],
        },
    )]));
    registry
}

fn listed(id: &str) -> ModelInfo {
    ModelInfo {
        id: id.to_string(),
        context_window: None,
        max_output_tokens: None,
        pricing: None,
        supports_thinking: None,
        supports_vision: None,
        provider_info: None,
    }
}

fn nvidia() -> ProviderKind {
    ProviderKind::Catalog(Arc::from("nvidia"))
}

#[test]
fn offline_models_come_from_tables_users_and_what_is_known() {
    let mut h = host();
    h.creatable = vec![ProviderKind::OpenAi];
    h.dynamic = vec![DynamicProvider {
        slug: "script".to_string(),
        specs: strings(&["script/a", "script/a"]),
    }];
    h.declared = strings(&["mine/x", "openai/o4", "mine/x"]);
    let mut known = ModelRegistry::new();
    assert_eq!(
        available_model_specs(&tables(), &registry(), &known, &h),
        strings(&[
            "openai/gpt-5",
            "openai/gpt-5-mini",
            "openai/o4",
            "script/a",
            "script/a",
            "mine/x",
        ])
    );
    known.set_known_models(nvidia(), vec![listed("openai/oss")]);
    known.set_known_models(ProviderKind::Catalog(Arc::from("gone")), vec![listed("x")]);
    let specs = available_model_specs(&tables(), &registry(), &known, &h);
    assert_eq!(specs.last().unwrap(), "nvidia/openai/oss");
    assert_eq!(specs.len(), 7);
    h.creatable = vec![];
    assert_eq!(available_model_specs(&tables(), &registry(), &known, &h).len(), 5);
}

#[test]
fn listed_models_are_joined_by_those_of_the_tables() {
    let mut known = ModelRegistry::new();
    let models = vec![listed("o4"), listed("new")];
    let batch =
        builtin_batch(&ProviderKind::OpenAi, Ok(models), &tables(), &registry(), &mut known);
    assert_eq!(
        batch,
        ModelBatch {
            models: strings(&["openai/o4", "openai/new", "openai/gpt-5", "openai/gpt-5-mini"]),
            warnings: vec![],
        }
    );
    assert!(known.discovered_models(&ProviderKind::OpenAi).is_none());

    let mut llama = listed("llama");
    llama.provider_info = Some(Handle { number: 7 });
    llama.pricing = Some(ModelPricing {
        input: Price { bits: 0 },
        output: Price { bits: 0 },
        cache_read: Price { bits: 0 },
        cache_write: Price { bits: 0 },
        fast: Some(Handle { number: 8 }),
    });
    let batch = builtin_batch(
        &ProviderKind::Ollama,
        Ok(vec![llama.clone()]),
        &tables(),
        &registry(),
        &mut known,
    );
    assert_eq!(batch.models, strings(&["ollama/llama"]));
    assert_eq!(known.discovered_models(&ProviderKind::Ollama).unwrap(), &vec![llama]);
}

#[test]
fn providers_that_do_not_answer_fall_back_to_the_tables() {
    let mut known = ModelRegistry::new();
    let batch = builtin_batch(
        &ProviderKind::Zai,
        Err("timeout".to_string()),
        &tables(),
        &registry(),
        &mut known,
    );
    assert_eq!(
        batch,
        ModelBatch {
            models: strings(&["zai/glm"]),
            warnings: strings(&["Z.AI: timeout (using static fallback)"]),
        }
    );
}

#[test]
fn third_parties_are_listed_where_they_have_a_key() {
    let mut known = ModelRegistry::new();
    assert!(catalog_batch("nvidia", &registry(), &host(), &mut known).is_none());
    assert!(known.discovered_models(&nvidia()).is_none());
    let mut h = host();
    h.env = texts(&[("NV_KEY", "k")]);
    assert!(catalog_batch("nobody", &registry(), &h, &mut known).is_none());
    let batch = catalog_batch("nvidia", &registry(), &h, &mut known).unwrap();
    assert_eq!(
        batch,
        ModelBatch { models: strings(&["nvidia/openai/oss"]), warnings: vec![] }
    );
    let models = known.discovered_models(&nvidia()).unwrap();
    assert_eq!(models[0].max_output_tokens, Some(2));
}

#[test]
fn third_parties_that_the_user_set_up_are_not_asked() {
    let mut h = host();
    assert_eq!(catalog_slugs_to_fetch(&registry(), &h), strings(&["nvidia"]));
    h.dynamic_named = strings(&["nvidia"]);
    assert!(catalog_slugs_to_fetch(&registry(), &h).is_empty());
    h.dynamic_named = vec![];
    h.config = AssocMap::from_pairs(vec![("nvidia".to_string(), None)]);
    assert!(catalog_slugs_to_fetch(&registry(), &h).is_empty());
}

#[test]
fn programs_of_the_user_answer_or_fall_back() {
    let script = DynamicProvider { slug: "script".to_string(), specs: strings(&["script/s"]) };
    let batch = dynamic_batch(&script, Ok(vec![listed("a"), listed("a")]));
    assert_eq!(batch.models, strings(&["script/a", "script/a"]));
    assert!(batch.warnings.is_empty());
    let batch = dynamic_batch(&script, Err("broken".to_string()));
    assert_eq!(batch.models, strings(&["script/s"]));
    assert_eq!(batch.warnings, strings(&["script: broken (using static fallback)"]));
}

#[test]
fn empty_custom_batches_are_left_out() {
    assert!(custom_batch(vec![]).is_none());
    let batch = custom_batch(strings(&["mine/x"])).unwrap();
    assert_eq!(batch, ModelBatch { models: strings(&["mine/x"]), warnings: vec![] });
}

#[test]
fn all_providers_are_asked_in_order() {
    let mut h = host();
    h.creatable = vec![ProviderKind::Zai, ProviderKind::Anthropic];
    h.dynamic =
        vec![DynamicProvider { slug: "script".to_string(), specs: strings(&["script/s"]) }];
    let jobs = fetch_jobs(&registry(), &h);
    assert_eq!(jobs.len(), 7);
    assert!(matches!(jobs[0], FetchJob::Builtin(ProviderKind::Anthropic)));
    assert!(matches!(jobs[1], FetchJob::Builtin(ProviderKind::Zai)));
    assert!(matches!(jobs[2], FetchJob::Builtin(ProviderKind::OpencodeZen)));
    assert!(matches!(jobs[3], FetchJob::Builtin(ProviderKind::OpencodeGo)));
    assert!(matches!(&jobs[4], FetchJob::Catalog(slug) if slug == "nvidia"));
    assert!(matches!(&jobs[5], FetchJob::Dynamic(slug) if slug == "script"));
    assert!(matches!(jobs[6], FetchJob::Custom));
}

#[test]
fn the_first_set_variable_is_used() {
    let env = texts(&[("B", "b"), ("C", "c")]);
    assert_eq!(find_set(&strings(&["A", "C", "B"]), &env), Some(1));
    assert_eq!(find_text(&strings(&["A", "C", "B"]), &env), Some("c".to_string()));
    assert_eq!(find_set(&strings(&["A"]), &env), None);
    assert_eq!(find_text(&[].to_vec(), &env), None);
}

#[test]
fn later_pairs_override_earlier_ones() {
    let mut map = texts(&[("a", "1"), ("b", "2"), ("a", "3")]);
    assert_eq!(map.len(), 2);
    assert_eq!(map.get(&"a".to_string()).unwrap(), "3");
    map.insert("b".to_string(), "4".to_string());
    map.insert("c".to_string(), "5".to_string());
    assert_eq!(map.len(), 3);
    assert_eq!(map.get(&"b".to_string()).unwrap(), "4");
    assert!(!map.contains_key(&"d".to_string()));
    assert!(!map.is_empty());
}

#[test]
fn texts_are_ordered_by_code_points_and_joined() {
    assert!(not_after("a", "b"));
    assert!(not_after("a", "a"));
    assert!(not_after("a", "aa"));
    assert!(not_after("", "a"));
    assert!(!not_after("b", "a"));
    assert!(!not_after("ab", "a"));
    assert!(not_after("z", "é"));
    assert!(not_after("Z", "a"));
    assert_eq!(join(&strings(&["a", "b", "c"]), ", "), "a, b, c");
    assert_eq!(join(&strings(&["a"]), ", "), "a");
    assert_eq!(join(&[].to_vec(), ", "), "");
}
