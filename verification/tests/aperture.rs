use aperture::adjust::{apply_adjustments, Model};
use aperture::json_text::parse_json;
use aperture::listing::parse_models;
use aperture::overrides::{merged_override, OverrideFields, Overrides, ProviderOverride};
use aperture::registry::{ModelEntry, ModelFamily, NativeProvider, ProviderKind, Registry};
use aperture::routing::routed_kind;
use aperture::string_map::StringMap;

const KINDS: [(&str, ProviderKind); 9] = [
    ("anthropic", ProviderKind::Anthropic),
    ("openai", ProviderKind::OpenAi),
    ("google", ProviderKind::Google),
    ("copilot", ProviderKind::Copilot),
    ("ollama", ProviderKind::Ollama),
    ("llama-cpp", ProviderKind::LlamaCpp),
    ("zai", ProviderKind::Zai),
    ("synthetic", ProviderKind::Synthetic),
    ("aperture", ProviderKind::Aperture),
];

const FALLBACK_CONTEXT_WINDOW: u32 = 128_000;
const FALLBACK_MAX_OUTPUT_TOKENS: u32 = 16_384;

fn supports_thinking(kind: ProviderKind) -> bool {
    matches!(
        kind,
        ProviderKind::Anthropic | ProviderKind::OpenAi | ProviderKind::Google | ProviderKind::Zai
    )
}

fn family(kind: ProviderKind) -> ModelFamily {
    match kind {
        ProviderKind::Zai => ModelFamily::Glm,
        _ => ModelFamily::Other("generic".to_string()),
    }
}

fn registry() -> Registry {
    let mut registry = Registry::new();
    for (name, kind) in KINDS {
        let mut models = StringMap::new();
        if kind == ProviderKind::Zai {
            models.insert(
                "glm-5.2".to_string(),
                ModelEntry { context_window: 1_000_000, max_output_tokens: 131_072 },
            );
        }
        registry.insert(
            name.to_string(),
            NativeProvider {
                kind,
                family: family(kind),
                supports_thinking: supports_thinking(kind),
                models,
            },
        );
    }
    registry
}

/// A model of the gateway, as it is before anything is known about it.
fn model_from_spec(spec: &str) -> Model {
    let (provider, id) = spec.split_once('/').unwrap();
    assert_eq!(provider, "aperture");
    Model {
        id: id.to_string(),
        family: family(ProviderKind::Aperture),
        context_window: FALLBACK_CONTEXT_WINDOW,
        max_output_tokens: FALLBACK_MAX_OUTPUT_TOKENS,
        supports_thinking_override: None,
    }
}

fn model_thinks(model: &Model) -> bool {
    model
        .supports_thinking_override
        .unwrap_or(supports_thinking(ProviderKind::Aperture))
}

fn base(name: &str) -> OverrideFields {
    OverrideFields { base: Some(name.to_string()), ..Default::default() }
}

fn routes_to(provider_id: &str, expected: Option<ProviderKind>) {
    assert_eq!(
        routed_kind(&registry(), provider_id, &Overrides::new(), "any"),
        expected
    );
}

#[test]
fn routed_kind_known_zai() {
    routes_to("zai", Some(ProviderKind::Zai));
}

#[test]
fn routed_kind_known_synthetic() {
    routes_to("synthetic", Some(ProviderKind::Synthetic));
}

#[test]
fn routed_kind_known_openai() {
    routes_to("openai", Some(ProviderKind::OpenAi));
}

#[test]
fn routed_kind_known_llama_cpp() {
    routes_to("llama-cpp", Some(ProviderKind::LlamaCpp));
}

#[test]
fn routed_kind_unknown_vendor_no_override() {
    routes_to("ikora-openai", None);
}

#[test]
fn routed_kind_non_compat_anthropic() {
    routes_to("anthropic", None);
}

#[test]
fn routed_kind_non_compat_google() {
    routes_to("google", None);
}

#[test]
fn routed_kind_copilot_excluded() {
    routes_to("copilot", None);
}

#[test]
fn routed_kind_aperture_no_recurse() {
    routes_to("aperture", None);
}

#[test]
fn routed_kind_override_remaps_unknown_vendor() {
    let mut overrides = Overrides::new();
    overrides.insert(
        "ikora-openai".into(),
        ProviderOverride { default: base("llama-cpp"), ..Default::default() },
    );
    assert_eq!(
        routed_kind(&registry(), "ikora-openai", &overrides, "gemma4"),
        Some(ProviderKind::LlamaCpp)
    );
}

#[test]
fn routed_kind_model_base_wins_over_provider_base() {
    let mut overrides = Overrides::new();
    let mut models = StringMap::new();
    models.insert("special".into(), base("llama-cpp"));
    overrides.insert(
        "ikora-openai".into(),
        ProviderOverride { default: base("openai"), models },
    );
    assert_eq!(
        routed_kind(&registry(), "ikora-openai", &overrides, "special"),
        Some(ProviderKind::LlamaCpp)
    );
    assert_eq!(
        routed_kind(&registry(), "ikora-openai", &overrides, "other"),
        Some(ProviderKind::OpenAi)
    );
}

#[test]
fn routed_kind_invalid_override_falls_back_to_provider_id() {
    let mut overrides = Overrides::new();
    overrides.insert(
        "zai".into(),
        ProviderOverride { default: base("not-a-real-provider"), ..Default::default() },
    );
    assert_eq!(
        routed_kind(&registry(), "zai", &overrides, "glm-5.2"),
        Some(ProviderKind::Zai)
    );
}

#[test]
fn merged_override_model_wins_over_provider_default() {
    let mut overrides = Overrides::new();
    let mut models = StringMap::new();
    models.insert(
        "glm-5.2".into(),
        OverrideFields { context_window: Some(200_000), ..Default::default() },
    );
    overrides.insert(
        "zai".into(),
        ProviderOverride {
            default: OverrideFields {
                context_window: Some(128_000),
                max_output_tokens: Some(8_192),
                ..Default::default()
            },
            models,
        },
    );
    let ov = merged_override(&overrides, "zai", "glm-5.2");
    assert_eq!(ov.context_window, Some(200_000));
    assert_eq!(ov.max_output_tokens, Some(8_192));
}

#[test]
fn merged_override_unknown_provider_is_empty() {
    let overrides = Overrides::new();
    let ov = merged_override(&overrides, "nobody", "x");
    assert!(ov.context_window.is_none());
    assert!(ov.max_output_tokens.is_none());
    assert!(ov.base.is_none());
}

/// Dollars for a million tokens, from the text of a price for one.
fn per_million(price: &Option<String>) -> f64 {
    price.as_ref().unwrap().parse::<f64>().unwrap() * 1_000_000.0
}

#[test]
fn parse_models_prefixes_provider_pricing_and_overrides() {
    let mut overrides = Overrides::new();
    let mut by_model = StringMap::new();
    by_model.insert(
        "qwen3.6".into(),
        OverrideFields { context_window: Some(65_536), ..Default::default() },
    );
    overrides.insert(
        "ollama".into(),
        ProviderOverride { default: OverrideFields::default(), models: by_model },
    );
    let body = parse_json(
        r#"{
            "object": "list",
            "data": [
                {"id": "qwen3.6", "metadata": {"provider": {"id": "ollama"}}, "pricing": {"input": "0.000001", "output": "0.000002", "input_cache_read": "0.0000001"}},
                {"id": "gemma4", "metadata": {"provider": {"id": "ikora"}}},
                {"id": "raw-model"}
            ]
        }"#,
    )
    .unwrap();
    let models = parse_models(&body, &overrides);
    assert_eq!(models.len(), 3);
    assert_eq!(models[0].id, "ollama/qwen3.6");
    assert_eq!(models[0].context_window, Some(65_536));
    assert!(models[0].max_output_tokens.is_none());
    let p = models[0].pricing.as_ref().unwrap();
    assert!((per_million(&p.input) - 1.0).abs() < 1e-9);
    assert!((per_million(&p.output) - 2.0).abs() < 1e-9);
    assert!((per_million(&p.cache_read) - 0.1).abs() < 1e-9);
    assert_eq!(models[1].id, "ikora/gemma4");
    assert!(models[1].pricing.is_none());
    assert_eq!(models[2].id, "raw-model");
}

#[test]
fn parse_models_handles_missing_data() {
    let none = parse_json("{}").unwrap();
    assert!(parse_models(&none, &Overrides::new()).is_empty());
    let empty = parse_json(r#"{"data": []}"#).unwrap();
    assert!(parse_models(&empty, &Overrides::new()).is_empty());
}

#[test]
fn apply_adjustments_uses_routed_provider_static_table() {
    let mut model = model_from_spec("aperture/zai/glm-5.2");
    assert_eq!(model.context_window, FALLBACK_CONTEXT_WINDOW);
    apply_adjustments(&mut model, &registry(), &Overrides::new());
    assert_eq!(model.context_window, 1_000_000);
    assert_eq!(model.max_output_tokens, 131_072);
    assert_eq!(model.family, ModelFamily::Glm);
}

#[test]
fn apply_adjustments_override_wins_over_static_table() {
    let mut overrides = Overrides::new();
    overrides.insert(
        "zai".into(),
        ProviderOverride {
            default: OverrideFields { context_window: Some(200_000), ..Default::default() },
            ..Default::default()
        },
    );
    let mut model = model_from_spec("aperture/zai/glm-5.2");
    apply_adjustments(&mut model, &registry(), &overrides);
    assert_eq!(model.context_window, 200_000);
    assert_eq!(model.max_output_tokens, 131_072);
}

#[test]
fn apply_adjustments_no_route_leaves_model_untouched() {
    let mut model = model_from_spec("aperture/ikora-openai/gemma4");
    let before = model_from_spec("aperture/ikora-openai/gemma4");
    apply_adjustments(&mut model, &registry(), &Overrides::new());
    assert_eq!(model.context_window, before.context_window);
    assert_eq!(model.max_output_tokens, before.max_output_tokens);
    assert!(model.supports_thinking_override.is_none());
    assert!(!model_thinks(&model));
}

fn thinking_follows(spec: &str, kind: ProviderKind) {
    let mut model = model_from_spec(spec);
    assert!(model.supports_thinking_override.is_none());
    apply_adjustments(&mut model, &registry(), &Overrides::new());
    assert_eq!(model.supports_thinking_override, Some(supports_thinking(kind)));
    assert_eq!(model_thinks(&model), supports_thinking(kind));
}

#[test]
fn apply_adjustments_routed_thinking_capable() {
    thinking_follows("aperture/openai/gpt-test", ProviderKind::OpenAi);
}

#[test]
fn apply_adjustments_routed_non_thinking() {
    thinking_follows("aperture/ollama/qwen3", ProviderKind::Ollama);
}

#[test]
fn apply_adjustments_routed_zai() {
    thinking_follows("aperture/zai/glm-5.2", ProviderKind::Zai);
}

#[test]
fn apply_adjustments_thinking_via_base_override() {
    let mut overrides = Overrides::new();
    overrides.insert(
        "ikora-openai".into(),
        ProviderOverride { default: base("llama-cpp"), ..Default::default() },
    );
    let mut model = model_from_spec("aperture/ikora-openai/gemma4");
    apply_adjustments(&mut model, &registry(), &overrides);
    assert_eq!(
        model.supports_thinking_override,
        Some(supports_thinking(ProviderKind::LlamaCpp))
    );
}

fn fields_from_yaml(value: &serde_yaml::Value) -> OverrideFields {
    OverrideFields {
        context_window: value.get("context_window").map(|n| n.as_u64().unwrap() as u32),
        max_output_tokens: value.get("max_output_tokens").map(|n| n.as_u64().unwrap() as u32),
        base: value.get("base").map(|s| s.as_str().unwrap().to_string()),
    }
}

fn overrides_from_yaml(text: &str) -> Overrides {
    let value: serde_yaml::Value = serde_yaml::from_str(text).unwrap();
    let mut overrides = Overrides::new();
    for (vendor, fields) in value.as_mapping().unwrap() {
        let mut models = StringMap::new();
        if let Some(by_model) = fields.get("models") {
            for (id, own) in by_model.as_mapping().unwrap() {
                models.insert(id.as_str().unwrap().to_string(), fields_from_yaml(own));
            }
        }
        overrides.insert(
            vendor.as_str().unwrap().to_string(),
            ProviderOverride { default: fields_from_yaml(fields), models },
        );
    }
    overrides
}

#[test]
fn overrides_roundtrip_from_yaml() {
    let yaml = "\
ikora-openai:
  base: llama-cpp
zai:
  context_window: 128000
  max_output_tokens: 8192
  models:
    glm-5.2:
      context_window: 200000
";
    let overrides = overrides_from_yaml(yaml);
    assert_eq!(
        routed_kind(&registry(), "ikora-openai", &overrides, "gemma4"),
        Some(ProviderKind::LlamaCpp)
    );
    let ov = merged_override(&overrides, "zai", "glm-5.2");
    assert_eq!(ov.context_window, Some(200_000));
    assert_eq!(ov.max_output_tokens, Some(8_192));
    let ov2 = merged_override(&overrides, "zai", "other");
    assert_eq!(ov2.context_window, Some(128_000));
}
