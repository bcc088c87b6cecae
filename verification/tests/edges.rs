use aperture::adjust::{apply_adjustments, Model};
use aperture::error::AgentError;
use aperture::json::Json;
use aperture::json_text::parse_json;
use aperture::listing::{parse_models, price_text};
use aperture::native::{build_routed_provider, LocalServer, NativeClient, ResolvedAuth};
use aperture::overrides::{merged_override, OverrideFields, Overrides, ProviderOverride};
use aperture::provider::{load_overrides, models_url, Aperture, OverridesFile, StreamPlan};
use aperture::registry::{models, ModelEntry, ModelFamily, NativeProvider, ProviderKind, Registry};
use aperture::routing::{compat_kind, parse_compat_base, routed_kind};
use aperture::settings::{config, resolve_base_url, usable_url, BASE_URL_ENV, OVERRIDES_FILE};
use aperture::string_map::StringMap;
use aperture::text::{is_space, split_once, trim, trim_slash};
use aperture::validation::{validate_overrides, BaseWarning};

const SERVED: [(&str, ProviderKind, NativeClient); 9] = [
    ("a", ProviderKind::OpenAi, NativeClient::OpenAi),
    ("b", ProviderKind::Ollama, NativeClient::Local(LocalServer::Ollama)),
    ("c", ProviderKind::LlamaCpp, NativeClient::Local(LocalServer::LlamaCpp)),
    ("d", ProviderKind::Mistral, NativeClient::Mistral),
    ("e", ProviderKind::Zai, NativeClient::Zai),
    ("f", ProviderKind::DeepSeek, NativeClient::DeepSeek),
    ("g", ProviderKind::OpenRouter, NativeClient::OpenRouter),
    ("h", ProviderKind::Synthetic, NativeClient::Synthetic),
    ("i", ProviderKind::TensorX, NativeClient::TensorX),
];

const NOT_SERVED: [(&str, ProviderKind); 4] = [
    ("p", ProviderKind::Anthropic),
    ("q", ProviderKind::Google),
    ("r", ProviderKind::Copilot),
    ("s", ProviderKind::Aperture),
];

fn native(kind: ProviderKind) -> NativeProvider {
    let mut table = StringMap::new();
    table.insert("known".to_string(), ModelEntry { context_window: 111, max_output_tokens: 22 });
    NativeProvider {
        kind,
        family: ModelFamily::Other("native".to_string()),
        supports_thinking: true,
        models: table,
    }
}

fn registry() -> Registry {
    let mut registry = Registry::new();
    for (name, kind, _) in SERVED {
        registry.insert(name.to_string(), native(kind));
    }
    for (name, kind) in NOT_SERVED {
        registry.insert(name.to_string(), native(kind));
    }
    registry
}

fn base(name: &str) -> OverrideFields {
    OverrideFields { base: Some(name.to_string()), ..Default::default() }
}

fn limits(context_window: Option<u32>, max_output_tokens: Option<u32>) -> OverrideFields {
    OverrideFields { context_window, max_output_tokens, base: None }
}

fn one_vendor(vendor: &str, default: OverrideFields, own: Vec<(&str, OverrideFields)>) -> Overrides {
    let mut by_model = StringMap::new();
    for (id, fields) in own {
        by_model.insert(id.to_string(), fields);
    }
    let mut overrides = Overrides::new();
    overrides.insert(vendor.to_string(), ProviderOverride { default, models: by_model });
    overrides
}

fn model(id: &str) -> Model {
    Model {
        id: id.to_string(),
        family: ModelFamily::Glm,
        context_window: 1000,
        max_output_tokens: 100,
        supports_thinking_override: None,
    }
}

fn auth(url: Option<&str>) -> ResolvedAuth {
    ResolvedAuth {
        base_url: url.map(|u| u.to_string()),
        headers: vec![("x-key".to_string(), "k".to_string())],
    }
}

// Text.

#[test]
fn white_space_is_that_of_unicode() {
    for c in '\u{0}'..=char::MAX {
        assert_eq!(is_space(c), c.is_whitespace(), "{:?}", c);
    }
}

#[test]
fn trim_agrees_with_the_standard_library() {
    for s in ["", " ", "a", " a", "a ", "\t a b \u{3000}\n", "\u{a0}\u{e9}\u{2003}", "\u{200b} x"] {
        assert_eq!(trim(s), s.trim());
    }
}

#[test]
fn trim_slash_takes_space_then_slashes() {
    assert_eq!(trim_slash("  http://h/v//  ".to_string()), "http://h/v");
    assert_eq!(trim_slash("http://h".to_string()), "http://h");
    assert_eq!(trim_slash("///".to_string()), "");
    assert_eq!(trim_slash("a /".to_string()), "a ");
    assert_eq!(trim_slash(" \u{e9}/".to_string()), "\u{e9}");
}

#[test]
fn split_once_takes_the_first_slash() {
    assert_eq!(split_once("zai/glm/5", '/'), Some(("zai", "glm/5")));
    assert_eq!(split_once("/x", '/'), Some(("", "x")));
    assert_eq!(split_once("x/", '/'), Some(("x", "")));
    assert_eq!(split_once("\u{e9}\u{4e2d}/\u{1f600}", '/'), Some(("\u{e9}\u{4e2d}", "\u{1f600}")));
    assert_eq!(split_once("x", '/'), None);
    assert_eq!(split_once("", '/'), None);
}

// The map.

#[test]
fn string_map_keeps_one_value_for_each_key() {
    let mut map = StringMap::new();
    let entry = |n: u32| ModelEntry { context_window: n, max_output_tokens: n };
    assert!(map.get("a").is_none());
    map.insert("a".to_string(), entry(1));
    map.insert("b".to_string(), entry(2));
    map.insert("a".to_string(), entry(3));
    assert_eq!(map.len(), 2);
    assert_eq!(map.get("a"), Some(&entry(3)));
    assert_eq!(map.get("b"), Some(&entry(2)));
    assert!(map.get("").is_none());
    assert_eq!(map.entry(0), (&"a".to_string(), &entry(3)));
    assert_eq!(map.entry(1), (&"b".to_string(), &entry(2)));
}

// Settings.

#[test]
fn environment_wins_over_configuration() {
    let url = resolve_base_url(Some(" http://env/ ".to_string()), Some("http://file".to_string()));
    assert_eq!(url.unwrap(), "http://env");
}

#[test]
fn blank_environment_counts_as_unset() {
    let url = resolve_base_url(Some(" \t".to_string()), Some("http://file//".to_string()));
    assert_eq!(url.unwrap(), "http://file");
    let url = resolve_base_url(None, Some("http://file".to_string()));
    assert_eq!(url.unwrap(), "http://file");
}

#[test]
fn missing_base_url_is_a_configuration_error() {
    for configured in [None, Some("".to_string()), Some("  ".to_string())] {
        match resolve_base_url(None, configured) {
            Err(AgentError::Config { message }) => {
                assert_eq!(message, "APERTURE_BASE_URL not set")
            }
            other => panic!("{:?}", other),
        }
    }
}

#[test]
fn slashes_alone_are_an_empty_base_url() {
    assert_eq!(usable_url(Some("//".to_string())), Some("".to_string()));
    assert_eq!(usable_url(Some(" ".to_string())), None);
    assert_eq!(usable_url(None), None);
}

#[test]
fn config_is_that_of_the_gateway() {
    let c = config();
    assert_eq!(c.api_key_env, "APERTURE_BASE_URL");
    assert_eq!(c.base_url, "");
    assert_eq!(c.max_tokens_field, "max_tokens");
    assert!(c.include_stream_usage);
    assert_eq!(c.provider_name, "Aperture");
    assert_eq!(BASE_URL_ENV, "APERTURE_BASE_URL");
    assert_eq!(OVERRIDES_FILE, "aperture-overrides.yml");
    assert!(models().is_empty());
}

// Routes.

#[test]
fn compat_kinds_are_those_with_a_client() {
    for (name, kind, client) in SERVED {
        assert_eq!(compat_kind(kind), Some(kind));
        assert_eq!(parse_compat_base(&registry(), name), Some(kind));
        let p = build_routed_provider(kind, auth(Some("u")), 7u8, Some("pre".to_string()));
        assert_eq!(p.client, client);
        assert_eq!(p.auth.base_url, Some("u".to_string()));
        assert_eq!(p.timeouts, 7);
        assert_eq!(p.system_prefix, Some("pre".to_string()));
    }
    for (name, kind) in NOT_SERVED {
        assert_eq!(compat_kind(kind), None);
        assert_eq!(parse_compat_base(&registry(), name), None);
    }
    assert_eq!(parse_compat_base(&registry(), "nobody"), None);
    assert_eq!(parse_compat_base(&registry(), "A"), None);
}

#[test]
fn served_base_wins_over_the_vendors_own_name() {
    let overrides = one_vendor("e", base("c"), vec![]);
    assert_eq!(routed_kind(&registry(), "e", &overrides, "m"), Some(ProviderKind::LlamaCpp));
}

#[test]
fn base_that_is_not_served_is_ignored() {
    let overrides = one_vendor("e", base("p"), vec![]);
    assert_eq!(routed_kind(&registry(), "e", &overrides, "m"), Some(ProviderKind::Zai));
    let overrides = one_vendor("vendor", base("p"), vec![]);
    assert_eq!(routed_kind(&registry(), "vendor", &overrides, "m"), None);
}

#[test]
fn vendor_base_is_next_in_line() {
    let overrides = one_vendor(
        "ikora-openai",
        base("c"),
        vec![("gemma4", base("not-a-real-provider")), ("m", base("p")), ("n", base("d"))],
    );
    for id in ["gemma4", "m", "other"] {
        assert_eq!(
            routed_kind(&registry(), "ikora-openai", &overrides, id),
            Some(ProviderKind::LlamaCpp)
        );
    }
    assert_eq!(
        routed_kind(&registry(), "ikora-openai", &overrides, "n"),
        Some(ProviderKind::Mistral)
    );
    let mut m = model("ikora-openai/gemma4");
    apply_adjustments(&mut m, &registry(), &overrides);
    assert_eq!(m.supports_thinking_override, Some(true));
    match gateway(overrides).plan_stream(&registry(), "ikora-openai/gemma4") {
        StreamPlan::Native(p) => assert_eq!(p.client, NativeClient::Local(LocalServer::LlamaCpp)),
        StreamPlan::Generic { .. } => panic!("the vendor's base is served"),
    }
}

#[test]
fn bases_that_are_not_served_are_all_passed_over() {
    let overrides = one_vendor("e", base("typo"), vec![("m", base("q"))]);
    assert_eq!(routed_kind(&registry(), "e", &overrides, "m"), Some(ProviderKind::Zai));
    let overrides = one_vendor("vendor", base("typo"), vec![("m", base("q"))]);
    assert_eq!(routed_kind(&registry(), "vendor", &overrides, "m"), None);
    let overrides = one_vendor("vendor", OverrideFields::default(), vec![("m", base("i"))]);
    assert_eq!(routed_kind(&registry(), "vendor", &overrides, "m"), Some(ProviderKind::TensorX));
}

#[test]
fn overrides_merge_field_by_field() {
    let vendor = OverrideFields {
        context_window: Some(1),
        max_output_tokens: Some(2),
        base: Some("x".to_string()),
    };
    let overrides = one_vendor("v", vendor, vec![("m", base("y")), ("n", limits(None, Some(5)))]);
    let m = merged_override(&overrides, "v", "m");
    assert_eq!((m.context_window, m.max_output_tokens), (Some(1), Some(2)));
    assert_eq!(m.base, Some("y".to_string()));
    let n = merged_override(&overrides, "v", "n");
    assert_eq!((n.context_window, n.max_output_tokens), (Some(1), Some(5)));
    assert_eq!(n.base, Some("x".to_string()));
    let o = merged_override(&overrides, "v", "o");
    assert_eq!((o.context_window, o.max_output_tokens), (Some(1), Some(2)));
}

// Warnings.

fn warning(provider: &str, model: Option<&str>, base: &str) -> BaseWarning {
    BaseWarning {
        provider: provider.to_string(),
        model: model.map(|m| m.to_string()),
        base: base.to_string(),
    }
}

#[test]
fn every_ignored_base_is_warned_of_once() {
    let mut overrides =
        one_vendor("v", base("typo"), vec![("m", base("p")), ("n", base("a")), ("o", base("typo"))]);
    overrides.insert("w".to_string(), ProviderOverride { default: base("b"), ..Default::default() });
    overrides.insert("x".to_string(), ProviderOverride::default());
    overrides.insert("y".to_string(), ProviderOverride { default: base("s"), ..Default::default() });
    let warnings = validate_overrides(&registry(), &overrides);
    let expected = [
        warning("v", None, "typo"),
        warning("v", Some("m"), "p"),
        warning("v", Some("o"), "typo"),
        warning("y", None, "s"),
    ];
    assert_eq!(warnings.len(), expected.len());
    for w in &expected {
        assert!(warnings.contains(w), "{:?}", w);
    }
    let about_v: Vec<usize> = (0..warnings.len()).filter(|i| warnings[*i].provider == "v").collect();
    assert_eq!(about_v, (about_v[0]..about_v[0] + 3).collect::<Vec<usize>>());
    assert_eq!(warnings[about_v[0]].model, None);
}

#[test]
fn no_warning_where_every_base_is_served() {
    let overrides = one_vendor("v", base("a"), vec![("m", base("b")), ("n", limits(Some(1), None))]);
    assert!(validate_overrides(&registry(), &overrides).is_empty());
    assert_eq!(routed_kind(&registry(), "v", &overrides, "m"), Some(ProviderKind::Ollama));
    assert_eq!(routed_kind(&registry(), "v", &overrides, "n"), Some(ProviderKind::OpenAi));
    assert!(validate_overrides(&registry(), &Overrides::new()).is_empty());
}

#[test]
fn overrides_are_empty_unless_the_file_can_be_read() {
    for file in [OverridesFile::NoConfigDir, OverridesFile::Unreadable, OverridesFile::Malformed] {
        let (overrides, warnings) = load_overrides(&registry(), file);
        assert_eq!(overrides.len(), 0);
        assert!(warnings.is_empty());
    }
    let file = OverridesFile::Parsed(one_vendor("v", base("typo"), vec![]));
    let (overrides, warnings) = load_overrides(&registry(), file);
    assert_eq!(overrides.len(), 1);
    assert!(overrides.get("v").is_some());
    assert_eq!(warnings, vec![warning("v", None, "typo")]);
}

// Adjustment.

#[test]
fn id_without_a_vendor_is_left_alone() {
    let overrides = one_vendor("known", limits(Some(5), Some(6)), vec![]);
    let mut m = model("known");
    apply_adjustments(&mut m, &registry(), &overrides);
    assert_eq!((m.context_window, m.max_output_tokens), (1000, 100));
    assert_eq!(m.family, ModelFamily::Glm);
    assert_eq!(m.supports_thinking_override, None);
}

#[test]
fn overrides_hold_without_a_route() {
    let overrides = one_vendor("vendor", limits(Some(5), None), vec![]);
    let mut m = model("vendor/x");
    apply_adjustments(&mut m, &registry(), &overrides);
    assert_eq!((m.context_window, m.max_output_tokens), (5, 100));
    assert_eq!(m.supports_thinking_override, None);
    assert_eq!(m.family, ModelFamily::Glm);
}

#[test]
fn routed_model_outside_the_table_keeps_its_limits() {
    let mut m = model("e/unknown");
    apply_adjustments(&mut m, &registry(), &Overrides::new());
    assert_eq!((m.context_window, m.max_output_tokens), (1000, 100));
    assert_eq!(m.family, ModelFamily::Other("native".to_string()));
    assert_eq!(m.supports_thinking_override, Some(true));
}

#[test]
fn adjusting_twice_is_adjusting_once() {
    let overrides = one_vendor("e", limits(None, Some(9)), vec![]);
    let mut m = model("e/known");
    apply_adjustments(&mut m, &registry(), &overrides);
    assert_eq!((m.context_window, m.max_output_tokens), (111, 9));
    apply_adjustments(&mut m, &registry(), &overrides);
    assert_eq!(m.id, "e/known");
    assert_eq!((m.context_window, m.max_output_tokens), (111, 9));
    assert_eq!(m.supports_thinking_override, Some(true));
}

// The list.

#[test]
fn items_without_an_id_are_passed_over() {
    let body = parse_json(
        r#"{"data": [{"id": "a"}, {"id": 3}, {}, null, "x", [], {"id": "b/c"}]}"#,
    )
    .unwrap();
    let listed = parse_models(&body, &Overrides::new());
    let ids: Vec<&str> = listed.iter().map(|m| m.id.as_str()).collect();
    assert_eq!(ids, vec!["a", "b/c"]);
}

#[test]
fn bodies_that_are_no_list_hold_no_models() {
    for text in ["null", "true", "3", r#""data""#, "[]", r#"{"data": {}}"#, r#"{"data": "x"}"#] {
        let body = parse_json(text).unwrap();
        assert!(parse_models(&body, &Overrides::new()).is_empty());
    }
}

#[test]
fn odd_vendors_and_prices_are_missing() {
    let overrides = one_vendor("", limits(Some(5), Some(6)), vec![]);
    let body = parse_json(
        r#"{"data": [
            {"id": "a", "metadata": {"provider": {"id": ""}}, "pricing": {}},
            {"id": "b", "metadata": {"provider": {"id": 7}}, "pricing": []},
            {"id": "c", "metadata": {"provider": "v"}, "pricing": {"input": 1, "output": "x"}}
        ]}"#,
    )
    .unwrap();
    let listed = parse_models(&body, &overrides);
    assert_eq!(listed.len(), 3);
    assert_eq!((listed[0].id.as_str(), listed[1].id.as_str()), ("a", "b"));
    assert!(listed.iter().all(|m| m.context_window.is_none() && m.max_output_tokens.is_none()));
    assert!(listed[0].pricing.as_ref().unwrap().input.is_none());
    assert!(listed[1].pricing.is_none());
    let p = listed[2].pricing.as_ref().unwrap();
    assert_eq!(p.input, None);
    assert_eq!(p.output, Some("x".to_string()));
    assert_eq!(p.cache_read, None);
    assert_eq!(p.cache_write, None);
    assert_eq!(p.fast, None);
}

#[test]
fn listed_limits_are_those_after_adjustment() {
    let overrides = one_vendor("e", limits(Some(5), None), vec![("m/n", limits(None, Some(6)))]);
    let body =
        parse_json(r#"{"data": [{"id": "m/n", "metadata": {"provider": {"id": "e"}}}]}"#).unwrap();
    let listed = parse_models(&body, &overrides);
    assert_eq!(listed[0].id, "e/m/n");
    assert_eq!(listed[0].context_window, Some(5));
    assert_eq!(listed[0].max_output_tokens, Some(6));
    let mut m = model(&listed[0].id);
    apply_adjustments(&mut m, &registry(), &overrides);
    assert_eq!((m.context_window, m.max_output_tokens), (5, 6));
    assert_eq!(split_once(&listed[0].id, '/'), Some(("e", "m/n")));
}

#[test]
fn documents_are_read_as_they_are_written() {
    let json = parse_json(r#"{"a": [null, true, 1.5, "é"], "b": {}, "a2": "x", "a2": "y"}"#);
    let json = json.unwrap();
    match json.member("a") {
        Some(Json::List(items)) => {
            assert_eq!(items.len(), 4);
            assert!(matches!(items[0], Json::Null));
            assert!(matches!(items[1], Json::Bool(true)));
            assert!(matches!(items[2], Json::Number));
            assert_eq!(items[3].as_text(), Some("\u{e9}"));
        }
        other => panic!("{:?}", other),
    }
    assert!(matches!(json.member("b"), Some(Json::Record(v)) if v.is_empty()));
    assert_eq!(json.member("a2").unwrap().as_text(), Some("y"));
    assert!(json.member("c").is_none());
    assert_eq!(price_text(json.member("a2")), Some("y".to_string()));
    assert_eq!(price_text(json.member("a")), None);
    assert_eq!(price_text(None), None);
}

// The provider.

#[test]
fn new_needs_a_base_url() {
    let made = Aperture::new(&registry(), 3u32, None, None, OverridesFile::Unreadable);
    match made {
        Err(AgentError::Config { message }) => assert_eq!(message, "APERTURE_BASE_URL not set"),
        _ => panic!("no base URL was given"),
    }
}

#[test]
fn new_starts_from_the_base_url_and_the_overrides() {
    let file = OverridesFile::Parsed(one_vendor("v", base("typo"), vec![]));
    let (aperture, warnings) =
        Aperture::new(&registry(), 3u32, Some("http://h/".to_string()), None, file).unwrap();
    assert_eq!(aperture.auth.base_url, Some("http://h".to_string()));
    assert!(aperture.auth.headers.is_empty());
    assert_eq!(aperture.timeouts, 3);
    assert_eq!(aperture.system_prefix, None);
    assert_eq!(aperture.compat.provider_name, "Aperture");
    assert!(aperture.overrides.get("v").is_some());
    assert_eq!(warnings.len(), 1);
    assert_eq!(models_url(&aperture.auth), "http://h/v1/models");
}

#[test]
fn models_url_without_a_base() {
    assert_eq!(models_url(&auth(None)), "/v1/models");
}

fn gateway(overrides: Overrides) -> Aperture<ResolvedAuth, u32> {
    let file = OverridesFile::Parsed(overrides);
    let (aperture, _) = Aperture::with_auth(&registry(), auth(Some("http://h")), 3, file);
    aperture
}

#[test]
fn empty_system_prefix_is_none() {
    let aperture = gateway(Overrides::new()).with_system_prefix(Some("be brief".to_string()));
    assert_eq!(aperture.system_prefix, Some("be brief".to_string()));
    let aperture = aperture.with_system_prefix(Some("".to_string()));
    assert_eq!(aperture.system_prefix, None);
    let aperture = aperture.with_system_prefix(Some(" ".to_string()));
    assert_eq!(aperture.system_prefix, Some(" ".to_string()));
    assert_eq!(aperture.with_system_prefix(None).system_prefix, None);
}

#[test]
fn requests_go_through_the_routed_client() {
    let aperture = gateway(one_vendor("v", base("d"), vec![]))
        .with_system_prefix(Some("pre".to_string()));
    for (id, client) in [("e/glm", NativeClient::Zai), ("v/x/y", NativeClient::Mistral)] {
        match aperture.plan_stream(&registry(), id) {
            StreamPlan::Native(p) => {
                assert_eq!(p.client, client);
                assert_eq!(p.auth.base_url, Some("http://h".to_string()));
                assert_eq!(p.auth.headers, vec![("x-key".to_string(), "k".to_string())]);
                assert_eq!(p.timeouts, 3);
                assert_eq!(p.system_prefix, Some("pre".to_string()));
            }
            StreamPlan::Generic { .. } => panic!("{} has a route", id),
        }
    }
    for id in ["e", "nobody/x", "s/x", "p/x", ""] {
        match aperture.plan_stream(&registry(), id) {
            StreamPlan::Native(_) => panic!("{} has no route", id),
            StreamPlan::Generic { auth, system_prefix } => {
                assert_eq!(auth.base_url, Some("http://h".to_string()));
                assert_eq!(auth.headers.len(), 1);
                assert_eq!(system_prefix, Some("pre".to_string()));
            }
        }
    }
}

#[test]
fn shared_authentication_is_handed_on() {
    let shared = std::rc::Rc::new(auth(Some("http://h")));
    let (aperture, _) =
        Aperture::with_auth(&registry(), shared.clone(), 3u32, OverridesFile::Unreadable);
    match aperture.plan_stream(&registry(), "e/glm") {
        StreamPlan::Native(p) => assert!(std::rc::Rc::ptr_eq(p.auth, &shared)),
        StreamPlan::Generic { .. } => panic!("the vendor is served"),
    }
    match aperture.plan_stream(&registry(), "glm") {
        StreamPlan::Native(_) => panic!("there is no vendor"),
        StreamPlan::Generic { auth, .. } => assert!(std::rc::Rc::ptr_eq(auth, &shared)),
    }
}

#[test]
fn cloned_authentication_is_the_same() {
    let copy = auth(Some("u")).clone();
    assert_eq!(copy.base_url, Some("u".to_string()));
    assert_eq!(copy.headers, vec![("x-key".to_string(), "k".to_string())]);
    assert_eq!(auth(None).clone().base_url, None);
}

#[test]
fn replies_are_listed_with_the_overrides() {
    let aperture = gateway(one_vendor("v", limits(Some(5), None), vec![]));
    let listed = aperture
        .list_models(r#"{"data": [{"id": "m", "metadata": {"provider": {"id": "v"}}}]}"#)
        .unwrap();
    assert_eq!(listed.len(), 1);
    assert_eq!(listed[0].id, "v/m");
    assert_eq!(listed[0].context_window, Some(5));
}

#[test]
fn replies_that_are_not_json_are_an_error() {
    let aperture = gateway(Overrides::new());
    for text in ["", "{", "{'data': []}", "{} {}"] {
        let expected = serde_json::from_str::<serde_json::Value>(text).unwrap_err();
        match aperture.list_models(text) {
            Err(AgentError::Json(e)) => assert_eq!(e.to_string(), expected.to_string()),
            _ => panic!("{:?} is not JSON", text),
        }
    }
}

#[test]
fn adjust_model_uses_the_gateways_overrides() {
    let aperture = gateway(one_vendor("e", limits(Some(5), None), vec![]));
    let mut m = model("e/known");
    aperture.adjust_model(&registry(), &mut m);
    assert_eq!((m.context_window, m.max_output_tokens), (5, 22));
}
