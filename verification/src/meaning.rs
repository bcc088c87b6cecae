//! What each operation gives, told from its inputs alone: from the entries of a
//! registry, the fields of overrides, the members of a document and the characters of
//! a string.

use crate::adjust::{adjusted, route, Model, ModelView};
use crate::json::{member_of, text_in, tree_of, Json, JsonTree};
use crate::listing::{
    info_views, model_in, models_among, models_in, vendor_in, ModelInfo, ModelPricing,
};
use crate::native::{client_of, LocalServer, NativeClient, ResolvedAuth};
use crate::overrides::{
    merged, FieldsView, OverrideFields, Overrides, OverridesView, ProviderOverride,
    ProviderOverrideView,
};
use crate::provider::{nonempty, overrides_in, warns_of, Aperture, OverridesFile};
use crate::registry::{
    FamilyView, ModelEntry, ModelFamily, NativeProvider, NativeView, ProviderKind, RegistryView,
};
use crate::routing::{is_compat, kind_of, routed};
use crate::settings::{base_url, usable, BASE_URL_ENV};
use crate::text::{
    is_white_space, slash_trimmed, split_at_first, text_of, trimmed, without_leading_space,
    without_trailing, without_trailing_space,
};
use crate::validation::{warned, warning_views, BaseWarning, BaseWarningView};
use vstd::prelude::*;

verus! {

// Routes.

/// The gateway serves nine kinds, and each through a client of its own.
pub proof fn the_kinds_that_are_served(kind: ProviderKind)
    ensures
        is_compat(kind) <==> {
            ||| kind == ProviderKind::OpenAi
            ||| kind == ProviderKind::Ollama
            ||| kind == ProviderKind::LlamaCpp
            ||| kind == ProviderKind::Mistral
            ||| kind == ProviderKind::Zai
            ||| kind == ProviderKind::DeepSeek
            ||| kind == ProviderKind::OpenRouter
            ||| kind == ProviderKind::Synthetic
            ||| kind == ProviderKind::TensorX
        },
        client_of(ProviderKind::OpenAi) == Some(NativeClient::OpenAi),
        client_of(ProviderKind::Ollama) == Some(NativeClient::Local(LocalServer::Ollama)),
        client_of(ProviderKind::LlamaCpp) == Some(NativeClient::Local(LocalServer::LlamaCpp)),
        client_of(ProviderKind::Mistral) == Some(NativeClient::Mistral),
        client_of(ProviderKind::Zai) == Some(NativeClient::Zai),
        client_of(ProviderKind::DeepSeek) == Some(NativeClient::DeepSeek),
        client_of(ProviderKind::OpenRouter) == Some(NativeClient::OpenRouter),
        client_of(ProviderKind::Synthetic) == Some(NativeClient::Synthetic),
        client_of(ProviderKind::TensorX) == Some(NativeClient::TensorX),
{
}

/// A vendor without overrides that goes by the name of a provider of one of the nine
/// kinds is routed to exactly that provider, whatever its family, its table of models,
/// and whether it thinks.
pub proof fn vendor_named_like_a_served_provider(
    registry: RegistryView,
    vendor: Seq<char>,
    overrides: OverridesView,
    model: Seq<char>,
)
    requires
        registry.dom().contains(vendor),
        ({
            let kind = registry[vendor].kind;
            ||| kind == ProviderKind::OpenAi
            ||| kind == ProviderKind::Ollama
            ||| kind == ProviderKind::LlamaCpp
            ||| kind == ProviderKind::Mistral
            ||| kind == ProviderKind::Zai
            ||| kind == ProviderKind::DeepSeek
            ||| kind == ProviderKind::OpenRouter
            ||| kind == ProviderKind::Synthetic
            ||| kind == ProviderKind::TensorX
        }),
    ensures
        routed(registry, vendor, Map::empty(), model) == Some(registry[vendor]),
        !overrides.dom().contains(vendor) ==> routed(registry, vendor, overrides, model) == Some(
            registry[vendor],
        ),
        kind_of(routed(registry, vendor, Map::empty(), model)) == Some(registry[vendor].kind),
{
}

/// Where the overrides give a model a base, and that is the name of a provider that is
/// served, the model is routed to exactly that provider.
pub proof fn route_by_the_models_base(
    registry: RegistryView,
    vendor: Seq<char>,
    overrides: OverridesView,
    model: Seq<char>,
    base: Seq<char>,
)
    requires
        overrides.dom().contains(vendor),
        overrides[vendor].models.dom().contains(model),
        overrides[vendor].models[model].base == Some(base),
        registry.dom().contains(base),
        is_compat(registry[base].kind),
    ensures
        routed(registry, vendor, overrides, model) == Some(registry[base]),
{
}

/// Where the overrides give a vendor a base, and that is the name of a provider that is
/// served, every model of the vendor is routed to exactly that provider, unless it has a
/// base of its own that names one that is served.
pub proof fn route_by_the_vendors_base(
    registry: RegistryView,
    vendor: Seq<char>,
    overrides: OverridesView,
    model: Seq<char>,
    base: Seq<char>,
)
    requires
        overrides.dom().contains(vendor),
        overrides[vendor].default.base == Some(base),
        registry.dom().contains(base),
        is_compat(registry[base].kind),
        overrides[vendor].models.dom().contains(model) ==> {
            let own = overrides[vendor].models[model].base;
            own is None || !registry.dom().contains(own->0) || !is_compat(registry[own->0].kind)
        },
    ensures
        routed(registry, vendor, overrides, model) == Some(registry[base]),
{
}

/// Where no base names a provider that is served, the vendor's id decides: the model is
/// routed to exactly the provider of that name if it is served, and else has no route.
pub proof fn route_by_the_vendors_id(
    registry: RegistryView,
    vendor: Seq<char>,
    overrides: OverridesView,
    model: Seq<char>,
)
    requires
        overrides.dom().contains(vendor) ==> {
            let shared = overrides[vendor].default.base;
            shared is None || !registry.dom().contains(shared->0) || !is_compat(
                registry[shared->0].kind,
            )
        },
        overrides.dom().contains(vendor) && overrides[vendor].models.dom().contains(model) ==> {
            let own = overrides[vendor].models[model].base;
            own is None || !registry.dom().contains(own->0) || !is_compat(registry[own->0].kind)
        },
    ensures
        registry.dom().contains(vendor) && is_compat(registry[vendor].kind) ==> routed(
            registry,
            vendor,
            overrides,
            model,
        ) == Some(registry[vendor]),
        !(registry.dom().contains(vendor) && is_compat(registry[vendor].kind)) ==> routed(
            registry,
            vendor,
            overrides,
            model,
        ) is None,
{
}

/// The kind of a route is that of its provider.
pub proof fn kind_of_a_route(native: NativeView)
    ensures
        kind_of(Some(native)) == Some(native.kind),
        kind_of(None) is None,
{
}

/// A string splits into what stands before the first separator and what stands after
/// it, and a string without a separator does not split.
pub proof fn a_string_splits_at_its_first_separator(
    before: Seq<char>,
    after: Seq<char>,
    separator: char,
)
    requires
        !before.contains(separator),
    ensures
        split_at_first(before + seq![separator] + after, separator) == Some((before, after)),
        split_at_first(before, separator) is None,
{
    let s = before + seq![separator] + after;
    let n = before.len() as int;
    s.index_of_first_ensures(separator);
    before.index_of_first_ensures(separator);
    assert(s[n] == separator);
    assert(s.contains(separator));
    let i = s.index_of_first(separator).unwrap();
    if i < n {
        assert(before[i] == separator);
        assert(before.contains(separator));
    }
    assert(s.take(n) =~= before);
    assert(s.skip(n + 1) =~= after);
}

/// The model with the id `vendor/model` is routed as that model of that vendor, where
/// the vendor's part has no slash in it. A model whose id has no slash has no route, and
/// is not adjusted.
pub proof fn ids_name_vendor_and_model(
    registry: RegistryView,
    overrides: OverridesView,
    vendor: Seq<char>,
    model: Seq<char>,
    known: ModelView,
)
    requires
        !vendor.contains('/'),
    ensures
        split_at_first(vendor + seq!['/'] + model, '/') == Some((vendor, model)),
        route(registry, overrides, vendor + seq!['/'] + model) == routed(
            registry,
            vendor,
            overrides,
            model,
        ),
        split_at_first(vendor, '/') is None,
        route(registry, overrides, vendor) is None,
        !known.id.contains('/') ==> adjusted(known, registry, overrides) == known,
{
    a_string_splits_at_its_first_separator(vendor, model, '/');
    if !known.id.contains('/') {
        a_string_splits_at_its_first_separator(known.id, known.id, '/');
    }
}

/// What a model is once it has been adjusted, field by field, where its id is that of a
/// vendor and a model around a slash.
pub proof fn fields_of_an_adjusted_model(
    model: ModelView,
    registry: RegistryView,
    overrides: OverridesView,
    vendor: Seq<char>,
    id: Seq<char>,
)
    requires
        !vendor.contains('/'),
        model.id == vendor + seq!['/'] + id,
    ensures
        ({
            let after = adjusted(model, registry, overrides);
            let native = routed(registry, vendor, overrides, id);
            let fields = merged(overrides, vendor, id);
            let listed = native is Some && native->0.models.dom().contains(id);
            &&& after.id == model.id
            &&& native is Some ==> after.family == native->0.family
            &&& native is None ==> after.family == model.family
            &&& native is Some ==> after.supports_thinking_override == Some(
                native->0.supports_thinking,
            )
            &&& native is None ==> after.supports_thinking_override
                == model.supports_thinking_override
            &&& fields.context_window is Some ==> Some(after.context_window)
                == fields.context_window
            &&& fields.context_window is None && listed ==> after.context_window
                == native->0.models[id].context_window
            &&& fields.context_window is None && !listed ==> after.context_window
                == model.context_window
            &&& fields.max_output_tokens is Some ==> Some(after.max_output_tokens)
                == fields.max_output_tokens
            &&& fields.max_output_tokens is None && listed ==> after.max_output_tokens
                == native->0.models[id].max_output_tokens
            &&& fields.max_output_tokens is None && !listed ==> after.max_output_tokens
                == model.max_output_tokens
        }),
{
    ids_name_vendor_and_model(registry, overrides, vendor, id, model);
}

// Overrides.

/// Whatever a file parsed to is what is loaded from it, all vendors of it; any other
/// outcome of reading it leaves nothing overridden.
pub proof fn a_parsed_file_is_loaded_whole(parsed: Overrides)
    ensures
        overrides_in(OverridesFile::Parsed(parsed)) == parsed@,
        overrides_in(OverridesFile::NoConfigDir) == Map::<
            Seq<char>,
            ProviderOverrideView,
        >::empty(),
        overrides_in(OverridesFile::Unreadable) == Map::<Seq<char>, ProviderOverrideView>::empty(),
        overrides_in(OverridesFile::Malformed) == Map::<Seq<char>, ProviderOverrideView>::empty(),
{
}

/// Nothing is overridden for a model of a vendor that the overrides do not have.
pub proof fn nothing_holds_for_a_vendor_left_out(
    overrides: OverridesView,
    vendor: Seq<char>,
    model: Seq<char>,
)
    requires
        !overrides.dom().contains(vendor),
    ensures
        merged(overrides, vendor, model).context_window is None,
        merged(overrides, vendor, model).max_output_tokens is None,
        merged(overrides, vendor, model).base is None,
        FieldsView::empty().context_window is None,
        FieldsView::empty().max_output_tokens is None,
        FieldsView::empty().base is None,
{
}

/// There is a warning about a base exactly where the overrides give it, for a vendor or
/// for one of its models, and it is not the name of a provider that is served.
pub proof fn bases_that_are_warned_of(
    registry: RegistryView,
    overrides: OverridesView,
    vendor: Seq<char>,
    model: Seq<char>,
    base: Seq<char>,
)
    ensures
        warned(
            registry,
            overrides,
            (BaseWarningView { provider: vendor, model: None, base }),
        ) <==> {
            &&& overrides.dom().contains(vendor)
            &&& overrides[vendor].default.base == Some(base)
            &&& !(registry.dom().contains(base) && is_compat(registry[base].kind))
        },
        warned(
            registry,
            overrides,
            (BaseWarningView { provider: vendor, model: Some(model), base }),
        ) <==> {
            &&& overrides.dom().contains(vendor)
            &&& overrides[vendor].models.dom().contains(model)
            &&& overrides[vendor].models[model].base == Some(base)
            &&& !(registry.dom().contains(base) && is_compat(registry[base].kind))
        },
{
}

/// The warnings that come with loaded overrides are all that they call for and no other,
/// none twice, and those about one vendor together with its own in front.
pub proof fn warnings_are_complete(
    warnings: Seq<BaseWarning>,
    registry: RegistryView,
    overrides: OverridesView,
    i: int,
    j: int,
    k: int,
)
    requires
        warns_of(warnings, registry, overrides),
        0 <= i < warnings.len(),
        0 <= j < warnings.len(),
        0 <= k < warnings.len(),
    ensures
        warned(registry, overrides, warnings[i]@),
        forall|w: BaseWarningView|
            warned(registry, overrides, w) ==> exists|n: int|
                0 <= n < warnings.len() && (#[trigger] warnings[n])@ == w,
        i != j ==> warnings[i]@ != warnings[j]@,
        i < j < k && warnings[i].provider@ == warnings[k].provider@ ==> warnings[j].provider@
            == warnings[i].provider@,
        warnings[i].provider@ == warnings[j].provider@ && warnings[i].model is None
            && warnings[j].model is Some ==> i < j,
{
    let views = warning_views(warnings);
    assert(views[i] == warnings[i]@);
    assert(views[j] == warnings[j]@);
    assert(views[k] == warnings[k]@);
    assert(views.contains(views[i]));
    assert forall|w: BaseWarningView| warned(registry, overrides, w) implies exists|n: int|
        0 <= n < warnings.len() && (#[trigger] warnings[n])@ == w by {
        assert(views.contains(w));
        let n = choose|n: int| 0 <= n < views.len() && views[n] == w;
        assert(warnings[n]@ == w);
    }
}

/// Without anything overridden there is nothing to warn of.
pub proof fn no_overrides_no_warnings(warnings: Seq<BaseWarning>, registry: RegistryView)
    requires
        warns_of(warnings, registry, Map::empty()),
    ensures
        warnings.len() == 0,
{
    if warnings.len() > 0 {
        warnings_are_complete(warnings, registry, Map::empty(), 0, 0, 0);
    }
}

// Documents.

/// A record's member is what its first entry of that name holds, and a name that no
/// entry has is no member.
pub proof fn members_are_entries(entries: Seq<(Seq<char>, JsonTree)>, key: Seq<char>, i: int)
    ensures
        0 <= i < entries.len() && entries[i].0 == key && (forall|j: int|
            0 <= j < i ==> (#[trigger] entries[j]).0 != key) ==> JsonTree::Record(entries).member(
            key,
        ) == Some(entries[i].1),
        (forall|j: int| 0 <= j < entries.len() ==> (#[trigger] entries[j]).0 != key)
            ==> JsonTree::Record(entries).member(key) is None,
    decreases entries.len(),
{
    if entries.len() > 0 && entries.first().0 != key {
        let rest = entries.drop_first();
        members_are_entries(rest, key, i - 1);
        assert forall|j: int| 0 <= j < rest.len() implies (#[trigger] rest[j]) == entries[j
            + 1] by {}
        if 0 <= i < entries.len() && entries[i].0 == key && (forall|j: int|
            0 <= j < i ==> (#[trigger] entries[j]).0 != key) {
            assert(i > 0);
            assert(rest[i - 1] == entries[i]);
            assert forall|j: int| 0 <= j < i - 1 implies (#[trigger] rest[j]).0 != key by {
                assert(entries[j + 1].0 != key);
            }
        }
        if forall|j: int| 0 <= j < entries.len() ==> (#[trigger] entries[j]).0 != key {
            assert forall|j: int| 0 <= j < rest.len() implies (#[trigger] rest[j]).0 != key by {
                assert(entries[j + 1].0 != key);
            }
        }
    }
}

/// Only records have members, and only strings have characters.
pub proof fn only_records_have_members(tree: JsonTree, key: Seq<char>, s: Seq<char>)
    ensures
        !(tree is Record) ==> tree.member(key) is None,
        !(tree is Text) ==> tree.text() is None,
        JsonTree::Text(s).text() == Some(s),
        text_in(Some(tree)) == tree.text(),
        text_in(None) is None,
        member_of(Some(tree), key) == tree.member(key),
        member_of(None, key) is None,
{
}

/// A document holds what it was made of, at every level.
pub proof fn documents_hold_what_they_are_made_of(
    b: bool,
    s: String,
    list: Vec<Json>,
    record: Vec<(String, Json)>,
    i: int,
)
    ensures
        Json::Null@ == JsonTree::Null,
        Json::Bool(b)@ == JsonTree::Bool(b),
        Json::Number@ == JsonTree::Number,
        Json::Text(s)@ == JsonTree::Text(s@),
        Json::List(list)@ is List,
        Json::List(list)@->List_0.len() == list@.len(),
        0 <= i < list@.len() ==> Json::List(list)@->List_0[i] == list@[i]@,
        Json::Record(record)@ is Record,
        Json::Record(record)@->Record_0.len() == record@.len(),
        0 <= i < record@.len() ==> Json::Record(record)@->Record_0[i] == (
            record@[i].0@,
            record@[i].1@,
        ),
        forall|json: &Json| #[trigger] tree_of(Some(json)) == Some(json@),
        tree_of(None) is None,
{
}

// The list.

/// An item is listed exactly where it has an id that is a string.
pub proof fn items_need_an_id(item: JsonTree, overrides: OverridesView)
    ensures
        model_in(item, overrides) is Some <==> (item.member("id"@) is Some && item.member(
            "id"@,
        )->0 is Text),
{
}

/// An item with the id `own` whose metadata name the provider `vendor` is listed under
/// the one, a slash, and the other, character for character, and with the limits that
/// the overrides give that model of that vendor.
pub proof fn items_of_a_vendor(
    item: JsonTree,
    overrides: OverridesView,
    metadata: JsonTree,
    provider: JsonTree,
    vendor: Seq<char>,
    own: Seq<char>,
)
    requires
        item.member("id"@) == Some(JsonTree::Text(own)),
        item.member("metadata"@) == Some(metadata),
        metadata.member("provider"@) == Some(provider),
        provider.member("id"@) == Some(JsonTree::Text(vendor)),
        vendor.len() > 0,
    ensures
        model_in(item, overrides) is Some,
        model_in(item, overrides)->0.id == vendor + seq!['/'] + own,
        model_in(item, overrides)->0.context_window == merged(
            overrides,
            vendor,
            own,
        ).context_window,
        model_in(item, overrides)->0.max_output_tokens == merged(
            overrides,
            vendor,
            own,
        ).max_output_tokens,
{
    assert(vendor.push('/') + own =~= vendor + seq!['/'] + own);
}

/// An item with the id `own` whose metadata name no provider is listed under its own id,
/// character for character, and without limits.
pub proof fn items_without_a_vendor(item: JsonTree, overrides: OverridesView, own: Seq<char>)
    requires
        item.member("id"@) == Some(JsonTree::Text(own)),
        forall|metadata: JsonTree, provider: JsonTree|
            item.member("metadata"@) == Some(metadata) && #[trigger] metadata.member("provider"@)
                == Some(provider) ==> {
                let name = #[trigger] provider.member("id"@);
                name is None || !(name->0 is Text) || name->0->Text_0.len() == 0
            },
    ensures
        model_in(item, overrides) is Some,
        model_in(item, overrides)->0.id == own,
        model_in(item, overrides)->0.context_window is None,
        model_in(item, overrides)->0.max_output_tokens is None,
{
    if item.member("metadata"@) is Some {
        let metadata = item.member("metadata"@)->0;
        if metadata.member("provider"@) is Some {
            let provider = metadata.member("provider"@)->0;
            assert(metadata.member("provider"@) == Some(provider));
            let name = provider.member("id"@);
            assert(name is None || !(name->0 is Text) || name->0->Text_0.len() == 0);
        }
    }
    assert(vendor_in(item).len() == 0);
}

/// Each price of a listed model is the text of its own member of the item's prices and
/// of no other: it is missing where that member is missing or no string, whatever the
/// other members hold. An item whose prices are no record has none.
pub proof fn prices_are_their_own_members(
    item: JsonTree,
    overrides: OverridesView,
    prices: JsonTree,
    price: Seq<char>,
)
    requires
        model_in(item, overrides) is Some,
        item.member("pricing"@) == Some(prices),
    ensures
        model_in(item, overrides)->0.pricing is Some <==> prices is Record,
        prices is Record ==> ({
            let listed = model_in(item, overrides)->0.pricing->0;
            &&& listed.input == Some(price) <==> prices.member("input"@) == Some(
                JsonTree::Text(price),
            )
            &&& listed.output == Some(price) <==> prices.member("output"@) == Some(
                JsonTree::Text(price),
            )
            &&& listed.cache_read == Some(price) <==> prices.member("input_cache_read"@) == Some(
                JsonTree::Text(price),
            )
            &&& listed.input is None <==> !(prices.member("input"@) is Some && prices.member(
                "input"@,
            )->0 is Text)
            &&& listed.output is None <==> !(prices.member("output"@) is Some && prices.member(
                "output"@,
            )->0 is Text)
            &&& listed.cache_read is None <==> !(prices.member("input_cache_read"@) is Some
                && prices.member("input_cache_read"@)->0 is Text)
            &&& listed.cache_write is None
            &&& listed.fast is None
        }),
{
}

/// An item that says nothing of prices has none.
pub proof fn no_prices_without_pricing(item: JsonTree, overrides: OverridesView)
    requires
        model_in(item, overrides) is Some,
        item.member("pricing"@) is None,
    ensures
        model_in(item, overrides)->0.pricing is None,
{
}

/// The models of a reply are those of the items under `data`, all of them and in their
/// order; a reply without a list there has none.
pub proof fn models_stand_under_data(
    body: JsonTree,
    overrides: OverridesView,
    items: Seq<JsonTree>,
    item: JsonTree,
)
    ensures
        body.member("data"@) == Some(JsonTree::List(items)) ==> models_in(body, overrides)
            == models_among(items, overrides),
        !(body.member("data"@) is Some && body.member("data"@)->0 is List) ==> models_in(
            body,
            overrides,
        ).len() == 0,
        models_among(Seq::empty(), overrides).len() == 0,
        model_in(item, overrides) is Some ==> models_among(items.push(item), overrides)
            == models_among(items, overrides).push(model_in(item, overrides)->0),
        model_in(item, overrides) is None ==> models_among(items.push(item), overrides)
            == models_among(items, overrides),
{
    assert(items.push(item).drop_last() =~= items);
}

// Base URLs.

/// Without a base URL in the environment, every configured one that is more than white
/// space is used, and none where there is none. One in the environment that is more than
/// white space is used whatever is configured; a blank one is as good as none.
pub proof fn sources_of_the_base_url(
    env: Seq<char>,
    configured: Seq<char>,
    any: Option<Seq<char>>,
)
    ensures
        trimmed(configured).len() > 0 ==> base_url(None, Some(configured)) == Some(
            slash_trimmed(configured),
        ),
        trimmed(configured).len() == 0 ==> base_url(None, Some(configured)) is None,
        base_url(None, None) is None,
        trimmed(env).len() > 0 ==> base_url(Some(env), any) == Some(slash_trimmed(env)),
        trimmed(env).len() == 0 ==> base_url(Some(env), any) == base_url(None, any),
        usable(Some(env)) <==> trimmed(env).len() > 0,
        !usable(None),
{
}

/// What a URL with white space around it and slashes at its end resolves to, wherever it
/// comes from, is what stands between them.
pub proof fn base_url_is_what_stands_between(
    lead: Seq<char>,
    url: Seq<char>,
    slashes: Seq<char>,
    trail: Seq<char>,
)
    requires
        forall|i: int| 0 <= i < lead.len() ==> is_white_space(#[trigger] lead[i]),
        forall|i: int| 0 <= i < trail.len() ==> is_white_space(#[trigger] trail[i]),
        forall|i: int| 0 <= i < slashes.len() ==> #[trigger] slashes[i] == '/',
        url.len() > 0,
        !is_white_space(url.first()),
        !is_white_space(url.last()) || slashes.len() > 0,
        url.last() != '/',
    ensures
        trimmed(lead + (url + slashes) + trail) == url + slashes,
        slash_trimmed(lead + (url + slashes) + trail) == url,
        base_url(Some(lead + (url + slashes) + trail), None) == Some(url),
        base_url(None, Some(lead + (url + slashes) + trail)) == Some(url),
{
    let core = url + slashes;
    assert(!is_white_space('/'));
    assert(core.first() == url.first());
    if slashes.len() > 0 {
        assert(core.last() == slashes.last());
        assert(slashes[slashes.len() - 1] == '/');
    } else {
        assert(core.last() == url.last());
    }
    lemma_leading_space_goes(lead, core + trail);
    assert(lead + core + trail =~= lead + (core + trail));
    assert((core + trail).first() == core.first());
    lemma_trailing_space_goes(core, trail);
    lemma_trailing_goes(url, slashes, '/');
}

/// White space in front goes, up to the first character that is none.
proof fn lemma_leading_space_goes(lead: Seq<char>, s: Seq<char>)
    requires
        forall|i: int| 0 <= i < lead.len() ==> is_white_space(#[trigger] lead[i]),
        s.len() > 0,
        !is_white_space(s.first()),
    ensures
        without_leading_space(lead + s) == s,
    decreases lead.len(),
{
    if lead.len() == 0 {
        assert(lead + s =~= s);
    } else {
        assert((lead + s).first() == lead[0]);
        assert((lead + s).drop_first() =~= lead.drop_first() + s);
        assert forall|i: int| 0 <= i < lead.drop_first().len() implies is_white_space(
            #[trigger] lead.drop_first()[i],
        ) by {
            assert(lead.drop_first()[i] == lead[i + 1]);
        }
        lemma_leading_space_goes(lead.drop_first(), s);
    }
}

/// White space at the end goes, up to the last character that is none.
proof fn lemma_trailing_space_goes(s: Seq<char>, trail: Seq<char>)
    requires
        forall|i: int| 0 <= i < trail.len() ==> is_white_space(#[trigger] trail[i]),
        s.len() > 0,
        !is_white_space(s.last()),
    ensures
        without_trailing_space(s + trail) == s,
    decreases trail.len(),
{
    if trail.len() == 0 {
        assert(s + trail =~= s);
    } else {
        assert((s + trail).last() == trail[trail.len() - 1]);
        assert((s + trail).drop_last() =~= s + trail.drop_last());
        lemma_trailing_space_goes(s, trail.drop_last());
    }
}

/// A character at the end goes, as often as it stands there.
proof fn lemma_trailing_goes(s: Seq<char>, tail: Seq<char>, c: char)
    requires
        forall|i: int| 0 <= i < tail.len() ==> #[trigger] tail[i] == c,
        s.len() > 0,
        s.last() != c,
    ensures
        without_trailing(s + tail, c) == s,
    decreases tail.len(),
{
    if tail.len() == 0 {
        assert(s + tail =~= s);
    } else {
        assert((s + tail).last() == tail[tail.len() - 1]);
        assert((s + tail).drop_last() =~= s + tail.drop_last());
        lemma_trailing_goes(s, tail.drop_last(), c);
    }
}

/// A string of white space alone is trimmed to nothing, and is no base URL.
pub proof fn blank_is_trimmed_to_nothing(s: Seq<char>)
    requires
        forall|i: int| 0 <= i < s.len() ==> is_white_space(#[trigger] s[i]),
    ensures
        trimmed(s).len() == 0,
        base_url(Some(s), None) is None,
        base_url(None, Some(s)) is None,
    decreases s.len(),
{
    if s.len() > 0 {
        assert(is_white_space(s[0]));
        assert forall|i: int| 0 <= i < s.drop_first().len() implies is_white_space(
            #[trigger] s.drop_first()[i],
        ) by {
            assert(s.drop_first()[i] == s[i + 1]);
        }
        blank_is_trimmed_to_nothing(s.drop_first());
    }
}

/// Slashes alone, with white space around them, resolve to an empty base URL.
pub proof fn slashes_alone_resolve_to_nothing(
    lead: Seq<char>,
    slashes: Seq<char>,
    trail: Seq<char>,
)
    requires
        forall|i: int| 0 <= i < lead.len() ==> is_white_space(#[trigger] lead[i]),
        forall|i: int| 0 <= i < trail.len() ==> is_white_space(#[trigger] trail[i]),
        forall|i: int| 0 <= i < slashes.len() ==> #[trigger] slashes[i] == '/',
        slashes.len() > 0,
    ensures
        trimmed(lead + slashes + trail) == slashes,
        slash_trimmed(lead + slashes + trail) == Seq::<char>::empty(),
        base_url(Some(lead + slashes + trail), None) == Some(Seq::<char>::empty()),
        base_url(None, Some(lead + slashes + trail)) == Some(Seq::<char>::empty()),
{
    assert(slashes[0] == '/');
    assert(slashes[slashes.len() - 1] == '/');
    lemma_leading_space_goes(lead, slashes + trail);
    assert(lead + slashes + trail =~= lead + (slashes + trail));
    assert((slashes + trail).first() == slashes[0]);
    lemma_trailing_space_goes(slashes, trail);
    lemma_slashes_go(slashes);
}

/// Of slashes alone nothing is left.
proof fn lemma_slashes_go(slashes: Seq<char>)
    requires
        forall|i: int| 0 <= i < slashes.len() ==> #[trigger] slashes[i] == '/',
    ensures
        without_trailing(slashes, '/') == Seq::<char>::empty(),
    decreases slashes.len(),
{
    if slashes.len() > 0 {
        assert(slashes[slashes.len() - 1] == '/');
        lemma_slashes_go(slashes.drop_last());
    } else {
        assert(slashes =~= Seq::empty());
    }
}

/// The code points of white space.
pub proof fn code_points_of_white_space(c: char)
    ensures
        is_white_space(c) <==> {
            ||| 9 <= c as u32 <= 13
            ||| c as u32 == 32
            ||| c as u32 == 133
            ||| c as u32 == 160
            ||| c as u32 == 5760
            ||| 8192 <= c as u32 <= 8202
            ||| c as u32 == 8232
            ||| c as u32 == 8233
            ||| c as u32 == 8239
            ||| c as u32 == 8287
            ||| c as u32 == 12288
        },
{
}

// The provider.

/// A system prefix is kept as it is unless it is empty.
pub proof fn system_prefix_is_kept(prefix: Seq<char>)
    ensures
        prefix.len() > 0 ==> nonempty(Some(prefix)) == Some(prefix),
        prefix.len() == 0 ==> nonempty(Some(prefix)) is None,
        nonempty(None) is None,
{
}

/// A gateway puts its requests in its own way, and has no empty system prefix.
pub proof fn gateways_are_well_formed<A, T>(aperture: Aperture<A, T>)
    ensures
        aperture.wf() <==> {
            &&& aperture.compat.api_key_env@ == "APERTURE_BASE_URL"@
            &&& aperture.compat.base_url@ == ""@
            &&& aperture.compat.max_tokens_field@ == "max_tokens"@
            &&& aperture.compat.include_stream_usage
            &&& aperture.compat.provider_name@ == "Aperture"@
            &&& aperture.system_prefix matches Some(prefix) ==> prefix@.len() > 0
        },
        BASE_URL_ENV@ == "APERTURE_BASE_URL"@,
{
}

// What values hold.

/// Nothing of a string that may be missing is lost.
pub proof fn strings_are_shown_whole(s: String)
    ensures
        text_of(Some(s)) == Some(s@),
        text_of(None) is None,
{
}

/// The views of overrides and of warnings show every field.
pub proof fn overrides_are_shown_whole(
    fields: OverrideFields,
    vendor: ProviderOverride,
    warning: BaseWarning,
    warnings: Seq<BaseWarning>,
    i: int,
)
    ensures
        fields@.context_window == fields.context_window,
        fields@.max_output_tokens == fields.max_output_tokens,
        fields.base is Some ==> fields@.base == Some(fields.base->0@),
        fields.base is None ==> fields@.base is None,
        vendor@.default == vendor.default@,
        vendor@.models == vendor.models@,
        warning@.provider == warning.provider@,
        warning.model is Some ==> warning@.model == Some(warning.model->0@),
        warning.model is None ==> warning@.model is None,
        warning@.base == warning.base@,
        warning_views(warnings).len() == warnings.len(),
        0 <= i < warnings.len() ==> warning_views(warnings)[i] == warnings[i]@,
{
}

/// The views of models, providers and their tables show every field.
pub proof fn models_are_shown_whole(
    model: Model,
    entry: ModelEntry,
    native: NativeProvider,
    name: String,
    auth: ResolvedAuth,
    i: int,
)
    ensures
        model@.id == model.id@,
        model@.family == model.family@,
        model@.context_window == model.context_window,
        model@.max_output_tokens == model.max_output_tokens,
        model@.supports_thinking_override == model.supports_thinking_override,
        entry@ == entry,
        native@.kind == native.kind,
        native@.family == native.family@,
        native@.supports_thinking == native.supports_thinking,
        native@.models == native.models@,
        ModelFamily::Glm@ == FamilyView::Glm,
        ModelFamily::Other(name)@ == FamilyView::Other(name@),
        auth.base_url is Some ==> auth@.base_url == Some(auth.base_url->0@),
        auth.base_url is None ==> auth@.base_url is None,
        auth@.headers.len() == auth.headers@.len(),
        0 <= i < auth.headers@.len() ==> auth@.headers[i] == (
            auth.headers@[i].0@,
            auth.headers@[i].1@,
        ),
{
}

/// The views of listed models show every field.
pub proof fn listed_models_are_shown_whole(
    info: ModelInfo,
    pricing: ModelPricing,
    models: Seq<ModelInfo>,
    i: int,
)
    ensures
        info@.id == info.id@,
        info@.context_window == info.context_window,
        info@.max_output_tokens == info.max_output_tokens,
        info.pricing is Some ==> info@.pricing == Some(info.pricing->0@),
        info.pricing is None ==> info@.pricing is None,
        pricing@.input == text_of(pricing.input),
        pricing@.output == text_of(pricing.output),
        pricing@.cache_read == text_of(pricing.cache_read),
        pricing@.cache_write == text_of(pricing.cache_write),
        pricing@.fast == text_of(pricing.fast),
        info_views(models).len() == models.len(),
        0 <= i < models.len() ==> info_views(models)[i] == models[i]@,
{
}

} // verus!
