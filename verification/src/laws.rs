//! What holds of the library as a whole.

use crate::adjust::{adjusted, route, ModelView};
use crate::json::{text_in, JsonTree};
use crate::listing::{full_id, model_in, models_among, vendor_in, InfoView};
use crate::overrides::{
    merged, own_base, shared_base, FieldsView, OverridesView, ProviderOverrideView,
};
use crate::registry::{ProviderKind, RegistryView};
use crate::routing::{compat_base, compat_named, is_compat, routed};
use crate::settings::{base_url, usable};
use crate::text::{
    is_white_space, slash_trimmed, split_at_first, trimmed, without_leading_space,
    without_trailing, without_trailing_space,
};
use crate::validation::{warned, BaseWarningView};
use vstd::prelude::*;

verus! {

// Overrides.

/// What is overridden for a model wins over what is overridden for its vendor, field
/// by field; the vendor's fields hold where the model's say nothing.
pub proof fn model_fields_win(overrides: OverridesView, vendor: Seq<char>, model: Seq<char>)
    requires
        overrides.dom().contains(vendor),
        overrides[vendor].models.dom().contains(model),
    ensures
        ({
            let own = overrides[vendor].models[model];
            let shared = overrides[vendor].default;
            let all = merged(overrides, vendor, model);
            &&& own.context_window is Some ==> all.context_window == own.context_window
            &&& own.context_window is None ==> all.context_window == shared.context_window
            &&& own.max_output_tokens is Some ==> all.max_output_tokens == own.max_output_tokens
            &&& own.max_output_tokens is None ==> all.max_output_tokens
                == shared.max_output_tokens
            &&& own.base is Some ==> all.base == own.base
            &&& own.base is None ==> all.base == shared.base
        }),
{
}

/// A model that has no overrides of its own has those of its vendor, and a vendor
/// without overrides leaves its models without any.
pub proof fn vendor_fields_are_the_default(
    overrides: OverridesView,
    vendor: Seq<char>,
    model: Seq<char>,
)
    ensures
        !overrides.dom().contains(vendor) ==> merged(overrides, vendor, model)
            == FieldsView::empty(),
        overrides.dom().contains(vendor) && !overrides[vendor].models.dom().contains(model)
            ==> merged(overrides, vendor, model) == overrides[vendor].default,
{
}

// Routes.

/// A model is routed only to a provider that the gateway can serve; so never to
/// Anthropic, Google or Copilot, and never back to the gateway itself.
pub proof fn routes_are_compat(
    registry: RegistryView,
    vendor: Seq<char>,
    overrides: OverridesView,
    model: Seq<char>,
)
    ensures
        routed(registry, vendor, overrides, model) matches Some(native) ==> {
            &&& is_compat(native.kind)
            &&& native.kind != ProviderKind::Anthropic
            &&& native.kind != ProviderKind::Google
            &&& native.kind != ProviderKind::Copilot
            &&& native.kind != ProviderKind::Aperture
        },
{
}

/// A base of the model's own that names a provider the gateway can serve decides the
/// route, whatever the vendor's base and id name.
pub proof fn own_base_decides_route(
    registry: RegistryView,
    vendor: Seq<char>,
    overrides: OverridesView,
    model: Seq<char>,
    base: Seq<char>,
)
    requires
        own_base(overrides, vendor, model) == Some(base),
        compat_named(registry, base) is Some,
    ensures
        routed(registry, vendor, overrides, model) == compat_named(registry, base),
{
}

/// The vendor's base is next in line: where the model has no base of its own, or one
/// that names no provider the gateway can serve, a vendor's base that does name one
/// decides the route, whatever the vendor's id names.
pub proof fn vendor_base_is_next_in_line(
    registry: RegistryView,
    vendor: Seq<char>,
    overrides: OverridesView,
    model: Seq<char>,
    base: Seq<char>,
)
    requires
        compat_base(registry, own_base(overrides, vendor, model)) is None,
        shared_base(overrides, vendor) == Some(base),
        compat_named(registry, base) is Some,
    ensures
        routed(registry, vendor, overrides, model) == compat_named(registry, base),
{
}

/// Where neither base names a provider that the gateway can serve, the route is the
/// one that the vendor has without any overrides: the one that its id names.
pub proof fn ignored_bases_leave_the_vendors_route(
    registry: RegistryView,
    vendor: Seq<char>,
    overrides: OverridesView,
    model: Seq<char>,
)
    requires
        compat_base(registry, own_base(overrides, vendor, model)) is None,
        compat_base(registry, shared_base(overrides, vendor)) is None,
    ensures
        routed(registry, vendor, overrides, model) == routed(
            registry,
            vendor,
            Map::empty(),
            model,
        ),
        routed(registry, vendor, overrides, model) == compat_named(registry, vendor),
{
}

/// The overrides without the base given for one model by itself.
pub open spec fn without_own_base(
    overrides: OverridesView,
    vendor: Seq<char>,
    model: Seq<char>,
) -> OverridesView {
    let entry = overrides[vendor];
    let fields = FieldsView { base: None, ..entry.models[model] };
    let models = entry.models.insert(model, fields);
    overrides.insert(vendor, ProviderOverrideView { models, ..entry })
}

/// The overrides without the base given for all models of a vendor.
pub open spec fn without_shared_base(overrides: OverridesView, vendor: Seq<char>) -> OverridesView {
    let entry = overrides[vendor];
    let fields = FieldsView { base: None, ..entry.default };
    overrides.insert(vendor, ProviderOverrideView { default: fields, ..entry })
}

/// A base that names no provider the gateway can serve is as good as none: taking it
/// out of the overrides changes no route.
pub proof fn ignored_base_changes_nothing(
    registry: RegistryView,
    overrides: OverridesView,
    vendor: Seq<char>,
    model: Seq<char>,
    any_vendor: Seq<char>,
    any_model: Seq<char>,
)
    requires
        overrides.dom().contains(vendor),
    ensures
        overrides[vendor].models.dom().contains(model) && compat_base(
            registry,
            own_base(overrides, vendor, model),
        ) is None ==> routed(
            registry,
            any_vendor,
            without_own_base(overrides, vendor, model),
            any_model,
        ) == routed(registry, any_vendor, overrides, any_model),
        compat_base(registry, shared_base(overrides, vendor)) is None ==> routed(
            registry,
            any_vendor,
            without_shared_base(overrides, vendor),
            any_model,
        ) == routed(registry, any_vendor, overrides, any_model),
{
}

/// No base is ignored in silence: there is a warning about each that names no provider
/// the gateway can serve, be it given for a model or for a vendor.
pub proof fn ignored_base_is_warned_of(
    registry: RegistryView,
    vendor: Seq<char>,
    overrides: OverridesView,
    model: Seq<char>,
    base: Seq<char>,
)
    requires
        compat_named(registry, base) is None,
    ensures
        own_base(overrides, vendor, model) == Some(base) ==> warned(
            registry,
            overrides,
            (BaseWarningView { provider: vendor, model: Some(model), base }),
        ),
        shared_base(overrides, vendor) == Some(base) ==> warned(
            registry,
            overrides,
            (BaseWarningView { provider: vendor, model: None, base }),
        ),
{
}

/// Where there is nothing to warn of, the base that holds for a model, its own before
/// its vendor's, decides its route.
pub proof fn base_decides_route_unless_warned(
    registry: RegistryView,
    vendor: Seq<char>,
    overrides: OverridesView,
    model: Seq<char>,
    base: Seq<char>,
)
    requires
        forall|w: BaseWarningView| !#[trigger] warned(registry, overrides, w),
        merged(overrides, vendor, model).base == Some(base),
    ensures
        compat_named(registry, base) is Some,
        routed(registry, vendor, overrides, model) == compat_named(registry, base),
{
    if compat_named(registry, base) is None {
        ignored_base_is_warned_of(registry, vendor, overrides, model, base);
    }
}

// Adjustment.

/// Limits that the user overrides win over every table.
pub proof fn overrides_win_over_tables(
    model: ModelView,
    registry: RegistryView,
    overrides: OverridesView,
    vendor: Seq<char>,
    id: Seq<char>,
)
    requires
        split_at_first(model.id, '/') == Some((vendor, id)),
    ensures
        merged(overrides, vendor, id).context_window matches Some(n) ==> adjusted(
            model,
            registry,
            overrides,
        ).context_window == n,
        merged(overrides, vendor, id).max_output_tokens matches Some(n) ==> adjusted(
            model,
            registry,
            overrides,
        ).max_output_tokens == n,
{
}

/// Limits that the user does not override are those in the table of the native
/// provider, where the model is routed to one that has it in its table, and else
/// stay what they were.
pub proof fn tables_are_the_baseline(
    model: ModelView,
    registry: RegistryView,
    overrides: OverridesView,
    vendor: Seq<char>,
    id: Seq<char>,
)
    requires
        split_at_first(model.id, '/') == Some((vendor, id)),
    ensures
        ({
            let fields = merged(overrides, vendor, id);
            let after = adjusted(model, registry, overrides);
            let native = routed(registry, vendor, overrides, id);
            if native is Some && native->0.models.dom().contains(id) {
                &&& fields.context_window is None ==> after.context_window
                    == native->0.models[id].context_window
                &&& fields.max_output_tokens is None ==> after.max_output_tokens
                    == native->0.models[id].max_output_tokens
            } else {
                &&& fields.context_window is None ==> after.context_window == model.context_window
                &&& fields.max_output_tokens is None ==> after.max_output_tokens
                    == model.max_output_tokens
            }
        }),
{
}

/// A model's family and whether it thinks follow the route that its requests take,
/// and stay what they were where there is none.
pub proof fn thinking_follows_route(
    model: ModelView,
    registry: RegistryView,
    overrides: OverridesView,
)
    ensures
        match route(registry, overrides, model.id) {
            Some(native) => {
                &&& adjusted(model, registry, overrides).supports_thinking_override == Some(
                    native.supports_thinking,
                )
                &&& adjusted(model, registry, overrides).family == native.family
            },
            None => {
                &&& adjusted(model, registry, overrides).supports_thinking_override
                    == model.supports_thinking_override
                &&& adjusted(model, registry, overrides).family == model.family
            },
        },
{
}

/// A model without a route and without overridden limits is left as it is, and so is
/// one whose id names no vendor.
pub proof fn unrouted_model_is_untouched(
    model: ModelView,
    registry: RegistryView,
    overrides: OverridesView,
)
    requires
        route(registry, overrides, model.id) is None,
        split_at_first(model.id, '/') matches Some((vendor, id)) ==> merged(
            overrides,
            vendor,
            id,
        ).context_window is None && merged(overrides, vendor, id).max_output_tokens is None,
    ensures
        adjusted(model, registry, overrides) == model,
{
}

/// Adjusting a model leaves its id alone, and adjusting it again changes nothing.
pub proof fn adjusting_twice_is_adjusting_once(
    model: ModelView,
    registry: RegistryView,
    overrides: OverridesView,
)
    ensures
        adjusted(model, registry, overrides).id == model.id,
        adjusted(adjusted(model, registry, overrides), registry, overrides) == adjusted(
            model,
            registry,
            overrides,
        ),
{
}

// Ids.

/// The two parts of an id, with the slash between them, are the id; the vendor's
/// part has no slash in it.
pub proof fn split_parts_make_the_id(s: Seq<char>)
    ensures
        match split_at_first(s, '/') {
            Some((before, after)) => before.push('/') + after == s && !before.contains('/'),
            None => !s.contains('/'),
        },
{
    s.index_of_first_ensures('/');
    if let Some(i) = s.index_of_first('/') {
        assert(s.take(i).push('/') + s.skip(i + 1) =~= s);
        assert(!s.take(i).contains('/'));
    }
}

/// The id under which a model is listed splits into the vendor and the model's own
/// id, where the vendor's id is not empty and has no slash in it.
pub proof fn listed_id_splits_back(vendor: Seq<char>, id: Seq<char>)
    requires
        vendor.len() > 0,
        !vendor.contains('/'),
    ensures
        split_at_first(full_id(vendor, id), '/') == Some((vendor, id)),
{
    let s = full_id(vendor, id);
    let n = vendor.len() as int;
    s.index_of_first_ensures('/');
    assert(s[n] == '/');
    assert(s.contains('/'));
    let i = s.index_of_first('/').unwrap();
    if i < n {
        assert(vendor[i] == '/');
        assert(vendor.contains('/'));
    }
    assert(i == n);
    assert(s.take(n) =~= vendor);
    assert(s.skip(n + 1) =~= id);
}

/// The limits that a model is listed with are those that it has once adjusted, where
/// the vendor's id has no slash in it.
pub proof fn listed_limits_survive_adjustment(
    item: JsonTree,
    info: InfoView,
    model: ModelView,
    registry: RegistryView,
    overrides: OverridesView,
)
    requires
        model_in(item, overrides) == Some(info),
        model.id == info.id,
        !vendor_in(item).contains('/'),
    ensures
        info.context_window matches Some(n) ==> adjusted(
            model,
            registry,
            overrides,
        ).context_window == n,
        info.max_output_tokens matches Some(n) ==> adjusted(
            model,
            registry,
            overrides,
        ).max_output_tokens == n,
{
    let vendor = vendor_in(item);
    if vendor.len() > 0 {
        let id = text_in(item.member("id"@))->0;
        listed_id_splits_back(vendor, id);
    }
}

/// A listed model is routed by the vendor it is listed under, where the vendor's id
/// is not empty and has no slash in it.
pub proof fn listed_model_is_routed_by_vendor(
    registry: RegistryView,
    overrides: OverridesView,
    vendor: Seq<char>,
    id: Seq<char>,
)
    requires
        vendor.len() > 0,
        !vendor.contains('/'),
    ensures
        route(registry, overrides, full_id(vendor, id)) == routed(registry, vendor, overrides, id),
{
    listed_id_splits_back(vendor, id);
}

// The list.

/// Items are read one by one and keep their order: the models of a list are those of
/// its front followed by those of its rest.
pub proof fn items_are_read_one_by_one(
    front: Seq<JsonTree>,
    rest: Seq<JsonTree>,
    overrides: OverridesView,
)
    ensures
        models_among(front + rest, overrides) == models_among(front, overrides) + models_among(
            rest,
            overrides,
        ),
    decreases rest.len(),
{
    if rest.len() == 0 {
        assert(front + rest =~= front);
        assert(models_among(front, overrides) + models_among(rest, overrides) =~= models_among(
            front,
            overrides,
        ));
    } else {
        assert((front + rest).drop_last() =~= front + rest.drop_last());
        assert((front + rest).last() == rest.last());
        items_are_read_one_by_one(front, rest.drop_last(), overrides);
        assert(models_among(front + rest, overrides) =~= models_among(front, overrides)
            + models_among(rest, overrides));
    }
}

/// There is one model for each item that has an id, and no other.
pub proof fn items_with_an_id_are_listed(items: Seq<JsonTree>, overrides: OverridesView)
    ensures
        models_among(items, overrides) == items.filter(
            |item: JsonTree| text_in(item.member("id"@)) is Some,
        ).map_values(|item: JsonTree| model_in(item, overrides)->0),
    decreases items.len(),
{
    let has_id = |item: JsonTree| text_in(item.member("id"@)) is Some;
    let read = |item: JsonTree| model_in(item, overrides)->0;
    reveal(Seq::filter);
    if items.len() == 0 {
        assert(items.filter(has_id).map_values(read) =~= Seq::empty());
    } else {
        let init = items.drop_last();
        items_with_an_id_are_listed(init, overrides);
        if has_id(items.last()) {
            assert(items.filter(has_id) == init.filter(has_id).push(items.last()));
            assert(items.filter(has_id).map_values(read) =~= init.filter(has_id).map_values(
                read,
            ).push(read(items.last())));
        }
    }
}

// Base URLs.

proof fn lemma_without_trailing(s: Seq<char>, c: char)
    ensures
        without_trailing(s, c).len() == 0 || without_trailing(s, c).last() != c,
        without_trailing(s, c).is_prefix_of(s),
    decreases s.len(),
{
    if s.len() > 0 && s.last() == c {
        lemma_without_trailing(s.drop_last(), c);
    }
}

proof fn lemma_without_trailing_space(s: Seq<char>)
    ensures
        without_trailing_space(s).len() == 0 || !is_white_space(without_trailing_space(s).last()),
        without_trailing_space(s).is_prefix_of(s),
    decreases s.len(),
{
    if s.len() > 0 && is_white_space(s.last()) {
        lemma_without_trailing_space(s.drop_last());
    }
}

proof fn lemma_without_leading_space(s: Seq<char>)
    ensures
        without_leading_space(s).len() == 0 || !is_white_space(without_leading_space(s).first()),
    decreases s.len(),
{
    if s.len() > 0 && is_white_space(s.first()) {
        lemma_without_leading_space(s.drop_first());
    }
}

/// A base URL never ends in a slash, so that a path can be put behind it, and never
/// starts with white space.
pub proof fn base_url_is_clean(env: Option<Seq<char>>, configured: Option<Seq<char>>)
    ensures
        base_url(env, configured) matches Some(url) ==> (url.len() == 0 || (url.last() != '/'
            && !is_white_space(url.first()))),
{
    if let Some(url) = base_url(env, configured) {
        let given = if usable(env) {
            env->0
        } else {
            configured->0
        };
        lemma_without_leading_space(given);
        lemma_without_trailing_space(without_leading_space(given));
        lemma_without_trailing(trimmed(given), '/');
        assert(url == slash_trimmed(given));
        if url.len() > 0 {
            assert(url.first() == trimmed(given).first());
            assert(url.first() == without_leading_space(given).first());
        }
    }
}

/// A base URL that is clean already stays as it is.
pub proof fn clean_url_is_kept(url: Seq<char>)
    requires
        url.len() > 0,
        !is_white_space(url.first()),
        !is_white_space(url.last()),
        url.last() != '/',
    ensures
        slash_trimmed(url) == url,
{
}

/// The environment wins over the configuration, and a base URL that is blank counts
/// as one that is not given.
pub proof fn environment_wins(env: Seq<char>, configured: Option<Seq<char>>)
    ensures
        trimmed(env).len() > 0 ==> base_url(Some(env), configured) == Some(slash_trimmed(env)),
        trimmed(env).len() == 0 ==> base_url(Some(env), configured) == base_url(None, configured),
        trimmed(env).len() == 0 ==> base_url(configured, Some(env)) == base_url(configured, None),
{
}

} // verus!
