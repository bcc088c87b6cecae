//! The user's overrides: limits and a native provider, per gateway vendor and per
//! model.

use crate::string_map::StringMap;
use crate::text::text_of;
use vstd::prelude::*;

verus! {

/// What can be overridden.
pub struct OverrideFields {
    pub context_window: Option<u32>,
    pub max_output_tokens: Option<u32>,
    /// The native provider that this vendor or model really is. It should name one
    /// that speaks the OpenAI protocol.
    pub base: Option<String>,
}

/// What an `OverrideFields` holds.
pub struct FieldsView {
    pub context_window: Option<u32>,
    pub max_output_tokens: Option<u32>,
    pub base: Option<Seq<char>>,
}

/// The overrides of one vendor: those of all its models, and those of single models
/// by id.
pub struct ProviderOverride {
    pub default: OverrideFields,
    pub models: StringMap<OverrideFields>,
}

/// What a `ProviderOverride` holds.
pub struct ProviderOverrideView {
    pub default: FieldsView,
    pub models: Map<Seq<char>, FieldsView>,
}

/// The overrides, by vendor.
pub type Overrides = StringMap<ProviderOverride>;

/// What an `Overrides` holds.
pub type OverridesView = Map<Seq<char>, ProviderOverrideView>;

impl View for OverrideFields {
    type V = FieldsView;

    open spec fn view(&self) -> FieldsView {
        FieldsView {
            context_window: self.context_window,
            max_output_tokens: self.max_output_tokens,
            base: text_of(self.base),
        }
    }
}

impl View for ProviderOverride {
    type V = ProviderOverrideView;

    open spec fn view(&self) -> ProviderOverrideView {
        ProviderOverrideView { default: self.default@, models: self.models@ }
    }
}

impl FieldsView {
    /// Nothing overridden.
    pub open spec fn empty() -> FieldsView {
        FieldsView { context_window: None, max_output_tokens: None, base: None }
    }

    /// These fields, and those of `lower` where these say nothing.
    pub open spec fn over(self, lower: FieldsView) -> FieldsView {
        FieldsView {
            context_window: if self.context_window is Some {
                self.context_window
            } else {
                lower.context_window
            },
            max_output_tokens: if self.max_output_tokens is Some {
                self.max_output_tokens
            } else {
                lower.max_output_tokens
            },
            base: if self.base is Some {
                self.base
            } else {
                lower.base
            },
        }
    }
}

/// The overrides that hold for one model of one vendor.
pub open spec fn merged(
    overrides: OverridesView,
    provider_id: Seq<char>,
    model_id: Seq<char>,
) -> FieldsView {
    if !overrides.dom().contains(provider_id) {
        FieldsView::empty()
    } else {
        let vendor = overrides[provider_id];
        if vendor.models.dom().contains(model_id) {
            vendor.models[model_id].over(vendor.default)
        } else {
            vendor.default
        }
    }
}

/// The base given for one model of one vendor by itself.
pub open spec fn own_base(
    overrides: OverridesView,
    provider_id: Seq<char>,
    model_id: Seq<char>,
) -> Option<Seq<char>> {
    if overrides.dom().contains(provider_id) && overrides[provider_id].models.dom().contains(
        model_id,
    ) {
        overrides[provider_id].models[model_id].base
    } else {
        None
    }
}

/// The base given for all models of one vendor.
pub open spec fn shared_base(overrides: OverridesView, provider_id: Seq<char>) -> Option<
    Seq<char>,
> {
    if overrides.dom().contains(provider_id) {
        overrides[provider_id].default.base
    } else {
        None
    }
}

impl Default for OverrideFields {
    fn default() -> (r: Self)
        ensures
            r@ == FieldsView::empty(),
    {
        OverrideFields { context_window: None, max_output_tokens: None, base: None }
    }
}

impl Clone for OverrideFields {
    fn clone(&self) -> (r: Self)
        ensures
            r@ == self@,
    {
        OverrideFields {
            context_window: self.context_window,
            max_output_tokens: self.max_output_tokens,
            base: self.base.clone(),
        }
    }
}

impl Default for ProviderOverride {
    fn default() -> (r: Self)
        ensures
            r@.default == FieldsView::empty(),
            r@.models == Map::<Seq<char>, FieldsView>::empty(),
    {
        ProviderOverride { default: OverrideFields::default(), models: StringMap::new() }
    }
}

/// The overrides that hold for `model_id` of the vendor `provider_id`: fields given
/// for the model win over those given for the vendor, field by field.
pub fn merged_override(overrides: &Overrides, provider_id: &str, model_id: &str) -> (r:
    OverrideFields)
    ensures
        r@ == merged(overrides@, provider_id@, model_id@),
{
    let vendor = match overrides.get(provider_id) {
        Some(vendor) => vendor,
        None => return OverrideFields::default(),
    };
    let mut out = vendor.default.clone();
    if let Some(m) = vendor.models.get(model_id) {
        if m.context_window.is_some() {
            out.context_window = m.context_window;
        }
        if m.max_output_tokens.is_some() {
            out.max_output_tokens = m.max_output_tokens;
        }
        if m.base.is_some() {
            out.base = m.base.clone();
        }
    }
    out
}

} // verus!
