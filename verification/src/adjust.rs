//! What is known about a model of the gateway before it is used.

use crate::overrides::{merged, merged_override, FieldsView, Overrides, OverridesView};
use crate::registry::{FamilyView, ModelFamily, NativeView, Registry, RegistryView};
use crate::routing::{routed, routed_native};
use crate::text::{split_at_first, split_once};
use vstd::prelude::*;

verus! {

/// A model of the gateway. Its id is that of its vendor and its own, around a slash.
#[derive(Debug)]
pub struct Model {
    pub id: String,
    pub family: ModelFamily,
    pub context_window: u32,
    pub max_output_tokens: u32,
    /// Whether the model thinks, where that is not for its provider to say.
    pub supports_thinking_override: Option<bool>,
}

/// What a `Model` holds.
pub struct ModelView {
    pub id: Seq<char>,
    pub family: FamilyView,
    pub context_window: u32,
    pub max_output_tokens: u32,
    pub supports_thinking_override: Option<bool>,
}

impl View for Model {
    type V = ModelView;

    open spec fn view(&self) -> ModelView {
        ModelView {
            id: self.id@,
            family: self.family@,
            context_window: self.context_window,
            max_output_tokens: self.max_output_tokens,
            supports_thinking_override: self.supports_thinking_override,
        }
    }
}

impl ModelView {
    /// The model as the native provider it is routed to knows it: the family and
    /// whether it thinks are the provider's, and so are the limits where its table
    /// has the model.
    pub open spec fn as_native(self, native: NativeView, model_id: Seq<char>) -> ModelView {
        let known = native.models.dom().contains(model_id);
        ModelView {
            family: native.family,
            supports_thinking_override: Some(native.supports_thinking),
            context_window: if known {
                native.models[model_id].context_window
            } else {
                self.context_window
            },
            max_output_tokens: if known {
                native.models[model_id].max_output_tokens
            } else {
                self.max_output_tokens
            },
            ..self
        }
    }

    /// The model with the limits that the overrides give it.
    pub open spec fn with_limits(self, fields: FieldsView) -> ModelView {
        ModelView {
            context_window: match fields.context_window {
                Some(n) => n,
                None => self.context_window,
            },
            max_output_tokens: match fields.max_output_tokens {
                Some(n) => n,
                None => self.max_output_tokens,
            },
            ..self
        }
    }
}

/// The native provider that the model with this id is streamed through: none where
/// the id names no vendor.
pub open spec fn route(
    registry: RegistryView,
    overrides: OverridesView,
    id: Seq<char>,
) -> Option<NativeView> {
    match split_at_first(id, '/') {
        Some((provider_id, model_id)) => routed(registry, provider_id, overrides, model_id),
        None => None,
    }
}

/// The model once its native provider's table and then the user's overrides have had
/// their say.
pub open spec fn adjusted(
    model: ModelView,
    registry: RegistryView,
    overrides: OverridesView,
) -> ModelView {
    match split_at_first(model.id, '/') {
        None => model,
        Some((provider_id, model_id)) => {
            let native = match routed(registry, provider_id, overrides, model_id) {
                Some(native) => model.as_native(native, model_id),
                None => model,
            };
            native.with_limits(merged(overrides, provider_id, model_id))
        },
    }
}

/// Brings a model in line with its native provider's table, which is the baseline,
/// and then with the user's overrides, which win over it.
pub fn apply_adjustments(model: &mut Model, registry: &Registry, overrides: &Overrides)
    ensures
        final(model)@ == adjusted(old(model)@, registry@, overrides@),
{
    let id = model.id.clone();
    let (provider_id, model_id) = match split_once(id.as_str(), '/') {
        Some(parts) => parts,
        None => return,
    };
    if let Some(native) = routed_native(registry, provider_id, overrides, model_id) {
        model.family = native.family.clone();
        model.supports_thinking_override = Some(native.supports_thinking);
        if let Some(entry) = native.models.get(model_id) {
            model.context_window = entry.context_window;
            model.max_output_tokens = entry.max_output_tokens;
        }
    }
    let fields = merged_override(overrides, provider_id, model_id);
    if let Some(n) = fields.context_window {
        model.context_window = n;
    }
    if let Some(n) = fields.max_output_tokens {
        model.max_output_tokens = n;
    }
}

} // verus!
