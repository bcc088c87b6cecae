//! What is known about the native providers, as plain values: their kinds, the
//! names they go by, and their tables of models.

use crate::string_map::StringMap;
use vstd::prelude::*;

verus! {

/// The providers that a model can belong to.
#[derive(Clone, Copy, Debug, PartialEq, Eq, Structural)]
pub enum ProviderKind {
    Anthropic,
    OpenAi,
    Google,
    Copilot,
    Ollama,
    LlamaCpp,
    Mistral,
    Zai,
    DeepSeek,
    OpenRouter,
    Synthetic,
    TensorX,
    Aperture,
}

/// The family that a model belongs to. Only the label travels through this
/// library, so a family without a variant of its own is carried by its name.
#[derive(Debug, PartialEq, Eq)]
pub enum ModelFamily {
    Glm,
    Other(String),
}

/// The label that a `ModelFamily` carries.
pub enum FamilyView {
    Glm,
    Other(Seq<char>),
}

impl View for ModelFamily {
    type V = FamilyView;

    open spec fn view(&self) -> FamilyView {
        match self {
            ModelFamily::Glm => FamilyView::Glm,
            ModelFamily::Other(name) => FamilyView::Other(name@),
        }
    }
}

impl Clone for ModelFamily {
    fn clone(&self) -> (r: Self)
        ensures
            r@ == self@,
    {
        match self {
            ModelFamily::Glm => ModelFamily::Glm,
            ModelFamily::Other(name) => ModelFamily::Other(name.clone()),
        }
    }
}

/// What a native provider's table says of one model.
#[derive(Clone, Copy, Debug, PartialEq, Eq, Structural)]
pub struct ModelEntry {
    pub context_window: u32,
    pub max_output_tokens: u32,
}

impl View for ModelEntry {
    type V = ModelEntry;

    open spec fn view(&self) -> ModelEntry {
        *self
    }
}

/// A provider: what holds of all its models, and its table of models by id.
pub struct NativeProvider {
    pub kind: ProviderKind,
    pub family: ModelFamily,
    pub supports_thinking: bool,
    pub models: StringMap<ModelEntry>,
}

/// What a `NativeProvider` holds.
pub struct NativeView {
    pub kind: ProviderKind,
    pub family: FamilyView,
    pub supports_thinking: bool,
    pub models: Map<Seq<char>, ModelEntry>,
}

impl View for NativeProvider {
    type V = NativeView;

    open spec fn view(&self) -> NativeView {
        NativeView {
            kind: self.kind,
            family: self.family@,
            supports_thinking: self.supports_thinking,
            models: self.models@,
        }
    }
}

/// The known providers, by the name that each goes by.
pub type Registry = StringMap<NativeProvider>;

/// What a `Registry` holds.
pub type RegistryView = Map<Seq<char>, NativeView>;

/// The static table of Aperture itself, which is empty: its models are listed by
/// the gateway.
pub fn models() -> (r: &'static [ModelEntry])
    ensures
        r@ == Seq::<ModelEntry>::empty(),
{
    &[]
}

} // verus!
