//! Which native provider a model of the gateway is streamed through.

use crate::overrides::{own_base, shared_base, Overrides, OverridesView};
use crate::registry::{NativeProvider, NativeView, ProviderKind, Registry, RegistryView};
use crate::text::text_of;
use vstd::prelude::*;

verus! {

/// The kinds that speak the OpenAI protocol, and so the only ones that the gateway
/// can serve.
pub open spec fn is_compat(kind: ProviderKind) -> bool {
    match kind {
        ProviderKind::OpenAi
        | ProviderKind::Ollama
        | ProviderKind::LlamaCpp
        | ProviderKind::Mistral
        | ProviderKind::Zai
        | ProviderKind::DeepSeek
        | ProviderKind::OpenRouter
        | ProviderKind::Synthetic
        | ProviderKind::TensorX => true,
        _ => false,
    }
}

/// The provider named `name`, if the gateway can serve it.
pub open spec fn compat_named(registry: RegistryView, name: Seq<char>) -> Option<NativeView> {
    if registry.dom().contains(name) && is_compat(registry[name].kind) {
        Some(registry[name])
    } else {
        None
    }
}

/// The provider that a base names, if one is given and the gateway can serve it.
pub open spec fn compat_base(registry: RegistryView, base: Option<Seq<char>>) -> Option<
    NativeView,
> {
    match base {
        Some(base) => compat_named(registry, base),
        None => None,
    }
}

/// The native provider of one model of one vendor: the one that the model's own base
/// names, else the one that the vendor's base names, else the one that the vendor's id
/// names. A name of none that the gateway can serve is passed over for the next.
pub open spec fn routed(
    registry: RegistryView,
    provider_id: Seq<char>,
    overrides: OverridesView,
    model_id: Seq<char>,
) -> Option<NativeView> {
    let own = compat_base(registry, own_base(overrides, provider_id, model_id));
    let shared = compat_base(registry, shared_base(overrides, provider_id));
    if own is Some {
        own
    } else if shared is Some {
        shared
    } else {
        compat_named(registry, provider_id)
    }
}

/// The kind of a provider that may be missing.
pub open spec fn kind_of(native: Option<NativeView>) -> Option<ProviderKind> {
    match native {
        Some(native) => Some(native.kind),
        None => None,
    }
}

/// `kind`, if the gateway can serve it. Anthropic, Google and Copilot have protocols
/// of their own, which it does not proxy.
pub fn compat_kind(kind: ProviderKind) -> (r: Option<ProviderKind>)
    ensures
        r == (if is_compat(kind) {
            Some(kind)
        } else {
            None
        }),
{
    match kind {
        ProviderKind::OpenAi
        | ProviderKind::Ollama
        | ProviderKind::LlamaCpp
        | ProviderKind::Mistral
        | ProviderKind::Zai
        | ProviderKind::DeepSeek
        | ProviderKind::OpenRouter
        | ProviderKind::Synthetic
        | ProviderKind::TensorX => Some(kind),
        _ => None,
    }
}

/// The provider named `s`, if the gateway can serve it.
fn compat_native<'a>(registry: &'a Registry, s: &str) -> (r: Option<&'a NativeProvider>)
    ensures
        match r {
            Some(native) => compat_named(registry@, s@) == Some(native@),
            None => compat_named(registry@, s@) is None,
        },
{
    match registry.get(s) {
        Some(native) => if compat_kind(native.kind).is_some() {
            Some(native)
        } else {
            None
        },
        None => None,
    }
}

/// The provider that a base names, if one is given and the gateway can serve it.
fn base_native<'a>(registry: &'a Registry, base: &Option<String>) -> (r: Option<
    &'a NativeProvider,
>)
    ensures
        match r {
            Some(native) => compat_base(registry@, text_of(*base)) == Some(native@),
            None => compat_base(registry@, text_of(*base)) is None,
        },
{
    match base {
        Some(base) => compat_native(registry, base.as_str()),
        None => None,
    }
}

/// The kind of the provider named `s`, if the gateway can serve it.
pub fn parse_compat_base(registry: &Registry, s: &str) -> (r: Option<ProviderKind>)
    ensures
        r == kind_of(compat_named(registry@, s@)),
{
    match compat_native(registry, s) {
        Some(native) => Some(native.kind),
        None => None,
    }
}

/// The native provider that `model_id` of the vendor `provider_id` is streamed through.
pub fn routed_native<'a>(
    registry: &'a Registry,
    provider_id: &str,
    overrides: &Overrides,
    model_id: &str,
) -> (r: Option<&'a NativeProvider>)
    ensures
        match r {
            Some(native) => routed(registry@, provider_id@, overrides@, model_id@) == Some(native@),
            None => routed(registry@, provider_id@, overrides@, model_id@) is None,
        },
{
    if let Some(vendor) = overrides.get(provider_id) {
        if let Some(own) = vendor.models.get(model_id) {
            if let Some(native) = base_native(registry, &own.base) {
                return Some(native);
            }
        }
        if let Some(native) = base_native(registry, &vendor.default.base) {
            return Some(native);
        }
    }
    compat_native(registry, provider_id)
}

/// The kind of the native provider that `model_id` of the vendor `provider_id` is
/// streamed through: the one that the model's own base names, else the one that the
/// vendor's base names, else the one that the vendor's id names. A base that names none
/// that the gateway can serve is passed over. Without a native provider, the model goes
/// down the generic path.
pub fn routed_kind(
    registry: &Registry,
    provider_id: &str,
    overrides: &Overrides,
    model_id: &str,
) -> (r: Option<ProviderKind>)
    ensures
        r == kind_of(routed(registry@, provider_id@, overrides@, model_id@)),
        r matches Some(kind) ==> is_compat(kind),
{
    match routed_native(registry, provider_id, overrides, model_id) {
        Some(native) => Some(native.kind),
        None => None,
    }
}

} // verus!
