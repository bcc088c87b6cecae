//! The check that overrides go through once, when they are loaded.

use crate::overrides::{
    FieldsView, OverrideFields, Overrides, OverridesView, ProviderOverrideView,
};
use crate::registry::{Registry, RegistryView};
use crate::routing::{compat_named, parse_compat_base};
use crate::string_map::{distinct_keys, lemma_map_of, StringMap};
use crate::text::text_of;
use vstd::prelude::*;

verus! {

/// An override whose base will be ignored, because it names no provider that the
/// gateway can serve.
#[derive(Debug, PartialEq, Eq)]
pub struct BaseWarning {
    pub provider: String,
    /// The model, where the base is given for a single model.
    pub model: Option<String>,
    pub base: String,
}

/// What a `BaseWarning` holds.
pub struct BaseWarningView {
    pub provider: Seq<char>,
    pub model: Option<Seq<char>>,
    pub base: Seq<char>,
}

impl View for BaseWarning {
    type V = BaseWarningView;

    open spec fn view(&self) -> BaseWarningView {
        BaseWarningView {
            provider: self.provider@,
            model: text_of(self.model),
            base: self.base@,
        }
    }
}

/// What a list of warnings holds.
pub open spec fn warning_views(warnings: Seq<BaseWarning>) -> Seq<BaseWarningView> {
    warnings.map_values(|w: BaseWarning| w@)
}

/// `w` is about the base that `fields` give for all of the vendor's models, or for
/// one of them.
pub open spec fn fields_warned(
    registry: RegistryView,
    provider: Seq<char>,
    model: Option<Seq<char>>,
    fields: FieldsView,
    w: BaseWarningView,
) -> bool {
    &&& w.provider == provider
    &&& w.model == model
    &&& fields.base == Some(w.base)
    &&& compat_named(registry, w.base) is None
}

/// `w` is about a base given for a single model among `models`.
pub open spec fn model_warned(
    registry: RegistryView,
    provider: Seq<char>,
    models: Map<Seq<char>, FieldsView>,
    w: BaseWarningView,
) -> bool {
    &&& w.model is Some
    &&& models.dom().contains(w.model->0)
    &&& fields_warned(registry, provider, w.model, models[w.model->0], w)
}

/// `w` is about a base that one vendor's overrides give.
pub open spec fn vendor_warned(
    registry: RegistryView,
    provider: Seq<char>,
    vendor: ProviderOverrideView,
    w: BaseWarningView,
) -> bool {
    ||| fields_warned(registry, provider, None, vendor.default, w)
    ||| model_warned(registry, provider, vendor.models, w)
}

/// `w` is about a base that the overrides give and that names no provider the
/// gateway can serve.
pub open spec fn warned(registry: RegistryView, overrides: OverridesView, w: BaseWarningView) -> bool {
    &&& overrides.dom().contains(w.provider)
    &&& vendor_warned(registry, w.provider, overrides[w.provider], w)
}

/// The warnings about one vendor stand together, the one about the vendor's own base in
/// front of those about its models.
pub open spec fn vendor_by_vendor(warnings: Seq<BaseWarningView>) -> bool {
    &&& forall|i: int, j: int, k: int|
        0 <= i < j < k < warnings.len() && (#[trigger] warnings[i]).provider == (
        #[trigger] warnings[k]).provider ==> (#[trigger] warnings[j]).provider
            == warnings[i].provider
    &&& forall|i: int, j: int|
        0 <= i < warnings.len() && 0 <= j < warnings.len() && (#[trigger] warnings[i]).provider == (
        #[trigger] warnings[j]).provider && warnings[i].model is None && warnings[j].model is Some
            ==> i < j
}

/// `after` is `before` with warnings about one vendor behind it.
spec fn adds_for(
    before: Seq<BaseWarningView>,
    after: Seq<BaseWarningView>,
    provider: Seq<char>,
    about_models: bool,
) -> bool {
    &&& before.len() <= after.len()
    &&& forall|k: int| 0 <= k < before.len() ==> #[trigger] after[k] == before[k]
    &&& forall|k: int|
        before.len() <= k < after.len() ==> (#[trigger] after[k]).provider == provider
            && after[k].model is Some == about_models
}

/// Adds the warning, if any, about the base in one set of fields.
fn warn_fields(
    registry: &Registry,
    provider: &String,
    model: Option<&String>,
    fields: &OverrideFields,
    out: &mut Vec<BaseWarning>,
)
    requires
        warning_views(old(out)@).no_duplicates(),
        forall|w: BaseWarningView| #[trigger]
            warning_views(old(out)@).contains(w) ==> w.provider != provider@ || w.model
                != option_text(model),
    ensures
        warning_views(final(out)@).no_duplicates(),
        forall|w: BaseWarningView| #[trigger]
            warning_views(final(out)@).contains(w) <==> warning_views(old(out)@).contains(w)
                || fields_warned(registry@, provider@, option_text(model), fields@, w),
        adds_for(warning_views(old(out)@), warning_views(final(out)@), provider@, model is Some),
{
    let ghost before = warning_views(out@);
    if let Some(base) = &fields.base {
        if parse_compat_base(registry, base.as_str()).is_none() {
            let model_name = match model {
                Some(m) => Some(m.clone()),
                None => None,
            };
            let warning = BaseWarning {
                provider: provider.clone(),
                model: model_name,
                base: base.clone(),
            };
            let ghost new = warning@;
            out.push(warning);
            proof {
                let after = warning_views(out@);
                assert(after =~= before.push(new));
                assert(fields_warned(registry@, provider@, option_text(model), fields@, new));
                assert(!before.contains(new));
                assert forall|w: BaseWarningView| #[trigger]
                    after.contains(w) <==> before.contains(w) || fields_warned(
                    registry@,
                    provider@,
                    option_text(model),
                    fields@,
                    w,
                ) by {
                    if before.contains(w) {
                        let i = choose|i: int| 0 <= i < before.len() && before[i] == w;
                        assert(after[i] == w);
                    }
                    if fields_warned(registry@, provider@, option_text(model), fields@, w) {
                        assert(w == new);
                        assert(after[before.len() as int] == w);
                    }
                }
                assert forall|i: int, j: int|
                    0 <= i < after.len() && 0 <= j < after.len() && i != j implies after[i]
                    != after[j] by {
                    if i == before.len() {
                        assert(before[j] == after[j]);
                    } else if j == before.len() {
                        assert(before[i] == after[i]);
                    }
                }
            }
        }
    }
}

/// The characters of a borrowed string that may be missing.
spec fn option_text(s: Option<&String>) -> Option<Seq<char>> {
    match s {
        Some(s) => Some(s@),
        None => None,
    }
}

/// Warnings about a vendor of which there are none yet, its own in front of those about
/// its models, go behind all others.
proof fn lemma_next_vendor(
    prior: Seq<BaseWarningView>,
    mid: Seq<BaseWarningView>,
    after: Seq<BaseWarningView>,
    provider: Seq<char>,
)
    requires
        vendor_by_vendor(prior),
        forall|w: BaseWarningView| #[trigger] prior.contains(w) ==> w.provider != provider,
        adds_for(prior, mid, provider, false),
        adds_for(mid, after, provider, true),
    ensures
        vendor_by_vendor(after),
{
    assert forall|k: int| 0 <= k < after.len() implies {
        &&& k < prior.len() ==> after[k] == prior[k] && (#[trigger] after[k]).provider != provider
        &&& k >= prior.len() ==> after[k].provider == provider
        &&& prior.len() <= k < mid.len() ==> after[k].model is None
        &&& mid.len() <= k ==> after[k].model is Some
    } by {
        if k < mid.len() {
            assert(after[k] == mid[k]);
        }
        if k < prior.len() {
            assert(mid[k] == prior[k]);
            assert(prior.contains(prior[k]));
        }
    }
}

/// Adds the warnings about the bases given for single models.
fn warn_models(
    registry: &Registry,
    provider: &String,
    models: &StringMap<OverrideFields>,
    out: &mut Vec<BaseWarning>,
)
    requires
        warning_views(old(out)@).no_duplicates(),
        forall|w: BaseWarningView| #[trigger]
            warning_views(old(out)@).contains(w) ==> w.provider != provider@ || w.model is None,
    ensures
        warning_views(final(out)@).no_duplicates(),
        forall|w: BaseWarningView| #[trigger]
            warning_views(final(out)@).contains(w) <==> warning_views(old(out)@).contains(w)
                || model_warned(registry@, provider@, models@, w),
        adds_for(warning_views(old(out)@), warning_views(final(out)@), provider@, true),
{
    let ghost before = warning_views(out@);
    let ghost entries = models.entries();
    let n: usize = models.len();
    let mut i: usize = 0;
    while i < n
        invariant
            i <= n == entries.len(),
            entries == models.entries(),
            distinct_keys(entries),
            warning_views(out@).no_duplicates(),
            adds_for(before, warning_views(out@), provider@, true),
            forall|w: BaseWarningView| #[trigger]
                before.contains(w) ==> w.provider != provider@ || w.model is None,
            forall|w: BaseWarningView| #[trigger]
                warning_views(out@).contains(w) <==> before.contains(w) || model_entry_warned(
                    registry@,
                    provider@,
                    entries.take(i as int),
                    w,
                ),
        decreases n - i,
    {
        let (model, fields) = models.entry(i);
        let ghost prior = warning_views(out@);
        let ghost done = entries.take(i as int);
        let ghost next = entries.take(i + 1);
        assert forall|w: BaseWarningView| #[trigger] prior.contains(w) implies w.provider
            != provider@ || w.model != Some(model@) by {
            if model_entry_warned(registry@, provider@, done, w) {
                let j = choose|j: int|
                    0 <= j < done.len() && fields_warned(
                        registry@,
                        provider@,
                        Some((#[trigger] done[j]).0),
                        done[j].1,
                        w,
                    );
                assert(done[j] == entries[j]);
                assert(entries[j].0 != entries[i as int].0);
            }
        }
        warn_fields(registry, provider, Some(model), fields, out);
        assert forall|w: BaseWarningView| #[trigger]
            warning_views(out@).contains(w) <==> before.contains(w) || model_entry_warned(
            registry@,
            provider@,
            next,
            w,
        ) by {
            if model_entry_warned(registry@, provider@, done, w) {
                let j = choose|j: int|
                    0 <= j < done.len() && fields_warned(
                        registry@,
                        provider@,
                        Some((#[trigger] done[j]).0),
                        done[j].1,
                        w,
                    );
                assert(next[j] == done[j]);
            }
            if model_entry_warned(registry@, provider@, next, w) {
                let j = choose|j: int|
                    0 <= j < next.len() && fields_warned(
                        registry@,
                        provider@,
                        Some((#[trigger] next[j]).0),
                        next[j].1,
                        w,
                    );
                if j < i {
                    assert(done[j] == next[j]);
                }
            }
            assert(next[i as int] == entries[i as int]);
        }
        i = i + 1;
    }
    proof {
        lemma_map_of(entries);
        assert(entries.take(n as int) =~= entries);
        assert forall|w: BaseWarningView|
            model_entry_warned(registry@, provider@, entries, w) == #[trigger] model_warned(
                registry@,
                provider@,
                models@,
                w,
            ) by {
            if model_warned(registry@, provider@, models@, w) {
                let j = choose|j: int|
                    0 <= j < entries.len() && (#[trigger] entries[j]).0 == w.model->0;
                assert(fields_warned(registry@, provider@, Some(entries[j].0), entries[j].1, w));
            }
        }
    }
}

/// `w` is about a base in one of these entries.
spec fn model_entry_warned(
    registry: RegistryView,
    provider: Seq<char>,
    entries: Seq<(Seq<char>, FieldsView)>,
    w: BaseWarningView,
) -> bool {
    exists|j: int|
        0 <= j < entries.len() && fields_warned(
            registry,
            provider,
            Some((#[trigger] entries[j]).0),
            entries[j].1,
            w,
        )
}

/// `w` is about a base in one of these entries.
spec fn vendor_entry_warned(
    registry: RegistryView,
    entries: Seq<(Seq<char>, ProviderOverrideView)>,
    w: BaseWarningView,
) -> bool {
    exists|j: int|
        0 <= j < entries.len() && vendor_warned(
            registry,
            (#[trigger] entries[j]).0,
            entries[j].1,
            w,
        )
}

/// The overrides whose base names no provider that the gateway can serve, each once and
/// vendor by vendor, so that a slip of the pen does not pass in silence.
pub fn validate_overrides(registry: &Registry, overrides: &Overrides) -> (r: Vec<BaseWarning>)
    ensures
        forall|w: BaseWarningView| #[trigger]
            warning_views(r@).contains(w) <==> warned(registry@, overrides@, w),
        warning_views(r@).no_duplicates(),
        vendor_by_vendor(warning_views(r@)),
{
    let mut out: Vec<BaseWarning> = Vec::new();
    let ghost entries = overrides.entries();
    let n: usize = overrides.len();
    let mut i: usize = 0;
    while i < n
        invariant
            i <= n == entries.len(),
            entries == overrides.entries(),
            distinct_keys(entries),
            warning_views(out@).no_duplicates(),
            vendor_by_vendor(warning_views(out@)),
            forall|w: BaseWarningView| #[trigger]
                warning_views(out@).contains(w) <==> vendor_entry_warned(
                    registry@,
                    entries.take(i as int),
                    w,
                ),
        decreases n - i,
    {
        let (provider, vendor) = overrides.entry(i);
        let ghost prior = warning_views(out@);
        let ghost done = entries.take(i as int);
        let ghost next = entries.take(i + 1);
        assert forall|w: BaseWarningView| #[trigger] prior.contains(w) implies w.provider
            != provider@ by {
            let j = choose|j: int|
                0 <= j < done.len() && vendor_warned(
                    registry@,
                    (#[trigger] done[j]).0,
                    done[j].1,
                    w,
                );
            assert(done[j] == entries[j]);
            assert(entries[j].0 != entries[i as int].0);
        }
        warn_fields(registry, provider, None, &vendor.default, &mut out);
        let ghost mid = warning_views(out@);
        warn_models(registry, provider, &vendor.models, &mut out);
        proof {
            lemma_next_vendor(prior, mid, warning_views(out@), provider@);
        }
        assert forall|w: BaseWarningView| #[trigger]
            warning_views(out@).contains(w) <==> vendor_entry_warned(registry@, next, w) by {
            if vendor_entry_warned(registry@, done, w) {
                let j = choose|j: int|
                    0 <= j < done.len() && vendor_warned(
                        registry@,
                        (#[trigger] done[j]).0,
                        done[j].1,
                        w,
                    );
                assert(next[j] == done[j]);
            }
            if vendor_entry_warned(registry@, next, w) {
                let j = choose|j: int|
                    0 <= j < next.len() && vendor_warned(
                        registry@,
                        (#[trigger] next[j]).0,
                        next[j].1,
                        w,
                    );
                if j < i {
                    assert(done[j] == next[j]);
                }
            }
            assert(next[i as int] == entries[i as int]);
        }
        i = i + 1;
    }
    proof {
        lemma_map_of(entries);
        assert(entries.take(n as int) =~= entries);
        assert forall|w: BaseWarningView|
            vendor_entry_warned(registry@, entries, w) == #[trigger] warned(
                registry@,
                overrides@,
                w,
            ) by {
            if warned(registry@, overrides@, w) {
                let j = choose|j: int|
                    0 <= j < entries.len() && (#[trigger] entries[j]).0 == w.provider;
                assert(vendor_warned(registry@, entries[j].0, entries[j].1, w));
            }
        }
    }
    out
}

} // verus!
