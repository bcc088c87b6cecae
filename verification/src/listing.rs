//! The gateway's list of models.

use crate::json::{member_of, text_in, tree_of, Json, JsonTree};
use crate::overrides::{merged, merged_override, Overrides, OverridesView};
use crate::text::text_of;
use vstd::prelude::*;

verus! {

/// What the gateway asks for a model, as it writes it: decimal numbers, in dollars a
/// token. A price that it does not give as a string is missing here; it never gives
/// one for writing to the cache or for a fast tier.
#[derive(Debug)]
pub struct ModelPricing {
    pub input: Option<String>,
    pub output: Option<String>,
    pub cache_read: Option<String>,
    pub cache_write: Option<String>,
    pub fast: Option<String>,
}

/// What a `ModelPricing` holds.
pub struct PricingView {
    pub input: Option<Seq<char>>,
    pub output: Option<Seq<char>>,
    pub cache_read: Option<Seq<char>>,
    pub cache_write: Option<Seq<char>>,
    pub fast: Option<Seq<char>>,
}

impl View for ModelPricing {
    type V = PricingView;

    open spec fn view(&self) -> PricingView {
        PricingView {
            input: text_of(self.input),
            output: text_of(self.output),
            cache_read: text_of(self.cache_read),
            cache_write: text_of(self.cache_write),
            fast: text_of(self.fast),
        }
    }
}

/// One model of the list.
#[derive(Debug)]
pub struct ModelInfo {
    pub id: String,
    pub context_window: Option<u32>,
    pub max_output_tokens: Option<u32>,
    pub pricing: Option<ModelPricing>,
}

/// What a `ModelInfo` holds.
pub struct InfoView {
    pub id: Seq<char>,
    pub context_window: Option<u32>,
    pub max_output_tokens: Option<u32>,
    pub pricing: Option<PricingView>,
}

impl View for ModelInfo {
    type V = InfoView;

    open spec fn view(&self) -> InfoView {
        InfoView {
            id: self.id@,
            context_window: self.context_window,
            max_output_tokens: self.max_output_tokens,
            pricing: match self.pricing {
                Some(p) => Some(p@),
                None => None,
            },
        }
    }
}

/// What a list of models holds.
pub open spec fn info_views(models: Seq<ModelInfo>) -> Seq<InfoView> {
    models.map_values(|m: ModelInfo| m@)
}

/// The vendor that an item of the list names, or nothing.
pub open spec fn vendor_in(item: JsonTree) -> Seq<char> {
    let provider = member_of(item.member("metadata"@), "provider"@);
    match text_in(member_of(provider, "id"@)) {
        Some(id) => id,
        None => Seq::empty(),
    }
}

/// The id that a model goes by: its vendor's and its own, around a slash.
pub open spec fn full_id(provider_id: Seq<char>, id: Seq<char>) -> Seq<char> {
    if provider_id.len() == 0 {
        id
    } else {
        provider_id.push('/') + id
    }
}

/// What an item of the list says of prices.
pub open spec fn pricing_in(item: JsonTree) -> Option<PricingView> {
    match item.member("pricing"@) {
        Some(JsonTree::Record(entries)) => {
            let prices = JsonTree::Record(entries);
            Some(
                PricingView {
                    input: text_in(prices.member("input"@)),
                    output: text_in(prices.member("output"@)),
                    cache_read: text_in(prices.member("input_cache_read"@)),
                    cache_write: None,
                    fast: None,
                },
            )
        },
        _ => None,
    }
}

/// The model that an item of the list describes: none if it has no id. Limits come
/// from the overrides alone, and from them only where the vendor is known.
pub open spec fn model_in(item: JsonTree, overrides: OverridesView) -> Option<InfoView> {
    match text_in(item.member("id"@)) {
        None => None,
        Some(id) => {
            let vendor = vendor_in(item);
            let fields = merged(overrides, vendor, id);
            Some(
                InfoView {
                    id: full_id(vendor, id),
                    context_window: if vendor.len() == 0 {
                        None
                    } else {
                        fields.context_window
                    },
                    max_output_tokens: if vendor.len() == 0 {
                        None
                    } else {
                        fields.max_output_tokens
                    },
                    pricing: pricing_in(item),
                },
            )
        },
    }
}

/// The models that the items describe, in their order.
pub open spec fn models_among(items: Seq<JsonTree>, overrides: OverridesView) -> Seq<InfoView>
    decreases items.len(),
{
    if items.len() == 0 {
        Seq::empty()
    } else {
        let before = models_among(items.drop_last(), overrides);
        match model_in(items.last(), overrides) {
            Some(info) => before.push(info),
            None => before,
        }
    }
}

/// The models that a reply of the gateway lists: those under `data`.
pub open spec fn models_in(body: JsonTree, overrides: OverridesView) -> Seq<InfoView> {
    match body.member("data"@) {
        Some(JsonTree::List(items)) => models_among(items, overrides),
        _ => Seq::empty(),
    }
}

/// The text of a price, where the gateway gives one as a string.
pub fn price_text(field: Option<&Json>) -> (r: Option<String>)
    ensures
        text_of(r) == text_in(tree_of(field)),
{
    match field {
        Some(json) => match json.as_text() {
            Some(s) => Some(s.to_owned()),
            None => None,
        },
        None => None,
    }
}

/// The vendor that an item names, or an empty string.
fn vendor_id(item: &Json) -> (r: String)
    ensures
        r@ == vendor_in(item@),
{
    if let Some(metadata) = item.member("metadata") {
        if let Some(provider) = metadata.member("provider") {
            if let Some(id) = provider.member("id") {
                if let Some(s) = id.as_text() {
                    return s.to_owned();
                }
            }
        }
    }
    String::new()
}

/// The prices that an item gives.
fn pricing(item: &Json) -> (r: Option<ModelPricing>)
    ensures
        match r {
            Some(p) => pricing_in(item@) == Some(p@),
            None => pricing_in(item@) is None,
        },
{
    match item.member("pricing") {
        Some(prices) => match prices {
            Json::Record(_) => Some(
                ModelPricing {
                    input: price_text(prices.member("input")),
                    output: price_text(prices.member("output")),
                    cache_read: price_text(prices.member("input_cache_read")),
                    cache_write: None,
                    fast: None,
                },
            ),
            _ => None,
        },
        None => None,
    }
}

/// The model that an item describes.
fn parse_model(item: &Json, overrides: &Overrides) -> (r: Option<ModelInfo>)
    ensures
        match r {
            Some(info) => model_in(item@, overrides@) == Some(info@),
            None => model_in(item@, overrides@) is None,
        },
{
    let id = match item.member("id") {
        Some(id) => match id.as_text() {
            Some(s) => s,
            None => return None,
        },
        None => return None,
    };
    let provider_id = vendor_id(item);
    let pricing = pricing(item);
    if provider_id.as_str().is_empty() {
        return Some(
            ModelInfo {
                id: id.to_owned(),
                context_window: None,
                max_output_tokens: None,
                pricing,
            },
        );
    }
    let mut full = provider_id.clone();
    full.append("/");
    full.append(id);
    proof {
        reveal_strlit("/");
        assert("/"@ =~= seq!['/']);
        assert(full@ =~= full_id(provider_id@, id@));
    }
    let fields = merged_override(overrides, provider_id.as_str(), id);
    Some(
        ModelInfo {
            id: full,
            context_window: fields.context_window,
            max_output_tokens: fields.max_output_tokens,
            pricing,
        },
    )
}

/// The models that a reply of the gateway lists, with the limits that the overrides
/// give them. An item without an id is passed over.
pub fn parse_models(body: &Json, overrides: &Overrides) -> (r: Vec<ModelInfo>)
    ensures
        info_views(r@) == models_in(body@, overrides@),
{
    let mut out: Vec<ModelInfo> = Vec::new();
    assert(info_views(out@) =~= Seq::empty());
    if let Some(data) = body.member("data") {
        if let Json::List(items) = data {
            let ghost trees = data@->List_0;
            let n: usize = items.len();
            assert(trees.take(0) =~= Seq::empty());
            let mut i: usize = 0;
            while i < n
                invariant
                    data@ == JsonTree::List(trees),
                    *data == Json::List(*items),
                    n == items.len() == trees.len(),
                    i <= n,
                    info_views(out@) == models_among(trees.take(i as int), overrides@),
                decreases n - i,
            {
                let ghost prior = out@;
                let ghost next = trees.take(i + 1);
                assert(next.drop_last() =~= trees.take(i as int));
                assert(next.last() == items@[i as int]@);
                if let Some(info) = parse_model(&items[i], overrides) {
                    out.push(info);
                    assert(info_views(out@) =~= info_views(prior).push(info@));
                }
                i = i + 1;
            }
            assert(trees.take(n as int) =~= trees);
        }
    }
    out
}

} // verus!
