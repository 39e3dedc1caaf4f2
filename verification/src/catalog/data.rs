//! The provider index as it is read: providers, their models, and how each is reached.

use vstd::prelude::*;

use crate::assoc;
use crate::assoc::AssocMap;
use crate::text::{copy_text, copy_texts, same_text};

verus! {

/// The index entry of the first-party provider.
pub const ZEN_CATALOG_KEY: &'static str = "opencode";

/// The name under which users know the first-party provider.
pub const ZEN_MAKI_SLUG: &'static str = "opencode-zen";

/// The package of providers that speak the chat completions protocol.
pub const OPENAI_COMPATIBLE_NPM: &'static str = "@ai-sdk/openai-compatible";

/// The package of providers that speak the messages protocol.
pub const ANTHROPIC_NPM: &'static str = "@ai-sdk/anthropic";

/// A price as the bit pattern of a double-precision number.
#[derive(Debug, Clone, Copy, PartialEq, Eq, Structural)]
pub struct Price {
    pub bits: u64,
}

/// The bit pattern of negative zero.
pub const NEGATIVE_ZERO_BITS: u64 = 0x8000_0000_0000_0000;

impl Price {
    /// The number is zero, of either sign.
    pub open spec fn spec_is_zero(self) -> bool {
        self.bits == 0 || self.bits == NEGATIVE_ZERO_BITS
    }

    /// The price that a missing price stands for.
    pub open spec fn spec_zero() -> Price {
        Price { bits: 0 }
    }

    /// Whether the price is zero, of either sign.
    pub fn is_zero(self) -> (zero: bool)
        ensures
            zero == self.spec_is_zero(),
    {
        self.bits == 0 || self.bits == NEGATIVE_ZERO_BITS
    }
}

/// The price, or zero where there is none.
pub open spec fn price_or_zero(price: Option<Price>) -> Price {
    match price {
        Some(p) => p,
        None => Price::spec_zero(),
    }
}

/// The price, or zero where there is none.
pub fn or_zero(price: Option<Price>) -> (p: Price)
    ensures
        p == price_or_zero(price),
{
    match price {
        Some(p) => p,
        None => Price { bits: 0 },
    }
}

/// The protocol that an endpoint speaks.
#[derive(Debug, Clone, Copy, PartialEq, Eq, Structural)]
pub enum EndpointType {
    ChatCompletions,
    Messages,
}

impl EndpointType {
    /// The protocol of the providers of package `npm`.
    pub open spec fn of_npm(npm: Seq<char>) -> EndpointType {
        if npm == ANTHROPIC_NPM@ {
            EndpointType::Messages
        } else {
            EndpointType::ChatCompletions
        }
    }

    /// The protocol of the providers of package `npm`.
    pub fn from_npm(npm: &str) -> (endpoint: EndpointType)
        ensures
            endpoint == EndpointType::of_npm(npm@),
    {
        if same_text(npm, ANTHROPIC_NPM) {
            EndpointType::Messages
        } else {
            EndpointType::ChatCompletions
        }
    }
}

/// What a model costs, as far as the index says.
#[derive(Debug, Clone, Copy, PartialEq, Eq, Structural)]
pub struct CatalogCost {
    pub input: Option<Price>,
    pub output: Option<Price>,
    pub cache_read: Option<Price>,
    pub cache_write: Option<Price>,
}

/// A model of the index.
#[derive(Debug, Clone, Copy, PartialEq, Eq, Structural)]
pub struct CatalogModel {
    pub cost: Option<CatalogCost>,
    /// The protocol that the model asks for where it is not its provider's.
    pub api_format: Option<EndpointType>,
    /// The tokens that the model can take in.
    pub context: u32,
    /// The tokens that the model can give out.
    pub output: u32,
    pub vision: bool,
    pub supports_thinking: bool,
}

impl View for CatalogModel {
    type V = CatalogModel;

    open spec fn view(&self) -> CatalogModel {
        *self
    }
}

impl DeepView for CatalogModel {
    type V = CatalogModel;

    open spec fn deep_view(&self) -> CatalogModel {
        *self
    }
}

/// A provider of the index.
pub struct CatalogProvider {
    pub name: String,
    /// The environment variables that may hold its key, in order of preference.
    pub env: Vec<String>,
    pub npm: String,
    pub api: Option<String>,
    pub models: AssocMap<String, CatalogModel>,
}

/// What a provider of the index stands for.
pub struct CatalogProviderView {
    pub name: Seq<char>,
    pub env: Seq<Seq<char>>,
    pub npm: Seq<char>,
    pub api: Option<Seq<char>>,
    pub models: Map<Seq<char>, CatalogModel>,
}

impl View for CatalogProvider {
    type V = CatalogProviderView;

    open spec fn view(&self) -> CatalogProviderView {
        CatalogProviderView {
            name: self.name@,
            env: self.env.deep_view(),
            npm: self.npm@,
            api: self.api.deep_view(),
            models: self.models@,
        }
    }
}

impl DeepView for CatalogProvider {
    type V = CatalogProviderView;

    open spec fn deep_view(&self) -> CatalogProviderView {
        self@
    }
}

/// The index: providers by their identifiers.
pub type CatalogIndex = AssocMap<String, CatalogProvider>;

/// What the index stands for.
pub type CatalogIndexView = Map<Seq<char>, CatalogProviderView>;

/// A provider's identifier and the identifier of one of its models.
pub type ModelKey = (String, String);

/// What is known of a model that can be used.
#[derive(Debug)]
pub struct Meta {
    pub provider_id: String,
    pub api_format: EndpointType,
    pub context: u32,
    pub output: u32,
    pub input_price: Price,
    pub output_price: Price,
    pub cache_read: Price,
    pub cache_write: Price,
    pub vision: bool,
    pub supports_thinking: bool,
}

/// What a `Meta` stands for.
pub struct MetaView {
    pub provider_id: Seq<char>,
    pub api_format: EndpointType,
    pub context: u32,
    pub output: u32,
    pub input_price: Price,
    pub output_price: Price,
    pub cache_read: Price,
    pub cache_write: Price,
    pub vision: bool,
    pub supports_thinking: bool,
}

impl View for Meta {
    type V = MetaView;

    open spec fn view(&self) -> MetaView {
        MetaView {
            provider_id: self.provider_id@,
            api_format: self.api_format,
            context: self.context,
            output: self.output,
            input_price: self.input_price,
            output_price: self.output_price,
            cache_read: self.cache_read,
            cache_write: self.cache_write,
            vision: self.vision,
            supports_thinking: self.supports_thinking,
        }
    }
}

impl DeepView for Meta {
    type V = MetaView;

    open spec fn deep_view(&self) -> MetaView {
        self@
    }
}

impl Clone for Meta {
    fn clone(&self) -> (copy: Self)
        ensures
            copy == *self,
    {
        Meta {
            provider_id: self.provider_id.clone(),
            api_format: self.api_format,
            context: self.context,
            output: self.output,
            input_price: self.input_price,
            output_price: self.output_price,
            cache_read: self.cache_read,
            cache_write: self.cache_write,
            vision: self.vision,
            supports_thinking: self.supports_thinking,
        }
    }
}

/// The cost of a model where the index gives none: nothing is said of any price.
pub open spec fn cost_or_unsaid(cost: Option<CatalogCost>) -> CatalogCost {
    match cost {
        Some(c) => c,
        None => CatalogCost { input: None, output: None, cache_read: None, cache_write: None },
    }
}

/// What is known of a model of provider `provider_id`, whose protocol is `api_format`.
pub open spec fn meta_of(
    model: CatalogModel,
    provider_id: Seq<char>,
    api_format: EndpointType,
) -> MetaView {
    let cost = cost_or_unsaid(model.cost);
    MetaView {
        provider_id,
        api_format: match model.api_format {
            Some(own) => own,
            None => api_format,
        },
        context: model.context,
        output: model.output,
        input_price: price_or_zero(cost.input),
        output_price: price_or_zero(cost.output),
        cache_read: price_or_zero(cost.cache_read),
        cache_write: price_or_zero(cost.cache_write),
        vision: model.vision,
        supports_thinking: model.supports_thinking,
    }
}

/// What is known of a model of provider `provider_id`, whose protocol is `api_format`.
pub fn model_meta(model: &CatalogModel, provider_id: &str, api_format: EndpointType) -> (meta: Meta)
    ensures
        meta@ == meta_of(*model, provider_id@, api_format),
{
    let cost = match model.cost {
        Some(c) => c,
        None => CatalogCost { input: None, output: None, cache_read: None, cache_write: None },
    };
    Meta {
        provider_id: provider_id.to_owned(),
        api_format: match model.api_format {
            Some(own) => own,
            None => api_format,
        },
        context: model.context,
        output: model.output,
        input_price: or_zero(cost.input),
        output_price: or_zero(cost.output),
        cache_read: or_zero(cost.cache_read),
        cache_write: or_zero(cost.cache_write),
        vision: model.vision,
        supports_thinking: model.supports_thinking,
    }
}

/// Where to send a request and what to send along as proof of identity.
#[derive(Debug, PartialEq, Eq)]
pub struct ResolvedAuth {
    pub base_url: Option<String>,
    pub headers: Vec<(String, String)>,
}

/// What a `ResolvedAuth` stands for.
pub struct AuthView {
    pub base_url: Option<Seq<char>>,
    pub headers: Seq<(Seq<char>, Seq<char>)>,
}

impl View for ResolvedAuth {
    type V = AuthView;

    open spec fn view(&self) -> AuthView {
        AuthView { base_url: self.base_url.deep_view(), headers: self.headers.deep_view() }
    }
}

impl DeepView for ResolvedAuth {
    type V = AuthView;

    open spec fn deep_view(&self) -> AuthView {
        self@
    }
}

impl Clone for ResolvedAuth {
    fn clone(&self) -> (copy: Self)
        ensures
            copy@ == self@,
    {
        let mut headers: Vec<(String, String)> = Vec::new();
        for i in 0..self.headers.len()
            invariant
                headers@.len() == i,
                forall|j: int| 0 <= j < i ==> headers@[j] == self.headers@[j],
        {
            let header = &self.headers[i];
            headers.push((header.0.clone(), header.1.clone()));
        }
        assert(headers@ == self.headers@);
        ResolvedAuth { base_url: copy_text(&self.base_url), headers }
    }
}

/// A key as a bearer token, with no address.
pub open spec fn bearer_auth(key: Seq<char>) -> AuthView {
    AuthView { base_url: None, headers: seq![("authorization"@, "Bearer "@ + key)] }
}

/// A key as the messages protocol takes it, with no address.
pub open spec fn api_key_auth(key: Seq<char>) -> AuthView {
    AuthView { base_url: None, headers: seq![("x-api-key"@, key)] }
}

/// The address of a provider and its key as the protocol takes it.
pub open spec fn provider_auth(
    provider: CatalogProviderView,
    key: Seq<char>,
    endpoint: EndpointType,
) -> AuthView {
    AuthView {
        base_url: provider.api,
        headers: match endpoint {
            EndpointType::ChatCompletions => bearer_auth(key).headers,
            EndpointType::Messages => api_key_auth(key).headers,
        },
    }
}

impl ResolvedAuth {
    /// The key as a bearer token, with no address.
    pub fn bearer(key: &str) -> (auth: Self)
        ensures
            auth@ == bearer_auth(key@),
    {
        let mut headers: Vec<(String, String)> = Vec::new();
        headers.push(("authorization".to_owned(), "Bearer ".to_owned().concat(key)));
        assert(headers.deep_view() == bearer_auth(key@).headers);
        ResolvedAuth { base_url: None, headers }
    }

    /// The key as the messages protocol takes it, with no address.
    pub fn api_key(key: &str) -> (auth: Self)
        ensures
            auth@ == api_key_auth(key@),
    {
        let mut headers: Vec<(String, String)> = Vec::new();
        headers.push(("x-api-key".to_owned(), key.to_owned()));
        assert(headers.deep_view() == api_key_auth(key@).headers);
        ResolvedAuth { base_url: None, headers }
    }
}

/// A copy of a provider's models.
pub fn copy_models(models: &AssocMap<String, CatalogModel>) -> (copy: AssocMap<
    String,
    CatalogModel,
>)
    ensures
        copy@ == models@,
{
    let mut copy: AssocMap<String, CatalogModel> = AssocMap::new();
    let n: usize = models.len();
    assert(models.pairs().take(0) == Seq::<(Seq<char>, CatalogModel)>::empty());
    for i in 0..n
        invariant
            n == models.pairs().len(),
            copy@ == assoc::map_of(models.pairs().take(i as int)),
    {
        let (id, model) = models.entry(i);
        proof {
            assoc::map_of_next(models.pairs(), i as int);
        }
        copy.insert(id.clone(), *model);
    }
    assert(models.pairs().take(n as int) == models.pairs());
    copy
}

impl Clone for CatalogProvider {
    fn clone(&self) -> (copy: Self)
        ensures
            copy@ == self@,
    {
        CatalogProvider {
            name: self.name.clone(),
            env: copy_texts(&self.env),
            npm: self.npm.clone(),
            api: copy_text(&self.api),
            models: copy_models(&self.models),
        }
    }
}

impl CatalogProvider {
    /// The address of the provider and `key` as the protocol takes it.
    pub fn build_auth(&self, key: &str, endpoint: EndpointType) -> (auth: ResolvedAuth)
        ensures
            auth@ == provider_auth(self@, key@, endpoint),
    {
        let bare = match endpoint {
            EndpointType::ChatCompletions => ResolvedAuth::bearer(key),
            EndpointType::Messages => ResolvedAuth::api_key(key),
        };
        ResolvedAuth { base_url: copy_text(&self.api), headers: bare.headers }
    }
}

/// The name under which users know provider `provider_id` of the index.
pub open spec fn slug_of(provider_id: Seq<char>) -> Seq<char> {
    if provider_id == ZEN_CATALOG_KEY@ {
        ZEN_MAKI_SLUG@
    } else {
        provider_id
    }
}

/// The name under which users know provider `provider_id` of the index.
pub fn maki_slug_for<'a>(provider_id: &'a str) -> (slug: &'a str)
    ensures
        slug@ == slug_of(provider_id@),
{
    if same_text(provider_id, ZEN_CATALOG_KEY) {
        ZEN_MAKI_SLUG
    } else {
        provider_id
    }
}

} // verus!
