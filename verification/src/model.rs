//! Models as they are shown and used.

use vstd::prelude::*;

use crate::catalog::data::{AuthView, EndpointType, Meta, MetaView, Price, ResolvedAuth};
use crate::provider::{KindView, ProviderKind};
use crate::sorting::Labelled;
use crate::text::copy_text;

verus! {

/// The family that a model belongs to.
#[derive(Debug, Clone, Copy, PartialEq, Eq, Structural)]
pub enum ModelFamily {
    Claude,
    Gpt,
    Gemini,
    Glm,
    Synthetic,
    Generic,
}

/// Something that the rest of the program keeps of a model, by the number that it is kept under.
#[derive(Debug, Clone, Copy, PartialEq, Eq, Structural)]
pub struct Handle {
    pub number: u64,
}

/// What a model costs.
#[derive(Debug, Clone, Copy, PartialEq, Eq, Structural)]
pub struct ModelPricing {
    pub input: Price,
    pub output: Price,
    pub cache_read: Price,
    pub cache_write: Price,
    /// What a faster answer costs, where the provider says so.
    pub fast: Option<Handle>,
}

/// A model as it is listed. What is not known of it is `None`.
#[derive(Debug, PartialEq, Eq)]
pub struct ModelInfo {
    pub id: String,
    pub context_window: Option<u32>,
    pub max_output_tokens: Option<u32>,
    pub pricing: Option<ModelPricing>,
    pub supports_thinking: Option<bool>,
    pub supports_vision: Option<bool>,
    /// What the provider says beyond that.
    pub provider_info: Option<Handle>,
}

/// What a `ModelInfo` stands for.
pub struct ModelInfoView {
    pub id: Seq<char>,
    pub context_window: Option<u32>,
    pub max_output_tokens: Option<u32>,
    pub pricing: Option<ModelPricing>,
    pub supports_thinking: Option<bool>,
    pub supports_vision: Option<bool>,
    /// What the provider says beyond that.
    pub provider_info: Option<Handle>,
}

impl View for ModelInfo {
    type V = ModelInfoView;

    open spec fn view(&self) -> ModelInfoView {
        ModelInfoView {
            id: self.id@,
            context_window: self.context_window,
            max_output_tokens: self.max_output_tokens,
            pricing: self.pricing,
            supports_thinking: self.supports_thinking,
            supports_vision: self.supports_vision,
            provider_info: self.provider_info,
        }
    }
}

impl DeepView for ModelInfo {
    type V = ModelInfoView;

    open spec fn deep_view(&self) -> ModelInfoView {
        self@
    }
}

impl Clone for ModelInfo {
    fn clone(&self) -> (copy: Self)
        ensures
            copy == *self,
    {
        ModelInfo {
            id: self.id.clone(),
            context_window: self.context_window,
            max_output_tokens: self.max_output_tokens,
            pricing: self.pricing,
            supports_thinking: self.supports_thinking,
            supports_vision: self.supports_vision,
            provider_info: self.provider_info,
        }
    }
}

impl Labelled for ModelInfo {
    open spec fn label_of(v: ModelInfoView) -> Seq<char> {
        v.id
    }

    fn label(&self) -> (label: &str) {
        self.id.as_str()
    }
}

/// How the model of identifier `id` is listed.
pub open spec fn listing(id: Seq<char>, meta: MetaView) -> ModelInfoView {
    ModelInfoView {
        id,
        context_window: Some(meta.context),
        max_output_tokens: Some(meta.output),
        pricing: Some(
            ModelPricing {
                input: meta.input_price,
                output: meta.output_price,
                cache_read: meta.cache_read,
                cache_write: meta.cache_write,
                fast: None,
            },
        ),
        supports_thinking: Some(meta.supports_thinking),
        supports_vision: Some(meta.vision),
        provider_info: None,
    }
}

/// How the model of identifier `id` is listed.
pub fn model_info(id: String, meta: &Meta) -> (info: ModelInfo)
    ensures
        info@ == listing(id@, meta@),
{
    ModelInfo {
        id,
        context_window: Some(meta.context),
        max_output_tokens: Some(meta.output),
        pricing: Some(
            ModelPricing {
                input: meta.input_price,
                output: meta.output_price,
                cache_read: meta.cache_read,
                cache_write: meta.cache_write,
                fast: None,
            },
        ),
        supports_thinking: Some(meta.supports_thinking),
        supports_vision: Some(meta.vision),
        provider_info: None,
    }
}

/// A model that was chosen.
#[derive(Debug)]
pub struct Model {
    pub id: String,
    pub provider: ProviderKind,
    /// The slug of a provider that was set up by the user, where the model is served by one.
    pub dynamic_slug: Option<String>,
    pub max_output_tokens: Option<u32>,
    pub context_window: u32,
}

/// What a `Model` stands for.
pub struct ModelView {
    pub id: Seq<char>,
    pub provider: KindView,
    pub dynamic_slug: Option<Seq<char>>,
    pub max_output_tokens: Option<u32>,
    pub context_window: u32,
}

impl View for Model {
    type V = ModelView;

    open spec fn view(&self) -> ModelView {
        ModelView {
            id: self.id@,
            provider: self.provider@,
            dynamic_slug: self.dynamic_slug.deep_view(),
            max_output_tokens: self.max_output_tokens,
            context_window: self.context_window,
        }
    }
}

/// The chosen model as it is sent: under the identifier that its provider knows, with the limits
/// that the catalog gives.
pub open spec fn sent_as(model: ModelView, id: Seq<char>, meta: MetaView) -> ModelView {
    ModelView {
        id,
        max_output_tokens: Some(meta.output),
        context_window: meta.context,
        ..model
    }
}

/// The chosen model as it is sent under identifier `id`, with the limits of `meta`.
pub fn send_as(model: &Model, id: String, meta: &Meta) -> (sent: Model)
    ensures
        sent@ == sent_as(model@, id@, meta@),
{
    Model {
        id,
        provider: model.provider.clone(),
        dynamic_slug: copy_text(&model.dynamic_slug),
        max_output_tokens: Some(meta.output),
        context_window: meta.context,
    }
}

/// A request that is ready to be sent.
#[derive(Debug)]
pub struct PreparedRequest {
    pub model: Model,
    pub endpoint: EndpointType,
    pub auth: ResolvedAuth,
}

/// What a `PreparedRequest` stands for.
pub struct PreparedRequestView {
    pub model: ModelView,
    pub endpoint: EndpointType,
    pub auth: AuthView,
}

impl View for PreparedRequest {
    type V = PreparedRequestView;

    open spec fn view(&self) -> PreparedRequestView {
        PreparedRequestView { model: self.model@, endpoint: self.endpoint, auth: self.auth@ }
    }
}

} // verus!
