//! Which provider serves a kind or a model.

use vstd::prelude::*;

use crate::catalog::cat_provider;
use crate::catalog::cat_provider::{CatalogProvider, CatalogProviderView};
use crate::catalog::registry;
use crate::catalog::registry::{resolve_auth_for_catalog, CatalogProviderInfoView, Registry};
use crate::error::AgentError;
use crate::host::{Host, HostView};
use crate::model::{Model, ModelView};
use crate::opencode::backend::Backend;
use crate::provider::{KindView, ProviderKind};
use crate::text::lists_text;

verus! {

/// The provider that is to be made.
pub enum ProviderPlan {
    /// Bedrock, in the place of Anthropic.
    Bedrock,
    /// The provider of a kind that has one of its own.
    Builtin(ProviderKind),
    /// One of the two first-party services.
    Opencode(Backend),
    /// A third-party provider.
    Catalog(CatalogProvider),
    /// The provider that a program of the user serves.
    Dynamic(String),
    /// The provider that the user configured.
    Custom(String),
    /// The provider that answers every request with an error.
    Unconfigured,
}

/// What a `ProviderPlan` stands for.
pub enum PlanView {
    Bedrock,
    Builtin(KindView),
    Opencode(Backend),
    Catalog(CatalogProviderView),
    Dynamic(Seq<char>),
    Custom(Seq<char>),
    Unconfigured,
}

impl View for ProviderPlan {
    type V = PlanView;

    open spec fn view(&self) -> PlanView {
        match self {
            ProviderPlan::Bedrock => PlanView::Bedrock,
            ProviderPlan::Builtin(kind) => PlanView::Builtin(kind@),
            ProviderPlan::Opencode(backend) => PlanView::Opencode(*backend),
            ProviderPlan::Catalog(provider) => PlanView::Catalog(provider@),
            ProviderPlan::Dynamic(slug) => PlanView::Dynamic(slug@),
            ProviderPlan::Custom(slug) => PlanView::Custom(slug@),
            ProviderPlan::Unconfigured => PlanView::Unconfigured,
        }
    }
}

/// What is registered of the third-party providers.
pub type RegistryView = Map<Seq<char>, CatalogProviderInfoView>;

/// The words that say that a third-party provider is not registered.
pub open spec fn unknown_catalog_words(slug: Seq<char>) -> Seq<char> {
    "unknown catalog provider '"@ + slug + "'"@
}

/// The provider of a kind; or the words that say why there is none.
pub open spec fn planned(kind: KindView, registered: RegistryView, host: HostView) -> Result<
    PlanView,
    Seq<char>,
> {
    match kind {
        KindView::Anthropic => Ok(
            if host.bedrock {
                PlanView::Bedrock
            } else {
                PlanView::Builtin(kind)
            },
        ),
        KindView::OpencodeZen => Ok(PlanView::Opencode(Backend::Zen)),
        KindView::OpencodeGo => Ok(PlanView::Opencode(Backend::Go)),
        KindView::Catalog(slug) => if !registered.contains_key(slug) {
            Err(unknown_catalog_words(slug))
        } else {
            let info = registered[slug];
            match registry::catalog_auth(slug, info.env_keys, host.env, host.saved) {
                Some(auth) => Ok(
                    PlanView::Catalog(
                        CatalogProviderView {
                            slug,
                            info,
                            auth: cat_provider::addressed(auth, info.base_url),
                        },
                    ),
                ),
                None => Err(
                    registry::unconfigured_words(slug, registry::debug_text(info.env_keys)),
                ),
            }
        },
        _ => Ok(PlanView::Builtin(kind)),
    }
}

/// A provider of the kind can be made.
pub open spec fn available(kind: KindView, registered: RegistryView, host: HostView) -> bool {
    match kind {
        KindView::OpencodeZen => true,
        KindView::OpencodeGo => true,
        KindView::Catalog(slug) => registered.contains_key(slug) && registry::catalog_auth(
            slug,
            registered[slug].env_keys,
            host.env,
            host.saved,
        ) is Some,
        _ => host.creatable.contains(kind),
    }
}

/// A provider of the kind comes about: there is a plan for it, and where the plan rests on a
/// constructor of the kind's own, that one succeeds.
pub open spec fn comes_about(kind: KindView, registered: RegistryView, host: HostView) -> bool {
    match planned(kind, registered, host) {
        Ok(PlanView::Bedrock) => host.creatable.contains(kind),
        Ok(PlanView::Builtin(_)) => host.creatable.contains(kind),
        Ok(_) => true,
        Err(_) => false,
    }
}

/// The provider of a slug that the user set up.
pub open spec fn slug_planned(slug: Seq<char>, host: HostView) -> PlanView {
    if host.dynamic_named.contains(slug) {
        PlanView::Dynamic(slug)
    } else {
        PlanView::Custom(slug)
    }
}

/// The provider that serves a model; or the words that say why there is none.
pub open spec fn model_planned(
    model: ModelView,
    registered: RegistryView,
    host: HostView,
) -> Result<PlanView, Seq<char>> {
    match model.dynamic_slug {
        Some(slug) => Ok(slug_planned(slug, host)),
        None => planned(model.provider, registered, host),
    }
}

impl ProviderKind {
    /// The provider of the kind.
    pub fn create(&self, registered: &Registry, host: &Host) -> (result: Result<
        ProviderPlan,
        AgentError,
    >)
        ensures
            match result {
                Ok(plan) => planned(self@, registered@, host@) == Ok::<PlanView, Seq<char>>(plan@),
                Err(e) => planned(self@, registered@, host@) == Err::<PlanView, Seq<char>>(
                    e.words(),
                ),
            },
    {
        match self {
            ProviderKind::Anthropic => if host.bedrock {
                Ok(ProviderPlan::Bedrock)
            } else {
                Ok(ProviderPlan::Builtin(ProviderKind::Anthropic))
            },
            ProviderKind::OpencodeZen => Ok(ProviderPlan::Opencode(Backend::Zen)),
            ProviderKind::OpencodeGo => Ok(ProviderPlan::Opencode(Backend::Go)),
            ProviderKind::Catalog(slug) => {
                let info = match registered.get(&**slug) {
                    Some(info) => info,
                    None => {
                        return Err(
                            AgentError::Config {
                                message: "unknown catalog provider '".to_owned().concat(
                                    &**slug,
                                ).concat("'"),
                            },
                        );
                    },
                };
                match resolve_auth_for_catalog(&**slug, &info.env_keys, &host.env, &host.saved) {
                    Ok(auth) => Ok(
                        ProviderPlan::Catalog(CatalogProvider::new(slug.clone(), info, auth)),
                    ),
                    Err(e) => Err(e),
                }
            },
            _ => Ok(ProviderPlan::Builtin(self.clone())),
        }
    }

    /// Whether a provider of the kind can be made. The first-party services always can, and are
    /// not made to find out.
    pub fn is_available(&self, registered: &Registry, host: &Host) -> (is: bool)
        ensures
            is == available(self@, registered@, host@),
            is == comes_about(self@, registered@, host@),
    {
        match self {
            ProviderKind::OpencodeZen => true,
            ProviderKind::OpencodeGo => true,
            ProviderKind::Catalog(_) => self.create(registered, host).is_ok(),
            _ => host.can_create(self),
        }
    }
}

/// The provider of a slug that the user set up.
pub fn provider_for_slug(slug: &str, host: &Host) -> (plan: ProviderPlan)
    ensures
        plan@ == slug_planned(slug@, host@),
{
    if lists_text(&host.dynamic_named, slug) {
        ProviderPlan::Dynamic(slug.to_owned())
    } else {
        ProviderPlan::Custom(slug.to_owned())
    }
}

/// The provider that serves a model.
pub fn from_model(model: &Model, registered: &Registry, host: &Host) -> (result: Result<
    ProviderPlan,
    AgentError,
>)
    ensures
        match result {
            Ok(plan) => model_planned(model@, registered@, host@) == Ok::<PlanView, Seq<char>>(
                plan@,
            ),
            Err(e) => model_planned(model@, registered@, host@) == Err::<PlanView, Seq<char>>(
                e.words(),
            ),
        },
{
    match &model.dynamic_slug {
        Some(slug) => Ok(provider_for_slug(slug.as_str(), host)),
        None => model.provider.create(registered, host),
    }
}

/// Whether the provider that serves a model may adjust it. One that the user set up may not.
pub fn adjusts_model(model: &Model) -> (adjusts: bool)
    ensures
        adjusts == (model@.dynamic_slug is None),
{
    model.dynamic_slug.is_none()
}

/// The provider that is used: the planned one where it was made, and else the one that answers
/// every request with an error.
pub open spec fn settled(planned: Result<PlanView, Seq<char>>, made: bool) -> PlanView {
    match planned {
        Ok(plan) => if made {
            plan
        } else {
            PlanView::Unconfigured
        },
        Err(_) => PlanView::Unconfigured,
    }
}

/// What was planned, or the words that say why nothing was.
pub open spec fn plan_or_words(planned: Result<ProviderPlan, AgentError>) -> Result<
    PlanView,
    Seq<char>,
> {
    match planned {
        Ok(plan) => Ok(plan@),
        Err(e) => Err(e.words()),
    }
}

/// The provider that is used for a model, given what was planned for it and whether that could be
/// made: what was not planned or not made gives way to the provider that answers every request with
/// an error.
pub fn from_model_fallback(planned: Result<ProviderPlan, AgentError>, made: bool) -> (plan:
    ProviderPlan)
    ensures
        plan@ == settled(plan_or_words(planned), made),
{
    match planned {
        Ok(plan) => if made {
            plan
        } else {
            ProviderPlan::Unconfigured
        },
        Err(_) => ProviderPlan::Unconfigured,
    }
}

/// What every request is answered where no provider could be made.
pub const NOT_CONFIGURED: &'static str = "no provider configured — run /login or `maki auth login`";

/// The error that every request is answered with where no provider could be made.
pub fn not_configured() -> (error: AgentError)
    ensures
        error.words() == NOT_CONFIGURED@,
{
    AgentError::Config { message: NOT_CONFIGURED.to_owned() }
}

} // verus!
