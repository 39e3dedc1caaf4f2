//! Which provider serves a kind, a slug or a model.

use vstd::prelude::*;

use crate::catalog::registry;
use crate::catalog::registry::Registry;
use crate::error::AgentError;
use crate::host::{Host, HostView};
use crate::laws::keys;
use crate::model::Model;
use crate::plan;
use crate::plan::{PlanView, ProviderPlan, RegistryView};
use crate::provider::{KindView, ProviderKind};

verus! {

/// The kind has a provider of its own: it is neither a service nor a third party.
pub open spec fn is_own(kind: KindView) -> bool {
    !(kind is OpencodeZen) && !(kind is OpencodeGo) && !(kind is Catalog)
}

/// A kind that is neither a service nor a third party is served by its own provider and by no
/// other, but for Anthropic where Bedrock serves it.
pub proof fn own_kind_serves_itself(
    kind: &ProviderKind,
    registered: &Registry,
    host: &Host,
    r: Result<ProviderPlan, AgentError>,
)
    requires
        call_ensures(ProviderKind::create, (kind, registered, host), r),
        is_own(kind@),
    ensures
        r is Ok,
        kind@ is Anthropic && host.bedrock ==> r->Ok_0 is Bedrock,
        !(kind@ is Anthropic && host.bedrock) ==> (r->Ok_0 matches ProviderPlan::Builtin(k) && k@
            == kind@),
{
}

/// A plan for a kind's own provider names that kind, Bedrock is planned for Anthropic alone, and a
/// service is planned for its own kind alone.
pub proof fn plan_is_for_the_kind(
    kind: &ProviderKind,
    registered: &Registry,
    host: &Host,
    plan: ProviderPlan,
)
    requires
        call_ensures(
            ProviderKind::create,
            (kind, registered, host),
            Ok::<ProviderPlan, AgentError>(plan),
        ),
    ensures
        plan matches ProviderPlan::Builtin(k) ==> k@ == kind@,
        plan is Bedrock ==> kind@ is Anthropic && host.bedrock,
        plan matches ProviderPlan::Opencode(b) ==> (b is Zen <==> kind@ is OpencodeZen) && (b is Go
            <==> kind@ is OpencodeGo),
        plan matches ProviderPlan::Catalog(p) ==> kind@ == KindView::Catalog((*p.slug)@),
        kind@ is OpencodeZen || kind@ is OpencodeGo ==> plan is Opencode,
        kind@ is Catalog ==> plan is Catalog,
        !(plan is Dynamic) && !(plan is Custom) && !(plan is Unconfigured),
{
}

/// Two kinds are never served by the same provider.
pub proof fn kinds_do_not_share_a_provider(
    a: KindView,
    b: KindView,
    registered: RegistryView,
    host: HostView,
)
    requires
        plan::planned(a, registered, host) is Ok,
        plan::planned(a, registered, host) == plan::planned(b, registered, host),
    ensures
        a == b,
{
}

/// A third party that is not registered cannot be made, and the error names it; one without a key
/// cannot either, and the error says what is missing.
pub proof fn unregistered_cannot_be_made(
    kind: &ProviderKind,
    slug: Seq<char>,
    registered: &Registry,
    host: &Host,
    r: Result<ProviderPlan, AgentError>,
)
    requires
        call_ensures(ProviderKind::create, (kind, registered, host), r),
        kind@ == KindView::Catalog(slug),
    ensures
        !registered@.contains_key(slug) ==> (r matches Err(AgentError::Config { message })
            && message@ == "unknown catalog provider '"@ + slug + "'"@),
        registered@.contains_key(slug) && keys::none_set(registered@[slug].env_keys, host.env@)
            && !host.saved@.contains_key(slug) ==> (r matches Err(AgentError::Config { message })
            && message@ == "catalog provider '"@ + slug + "' not configured — set one of "@
            + registry::debug_text(registered@[slug].env_keys) + " or run `maki auth login "@ + slug
            + "`"@),
{
    if registered@.contains_key(slug) {
        keys::first_set_gives_its_text(registered@[slug].env_keys, host.env@, 0);
    }
}

/// A registered third party with a key is reached at its registered address, with the key as a
/// bearer token.
pub proof fn registered_is_reached(
    kind: &ProviderKind,
    slug: Seq<char>,
    registered: &Registry,
    host: &Host,
    key: Seq<char>,
    r: Result<ProviderPlan, AgentError>,
)
    requires
        call_ensures(ProviderKind::create, (kind, registered, host), r),
        kind@ == KindView::Catalog(slug),
        registered@.contains_key(slug),
        keys::is_third_party_key(
            Some(key),
            registered@[slug].env_keys,
            host.env@,
            host.saved@,
            slug,
        ),
    ensures
        r matches Ok(ProviderPlan::Catalog(p)) && (*p.slug)@ == slug && p.info@
            == registered@[slug] && p.auth@.base_url == registered@[slug].base_url
            && p.auth@.headers == seq![("authorization"@, "Bearer "@ + key)],
{
    let names = registered@[slug].env_keys;
    keys::third_party_key_is_looked_for(slug, names, host.env@, host.saved@);
    keys::first_set_gives_its_text(names, host.env@, 0);
    crate::credentials::first_set_is_first(names, host.env@);
    if !keys::none_set(names, host.env@) {
        let name = crate::credentials::first_set(names, host.env@)->0;
        let k = choose|k: int|
            {
                &&& 0 <= k < names.len()
                &&& #[trigger] names[k] == name
                &&& host.env@.contains_key(name)
                &&& forall|j: int| 0 <= j < k ==> !host.env@.contains_key(#[trigger] names[j])
            };
        assert(keys::first_set_at(names, host.env@, k));
    }
}

/// A kind is available exactly where it can be made: a service always, a kind with a provider of
/// its own where that can be made, and a third party where it is registered and has a key.
pub proof fn availability_is_what_can_be_made(
    kind: &ProviderKind,
    registered: &Registry,
    host: &Host,
    available: bool,
    r: Result<ProviderPlan, AgentError>,
)
    requires
        call_ensures(ProviderKind::is_available, (kind, registered, host), available),
        call_ensures(ProviderKind::create, (kind, registered, host), r),
    ensures
        kind@ is OpencodeZen || kind@ is OpencodeGo ==> available,
        is_own(kind@) ==> (available <==> host.creatable.deep_view().contains(kind@)),
        kind@ is Catalog ==> (available <==> r is Ok),
        kind@ matches KindView::Catalog(slug) ==> (available <==> registered@.contains_key(slug) && (
        !keys::none_set(registered@[slug].env_keys, host.env@) || host.saved@.contains_key(slug))),
{
    if kind@ is Catalog {
        let slug = kind@->Catalog_0;
        keys::first_set_gives_its_text(registered@[slug].env_keys, host.env@, 0);
    }
}

/// A slug that the user set up is served under that slug: by a program where one names it, and else
/// by what the user configured.
pub proof fn slug_serves_itself(slug: &str, host: &Host, plan: ProviderPlan)
    requires
        call_ensures(plan::provider_for_slug, (slug, host), plan),
    ensures
        host.dynamic_named.deep_view().contains(slug@) ==> (plan matches ProviderPlan::Dynamic(s)
            && s@ == slug@),
        !host.dynamic_named.deep_view().contains(slug@) ==> (plan matches ProviderPlan::Custom(s)
            && s@ == slug@),
{
}

/// A model is served by the slug that it was given, and else by its kind, as if that had been
/// asked.
pub proof fn model_is_served_by_slug_or_kind(
    model: &Model,
    registered: &Registry,
    host: &Host,
    r: Result<ProviderPlan, AgentError>,
    by_kind: Result<ProviderPlan, AgentError>,
)
    requires
        call_ensures(plan::from_model, (model, registered, host), r),
        call_ensures(ProviderKind::create, (&model.provider, registered, host), by_kind),
    ensures
        model.dynamic_slug matches Some(slug) ==> (r matches Ok(p) && p@ == (
        if host.dynamic_named.deep_view().contains(slug@) {
            PlanView::Dynamic(slug@)
        } else {
            PlanView::Custom(slug@)
        })),
        model.dynamic_slug is None ==> (r is Ok <==> by_kind is Ok),
        model.dynamic_slug is None && r is Ok ==> r->Ok_0@ == by_kind->Ok_0@,
        model.dynamic_slug is None && is_own(model.provider@) && !(model.provider@ is Anthropic
            && host.bedrock) ==> (r matches Ok(ProviderPlan::Builtin(k)) && k@ == model.provider@),
{
}

/// Only a model that no slug serves may be adjusted.
pub proof fn slugs_do_not_adjust(model: &Model, adjusts: bool)
    requires
        call_ensures(plan::adjusts_model, (model,), adjusts),
    ensures
        adjusts <==> model.dynamic_slug is None,
{
}

/// What was planned is used where it could be made, and the provider that answers with an error in
/// every other case.
pub proof fn fallback_answers_with_an_error(
    planned: Result<ProviderPlan, AgentError>,
    made: bool,
    plan: ProviderPlan,
    error: AgentError,
)
    requires
        call_ensures(plan::from_model_fallback, (planned, made), plan),
        call_ensures(plan::not_configured, (), error),
    ensures
        planned is Ok && made ==> plan@ == planned->Ok_0@,
        planned is Err || !made ==> plan is Unconfigured,
        error matches AgentError::Config { message } && message@
            == "no provider configured — run /login or `maki auth login`"@,
{
}

} // verus!
