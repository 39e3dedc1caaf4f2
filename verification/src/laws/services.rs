//! The services while the program runs: rebuilds, and what is known of their models.

use vstd::prelude::*;

use crate::catalog::cat_provider;
use crate::catalog::data::AuthView;
use crate::laws::listings;
use crate::model::ModelInfoView;
use crate::model_registry::KnownView;
use crate::opencode;
use crate::opencode::backend::{Backend, CatalogView};
use crate::opencode::{CatalogsView, Start};
use crate::plan::RegistryView;
use crate::provider::KindView;

verus! {

/// A service starts a rebuild of its catalog.
pub open spec fn begins_rebuild(start: Start) -> bool {
    start matches Start::Ready { service, rebuild } && rebuild
}

/// Of two starts of a service, one after the other, at most one begins a rebuild.
pub proof fn one_rebuild_at_a_time(
    b: Backend,
    first_auth: Option<AuthView>,
    second_auth: Option<AuthView>,
    s0: CatalogsView,
    s1: CatalogsView,
    s2: CatalogsView,
    first: Start,
    second: Start,
)
    requires
        opencode::starts(b, first_auth, s0, s1, first),
        opencode::starts(b, second_auth, s1, s2, second),
    ensures
        !(begins_rebuild(first) && begins_rebuild(second)),
{
}

/// A rebuild is begun exactly where the catalog is there, offers nothing, and nobody holds the
/// flag; whoever begins one holds the flag.
pub proof fn rebuild_begins_on_empty_catalog(
    b: Backend,
    auth: Option<AuthView>,
    before: CatalogsView,
    after: CatalogsView,
    start: Start,
)
    requires
        opencode::starts(b, auth, before, after, start),
    ensures
        begins_rebuild(start) <==> (before.catalog(b) matches Some(c) && c.is_empty()
            && !before.rebuild(b)),
        begins_rebuild(start) ==> after.rebuild(b),
{
}

/// A rebuild that offers something gives the flag back, and the next start begins no other.
pub proof fn successful_rebuild_ends(
    b: Backend,
    kind: KindView,
    catalog: CatalogView,
    auth: Option<AuthView>,
    before: CatalogsView,
    after: CatalogsView,
    last: CatalogsView,
    start: Start,
)
    requires
        opencode::rebuilt(b, kind, catalog, before, after),
        !catalog.is_empty(),
        opencode::starts(b, auth, after, last, start),
    ensures
        !after.rebuild(b),
        !begins_rebuild(start),
{
}

/// A rebuild in vain keeps the flag, so that no later start begins another.
pub proof fn vain_rebuild_is_not_repeated(
    b: Backend,
    kind: KindView,
    catalog: CatalogView,
    auth: Option<AuthView>,
    before: CatalogsView,
    after: CatalogsView,
    last: CatalogsView,
    start: Start,
)
    requires
        before.rebuild(b),
        opencode::rebuilt(b, kind, catalog, before, after),
        catalog.is_empty(),
        opencode::starts(b, auth, after, last, start),
    ensures
        after.rebuild(b),
        !begins_rebuild(start),
{
}

/// The catalog, the flag and the known models of the one service are not touched by the other.
pub proof fn services_are_independent(
    b: Backend,
    other: Backend,
    auth: Option<AuthView>,
    before: CatalogsView,
    after: CatalogsView,
    start: Start,
)
    requires
        b != other,
        opencode::starts(b, auth, before, after, start),
    ensures
        after.catalog(other) == before.catalog(other),
        after.rebuild(other) == before.rebuild(other),
        after.known.contains_key(other.kind_view()) == before.known.contains_key(
            other.kind_view(),
        ),
        after.known.contains_key(other.kind_view()) ==> after.known[other.kind_view()]
            == before.known[other.kind_view()],
{
}

/// A rebuilt catalog is in use at once, and what it lists is known.
pub proof fn rebuilt_is_known(
    b: Backend,
    kind: KindView,
    catalog: CatalogView,
    before: CatalogsView,
    after: CatalogsView,
)
    requires
        opencode::rebuilt(b, kind, catalog, before, after),
    ensures
        after.catalog(b) == Some(catalog),
        after.known.contains_key(kind),
        b.lists_entries(after.known[kind], catalog.entries),
        after.registry == before.registry,
        forall|k: KindView| k != kind ==> after.known.contains_key(k) == before.known.contains_key(
            k,
        ) && (after.known.contains_key(k) ==> #[trigger] after.known[k] == before.known[k]),
{
}

/// To start a service once more changes nothing of what is known.
pub proof fn restart_changes_nothing(
    b: Backend,
    catalog: CatalogView,
    registry: RegistryView,
    k0: KnownView,
    k1: KnownView,
    k2: KnownView,
)
    requires
        opencode::seeded(k0, k1, b, catalog, registry),
        opencode::seeded(k1, k2, b, catalog, registry),
        listings::ids_tell_apart(b, catalog.entries),
    ensures
        k2 == k1,
{
    let own = b.kind_view();
    assert(k1.contains_key(own) && k2.contains_key(own));
    listings::listing_is_unique(b, k1[own], k2[own], catalog.entries);
    assert forall|k: KindView| k1.contains_key(k) == k2.contains_key(k) by {}
    assert forall|k: KindView| #[trigger] k2.contains_key(k) implies k2[k] == k1[k] by {
        match k {
            KindView::Catalog(slug) => {
                if registry.contains_key(slug) {
                    assert(k1[KindView::Catalog(slug)] == k2[KindView::Catalog(slug)]);
                }
            },
            _ => {},
        }
    }
    assert(k2 =~= k1);
}

/// To ask a started service for its models, and to make what it lists known, changes nothing of
/// what is known.
pub proof fn asking_the_service_changes_nothing(
    b: Backend,
    catalog: CatalogView,
    registry: RegistryView,
    before: KnownView,
    known: KnownView,
    list: Seq<ModelInfoView>,
)
    requires
        opencode::seeded(before, known, b, catalog, registry),
        b.lists_entries(list, catalog.entries),
        listings::ids_tell_apart(b, catalog.entries),
    ensures
        known.insert(b.kind_view(), list) == known,
{
    assert(known.contains_key(b.kind_view()));
    listings::listing_is_unique(b, list, known[b.kind_view()], catalog.entries);
    assert(known.insert(b.kind_view(), list) =~= known);
}

/// To list the models of a registered third-party provider once a service was started, and to make
/// them known, changes nothing of what is known.
pub proof fn listing_a_third_party_changes_nothing(
    b: Backend,
    catalog: CatalogView,
    registry: RegistryView,
    before: KnownView,
    known: KnownView,
    slug: Seq<char>,
)
    requires
        opencode::seeded(before, known, b, catalog, registry),
        registry.contains_key(slug),
    ensures
        known.insert(
            KindView::Catalog(slug),
            cat_provider::listed_models(registry[slug].models),
        ) == known,
{
    assert(known.contains_key(KindView::Catalog(slug)));
    assert(known.insert(
        KindView::Catalog(slug),
        cat_provider::listed_models(registry[slug].models),
    ) =~= known);
}

} // verus!
