//! The services as they are started, asked and rebuilt.

use vstd::prelude::*;

use crate::catalog::cat_provider;
use crate::catalog::data::{AuthView, ResolvedAuth};
use crate::catalog::registry::CatalogModelInfoView;
use crate::laws::registered;
use crate::laws::requests;
use crate::model::{ModelInfo, ModelInfoView};
use crate::model_registry;
use crate::model_registry::{KnownView, ModelRegistry};
use crate::opencode;
use crate::opencode::backend::{Backend, Catalog, CatalogView};
use crate::opencode::{Catalogs, CatalogsView, Opencode, Start};
use crate::plan::RegistryView;
use crate::provider::{KindView, ProviderKind};

verus! {

/// The catalog of a service.
pub open spec fn catalog_in_use(b: Backend, s: CatalogsView) -> Option<CatalogView> {
    if b is Zen {
        s.zen
    } else {
        s.go
    }
}

/// Somebody rebuilds the catalog of a service, or did so in vain.
pub open spec fn flag_held(b: Backend, s: CatalogsView) -> bool {
    if b is Zen {
        s.zen_rebuild
    } else {
        s.go_rebuild
    }
}

/// The other service has the catalog and the flag that it had, and the same third parties are
/// registered.
pub open spec fn rest_is_kept(b: Backend, before: CatalogsView, after: CatalogsView) -> bool {
    &&& b is Zen ==> after.go == before.go && after.go_rebuild == before.go_rebuild
    &&& b is Go ==> after.zen == before.zen && after.zen_rebuild == before.zen_rebuild
    &&& after.registry == before.registry
}

/// The kind under which the models of a service are known.
pub open spec fn own_kind(b: Backend) -> KindView {
    if b is Zen {
        KindView::OpencodeZen
    } else {
        KindView::OpencodeGo
    }
}

/// `list` has the registered models one for one.
pub open spec fn lists_registered(
    list: Seq<ModelInfoView>,
    models: Seq<CatalogModelInfoView>,
) -> bool {
    &&& list.len() == models.len()
    &&& forall|i: int|
        0 <= i < models.len() ==> requests::lists_as_known(
            #[trigger] list[i],
            models[i].id,
            models[i].meta,
        )
}

/// `k` is the kind of a registered third party.
pub open spec fn is_third_party(k: KindView, registry: RegistryView) -> bool {
    k matches KindView::Catalog(slug) && registry.contains_key(slug)
}

/// The kind is known as it was.
pub open spec fn known_alike(k: KindView, before: KnownView, after: KnownView) -> bool {
    &&& after.contains_key(k) <==> before.contains_key(k)
    &&& before.contains_key(k) ==> after[k] == before[k]
}

/// What is known after a service with this catalog was started: its listing, the models of every
/// registered third party, and of all other kinds what was known before.
pub open spec fn knows_what_is_offered(
    b: Backend,
    catalog: CatalogView,
    registry: RegistryView,
    before: KnownView,
    after: KnownView,
) -> bool {
    &&& after.contains_key(own_kind(b))
    &&& registered::is_listing(b, after[own_kind(b)], catalog.entries)
    &&& forall|slug: Seq<char>| #[trigger]
        registry.contains_key(slug) ==> after.contains_key(KindView::Catalog(slug))
            && lists_registered(after[KindView::Catalog(slug)], registry[slug].models)
    &&& forall|k: KindView|
        k != own_kind(b) && !is_third_party(k, registry) ==> #[trigger] known_alike(
            k,
            before,
            after,
        )
}

/// A service is to be built first exactly where it has no catalog, and then nothing changes; else
/// it is in use with what was given to it, its models and those of the third parties are known,
/// and a rebuild is begun exactly where its catalog offers nothing and nobody holds the flag,
/// which is held then.
pub open spec fn is_started(
    b: Backend,
    given: Option<AuthView>,
    before: CatalogsView,
    after: CatalogsView,
    start: Start,
) -> bool {
    match catalog_in_use(b, before) {
        None => start is Build && after == before,
        Some(catalog) => {
            let offers_nothing = forall|key: (Seq<char>, Seq<char>)|
                !#[trigger] catalog.entries.contains_key(key);
            &&& start matches Start::Ready { service, rebuild }
            &&& service.backend == b
            &&& service.auth.deep_view() == given
            &&& service.system_prefix is None
            &&& rebuild <==> offers_nothing && !flag_held(b, before)
            &&& flag_held(b, after) <==> flag_held(b, before) || offers_nothing
            &&& catalog_in_use(b, after) == Some(catalog)
            &&& rest_is_kept(b, before, after)
            &&& knows_what_is_offered(b, catalog, before.registry, before.known, after.known)
        },
    }
}

/// What a start comes to is that the service is started.
proof fn started(
    b: Backend,
    given: Option<AuthView>,
    before: CatalogsView,
    after: CatalogsView,
    start: Start,
)
    requires
        opencode::starts(b, given, before, after, start),
    ensures
        is_started(b, given, before, after, start),
{
    match catalog_in_use(b, before) {
        None => {},
        Some(catalog) => {
            let none = Map::<(Seq<char>, Seq<char>), crate::catalog::data::MetaView>::empty();
            if forall|key: (Seq<char>, Seq<char>)| !#[trigger] catalog.entries.contains_key(key) {
                assert(catalog.entries =~= none);
            }
            assert(after.known.contains_key(own_kind(b)));
            registered::entries_are_listed(b, after.known[own_kind(b)], catalog.entries);
            let registry = before.registry;
            assert forall|slug: Seq<char>| #[trigger] registry.contains_key(
                slug,
            ) implies after.known.contains_key(KindView::Catalog(slug)) && lists_registered(
                after.known[KindView::Catalog(slug)],
                registry[slug].models,
            ) by {
                let models = registry[slug].models;
                assert(after.known[KindView::Catalog(slug)] == cat_provider::listed_models(models));
            }
            assert forall|k: KindView|
                k != own_kind(b) && !is_third_party(k, registry) implies #[trigger] known_alike(
                k,
                before.known,
                after.known,
            ) by {
                assert(after.known.contains_key(k) <==> before.known.contains_key(k));
            }
        },
    }
}

/// Zen is started with its own catalog and nothing given.
pub proof fn zen_is_started(catalogs: &mut Catalogs, start: Start)
    requires
        call_ensures(Opencode::zen, (catalogs,), start),
    ensures
        is_started(Backend::Zen, None, old(catalogs)@, final(catalogs)@, start),
{
    started(Backend::Zen, None, old(catalogs)@, final(catalogs)@, start);
}

/// Go is started with its own catalog and nothing given.
pub proof fn go_is_started(catalogs: &mut Catalogs, start: Start)
    requires
        call_ensures(Opencode::go, (catalogs,), start),
    ensures
        is_started(Backend::Go, None, old(catalogs)@, final(catalogs)@, start),
{
    started(Backend::Go, None, old(catalogs)@, final(catalogs)@, start);
}

/// A service that is given an address and a key is started with them.
pub proof fn given_service_is_started(
    b: Backend,
    given: ResolvedAuth,
    catalogs: &mut Catalogs,
    start: Start,
)
    requires
        call_ensures(Opencode::with_auth, (b, given, catalogs), start),
    ensures
        is_started(b, Some(given@), old(catalogs)@, final(catalogs)@, start),
{
    started(b, Some(given@), old(catalogs)@, final(catalogs)@, start);
}

/// A service keeps all but the text that goes before system prompts, which is the given one.
pub proof fn prefix_is_the_given_one(service: Opencode, prefix: Option<String>, result: Opencode)
    requires
        call_ensures(Opencode::with_system_prefix, (service, prefix), result),
    ensures
        result.backend == service.backend,
        result.auth.deep_view() == service.auth.deep_view(),
        result.system_prefix.deep_view() == prefix.deep_view(),
{
}

/// A service in use lists what its own catalog offers.
pub proof fn service_in_use_lists_its_catalog(
    service: &Opencode,
    catalogs: &Catalogs,
    models: Vec<ModelInfo>,
)
    requires
        catalog_in_use(service.backend, catalogs@) is Some,
        call_ensures(Opencode::list_models, (service, catalogs), models),
    ensures
        registered::is_listing(
            service.backend,
            models.deep_view(),
            (catalog_in_use(service.backend, catalogs@)->0).entries,
        ),
{
    registered::entries_are_listed(
        service.backend,
        models.deep_view(),
        (catalog_in_use(service.backend, catalogs@)->0).entries,
    );
}

/// Each service is handed its own catalog and its own flag.
pub proof fn each_service_has_its_own(
    catalogs: &Catalogs,
    b: Backend,
    catalog: Option<&Catalog>,
    flag: bool,
)
    requires
        call_ensures(Catalogs::catalog_for, (catalogs, b), catalog),
        call_ensures(Catalogs::rebuild_flag_for, (catalogs, b), flag),
    ensures
        catalog.deep_view() == catalog_in_use(b, catalogs@),
        flag == flag_held(b, catalogs@),
{
}

/// A flag is taken exactly where nobody held it, and is held afterwards in any case.
pub proof fn flag_is_taken_once(flag: &mut bool, claimed: bool)
    requires
        call_ensures(opencode::claim_rebuild_flag, (flag,), claimed),
    ensures
        claimed <==> !*old(flag),
        *final(flag),
{
}

/// A service takes its own flag, exactly where nobody held it, and touches nothing else.
pub proof fn own_flag_is_taken(catalogs: &mut Catalogs, b: Backend, claimed: bool)
    requires
        call_ensures(Catalogs::claim_rebuild, (catalogs, b), claimed),
    ensures
        claimed <==> !flag_held(b, old(catalogs)@),
        flag_held(b, final(catalogs)@),
        catalog_in_use(b, final(catalogs)@) == catalog_in_use(b, old(catalogs)@),
        rest_is_kept(b, old(catalogs)@, final(catalogs)@),
        final(catalogs)@.known == old(catalogs)@.known,
{
}

/// A first catalog is used where the service has none; one that is there stays; and nothing else
/// changes.
pub proof fn first_catalog_stays(catalogs: &mut Catalogs, b: Backend, catalog: Catalog)
    requires
        call_ensures(Catalogs::init_catalog, (catalogs, b, catalog), ()),
    ensures
        catalog_in_use(b, final(catalogs)@) == (if catalog_in_use(b, old(catalogs)@) is Some {
            catalog_in_use(b, old(catalogs)@)
        } else {
            Some(catalog@)
        }),
        flag_held(b, final(catalogs)@) == flag_held(b, old(catalogs)@),
        rest_is_kept(b, old(catalogs)@, final(catalogs)@),
        final(catalogs)@.known == old(catalogs)@.known,
{
}

/// A rebuilt catalog is used in any case and what it lists is known of the kind; the flag is given
/// back exactly where it offers something; and nothing else changes.
pub proof fn rebuilt_catalog_takes_the_place(
    catalogs: &mut Catalogs,
    b: Backend,
    kind: ProviderKind,
    catalog: Catalog,
    key: (Seq<char>, Seq<char>),
)
    requires
        call_ensures(Catalogs::apply_rebuilt_catalog, (catalogs, b, kind, catalog), ()),
    ensures
        catalog_in_use(b, final(catalogs)@) == Some(catalog@),
        catalog@.entries.contains_key(key) ==> !flag_held(b, final(catalogs)@),
        (forall|k: (Seq<char>, Seq<char>)| !#[trigger] catalog@.entries.contains_key(k))
            ==> flag_held(b, final(catalogs)@) == flag_held(b, old(catalogs)@),
        rest_is_kept(b, old(catalogs)@, final(catalogs)@),
        final(catalogs)@.known.contains_key(kind@),
        registered::is_listing(b, final(catalogs)@.known[kind@], catalog@.entries),
        forall|k: KindView|
            k != kind@ ==> #[trigger] known_alike(k, old(catalogs)@.known, final(catalogs)@.known),
{
    let after = final(catalogs)@;
    registered::entries_are_listed(b, after.known[kind@], catalog@.entries);
    let none = Map::<(Seq<char>, Seq<char>), crate::catalog::data::MetaView>::empty();
    if forall|k: (Seq<char>, Seq<char>)| !#[trigger] catalog@.entries.contains_key(k) {
        assert(catalog@.entries =~= none);
    }
    if catalog@.entries.contains_key(key) {
        assert(!none.contains_key(key));
    }
}

/// What was made known of a kind is what is known of it, and of every other kind what was known
/// before.
pub proof fn known_is_what_was_set(
    known: &mut ModelRegistry,
    kind: ProviderKind,
    models: Vec<ModelInfo>,
    k: KindView,
)
    requires
        call_ensures(ModelRegistry::set_known_models, (known, kind, models), ()),
    ensures
        final(known)@.contains_key(kind@),
        final(known)@[kind@] == models.deep_view(),
        k != kind@ ==> known_alike(k, old(known)@, final(known)@),
{
}

/// The first model of the list with the identifier stands at place `i`.
pub open spec fn first_known_at(list: Seq<ModelInfoView>, id: Seq<char>, i: int) -> bool {
    &&& 0 <= i < list.len()
    &&& list[i].id == id
    &&& forall|j: int| 0 <= j < i ==> (#[trigger] list[j]).id != id
}

/// What is found in a list is its first model with the identifier.
proof fn model_in_is_first(list: Seq<ModelInfoView>, id: Seq<char>)
    ensures
        match model_registry::model_in(list, id) {
            Some(info) => exists|i: int| #[trigger] first_known_at(list, id, i) && list[i] == info,
            None => forall|i: int| 0 <= i < list.len() ==> (#[trigger] list[i]).id != id,
        },
    decreases list.len(),
{
    if list.len() > 0 {
        let rest = list.drop_first();
        model_in_is_first(rest, id);
        if list[0].id == id {
            assert(first_known_at(list, id, 0));
        } else if model_registry::model_in(rest, id) is Some {
            let i = choose|i: int| #[trigger]
                first_known_at(rest, id, i) && rest[i] == model_registry::model_in(rest, id)->0;
            assert forall|j: int| 0 <= j < i + 1 implies (#[trigger] list[j]).id != id by {
                if j > 0 {
                    assert(list[j] == rest[j - 1]);
                }
            }
            assert(first_known_at(list, id, i + 1));
        } else {
            assert forall|j: int| 0 <= j < list.len() implies (#[trigger] list[j]).id != id by {
                if j > 0 {
                    assert(list[j] == rest[j - 1]);
                }
            }
        }
    }
}

/// A model is found among those known of its kind: the first with the identifier, and none exactly
/// where none has it.
pub proof fn first_known_is_found(
    known: &ModelRegistry,
    kind: &ProviderKind,
    id: &str,
    found: Option<&ModelInfo>,
)
    requires
        call_ensures(ModelRegistry::discovered, (known, kind, id), found),
    ensures
        found is None ==> !known@.contains_key(kind@) || forall|i: int|
            0 <= i < known@[kind@].len() ==> (#[trigger] known@[kind@][i]).id != id@,
        found matches Some(info) ==> known@.contains_key(kind@) && exists|i: int| #[trigger]
            first_known_at(known@[kind@], id@, i) && known@[kind@][i] == info@,
{
    model_in_is_first(known@[kind@], id@);
}

} // verus!
