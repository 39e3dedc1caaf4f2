//! The two first-party services: Zen, which offers the models of many providers, and Go, which
//! offers its own.
//!
//! Whoever has access to Go has access to Zen, but not the other way round. So where both catalogs
//! are asked, Zen's comes first.

use vstd::prelude::*;

use crate::assoc::AssocMap;
use crate::catalog::cat_provider;
use crate::catalog::cat_provider::catalog_models_to_info;
use crate::catalog::data;
use crate::catalog::data::{
    maki_slug_for, AuthView, CatalogProvider, CatalogProviderView, ResolvedAuth,
};
use crate::catalog::provider_data;
use crate::catalog::provider_data::{ProviderData, ProviderDataView};
use crate::catalog::registry::{CatalogProviderInfo, Registry};
use crate::error::AgentError;
use crate::model::{Model, ModelInfo, ModelInfoView, PreparedRequest, PreparedRequestView};
use crate::model_registry::{KnownView, ModelRegistry};
use crate::plan::RegistryView;
use crate::provider::{shared_text, KindView, ProviderKind};
use crate::sorting;
use crate::sorting::sort_by_label;
use crate::text::same_text;

pub mod backend;
pub mod building;
pub mod catalog;
pub mod request;

use backend::{Backend, Catalog, CatalogView};

verus! {

/// What the two services share while the program runs.
pub struct Catalogs {
    /// Zen's catalog, once it was built.
    pub zen: Option<Catalog>,
    /// Go's catalog, once it was built.
    pub go: Option<Catalog>,
    /// Zen's catalog is being rebuilt, or was rebuilt in vain.
    pub zen_rebuild: bool,
    /// Go's catalog is being rebuilt, or was rebuilt in vain.
    pub go_rebuild: bool,
    /// The third-party providers.
    pub registry: Registry,
    /// The models that are known.
    pub known: ModelRegistry,
}

/// What a `Catalogs` stands for.
#[verifier::ext_equal]
pub struct CatalogsView {
    pub zen: Option<CatalogView>,
    pub go: Option<CatalogView>,
    pub zen_rebuild: bool,
    pub go_rebuild: bool,
    pub registry: RegistryView,
    pub known: KnownView,
}

impl View for Catalogs {
    type V = CatalogsView;

    open spec fn view(&self) -> CatalogsView {
        CatalogsView {
            zen: self.zen.deep_view(),
            go: self.go.deep_view(),
            zen_rebuild: self.zen_rebuild,
            go_rebuild: self.go_rebuild,
            registry: self.registry@,
            known: self.known@,
        }
    }
}

impl CatalogsView {
    /// The catalog of a service, once it was built.
    pub open spec fn catalog(self, backend: Backend) -> Option<CatalogView> {
        match backend {
            Backend::Zen => self.zen,
            Backend::Go => self.go,
        }
    }

    /// The catalog of a service is being rebuilt, or was rebuilt in vain.
    pub open spec fn rebuild(self, backend: Backend) -> bool {
        match backend {
            Backend::Zen => self.zen_rebuild,
            Backend::Go => self.go_rebuild,
        }
    }

    /// The same with another catalog for a service.
    pub open spec fn with_catalog(self, backend: Backend, catalog: CatalogView) -> CatalogsView {
        match backend {
            Backend::Zen => CatalogsView { zen: Some(catalog), ..self },
            Backend::Go => CatalogsView { go: Some(catalog), ..self },
        }
    }

    /// The same with another rebuild flag for a service.
    pub open spec fn with_rebuild(self, backend: Backend, flag: bool) -> CatalogsView {
        match backend {
            Backend::Zen => CatalogsView { zen_rebuild: flag, ..self },
            Backend::Go => CatalogsView { go_rebuild: flag, ..self },
        }
    }

    /// The same with other known models.
    pub open spec fn with_known(self, known: KnownView) -> CatalogsView {
        CatalogsView { known, ..self }
    }
}

/// The known models once a service has started: those that the service lists, and those of every
/// registered third-party provider, take the place of what was known of their kinds.
pub open spec fn seeded(
    before: KnownView,
    after: KnownView,
    backend: Backend,
    catalog: CatalogView,
    registry: RegistryView,
) -> bool {
    &&& forall|k: KindView| #[trigger]
        after.contains_key(k) <==> (before.contains_key(k) || k == backend.kind_view() || (k matches
            KindView::Catalog(slug) && registry.contains_key(slug)))
    &&& backend.lists_entries(after[backend.kind_view()], catalog.entries)
    &&& forall|slug: Seq<char>| #[trigger]
        registry.contains_key(slug) ==> after[KindView::Catalog(slug)]
            == cat_provider::listed_models(registry[slug].models)
    &&& forall|k: KindView| #[trigger]
        after.contains_key(k) && k != backend.kind_view() && !(k matches KindView::Catalog(slug)
            && registry.contains_key(slug)) ==> after[k] == before[k]
}

/// What the services share once a rebuilt catalog took the place of the one before: the models
/// that it lists are known of `kind`, and the rebuild flag is given back where it offers something.
pub open spec fn rebuilt(
    backend: Backend,
    kind: KindView,
    catalog: CatalogView,
    before: CatalogsView,
    after: CatalogsView,
) -> bool {
    exists|list: Seq<ModelInfoView>|
        {
            &&& #[trigger] backend.lists_entries(list, catalog.entries)
            &&& after == before.with_catalog(backend, catalog).with_rebuild(
                backend,
                before.rebuild(backend) && catalog.is_empty(),
            ).with_known(before.known.insert(kind, list))
        }
}

/// Takes the rebuild flag where nobody holds it.
pub fn claim_rebuild_flag(flag: &mut bool) -> (claimed: bool)
    ensures
        claimed == !*old(flag),
        *final(flag),
{
    if *flag {
        false
    } else {
        *flag = true;
        true
    }
}

impl Catalogs {
    /// Nothing is built, registered or known yet.
    pub fn new() -> (catalogs: Self)
        ensures
            catalogs@ == (CatalogsView {
                zen: None,
                go: None,
                zen_rebuild: false,
                go_rebuild: false,
                registry: Map::empty(),
                known: Map::empty(),
            }),
    {
        Catalogs {
            zen: None,
            go: None,
            zen_rebuild: false,
            go_rebuild: false,
            registry: Registry::new(),
            known: ModelRegistry::new(),
        }
    }

    /// The catalog of a service, once it was built.
    pub fn catalog_for(&self, backend: Backend) -> (catalog: Option<&Catalog>)
        ensures
            catalog.deep_view() == self@.catalog(backend),
    {
        match backend {
            Backend::Zen => self.zen.as_ref(),
            Backend::Go => self.go.as_ref(),
        }
    }

    /// Whether the catalog of a service is being rebuilt, or was rebuilt in vain.
    pub fn rebuild_flag_for(&self, backend: Backend) -> (flag: bool)
        ensures
            flag == self@.rebuild(backend),
    {
        match backend {
            Backend::Zen => self.zen_rebuild,
            Backend::Go => self.go_rebuild,
        }
    }

    fn put_catalog(&mut self, backend: Backend, catalog: Catalog)
        ensures
            final(self)@ == old(self)@.with_catalog(backend, catalog@),
            final(self).registry == old(self).registry,
    {
        match backend {
            Backend::Zen => {
                self.zen = Some(catalog);
            },
            Backend::Go => {
                self.go = Some(catalog);
            },
        }
    }

    /// Uses `catalog` for a service whose catalog was not built yet.
    pub fn init_catalog(&mut self, backend: Backend, catalog: Catalog)
        ensures
            final(self)@ == (match old(self)@.catalog(backend) {
                Some(_) => old(self)@,
                None => old(self)@.with_catalog(backend, catalog@),
            }),
    {
        if self.catalog_for(backend).is_none() {
            self.put_catalog(backend, catalog);
        }
    }

    /// Takes the rebuild flag of a service where nobody holds it.
    pub fn claim_rebuild(&mut self, backend: Backend) -> (claimed: bool)
        ensures
            claimed == !old(self)@.rebuild(backend),
            final(self)@ == old(self)@.with_rebuild(backend, true),
            final(self).registry == old(self).registry,
    {
        match backend {
            Backend::Zen => claim_rebuild_flag(&mut self.zen_rebuild),
            Backend::Go => claim_rebuild_flag(&mut self.go_rebuild),
        }
    }

    /// Puts a rebuilt catalog in the place of the one before, and the models that it lists in the
    /// place of those known of `kind`. The rebuild flag is given back where the catalog offers
    /// something; else it is kept, so that no further rebuild is started.
    pub fn apply_rebuilt_catalog(&mut self, backend: Backend, kind: ProviderKind, catalog: Catalog)
        requires
            old(self)@.catalog(backend) is Some,
        ensures
            rebuilt(backend, kind@, catalog@, old(self)@, final(self)@),
    {
        let ghost before = self@;
        let offers = !catalog.entries.is_empty();
        let models = backend.all_models(&catalog);
        let ghost list = models.deep_view();
        let ghost given = catalog@;
        self.put_catalog(backend, catalog);
        self.known.set_known_models(kind, models);
        if offers {
            match backend {
                Backend::Zen => {
                    self.zen_rebuild = false;
                },
                Backend::Go => {
                    self.go_rebuild = false;
                },
            }
        }
        proof {
            let target = before.with_catalog(backend, given).with_rebuild(
                backend,
                before.rebuild(backend) && given.is_empty(),
            ).with_known(before.known.insert(kind@, list));
            assert(self@ =~= target);
            assert(backend.lists_entries(list, given.entries));
        }
    }
}

/// What comes of starting a service.
pub enum Start {
    /// Its catalog is to be built first.
    Build,
    /// The service is in use. Where `rebuild`, its catalog is to be rebuilt meanwhile.
    Ready { service: Opencode, rebuild: bool },
}

/// One of the two services in use.
#[derive(Debug)]
pub struct Opencode {
    pub backend: Backend,
    /// An address and key given from outside.
    pub auth: Option<ResolvedAuth>,
    pub system_prefix: Option<String>,
}

/// What an `Opencode` stands for.
pub struct OpencodeView {
    pub backend: Backend,
    pub auth: Option<AuthView>,
    pub system_prefix: Option<Seq<char>>,
}

impl View for Opencode {
    type V = OpencodeView;

    open spec fn view(&self) -> OpencodeView {
        OpencodeView {
            backend: self.backend,
            auth: self.auth.deep_view(),
            system_prefix: self.system_prefix.deep_view(),
        }
    }
}

/// `start` is what comes of starting a service, and `after` what the services then share. A
/// service whose catalog is empty has it rebuilt, unless that was begun before.
pub open spec fn starts(
    backend: Backend,
    auth: Option<AuthView>,
    before: CatalogsView,
    after: CatalogsView,
    start: Start,
) -> bool {
    match before.catalog(backend) {
        None => start == Start::Build && after == before,
        Some(catalog) => {
            let empty = catalog.is_empty();
            &&& start matches Start::Ready { service, rebuild }
            &&& service@ == (OpencodeView { backend, auth, system_prefix: None })
            &&& rebuild == (empty && !before.rebuild(backend))
            &&& seeded(before.known, after.known, backend, catalog, before.registry)
            &&& after == before.with_rebuild(backend, before.rebuild(backend) || empty).with_known(
                after.known,
            )
        },
    }
}

impl Opencode {
    fn new_impl(backend: Backend, auth: Option<ResolvedAuth>, catalogs: &mut Catalogs) -> (start:
        Start)
        ensures
            starts(backend, auth.deep_view(), old(catalogs)@, final(catalogs)@, start),
    {
        let ghost before = catalogs@;
        let (empty, models) = match catalogs.catalog_for(backend) {
            None => {
                return Start::Build;
            },
            Some(catalog) => (catalog.entries.is_empty(), backend.all_models(catalog)),
        };
        let ghost offered = before.catalog(backend)->0;
        let rebuild = empty && catalogs.claim_rebuild(backend);
        let ghost claimed = catalogs@;
        catalogs.known.set_known_models(backend.kind(), models);
        let ghost first = catalogs@.known;
        let slugs = catalogs.registry.all_slugs();
        let ghost all = slugs.deep_view();
        assert(claimed =~= before.with_rebuild(backend, before.rebuild(backend) || empty));
        for i in 0..slugs.len()
            invariant
                all == slugs.deep_view(),
                all.to_set() == before.registry.dom(),
                catalogs@ == claimed.with_known(catalogs@.known),
                claimed.registry == before.registry,
                forall|k: KindView| #[trigger]
                    catalogs@.known.contains_key(k) <==> (first.contains_key(k) || (k matches
                        KindView::Catalog(slug) && all.take(i as int).contains(slug))),
                forall|j: int|
                    0 <= j < i ==> catalogs@.known[KindView::Catalog(#[trigger] all[j])]
                        == cat_provider::listed_models(before.registry[all[j]].models),
                forall|k: KindView| #[trigger]
                    catalogs@.known.contains_key(k) && !(k matches KindView::Catalog(slug)
                        && all.take(i as int).contains(slug)) ==> catalogs@.known[k] == first[k],
        {
            let slug = slugs[i].as_str();
            proof {
                assert(all[i as int] == slug@);
                assert(all.to_set().contains(slug@));
            }
            let ghost earlier = all.take(i as int);
            let ghost upto = all.take(i + 1);
            let ghost known = catalogs@.known;
            match catalogs.registry.get(slug) {
                Some(info) => {
                    let kind = ProviderKind::Catalog(shared_text(slug));
                    catalogs.known.set_known_models(kind, catalog_models_to_info(&info));
                },
                None => {},
            }
            proof {
                assert(catalogs@.known == known.insert(
                    KindView::Catalog(slug@),
                    cat_provider::listed_models(before.registry[slug@].models),
                ));
                assert(upto =~= earlier.push(slug@));
                assert forall|s: Seq<char>| #[trigger] upto.contains(s) == (earlier.contains(s) || s
                    == slug@) by {
                    if earlier.contains(s) {
                        let j = choose|j: int| 0 <= j < earlier.len() && earlier[j] == s;
                        assert(upto[j] == s);
                    }
                    if s == slug@ {
                        assert(upto[i as int] == s);
                    }
                    if upto.contains(s) && s != slug@ {
                        let j = choose|j: int| 0 <= j < upto.len() && upto[j] == s;
                        assert(earlier[j] == s);
                    }
                }
            }
        }
        proof {
            assert(all.take(slugs.len() as int) =~= all);
            assert forall|s: Seq<char>| #[trigger] all.contains(s) == before.registry.contains_key(
                s,
            ) by {
                assert(all.to_set().contains(s) == before.registry.dom().contains(s));
            }
            let after = catalogs@.known;
            assert forall|slug: Seq<char>| #[trigger] before.registry.contains_key(
                slug,
            ) implies after[KindView::Catalog(slug)] == cat_provider::listed_models(
                before.registry[slug].models,
            ) by {
                assert(all.contains(slug));
                let j = choose|j: int| 0 <= j < all.len() && all[j] == slug;
                assert(after[KindView::Catalog(all[j])] == cat_provider::listed_models(
                    before.registry[all[j]].models,
                ));
            }
            assert(after.contains_key(backend.kind_view()));
            assert(seeded(before.known, after, backend, offered, before.registry));
        }
        Start::Ready { service: Opencode { backend, auth, system_prefix: None }, rebuild }
    }

    /// Starts Zen.
    pub fn zen(catalogs: &mut Catalogs) -> (start: Start)
        ensures
            starts(Backend::Zen, None, old(catalogs)@, final(catalogs)@, start),
    {
        Opencode::new_impl(Backend::Zen, None, catalogs)
    }

    /// Starts Go.
    pub fn go(catalogs: &mut Catalogs) -> (start: Start)
        ensures
            starts(Backend::Go, None, old(catalogs)@, final(catalogs)@, start),
    {
        Opencode::new_impl(Backend::Go, None, catalogs)
    }

    /// Starts a service with an address and key given from outside.
    pub fn with_auth(backend: Backend, auth: ResolvedAuth, catalogs: &mut Catalogs) -> (start:
        Start)
        ensures
            starts(backend, Some(auth@), old(catalogs)@, final(catalogs)@, start),
    {
        Opencode::new_impl(backend, Some(auth), catalogs)
    }

    /// The same service with a text that goes before every system prompt.
    pub fn with_system_prefix(self, prefix: Option<String>) -> (service: Self)
        ensures
            service@ == (OpencodeView { system_prefix: prefix.deep_view(), ..self@ }),
    {
        Opencode { backend: self.backend, auth: self.auth, system_prefix: prefix }
    }

    /// The request for a chosen model.
    pub fn prepare(&self, catalogs: &Catalogs, model: &Model) -> (result: Result<
        PreparedRequest,
        AgentError,
    >)
        requires
            catalogs@.catalog(self@.backend) is Some,
        ensures
            match result {
                Ok(request) => self@.backend.prepared(
                    catalogs@.catalog(self@.backend)->0,
                    model@,
                    self@.auth,
                ) == Ok::<PreparedRequestView, Seq<char>>(request@),
                Err(e) => self@.backend.prepared(
                    catalogs@.catalog(self@.backend)->0,
                    model@,
                    self@.auth,
                ) == Err::<PreparedRequestView, Seq<char>>(e.words()),
            },
    {
        let catalog = catalogs.catalog_for(self.backend).unwrap();
        self.backend.prepare(catalog, model, self.auth.as_ref())
    }

    /// The models that the service lists.
    pub fn list_models(&self, catalogs: &Catalogs) -> (models: Vec<ModelInfo>)
        requires
            catalogs@.catalog(self@.backend) is Some,
        ensures
            self@.backend.lists_entries(
                models.deep_view(),
                (catalogs@.catalog(self@.backend)->0).entries,
            ),
    {
        let catalog = catalogs.catalog_for(self.backend).unwrap();
        self.backend.all_models(catalog)
    }
}

/// Providers of the index in the order in which they are walked.
pub type WalkView = Seq<(Seq<char>, CatalogProviderView)>;

/// How the first provider that users know under the slug is shown.
pub open spec fn first_shown(walk: WalkView, slug: Seq<char>) -> Option<ProviderDataView>
    decreases walk.len(),
{
    if walk.len() == 0 {
        None
    } else if data::slug_of(walk[0].0) == slug {
        Some(provider_data::shown(walk[0].0, walk[0].1))
    } else {
        first_shown(walk.drop_first(), slug)
    }
}

/// What is shown under a slug has that slug.
pub proof fn shown_under_its_slug(walk: WalkView, slug: Seq<char>)
    ensures
        first_shown(walk, slug) matches Some(shown) ==> shown.slug == slug,
    decreases walk.len(),
{
    if walk.len() > 0 {
        shown_under_its_slug(walk.drop_first(), slug);
    }
}

/// Of two walks, one after the other, the second counts only where the first has nothing.
pub proof fn first_walk_goes_first(first: WalkView, second: WalkView, slug: Seq<char>)
    ensures
        first_shown(first + second, slug) == (match first_shown(first, slug) {
            Some(shown) => Some(shown),
            None => first_shown(second, slug),
        }),
    decreases first.len(),
{
    if first.len() == 0 {
        assert(first + second =~= second);
    } else {
        assert((first + second).drop_first() =~= first.drop_first() + second);
        first_walk_goes_first(first.drop_first(), second, slug);
    }
}

/// `list` shows, under each slug of the walk, the first provider with it, and nothing else.
pub open spec fn gathered(list: Seq<ProviderDataView>, walk: WalkView) -> bool {
    &&& sorting::distinct_labels::<ProviderData>(list)
    &&& forall|x: ProviderDataView| #[trigger]
        list.contains(x) <==> first_shown(walk, x.slug) == Some(x)
}

/// `list` shows, under each slug of the walk, the first provider with it and nothing else, in the
/// order of the slugs.
pub open spec fn collected(list: Seq<ProviderDataView>, walk: WalkView) -> bool {
    sorting::in_label_order::<ProviderData>(list) && gathered(list, walk)
}

/// The providers of a catalog in the order in which they are walked; none where it was not built.
pub open spec fn walk_of(catalog: Option<Catalog>) -> WalkView {
    match catalog {
        Some(c) => c.providers.pairs(),
        None => Seq::empty(),
    }
}

impl Catalogs {
    /// The providers of the catalogs that were built, in the order in which they are asked: those
    /// of Zen, then those of Go.
    pub open spec fn walk(self) -> WalkView {
        walk_of(self.zen) + walk_of(self.go)
    }
}

/// Some provider of the list is shown under the slug.
pub open spec fn shows_slug(list: Seq<ProviderDataView>, slug: Seq<char>) -> bool {
    exists|i: int| 0 <= i < list.len() && (#[trigger] list[i]).slug == slug
}

/// Whether some provider of the list is shown under the slug.
fn lists_slug(list: &Vec<ProviderData>, slug: &str) -> (found: bool)
    ensures
        found == shows_slug(list.deep_view(), slug@),
{
    for i in 0..list.len()
        invariant
            forall|j: int| 0 <= j < i ==> list@[j]@.slug != slug@,
    {
        if same_text(list[i].slug.as_str(), slug) {
            assert(list.deep_view()[i as int].slug == slug@);
            return true;
        }
    }
    proof {
        assert forall|j: int| 0 <= j < list.deep_view().len() implies (
        #[trigger] list.deep_view()[j]).slug != slug@ by {
            assert(list@[j]@.slug != slug@);
        }
    }
    false
}

/// One more provider is shown exactly where its slug is not yet.
proof fn gathered_next(
    list: Seq<ProviderDataView>,
    walk: WalkView,
    pair: (Seq<char>, CatalogProviderView),
)
    requires
        gathered(list, walk),
    ensures
        gathered(
            if shows_slug(list, data::slug_of(pair.0)) {
                list
            } else {
                list.push(provider_data::shown(pair.0, pair.1))
            },
            walk.push(pair),
        ),
{
    let slug = data::slug_of(pair.0);
    let added = provider_data::shown(pair.0, pair.1);
    let known = shows_slug(list, slug);
    let after = if known {
        list
    } else {
        list.push(added)
    };
    shown_under_its_slug(walk, slug);
    assert(known == (first_shown(walk, slug) is Some)) by {
        if known {
            let i = choose|i: int| 0 <= i < list.len() && (#[trigger] list[i]).slug == slug;
            assert(list.contains(list[i]));
        }
        if first_shown(walk, slug) is Some {
            let x = first_shown(walk, slug)->0;
            assert(list.contains(x));
            let i = choose|i: int| 0 <= i < list.len() && list[i] == x;
            assert(list[i].slug == slug);
        }
    }
    assert forall|x: ProviderDataView| #[trigger] after.contains(x) <==> first_shown(
        walk.push(pair),
        x.slug,
    ) == Some(x) by {
        let one: WalkView = seq![pair];
        assert(walk.push(pair) =~= walk + one);
        first_walk_goes_first(walk, one, x.slug);
        assert(one.drop_first() =~= WalkView::empty());
        assert(first_shown(one, x.slug) == (if slug == x.slug {
            Some(added)
        } else {
            None
        })) by {
            reveal_with_fuel(first_shown, 2);
        }
        assert(after.contains(x) <==> list.contains(x) || (!known && x == added)) by {
            if list.contains(x) {
                let i = choose|i: int| 0 <= i < list.len() && list[i] == x;
                assert(after[i] == x);
            }
            if !known && x == added {
                assert(after[list.len() as int] == x);
            }
        }
    }
}

/// Adds the providers of a catalog whose slugs the list does not have yet.
fn add_providers(
    list: &mut Vec<ProviderData>,
    providers: &AssocMap<String, CatalogProvider>,
    Ghost(walk): Ghost<WalkView>,
)
    requires
        gathered(old(list).deep_view(), walk),
    ensures
        gathered(final(list).deep_view(), walk + providers.pairs()),
{
    let ghost pairs = providers.pairs();
    let n: usize = providers.len();
    assert(walk + pairs.take(0) =~= walk);
    for i in 0..n
        invariant
            n == pairs.len(),
            pairs == providers.pairs(),
            gathered(list.deep_view(), walk + pairs.take(i as int)),
    {
        let (id, provider) = providers.entry(i);
        let ghost earlier = list.deep_view();
        proof {
            gathered_next(earlier, walk + pairs.take(i as int), pairs[i as int]);
            assert((walk + pairs.take(i as int)).push(pairs[i as int]) =~= walk + pairs.take(i + 1));
        }
        if !lists_slug(list, maki_slug_for(id.as_str())) {
            list.push(ProviderData::from_catalog_entry(id.as_str(), provider));
            assert(list.deep_view() =~= earlier.push(
                provider_data::shown(pairs[i as int].0, pairs[i as int].1),
            ));
        }
    }
    assert(pairs.take(n as int) =~= pairs);
}

/// The providers of the catalogs that were built as they are shown.
fn collect_providers(catalogs: &Catalogs) -> (list: Vec<ProviderData>)
    ensures
        collected(list.deep_view(), catalogs.walk()),
{
    let mut list: Vec<ProviderData> = Vec::new();
    let ghost mut walk: WalkView = Seq::empty();
    match &catalogs.zen {
        Some(catalog) => {
            add_providers(&mut list, &catalog.providers, Ghost(walk));
            proof {
                walk = walk + catalog.providers.pairs();
            }
        },
        None => {},
    }
    match &catalogs.go {
        Some(catalog) => {
            add_providers(&mut list, &catalog.providers, Ghost(walk));
            proof {
                walk = walk + catalog.providers.pairs();
            }
        },
        None => {},
    }
    assert(walk =~= catalogs.walk());
    let ghost unsorted = list.deep_view();
    let sorted = sort_by_label(list);
    proof {
        let after = sorted.deep_view();
        sorting::reordered_distinct_labels::<ProviderData>(unsorted, after);
        assert forall|x: ProviderDataView| #[trigger] after.contains(x) <==> first_shown(
            walk,
            x.slug,
        ) == Some(x) by {
            sorting::reordered_contains(unsorted, after, x);
        }
    }
    sorted
}

/// The providers of both catalogs as they are shown, or `None` where one is yet to be built.
pub fn catalog_providers(catalogs: &Catalogs) -> (list: Option<Vec<ProviderData>>)
    ensures
        match list {
            Some(l) => {
                &&& catalogs@.zen is Some
                &&& catalogs@.go is Some
                &&& collected(l.deep_view(), catalogs.walk())
            },
            None => catalogs@.zen is None || catalogs@.go is None,
        },
{
    if catalogs.zen.is_none() || catalogs.go.is_none() {
        return None;
    }
    Some(collect_providers(catalogs))
}

/// The providers of the catalogs that were built as they are shown, or `None` where none was.
pub fn catalog_providers_if_available(catalogs: &Catalogs) -> (list: Option<Vec<ProviderData>>)
    ensures
        match list {
            Some(l) => {
                &&& catalogs@.zen is Some || catalogs@.go is Some
                &&& collected(l.deep_view(), catalogs.walk())
            },
            None => catalogs@.zen is None && catalogs@.go is None,
        },
{
    if catalogs.zen.is_none() && catalogs.go.is_none() {
        return None;
    }
    Some(collect_providers(catalogs))
}

/// How the first of the providers with the slug is shown.
fn find_provider(providers: &AssocMap<String, CatalogProvider>, slug: &str) -> (found: Option<
    ProviderData,
>)
    ensures
        found.deep_view() == first_shown(providers.pairs(), slug@),
{
    let ghost pairs = providers.pairs();
    let n: usize = providers.len();
    assert(pairs.skip(0) =~= pairs);
    for i in 0..n
        invariant
            n == pairs.len(),
            pairs == providers.pairs(),
            first_shown(pairs, slug@) == first_shown(pairs.skip(i as int), slug@),
    {
        let (id, provider) = providers.entry(i);
        assert(pairs.skip(i as int)[0] == pairs[i as int]);
        assert(pairs.skip(i as int).drop_first() =~= pairs.skip(i + 1));
        if same_text(maki_slug_for(id.as_str()), slug) {
            return Some(ProviderData::from_catalog_entry(id.as_str(), provider));
        }
    }
    None
}

/// How the first provider with the slug is shown, of Zen's catalog or else of Go's.
pub fn catalog_provider(catalogs: &Catalogs, slug: &str) -> (found: Option<ProviderData>)
    ensures
        found.deep_view() == first_shown(catalogs.walk(), slug@),
{
    let zen = match &catalogs.zen {
        Some(catalog) => find_provider(&catalog.providers, slug),
        None => None,
    };
    let go = match &catalogs.go {
        Some(catalog) => find_provider(&catalog.providers, slug),
        None => None,
    };
    proof {
        first_walk_goes_first(walk_of(catalogs.zen), walk_of(catalogs.go), slug@);
    }
    match zen {
        Some(data) => Some(data),
        None => go,
    }
}

/// The slugs of the registered third-party providers, each once.
pub fn catalog_provider_slugs(catalogs: &Catalogs) -> (slugs: Vec<String>)
    ensures
        slugs.deep_view() == catalogs.registry.slugs(),
        slugs.deep_view().no_duplicates(),
        slugs.deep_view().to_set() == catalogs@.registry.dom(),
{
    catalogs.registry.all_slugs()
}

/// What is registered of a third-party provider.
pub fn catalog_provider_info(catalogs: &Catalogs, slug: &str) -> (info: Option<CatalogProviderInfo>)
    ensures
        match info {
            Some(i) => catalogs@.registry.contains_key(slug@) && i@ == catalogs@.registry[slug@],
            None => !catalogs@.registry.contains_key(slug@),
        },
{
    catalogs.registry.get(slug)
}

} // verus!
