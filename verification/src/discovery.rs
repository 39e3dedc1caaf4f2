//! Which models can be chosen: offline from tables and from what is known, and live from what the
//! providers answer. A model is written as its provider's slug, a slash and its identifier.

use vstd::prelude::*;

use crate::assoc::AssocMap;
use crate::catalog::cat_provider;
use crate::catalog::registry::Registry;
use crate::host::{DynamicProvider, DynamicProviderView, Host, HostView};
use crate::model::{ModelInfo, ModelInfoView};
use crate::model_registry::{KnownView, ModelRegistry};
use crate::plan;
use crate::plan::{ProviderPlan, RegistryView};
use crate::provider;
use crate::provider::{shared_text, KindView, ProviderKind, BUILTIN_KINDS};
use crate::text::{copy_texts, lists_text};

verus! {

/// Models that are listed without asking their provider: those whose identifiers start so.
#[derive(Debug)]
pub struct ModelEntry {
    pub prefixes: Vec<String>,
}

impl View for ModelEntry {
    type V = Seq<Seq<char>>;

    open spec fn view(&self) -> Seq<Seq<char>> {
        self.prefixes.deep_view()
    }
}

impl DeepView for ModelEntry {
    type V = Seq<Seq<char>>;

    open spec fn deep_view(&self) -> Seq<Seq<char>> {
        self@
    }
}

/// The models of each kind that are listed without asking it.
pub type ModelTables = AssocMap<ProviderKind, Vec<ModelEntry>>;

/// What the tables stand for.
pub type TablesView = Map<KindView, Seq<Seq<Seq<char>>>>;

/// Models that can be chosen, and what went wrong on the way.
#[derive(Debug, PartialEq, Eq)]
pub struct ModelBatch {
    pub models: Vec<String>,
    pub warnings: Vec<String>,
}

/// What a `ModelBatch` stands for.
pub struct ModelBatchView {
    pub models: Seq<Seq<char>>,
    pub warnings: Seq<Seq<char>>,
}

impl View for ModelBatch {
    type V = ModelBatchView;

    open spec fn view(&self) -> ModelBatchView {
        ModelBatchView { models: self.models.deep_view(), warnings: self.warnings.deep_view() }
    }
}

impl DeepView for ModelBatch {
    type V = ModelBatchView;

    open spec fn deep_view(&self) -> ModelBatchView {
        self@
    }
}

/// How a model is written.
pub open spec fn spec_of(slug: Seq<char>, id: Seq<char>) -> Seq<char> {
    slug + "/"@ + id
}

/// How models are written, each under the same slug.
pub open spec fn specs_of(slug: Seq<char>, ids: Seq<Seq<char>>) -> Seq<Seq<char>> {
    ids.map_values(|id: Seq<char>| spec_of(slug, id))
}

/// The identifiers of listed models.
pub open spec fn ids_of(models: Seq<ModelInfoView>) -> Seq<Seq<char>> {
    models.map_values(|m: ModelInfoView| m.id)
}

/// The models of a kind that are listed without asking it.
pub open spec fn static_specs(kind: KindView, tables: TablesView) -> Seq<Seq<char>> {
    if tables.contains_key(kind) {
        specs_of(kind.slug(), tables[kind].flatten())
    } else {
        Seq::empty()
    }
}

/// A list with the texts of another that it does not have yet, in their order.
pub open spec fn with_new(list: Seq<Seq<char>>, more: Seq<Seq<char>>) -> Seq<Seq<char>>
    decreases more.len(),
{
    if more.len() == 0 {
        list
    } else {
        let earlier = with_new(list, more.drop_last());
        if earlier.contains(more.last()) {
            earlier
        } else {
            earlier.push(more.last())
        }
    }
}

/// The models of the kinds of which a provider can be made.
pub open spec fn builtin_specs(
    kinds: Seq<KindView>,
    tables: TablesView,
    registered: RegistryView,
    host: HostView,
) -> Seq<Seq<char>>
    decreases kinds.len(),
{
    if kinds.len() == 0 {
        Seq::empty()
    } else {
        builtin_specs(kinds.drop_last(), tables, registered, host) + if plan::available(
            kinds.last(),
            registered,
            host,
        ) {
            static_specs(kinds.last(), tables)
        } else {
            Seq::empty()
        }
    }
}

/// The models of the providers that programs of the user serve.
pub open spec fn dynamic_specs(dynamic: Seq<DynamicProviderView>) -> Seq<Seq<char>>
    decreases dynamic.len(),
{
    if dynamic.len() == 0 {
        Seq::empty()
    } else {
        dynamic_specs(dynamic.drop_last()) + dynamic.last().specs
    }
}

/// The known models of the third-party providers with the slugs.
pub open spec fn catalog_specs(slugs: Seq<Seq<char>>, known: KnownView) -> Seq<Seq<char>>
    decreases slugs.len(),
{
    if slugs.len() == 0 {
        Seq::empty()
    } else {
        let kind = KindView::Catalog(slugs.last());
        catalog_specs(slugs.drop_last(), known) + if known.contains_key(kind) {
            specs_of(slugs.last(), ids_of(known[kind]))
        } else {
            Seq::empty()
        }
    }
}

/// The models that can be chosen without asking any provider. `slugs` are those of the registered
/// third-party providers, in the order in which they are listed.
pub open spec fn offline_specs(
    tables: TablesView,
    registered: RegistryView,
    slugs: Seq<Seq<char>>,
    known: KnownView,
    host: HostView,
) -> Seq<Seq<char>> {
    with_new(
        builtin_specs(provider::builtin_views(), tables, registered, host) + dynamic_specs(
            host.dynamic,
        ),
        host.declared,
    ) + catalog_specs(slugs, known)
}

/// Writes a model.
fn write_spec(slug: &str, id: &str) -> (spec: String)
    ensures
        spec@ == spec_of(slug@, id@),
{
    slug.to_owned().concat("/").concat(id)
}

/// Adds listed models, written under a slug.
fn add_listed(specs: &mut Vec<String>, slug: &str, models: &Vec<ModelInfo>)
    ensures
        final(specs).deep_view() == old(specs).deep_view() + specs_of(
            slug@,
            ids_of(models.deep_view()),
        ),
{
    let ghost before = specs.deep_view();
    let ghost added = specs_of(slug@, ids_of(models.deep_view()));
    assert(specs.deep_view() =~= before + added.take(0));
    for i in 0..models.len()
        invariant
            added == specs_of(slug@, ids_of(models.deep_view())),
            specs.deep_view() == before + added.take(i as int),
    {
        let ghost earlier = specs.deep_view();
        specs.push(write_spec(slug, models[i].id.as_str()));
        proof {
            assert(models.deep_view()[i as int].id == models@[i as int].id@);
            assert(specs.deep_view() =~= earlier.push(added[i as int]));
            assert(added.take(i + 1) =~= added.take(i as int).push(added[i as int]));
            assert(specs.deep_view() =~= before + added.take(i + 1));
        }
    }
    assert(added.take(models.len() as int) =~= added);
}

/// Writes listed models under a slug.
fn listed_specs(slug: &str, models: &Vec<ModelInfo>) -> (specs: Vec<String>)
    ensures
        specs.deep_view() == specs_of(slug@, ids_of(models.deep_view())),
{
    let mut specs: Vec<String> = Vec::new();
    let ghost before = specs.deep_view();
    add_listed(&mut specs, slug, models);
    assert(before + specs_of(slug@, ids_of(models.deep_view())) =~= specs_of(
        slug@,
        ids_of(models.deep_view()),
    ));
    specs
}

/// Models that can be chosen, with nothing that went wrong.
fn quiet_batch(models: Vec<String>) -> (batch: ModelBatch)
    ensures
        batch@ == (ModelBatchView { models: models.deep_view(), warnings: Seq::empty() }),
{
    let batch = ModelBatch { models, warnings: Vec::new() };
    assert(batch@.warnings =~= Seq::<Seq<char>>::empty());
    batch
}

/// Models that can be chosen, with a warning.
fn warned_batch(models: Vec<String>, warning: String) -> (batch: ModelBatch)
    ensures
        batch@ == (ModelBatchView { models: models.deep_view(), warnings: seq![warning@] }),
{
    let mut warnings: Vec<String> = Vec::new();
    warnings.push(warning);
    assert(warnings.deep_view() =~= seq![warning@]);
    ModelBatch { models, warnings }
}

/// Adds texts.
fn add_texts(list: &mut Vec<String>, more: &Vec<String>)
    ensures
        final(list).deep_view() == old(list).deep_view() + more.deep_view(),
{
    let ghost before = list.deep_view();
    let ghost added = more.deep_view();
    assert(list.deep_view() =~= before + added.take(0));
    for i in 0..more.len()
        invariant
            added == more.deep_view(),
            list.deep_view() == before + added.take(i as int),
    {
        let ghost earlier = list.deep_view();
        list.push(more[i].clone());
        proof {
            assert(list.deep_view() =~= earlier.push(added[i as int]));
            assert(list.deep_view() =~= before + added.take(i + 1));
        }
    }
    assert(added.take(more.len() as int) =~= added);
}

/// Adds the texts that the list does not have yet.
fn add_new_texts(list: &mut Vec<String>, more: &Vec<String>)
    ensures
        final(list).deep_view() == with_new(old(list).deep_view(), more.deep_view()),
{
    let ghost before = list.deep_view();
    let ghost added = more.deep_view();
    for i in 0..more.len()
        invariant
            added == more.deep_view(),
            list.deep_view() == with_new(before, added.take(i as int)),
    {
        let ghost earlier = list.deep_view();
        proof {
            assert(added.take(i + 1).drop_last() =~= added.take(i as int));
            assert(added.take(i + 1).last() == more@[i as int]@);
        }
        if !lists_text(list, more[i].as_str()) {
            list.push(more[i].clone());
            assert(list.deep_view() =~= earlier.push(more@[i as int]@));
        }
    }
    assert(added.take(more.len() as int) =~= added);
}

/// The models of a kind that are listed without asking it.
fn static_model_specs(kind: &ProviderKind, tables: &ModelTables) -> (specs: Vec<String>)
    ensures
        specs.deep_view() == static_specs(kind@, tables@),
{
    let mut specs: Vec<String> = Vec::new();
    let slug = kind.to_string();
    match tables.get(kind) {
        Some(entries) => {
            let ghost all = entries.deep_view();
            let ghost s = slug@;
            proof {
                assert(all.take(0) =~= Seq::<Seq<Seq<char>>>::empty());
                assert(specs.deep_view() =~= specs_of(s, all.take(0).flatten()));
            }
            for i in 0..entries.len()
                invariant
                    all == entries.deep_view(),
                    s == slug@,
                    specs.deep_view() == specs_of(s, all.take(i as int).flatten()),
            {
                let entry = &entries[i];
                let ghost before = specs.deep_view();
                let ghost prefixes = all[i as int];
                assert(prefixes == entry.prefixes.deep_view());
                assert(specs.deep_view() =~= before + specs_of(s, prefixes.take(0)));
                for j in 0..entry.prefixes.len()
                    invariant
                        s == slug@,
                        prefixes == entry.prefixes.deep_view(),
                        specs.deep_view() == before + specs_of(s, prefixes.take(j as int)),
                {
                    let ghost earlier = specs.deep_view();
                    specs.push(write_spec(slug.as_str(), entry.prefixes[j].as_str()));
                    proof {
                        assert(prefixes[j as int] == entry.prefixes@[j as int]@);
                        assert(specs.deep_view() =~= earlier.push(spec_of(s, prefixes[j as int])));
                        assert(specs.deep_view() =~= before + specs_of(s, prefixes.take(j + 1)));
                    }
                }
                proof {
                    assert(prefixes.take(entry.prefixes.len() as int) =~= prefixes);
                    let upto = all.take(i + 1);
                    upto.lemma_flatten_and_flatten_alt_are_equivalent();
                    all.take(i as int).lemma_flatten_and_flatten_alt_are_equivalent();
                    assert(upto.drop_last() =~= all.take(i as int));
                    assert(upto.last() == prefixes);
                    assert(upto.flatten() == all.take(i as int).flatten() + prefixes);
                    assert(specs.deep_view() =~= specs_of(s, upto.flatten()));
                }
            }
            assert(all.take(entries.len() as int) =~= all);
        },
        None => {},
    }
    assert(specs.deep_view() =~= static_specs(kind@, tables@));
    specs
}

/// The kind at place `i` among those other than third-party providers.
fn builtin_kind(i: usize) -> (kind: ProviderKind)
    requires
        i < 14,
    ensures
        kind@ == provider::builtin_views()[i as int],
{
    let kinds = BUILTIN_KINDS;
    kinds[i].clone()
}

/// The models that can be chosen without asking any provider: those of the tables, those of the
/// providers that the user set up, and those known of the third-party providers.
pub fn available_model_specs(
    tables: &ModelTables,
    registered: &Registry,
    known: &ModelRegistry,
    host: &Host,
) -> (specs: Vec<String>)
    ensures
        specs.deep_view() == offline_specs(
            tables@,
            registered@,
            registered.slugs(),
            known@,
            host@,
        ),
{
    let mut specs: Vec<String> = Vec::new();
    let ghost kinds = provider::builtin_views();
    assert(specs.deep_view() =~= builtin_specs(kinds.take(0), tables@, registered@, host@));
    for i in 0..14usize
        invariant
            kinds == provider::builtin_views(),
            specs.deep_view() == builtin_specs(
                kinds.take(i as int),
                tables@,
                registered@,
                host@,
            ),
    {
        let kind = builtin_kind(i);
        proof {
            let upto = kinds.take(i + 1);
            assert(upto.drop_last() =~= kinds.take(i as int));
            assert(upto.last() == kind@);
        }
        let ghost before = specs.deep_view();
        if kind.is_available(registered, host) {
            add_texts(&mut specs, &static_model_specs(&kind, tables));
        } else {
            assert(before + Seq::<Seq<char>>::empty() =~= before);
        }
    }
    assert(kinds.take(14) =~= kinds);
    let ghost base = specs.deep_view();
    let ghost dynamic = host.dynamic.deep_view();
    assert(specs.deep_view() =~= base + dynamic_specs(dynamic.take(0)));
    for i in 0..host.dynamic.len()
        invariant
            dynamic == host.dynamic.deep_view(),
            specs.deep_view() == base + dynamic_specs(dynamic.take(i as int)),
    {
        add_texts(&mut specs, &host.dynamic[i].specs);
        proof {
            let upto = dynamic.take(i + 1);
            assert(upto.drop_last() =~= dynamic.take(i as int));
            assert(upto.last() == host.dynamic@[i as int]@);
            assert(specs.deep_view() =~= base + dynamic_specs(upto));
        }
    }
    assert(dynamic.take(host.dynamic.len() as int) =~= dynamic);
    add_new_texts(&mut specs, &host.declared);
    let ghost base = specs.deep_view();
    let slugs = registered.all_slugs();
    let ghost all = slugs.deep_view();
    assert(specs.deep_view() =~= base + catalog_specs(all.take(0), known@));
    for i in 0..slugs.len()
        invariant
            all == slugs.deep_view(),
            specs.deep_view() == base + catalog_specs(all.take(i as int), known@),
    {
        let slug = slugs[i].as_str();
        let kind = ProviderKind::Catalog(shared_text(slug));
        match known.discovered_models(&kind) {
            Some(models) => {
                add_listed(&mut specs, slug, models);
            },
            None => {},
        }
        proof {
            let upto = all.take(i + 1);
            assert(upto.drop_last() =~= all.take(i as int));
            assert(upto.last() == slug@);
            assert(specs.deep_view() =~= base + catalog_specs(upto, known@));
        }
    }
    assert(all.take(slugs.len() as int) =~= all);
    specs
}

/// The words that say that a provider did not list its models.
pub open spec fn fallback_warning(name: Seq<char>, reason: Seq<char>) -> Seq<char> {
    name + ": "@ + reason + " (using static fallback)"@
}

/// Says that a provider did not list its models.
fn warn_fallback(name: &str, reason: &str) -> (warning: String)
    ensures
        warning@ == fallback_warning(name@, reason@),
{
    name.to_owned().concat(": ").concat(reason).concat(" (using static fallback)")
}

/// The models of a kind that can be chosen once it was asked for them: what it listed and what the
/// tables have beyond that; or, where it did not answer, what the tables have, with a warning.
pub open spec fn builtin_batched(
    kind: KindView,
    listed: Result<Seq<ModelInfoView>, Seq<char>>,
    tables: TablesView,
    registered: RegistryView,
) -> ModelBatchView {
    match listed {
        Ok(models) => ModelBatchView {
            models: with_new(specs_of(kind.slug(), ids_of(models)), static_specs(kind, tables)),
            warnings: Seq::empty(),
        },
        Err(reason) => ModelBatchView {
            models: static_specs(kind, tables),
            warnings: seq![fallback_warning(kind.display_name(registered), reason)],
        },
    }
}

/// What was listed, or why it was not.
pub open spec fn answer(listed: Result<Vec<ModelInfo>, String>) -> Result<
    Seq<ModelInfoView>,
    Seq<char>,
> {
    match listed {
        Ok(models) => Ok(models.deep_view()),
        Err(reason) => Err(reason@),
    }
}

/// The models of a kind that can be chosen once it was asked for them. What was listed becomes
/// known where the kind takes models that are in no table.
pub fn builtin_batch(
    kind: &ProviderKind,
    listed: Result<Vec<ModelInfo>, String>,
    tables: &ModelTables,
    registered: &Registry,
    known: &mut ModelRegistry,
) -> (batch: ModelBatch)
    ensures
        batch@ == builtin_batched(kind@, answer(listed), tables@, registered@),
        final(known)@ == (match listed {
            Ok(models) if kind@.accepts_arbitrary_models() => old(known)@.insert(
                kind@,
                models.deep_view(),
            ),
            _ => old(known)@,
        }),
{
    match listed {
        Ok(models) => {
            let mut specs = listed_specs(kind.to_string().as_str(), &models);
            add_new_texts(&mut specs, &static_model_specs(kind, tables));
            if kind.accepts_arbitrary_models() {
                known.set_known_models(kind.clone(), models);
            }
            quiet_batch(specs)
        },
        Err(reason) => warned_batch(
            static_model_specs(kind, tables),
            warn_fallback(kind.display_name(registered).as_str(), reason.as_str()),
        ),
    }
}

/// A registered third-party provider is asked for its models: one that the user did not set up in
/// another way.
pub open spec fn asked(slug: Seq<char>, host: HostView) -> bool {
    !host.dynamic_named.contains(slug) && !host.config.contains_key(slug)
}

/// Whether a registered third-party provider is asked for its models.
fn is_asked(slug: &String, host: &Host) -> (is: bool)
    ensures
        is == asked(slug@, host@),
{
    !lists_text(&host.dynamic_named, slug.as_str()) && !host.config.contains_key(slug)
}

/// The registered third-party providers that are asked for their models.
pub open spec fn asks(host: HostView) -> spec_fn(Seq<char>) -> bool {
    |slug: Seq<char>| asked(slug, host)
}

/// The slugs of the registered third-party providers that are asked for their models.
pub fn catalog_slugs_to_fetch(registered: &Registry, host: &Host) -> (slugs: Vec<String>)
    ensures
        slugs.deep_view() == registered.slugs().filter(asks(host@)),
{
    let all = registered.all_slugs();
    let mut slugs: Vec<String> = Vec::new();
    let ghost whole = all.deep_view();
    let ghost keep = asks(host@);
    proof {
        reveal(Seq::filter);
        assert(slugs.deep_view() =~= whole.take(0).filter(keep));
    }
    for i in 0..all.len()
        invariant
            whole == all.deep_view(),
            keep == asks(host@),
            slugs.deep_view() == whole.take(i as int).filter(keep),
    {
        let ghost before = slugs.deep_view();
        let kept = is_asked(&all[i], host);
        if kept {
            slugs.push(all[i].clone());
        }
        proof {
            reveal(Seq::filter);
            let upto = whole.take(i + 1);
            assert(upto.drop_last() =~= whole.take(i as int));
            assert(upto.last() == all@[i as int]@);
            assert(keep(upto.last()) == kept);
            if kept {
                assert(slugs.deep_view() =~= before.push(all@[i as int]@));
            } else {
                assert(slugs.deep_view() =~= before);
            }
        }
    }
    assert(whole.take(all.len() as int) =~= whole);
    slugs
}

/// The models of a third-party provider that can be chosen, where a provider can be made.
pub open spec fn catalog_batched(slug: Seq<char>, registered: RegistryView, host: HostView) -> Option<
    ModelBatchView,
> {
    if plan::available(KindView::Catalog(slug), registered, host) {
        let listed = cat_provider::listed_models(registered[slug].models);
        Some(
            ModelBatchView { models: specs_of(slug, ids_of(listed)), warnings: Seq::empty() },
        )
    } else {
        None
    }
}

/// The models of a third-party provider that can be chosen, where a provider can be made. They
/// become known.
pub fn catalog_batch(slug: &str, registered: &Registry, host: &Host, known: &mut ModelRegistry) -> (
batch: Option<ModelBatch>)
    ensures
        batch.deep_view() == catalog_batched(slug@, registered@, host@),
        final(known)@ == (if batch is Some {
            old(known)@.insert(
                KindView::Catalog(slug@),
                cat_provider::listed_models(registered@[slug@].models),
            )
        } else {
            old(known)@
        }),
{
    let kind = ProviderKind::Catalog(shared_text(slug));
    match kind.create(registered, host) {
        Ok(ProviderPlan::Catalog(provider)) => {
            let models = provider.list_models();
            let specs = listed_specs(slug, &models);
            known.set_known_models(kind, models);
            Some(quiet_batch(specs))
        },
        _ => None,
    }
}

/// The models of a provider that a program of the user serves that can be chosen once it was asked
/// for them; or, where it did not answer, what is listed without asking it, with a warning.
pub open spec fn dynamic_batched(
    dynamic: DynamicProviderView,
    listed: Result<Seq<ModelInfoView>, Seq<char>>,
) -> ModelBatchView {
    match listed {
        Ok(models) => ModelBatchView {
            models: specs_of(dynamic.slug, ids_of(models)),
            warnings: Seq::empty(),
        },
        Err(reason) => ModelBatchView {
            models: dynamic.specs,
            warnings: seq![fallback_warning(dynamic.slug, reason)],
        },
    }
}

/// The models of a provider that a program of the user serves that can be chosen once it was asked
/// for them.
pub fn dynamic_batch(dynamic: &DynamicProvider, listed: Result<Vec<ModelInfo>, String>) -> (batch:
    ModelBatch)
    ensures
        batch@ == dynamic_batched(dynamic@, answer(listed)),
{
    match listed {
        Ok(models) => quiet_batch(listed_specs(dynamic.slug.as_str(), &models)),
        Err(reason) => warned_batch(
            copy_texts(&dynamic.specs),
            warn_fallback(dynamic.slug.as_str(), reason.as_str()),
        ),
    }
}

/// The models that the user declared, or that were found at providers that the user configured,
/// where there are any.
pub fn custom_batch(specs: Vec<String>) -> (batch: Option<ModelBatch>)
    ensures
        batch.deep_view() == (if specs.deep_view().len() == 0 {
            None
        } else {
            Some(ModelBatchView { models: specs.deep_view(), warnings: Seq::empty() })
        }),
{
    if specs.len() == 0 {
        None
    } else {
        Some(quiet_batch(specs))
    }
}

/// A part of the work of asking all providers for their models.
#[derive(Debug)]
pub enum FetchJob {
    /// Ask the provider of a kind.
    Builtin(ProviderKind),
    /// List the models of a third-party provider.
    Catalog(String),
    /// Ask the provider that a program of the user serves.
    Dynamic(String),
    /// List what the user declared, and look for models at the providers that the user configured.
    Custom,
}

/// What a `FetchJob` stands for.
pub enum FetchJobView {
    Builtin(KindView),
    Catalog(Seq<char>),
    Dynamic(Seq<char>),
    Custom,
}

impl View for FetchJob {
    type V = FetchJobView;

    open spec fn view(&self) -> FetchJobView {
        match self {
            FetchJob::Builtin(kind) => FetchJobView::Builtin(kind@),
            FetchJob::Catalog(slug) => FetchJobView::Catalog(slug@),
            FetchJob::Dynamic(slug) => FetchJobView::Dynamic(slug@),
            FetchJob::Custom => FetchJobView::Custom,
        }
    }
}

impl DeepView for FetchJob {
    type V = FetchJobView;

    open spec fn deep_view(&self) -> FetchJobView {
        self@
    }
}

/// The kinds of which a provider can be made.
pub open spec fn makes(registered: RegistryView, host: HostView) -> spec_fn(KindView) -> bool {
    |kind: KindView| plan::available(kind, registered, host)
}

/// The work of asking all providers for their models: those of the kinds of which one can be made,
/// the third-party ones that the user did not set up in another way, those that programs of the
/// user serve, and those that the user configured.
pub open spec fn fetch_plan(
    registered: RegistryView,
    slugs: Seq<Seq<char>>,
    host: HostView,
) -> Seq<FetchJobView> {
    provider::builtin_views().filter(makes(registered, host)).map_values(
        |kind: KindView| FetchJobView::Builtin(kind),
    ) + slugs.filter(asks(host)).map_values(|slug: Seq<char>| FetchJobView::Catalog(slug))
        + host.dynamic.map_values(|d: DynamicProviderView| FetchJobView::Dynamic(d.slug))
        + seq![FetchJobView::Custom]
}

/// The work of asking all providers for their models.
pub fn fetch_jobs(registered: &Registry, host: &Host) -> (jobs: Vec<FetchJob>)
    ensures
        jobs.deep_view() == fetch_plan(registered@, registered.slugs(), host@),
{
    let mut jobs: Vec<FetchJob> = Vec::new();
    let ghost kinds = provider::builtin_views();
    let ghost made = makes(registered@, host@);
    let ghost wrap = |kind: KindView| FetchJobView::Builtin(kind);
    proof {
        reveal(Seq::filter);
        assert(jobs.deep_view() =~= kinds.take(0).filter(made).map_values(wrap));
    }
    for i in 0..14usize
        invariant
            kinds == provider::builtin_views(),
            made == makes(registered@, host@),
            wrap == (|kind: KindView| FetchJobView::Builtin(kind)),
            jobs.deep_view() == kinds.take(i as int).filter(made).map_values(wrap),
    {
        let kind = builtin_kind(i);
        let ghost before = jobs.deep_view();
        let ghost last = kind@;
        let is_made = kind.is_available(registered, host);
        if is_made {
            jobs.push(FetchJob::Builtin(kind));
        }
        proof {
            reveal(Seq::filter);
            let upto = kinds.take(i + 1);
            assert(upto.drop_last() =~= kinds.take(i as int));
            assert(upto.last() == last);
            assert(made(last) == is_made);
            if is_made {
                assert(jobs.deep_view() =~= before.push(wrap(last)));
                assert(upto.filter(made).map_values(wrap) =~= before.push(wrap(last)));
            } else {
                assert(jobs.deep_view() =~= before);
            }
        }
    }
    assert(kinds.take(14) =~= kinds);
    let ghost base = jobs.deep_view();
    let slugs = catalog_slugs_to_fetch(registered, host);
    let ghost third = slugs.deep_view().map_values(|slug: Seq<char>| FetchJobView::Catalog(slug));
    assert(jobs.deep_view() =~= base + third.take(0));
    for i in 0..slugs.len()
        invariant
            third == slugs.deep_view().map_values(
                |slug: Seq<char>| FetchJobView::Catalog(slug),
            ),
            jobs.deep_view() == base + third.take(i as int),
    {
        let ghost before = jobs.deep_view();
        jobs.push(FetchJob::Catalog(slugs[i].clone()));
        proof {
            assert(third[i as int] == FetchJobView::Catalog(slugs@[i as int]@));
            assert(jobs.deep_view() =~= before.push(third[i as int]));
            assert(jobs.deep_view() =~= base + third.take(i + 1));
        }
    }
    assert(third.take(slugs.len() as int) =~= third);
    let ghost base = jobs.deep_view();
    let ghost dynamic = host@.dynamic.map_values(
        |d: DynamicProviderView| FetchJobView::Dynamic(d.slug),
    );
    assert(jobs.deep_view() =~= base + dynamic.take(0));
    for i in 0..host.dynamic.len()
        invariant
            dynamic == host@.dynamic.map_values(
                |d: DynamicProviderView| FetchJobView::Dynamic(d.slug),
            ),
            jobs.deep_view() == base + dynamic.take(i as int),
    {
        let ghost before = jobs.deep_view();
        jobs.push(FetchJob::Dynamic(host.dynamic[i].slug.clone()));
        proof {
            assert(dynamic[i as int] == FetchJobView::Dynamic(host.dynamic@[i as int]@.slug));
            assert(jobs.deep_view() =~= before.push(dynamic[i as int]));
            assert(jobs.deep_view() =~= base + dynamic.take(i + 1));
        }
    }
    assert(dynamic.take(host.dynamic.len() as int) =~= dynamic);
    let ghost before = jobs.deep_view();
    jobs.push(FetchJob::Custom);
    assert(jobs.deep_view() =~= before + seq![FetchJobView::Custom]);
    jobs
}

} // verus!
