//! The models that can be chosen: where each comes from, and in which order.

use vstd::prelude::*;

use crate::catalog::cat_provider;
use crate::catalog::registry::Registry;
use crate::discovery;
use crate::discovery::{FetchJob, FetchJobView, ModelBatch, ModelTables, TablesView};
use crate::host::{DynamicProvider, DynamicProviderView, Host, HostView};
use crate::laws::keys;
use crate::laws::kinds;
use crate::laws::listings;
use crate::laws::plans;
use crate::model::{ModelInfo, ModelInfoView};
use crate::model_registry::{KnownView, ModelRegistry};
use crate::plan;
use crate::plan::RegistryView;
use crate::provider;
use crate::provider::{KindView, ProviderKind};

verus! {

/// A model is written as its provider's slug, a slash and its identifier.
pub open spec fn written(slug: Seq<char>, id: Seq<char>) -> Seq<char> {
    slug + seq!['/'] + id
}

/// Models are written so.
pub proof fn written_is_spec(slug: Seq<char>, id: Seq<char>)
    ensures
        discovery::spec_of(slug, id) == written(slug, id),
{
    reveal_strlit("/");
    assert("/"@ =~= seq!['/']);
}

/// A text is in one of the lists exactly where it is in all of them put together.
proof fn flatten_members(lists: Seq<Seq<Seq<char>>>, x: Seq<char>)
    ensures
        lists.flatten().contains(x) <==> exists|i: int|
            0 <= i < lists.len() && (#[trigger] lists[i]).contains(x),
    decreases lists.len(),
{
    if lists.len() > 0 {
        let rest = lists.drop_first();
        flatten_members(rest, x);
        let whole = lists.flatten();
        let first = lists[0];
        assert(whole == first + rest.flatten());
        if whole.contains(x) {
            let k = choose|k: int| 0 <= k < whole.len() && whole[k] == x;
            if k < first.len() {
                assert(first[k] == x);
                assert(lists[0].contains(x));
            } else {
                assert(rest.flatten()[k - first.len()] == x);
                let i = choose|i: int| 0 <= i < rest.len() && (#[trigger] rest[i]).contains(x);
                assert(lists[i + 1].contains(x));
            }
        }
        if exists|i: int| 0 <= i < lists.len() && (#[trigger] lists[i]).contains(x) {
            let i = choose|i: int| 0 <= i < lists.len() && (#[trigger] lists[i]).contains(x);
            if i == 0 {
                let k = choose|k: int| 0 <= k < first.len() && first[k] == x;
                assert(whole[k] == x);
            } else {
                assert(rest[i - 1].contains(x));
                let k = choose|k: int| 0 <= k < rest.flatten().len() && rest.flatten()[k] == x;
                assert(whole[first.len() + k] == x);
            }
        }
    }
}

/// The lists of models of the kinds, one for each kind: what the tables have of it where a provider
/// of it can be made, and else nothing.
pub open spec fn table_lists(
    kinds: Seq<KindView>,
    tables: TablesView,
    registered: RegistryView,
    host: HostView,
) -> Seq<Seq<Seq<char>>> {
    kinds.map_values(
        |kind: KindView|
            if plan::available(kind, registered, host) {
                discovery::static_specs(kind, tables)
            } else {
                Seq::empty()
            },
    )
}

/// The lists of models of the providers that programs of the user serve, one for each provider.
pub open spec fn dynamic_lists(dynamic: Seq<DynamicProviderView>) -> Seq<Seq<Seq<char>>> {
    dynamic.map_values(|d: DynamicProviderView| d.specs)
}

/// The lists of the known models of third parties, one for each slug.
pub open spec fn known_lists(slugs: Seq<Seq<char>>, known: KnownView) -> Seq<Seq<Seq<char>>> {
    slugs.map_values(
        |slug: Seq<char>|
            if known.contains_key(KindView::Catalog(slug)) {
                known[KindView::Catalog(slug)].map_values(
                    |m: ModelInfoView| written(slug, m.id),
                )
            } else {
                Seq::empty()
            },
    )
}

/// The models of the tables are those of all kinds put together.
proof fn builtin_specs_are_all(
    kinds: Seq<KindView>,
    tables: TablesView,
    registered: RegistryView,
    host: HostView,
)
    ensures
        discovery::builtin_specs(kinds, tables, registered, host) == table_lists(
            kinds,
            tables,
            registered,
            host,
        ).flatten(),
    decreases kinds.len(),
{
    let lists = table_lists(kinds, tables, registered, host);
    lists.lemma_flatten_and_flatten_alt_are_equivalent();
    if kinds.len() > 0 {
        let rest = table_lists(kinds.drop_last(), tables, registered, host);
        builtin_specs_are_all(kinds.drop_last(), tables, registered, host);
        rest.lemma_flatten_and_flatten_alt_are_equivalent();
        assert(lists.drop_last() =~= rest);
    }
}

/// The models of the user's programs are those of all programs put together.
proof fn dynamic_specs_are_all(dynamic: Seq<DynamicProviderView>)
    ensures
        discovery::dynamic_specs(dynamic) == dynamic_lists(dynamic).flatten(),
    decreases dynamic.len(),
{
    let lists = dynamic_lists(dynamic);
    lists.lemma_flatten_and_flatten_alt_are_equivalent();
    if dynamic.len() > 0 {
        let rest = dynamic_lists(dynamic.drop_last());
        dynamic_specs_are_all(dynamic.drop_last());
        rest.lemma_flatten_and_flatten_alt_are_equivalent();
        assert(lists.drop_last() =~= rest);
    }
}

/// The models of third parties are the known ones of all slugs put together.
proof fn catalog_specs_are_all(slugs: Seq<Seq<char>>, known: KnownView)
    ensures
        discovery::catalog_specs(slugs, known) == known_lists(slugs, known).flatten(),
    decreases slugs.len(),
{
    let lists = known_lists(slugs, known);
    lists.lemma_flatten_and_flatten_alt_are_equivalent();
    if slugs.len() > 0 {
        let rest = known_lists(slugs.drop_last(), known);
        catalog_specs_are_all(slugs.drop_last(), known);
        rest.lemma_flatten_and_flatten_alt_are_equivalent();
        assert(lists.drop_last() =~= rest);
        let slug = slugs.last();
        let kind = KindView::Catalog(slug);
        if known.contains_key(kind) {
            assert(discovery::specs_of(slug, discovery::ids_of(known[kind])) =~= lists.last()) by {
                assert forall|i: int| 0 <= i < known[kind].len() implies discovery::specs_of(
                    slug,
                    discovery::ids_of(known[kind]),
                )[i] == lists.last()[i] by {
                    written_is_spec(slug, known[kind][i].id);
                }
            }
        }
    }
}

/// To add what is new of two lists is to add what is new of the first and then of the second; one
/// text is added exactly where it is not there.
pub proof fn new_texts_are_added_one_by_one(
    list: Seq<Seq<char>>,
    first: Seq<Seq<char>>,
    second: Seq<Seq<char>>,
    x: Seq<char>,
)
    ensures
        discovery::with_new(list, first + second) == discovery::with_new(
            discovery::with_new(list, first),
            second,
        ),
        discovery::with_new(list, seq![x]) == (if list.contains(x) {
            list
        } else {
            list.push(x)
        }),
        discovery::with_new(list, Seq::empty()) == list,
    decreases second.len(),
{
    let one: Seq<Seq<char>> = seq![x];
    assert(one.drop_last() =~= Seq::<Seq<char>>::empty());
    reveal_with_fuel(discovery::with_new, 2);
    if second.len() == 0 {
        assert(first + second =~= first);
    } else {
        assert((first + second).drop_last() =~= first + second.drop_last());
        new_texts_are_added_one_by_one(list, first, second.drop_last(), x);
    }
}

/// The models that can be chosen offline are those of the tables, kind by kind, then those of the
/// user's programs, program by program, then what the user declared beyond these, and then those
/// known of the third parties, slug by slug.
pub proof fn choices_in_order(
    tables: &ModelTables,
    registered: &Registry,
    known: &ModelRegistry,
    host: &Host,
    slugs: Vec<String>,
    specs: Vec<String>,
)
    requires
        call_ensures(
            discovery::available_model_specs,
            (tables, registered, known, host),
            specs,
        ),
        call_ensures(Registry::all_slugs, (registered,), slugs),
    ensures
        specs.deep_view() == discovery::with_new(
            table_lists(provider::builtin_views(), tables@, registered@, host@).flatten()
                + dynamic_lists(host@.dynamic).flatten(),
            host@.declared,
        ) + known_lists(slugs.deep_view(), known@).flatten(),
{
    builtin_specs_are_all(provider::builtin_views(), tables@, registered@, host@);
    dynamic_specs_are_all(host@.dynamic);
    catalog_specs_are_all(slugs.deep_view(), known@);
}

/// A model of the tables, at entry `e` and prefix `p` of its kind.
pub open spec fn in_tables(
    tables: TablesView,
    host: HostView,
    spec: Seq<char>,
    kind: KindView,
    e: int,
    p: int,
) -> bool {
    &&& kind is OpencodeZen || kind is OpencodeGo || (plans::is_own(kind) && host.creatable.contains(
        kind,
    ))
    &&& tables.contains_key(kind)
    &&& 0 <= e < tables[kind].len()
    &&& 0 <= p < tables[kind][e].len()
    &&& spec == written(kind.slug(), tables[kind][e][p])
}

/// A model of a program of the user.
pub open spec fn in_programs(host: HostView, spec: Seq<char>, i: int, j: int) -> bool {
    &&& 0 <= i < host.dynamic.len()
    &&& 0 <= j < host.dynamic[i].specs.len()
    &&& spec == host.dynamic[i].specs[j]
}

/// A known model of a registered third party.
pub open spec fn in_known(
    registered: RegistryView,
    known: KnownView,
    spec: Seq<char>,
    slug: Seq<char>,
    i: int,
) -> bool {
    &&& registered.contains_key(slug)
    &&& known.contains_key(KindView::Catalog(slug))
    &&& 0 <= i < known[KindView::Catalog(slug)].len()
    &&& spec == written(slug, known[KindView::Catalog(slug)][i].id)
}

/// A model of the tables of a kind stands at some entry and prefix.
proof fn static_specs_members(kind: KindView, tables: TablesView, spec: Seq<char>)
    ensures
        discovery::static_specs(kind, tables).contains(spec) <==> tables.contains_key(kind) && exists|
            e: int,
            p: int,
        |
            0 <= e < tables[kind].len() && 0 <= p < tables[kind][e].len() && spec == written(
                kind.slug(),
                #[trigger] tables[kind][e][p],
            ),
{
    if tables.contains_key(kind) {
        let all = tables[kind].flatten();
        let specs = discovery::static_specs(kind, tables);
        if specs.contains(spec) {
            let k = choose|k: int| 0 <= k < specs.len() && specs[k] == spec;
            written_is_spec(kind.slug(), all[k]);
            flatten_members(tables[kind], all[k]);
            assert(all.contains(all[k]));
            let e = choose|e: int|
                0 <= e < tables[kind].len() && (#[trigger] tables[kind][e]).contains(all[k]);
            let p = choose|p: int| 0 <= p < tables[kind][e].len() && tables[kind][e][p] == all[k];
            assert(spec == written(kind.slug(), tables[kind][e][p]));
        }
        if exists|e: int, p: int|
            0 <= e < tables[kind].len() && 0 <= p < tables[kind][e].len() && spec == written(
                kind.slug(),
                #[trigger] tables[kind][e][p],
            ) {
            let (e, p) = choose|e: int, p: int|
                0 <= e < tables[kind].len() && 0 <= p < tables[kind][e].len() && spec == written(
                    kind.slug(),
                    #[trigger] tables[kind][e][p],
                );
            let id = tables[kind][e][p];
            assert(tables[kind][e].contains(id));
            flatten_members(tables[kind], id);
            let k = choose|k: int| 0 <= k < all.len() && all[k] == id;
            written_is_spec(kind.slug(), id);
            assert(specs[k] == spec);
        }
    }
}

/// A model can be chosen offline exactly where the tables have it of a kind of which a provider can
/// be made, a program of the user lists it, the user declared it, or it is known of a registered
/// third party.
pub proof fn choices_come_from_these(
    tables: &ModelTables,
    registered: &Registry,
    known: &ModelRegistry,
    host: &Host,
    slugs: Vec<String>,
    specs: Vec<String>,
    spec: Seq<char>,
)
    requires
        call_ensures(
            discovery::available_model_specs,
            (tables, registered, known, host),
            specs,
        ),
        call_ensures(Registry::all_slugs, (registered,), slugs),
    ensures
        specs.deep_view().contains(spec) <==> {
            ||| exists|kind: KindView, e: int, p: int| #[trigger]
                in_tables(tables@, host@, spec, kind, e, p)
            ||| exists|i: int, j: int| #[trigger] in_programs(host@, spec, i, j)
            ||| host@.declared.contains(spec)
            ||| exists|slug: Seq<char>, i: int| #[trigger]
                in_known(registered@, known@, spec, slug, i)
        },
{
    choices_in_order(tables, registered, known, host, slugs, specs);
    let kinds_listed = provider::builtin_views();
    let t = table_lists(kinds_listed, tables@, registered@, host@);
    let d = dynamic_lists(host@.dynamic);
    let k = known_lists(slugs.deep_view(), known@);
    let base = t.flatten() + d.flatten();
    let first = discovery::with_new(base, host@.declared);
    let whole = specs.deep_view();
    flatten_members(t, spec);
    flatten_members(d, spec);
    flatten_members(k, spec);
    crate::laws::discovery::with_new_holds_both(base, host@.declared, spec);
    concat_members(t.flatten(), d.flatten(), spec);
    concat_members(first, k.flatten(), spec);
    assert(t.flatten().contains(spec) <==> exists|kind: KindView, e: int, p: int| #[trigger]
        in_tables(tables@, host@, spec, kind, e, p)) by {
        if t.flatten().contains(spec) {
            let i = choose|i: int| 0 <= i < t.len() && (#[trigger] t[i]).contains(spec);
            let kind = kinds_listed[i];
            kinds::builtin_kinds_complete(kind);
            assert(kinds_listed.contains(kind));
            static_specs_members(kind, tables@, spec);
            let (e, p) = choose|e: int, p: int|
                0 <= e < tables@[kind].len() && 0 <= p < tables@[kind][e].len() && spec == written(
                    kind.slug(),
                    #[trigger] tables@[kind][e][p],
                );
            assert(in_tables(tables@, host@, spec, kind, e, p));
        }
        if exists|kind: KindView, e: int, p: int| #[trigger]
            in_tables(tables@, host@, spec, kind, e, p) {
            let (kind, e, p) = choose|kind: KindView, e: int, p: int| #[trigger]
                in_tables(tables@, host@, spec, kind, e, p);
            kinds::builtin_kinds_complete(kind);
            let i = choose|i: int| 0 <= i < kinds_listed.len() && kinds_listed[i] == kind;
            assert(spec == written(kind.slug(), tables@[kind][e][p]));
            static_specs_members(kind, tables@, spec);
            assert(t[i].contains(spec));
        }
    }
    assert(d.flatten().contains(spec) <==> exists|i: int, j: int| #[trigger]
        in_programs(host@, spec, i, j)) by {
        if d.flatten().contains(spec) {
            let i = choose|i: int| 0 <= i < d.len() && (#[trigger] d[i]).contains(spec);
            let j = choose|j: int| 0 <= j < d[i].len() && d[i][j] == spec;
            assert(in_programs(host@, spec, i, j));
        }
        if exists|i: int, j: int| #[trigger] in_programs(host@, spec, i, j) {
            let (i, j) = choose|i: int, j: int| #[trigger] in_programs(host@, spec, i, j);
            assert(d[i][j] == spec);
            assert(d[i].contains(spec));
        }
    }
    assert(k.flatten().contains(spec) <==> exists|slug: Seq<char>, i: int| #[trigger]
        in_known(registered@, known@, spec, slug, i)) by {
        let all = slugs.deep_view();
        if k.flatten().contains(spec) {
            let n = choose|n: int| 0 <= n < k.len() && (#[trigger] k[n]).contains(spec);
            let slug = all[n];
            assert(all.to_set().contains(slug));
            let i = choose|i: int| 0 <= i < k[n].len() && k[n][i] == spec;
            assert(in_known(registered@, known@, spec, slug, i));
        }
        if exists|slug: Seq<char>, i: int| #[trigger]
            in_known(registered@, known@, spec, slug, i) {
            let (slug, i) = choose|slug: Seq<char>, i: int| #[trigger]
                in_known(registered@, known@, spec, slug, i);
            assert(all.to_set().contains(slug));
            let n = choose|n: int| 0 <= n < all.len() && all[n] == slug;
            assert(k[n][i] == spec);
            assert(k[n].contains(spec));
        }
    }
}

/// What is in two lists put together is in one of them.
proof fn concat_members(a: Seq<Seq<char>>, b: Seq<Seq<char>>, x: Seq<char>)
    ensures
        (a + b).contains(x) <==> a.contains(x) || b.contains(x),
{
    if a.contains(x) {
        let i = choose|i: int| 0 <= i < a.len() && a[i] == x;
        assert((a + b)[i] == x);
    }
    if b.contains(x) {
        let i = choose|i: int| 0 <= i < b.len() && b[i] == x;
        assert((a + b)[a.len() + i] == x);
    }
}

/// Every model that a program of the user lists can be chosen.
pub proof fn every_program_is_heard(
    tables: &ModelTables,
    registered: &Registry,
    known: &ModelRegistry,
    host: &Host,
    slugs: Vec<String>,
    specs: Vec<String>,
    i: int,
    j: int,
)
    requires
        call_ensures(
            discovery::available_model_specs,
            (tables, registered, known, host),
            specs,
        ),
        call_ensures(Registry::all_slugs, (registered,), slugs),
        0 <= i < host.dynamic@.len(),
        0 <= j < host.dynamic@[i].specs@.len(),
    ensures
        specs.deep_view().contains(host.dynamic@[i].specs@[j]@),
{
    let spec = host.dynamic@[i].specs@[j]@;
    assert(host@.dynamic[i] == host.dynamic@[i]@);
    assert(host@.dynamic[i].specs[j] == spec);
    assert(in_programs(host@, spec, i, j));
    choices_come_from_these(tables, registered, known, host, slugs, specs, spec);
}

/// What the tables have of a kind is written entry by entry, prefix by prefix.
pub proof fn tables_are_written_in_order(kind: KindView, tables: TablesView)
    ensures
        !tables.contains_key(kind) ==> discovery::static_specs(kind, tables).len() == 0,
        tables.contains_key(kind) ==> discovery::static_specs(kind, tables)
            == tables[kind].flatten().map_values(|id: Seq<char>| written(kind.slug(), id)),
{
    if tables.contains_key(kind) {
        let all = tables[kind].flatten();
        assert forall|i: int| 0 <= i < all.len() implies discovery::static_specs(kind, tables)[i]
            == written(kind.slug(), all[i]) by {
            written_is_spec(kind.slug(), all[i]);
        }
        assert(discovery::static_specs(kind, tables) =~= all.map_values(
            |id: Seq<char>| written(kind.slug(), id),
        ));
    }
}

/// The list begins with the models, each written under the slug, in their order.
pub open spec fn begins_with(
    list: Seq<Seq<char>>,
    slug: Seq<char>,
    models: Seq<ModelInfoView>,
) -> bool {
    &&& models.len() <= list.len()
    &&& forall|i: int|
        0 <= i < models.len() ==> #[trigger] list[i] == written(slug, models[i].id)
}

/// Listed models are written one for one.
proof fn listed_are_written(slug: Seq<char>, models: Seq<ModelInfoView>)
    ensures
        begins_with(discovery::specs_of(slug, discovery::ids_of(models)), slug, models),
        discovery::specs_of(slug, discovery::ids_of(models)).len() == models.len(),
{
    assert forall|i: int| 0 <= i < models.len() implies #[trigger] discovery::specs_of(
        slug,
        discovery::ids_of(models),
    )[i] == written(slug, models[i].id) by {
        written_is_spec(slug, models[i].id);
    }
}

/// A kind that listed its models: the batch begins with all of them in their order, goes on with
/// what the tables have beyond them, holds nothing else, and warns of nothing.
pub proof fn answering_kind_is_heard(
    kind: &ProviderKind,
    models: Vec<ModelInfo>,
    tables: &ModelTables,
    registered: &Registry,
    known: &mut ModelRegistry,
    batch: ModelBatch,
    x: Seq<char>,
)
    requires
        call_ensures(
            discovery::builtin_batch,
            (kind, Ok::<Vec<ModelInfo>, String>(models), tables, registered, known),
            batch,
        ),
    ensures
        begins_with(batch@.models, kind@.slug(), models.deep_view()),
        batch@.models.contains(x) <==> {
            ||| exists|i: int|
                0 <= i < models@.len() && x == written(kind@.slug(), (#[trigger] models@[i]).id@)
            ||| tables@.contains_key(kind@) && exists|e: int, p: int|
                0 <= e < tables@[kind@].len() && 0 <= p < tables@[kind@][e].len() && x == written(
                    kind@.slug(),
                    #[trigger] tables@[kind@][e][p],
                )
        },
        batch@.warnings.len() == 0,
        final(known)@ == (if kind@.accepts_arbitrary_models() {
            old(known)@.insert(kind@, models.deep_view())
        } else {
            old(known)@
        }),
{
    let slug = kind@.slug();
    let list = models.deep_view();
    let listed = discovery::specs_of(slug, discovery::ids_of(list));
    let fixed = discovery::static_specs(kind@, tables@);
    listed_are_written(slug, list);
    crate::laws::discovery::with_new_holds_both(listed, fixed, x);
    static_specs_members(kind@, tables@, x);
    assert forall|i: int| 0 <= i < list.len() implies #[trigger] batch@.models[i] == written(
        slug,
        list[i].id,
    ) by {
        assert(batch@.models[i] == listed[i]);
    }
    if listed.contains(x) {
        let i = choose|i: int| 0 <= i < listed.len() && listed[i] == x;
        assert(list[i] == models@[i]@);
        assert(x == written(slug, models@[i].id@));
    }
    if exists|i: int| 0 <= i < models@.len() && x == written(slug, (#[trigger] models@[i]).id@) {
        let i = choose|i: int|
            0 <= i < models@.len() && x == written(slug, (#[trigger] models@[i]).id@);
        assert(list[i] == models@[i]@);
        assert(listed[i] == x);
    }
}

/// A kind that did not answer: the batch is what the tables have of it, with one warning that gives
/// its name and the reason; and nothing becomes known.
pub proof fn silent_kind_falls_back(
    kind: &ProviderKind,
    reason: String,
    tables: &ModelTables,
    registered: &Registry,
    known: &mut ModelRegistry,
    name: String,
    batch: ModelBatch,
)
    requires
        call_ensures(
            discovery::builtin_batch,
            (kind, Err::<Vec<ModelInfo>, String>(reason), tables, registered, known),
            batch,
        ),
        call_ensures(ProviderKind::display_name, (kind, registered), name),
    ensures
        !tables@.contains_key(kind@) ==> batch@.models.len() == 0,
        tables@.contains_key(kind@) ==> batch@.models == tables@[kind@].flatten().map_values(
            |id: Seq<char>| written(kind@.slug(), id),
        ),
        batch@.warnings == seq![name@ + ": "@ + reason@ + " (using static fallback)"@],
        final(known)@ == old(known)@,
{
    tables_are_written_in_order(kind@, tables@);
}

/// A third party of which a provider can be made: the batch is its registered models, one for one,
/// and they become known; of any other there is no batch and nothing becomes known.
pub proof fn third_party_is_heard(
    slug: &str,
    registered: &Registry,
    host: &Host,
    known: &mut ModelRegistry,
    batch: Option<ModelBatch>,
)
    requires
        call_ensures(discovery::catalog_batch, (slug, registered, host, known), batch),
    ensures
        batch is Some <==> registered@.contains_key(slug@) && (!keys::none_set(
            registered@[slug@].env_keys,
            host.env@,
        ) || host.saved@.contains_key(slug@)),
        batch is None ==> final(known)@ == old(known)@,
        batch matches Some(b) ==> {
            let models = registered@[slug@].models;
            &&& b@.warnings.len() == 0
            &&& b@.models.len() == models.len()
            &&& forall|i: int|
                0 <= i < models.len() ==> #[trigger] b@.models[i] == written(slug@, models[i].id)
            &&& final(known)@ == old(known)@.insert(
                KindView::Catalog(slug@),
                final(known)@[KindView::Catalog(slug@)],
            )
            &&& final(known)@[KindView::Catalog(slug@)].len() == models.len()
            &&& forall|i: int|
                0 <= i < models.len() ==> crate::laws::requests::lists_as_known(
                    #[trigger] final(known)@[KindView::Catalog(slug@)][i],
                    models[i].id,
                    models[i].meta,
                )
        },
{
    keys::first_set_gives_its_text(registered@[slug@].env_keys, host.env@, 0);
    if batch is Some {
        let models = registered@[slug@].models;
        let listed = cat_provider::listed_models(models);
        listed_are_written(slug@, listed);
        assert forall|i: int| 0 <= i < models.len() implies #[trigger] batch->0@.models[i]
            == written(slug@, models[i].id) by {
            assert(listed[i].id == models[i].id);
        }
    }
}

/// A program of the user that answered: the batch is what it listed, one for one, without warnings;
/// one that did not: what is listed without asking it, with one warning that gives its slug and the
/// reason.
pub proof fn program_is_heard_or_falls_back(
    dynamic: &DynamicProvider,
    listed: Result<Vec<ModelInfo>, String>,
    batch: ModelBatch,
)
    requires
        call_ensures(discovery::dynamic_batch, (dynamic, listed), batch),
    ensures
        listed matches Ok(models) ==> batch@.models.len() == models@.len() && begins_with(
            batch@.models,
            dynamic.slug@,
            models.deep_view(),
        ) && batch@.warnings.len() == 0,
        listed matches Err(reason) ==> batch@.models == dynamic.specs.deep_view()
            && batch@.warnings == seq![
            dynamic.slug@ + ": "@ + reason@ + " (using static fallback)"@,
        ],
{
    match listed {
        Ok(models) => {
            listed_are_written(dynamic.slug@, models.deep_view());
        },
        Err(_) => {},
    }
}

/// What the user configured is handed on as it is, and only where there is something.
pub proof fn custom_models_are_handed_on(specs: Vec<String>, batch: Option<ModelBatch>)
    requires
        call_ensures(discovery::custom_batch, (specs,), batch),
    ensures
        batch is None <==> specs@.len() == 0,
        batch matches Some(b) ==> b@.models == specs.deep_view() && b@.warnings.len() == 0,
{
}

/// A registered third party is asked exactly where no program of the user names its slug and the
/// user did not configure it; each is asked once at most.
pub proof fn third_parties_that_are_asked(
    registered: &Registry,
    host: &Host,
    all: Vec<String>,
    slugs: Vec<String>,
    slug: Seq<char>,
)
    requires
        call_ensures(Registry::all_slugs, (registered,), all),
        call_ensures(discovery::catalog_slugs_to_fetch, (registered, host), slugs),
    ensures
        slugs.deep_view().contains(slug) <==> registered@.contains_key(slug)
            && !host.dynamic_named.deep_view().contains(slug) && !host.config@.contains_key(slug),
        slugs@.len() <= all@.len(),
{
    listings::filter_members(all.deep_view(), discovery::asks(host@), slug);
    assert(all.deep_view().to_set().contains(slug) == registered@.dom().contains(slug));
    all.deep_view().lemma_filter_len(discovery::asks(host@));
    assert(slugs.deep_view().len() <= all.deep_view().len());
}

/// All providers are asked: the kinds of which one can be made and no other kind, the third parties
/// that are asked and no others, every program of the user and no other, and last what the user
/// configured.
pub proof fn all_are_asked(
    registered: &Registry,
    host: &Host,
    all: Vec<String>,
    jobs: Vec<FetchJob>,
    kind: KindView,
    slug: Seq<char>,
)
    requires
        call_ensures(Registry::all_slugs, (registered,), all),
        call_ensures(discovery::fetch_jobs, (registered, host), jobs),
    ensures
        jobs.deep_view().contains(FetchJobView::Builtin(kind)) <==> {
            ||| kind is OpencodeZen
            ||| kind is OpencodeGo
            ||| plans::is_own(kind) && host.creatable.deep_view().contains(kind)
        },
        jobs.deep_view().contains(FetchJobView::Catalog(slug)) <==> registered@.contains_key(slug)
            && !host.dynamic_named.deep_view().contains(slug) && !host.config@.contains_key(slug),
        jobs.deep_view().contains(FetchJobView::Dynamic(slug)) <==> exists|i: int|
            0 <= i < host@.dynamic.len() && (#[trigger] host@.dynamic[i]).slug == slug,
        jobs@.len() > 0,
        jobs.deep_view().last() is Custom,
{
    let slugs = all.deep_view();
    crate::laws::discovery::available_providers_are_asked(registered@, slugs, host@, kind, slug);
    assert(slugs.to_set().contains(slug) == registered@.dom().contains(slug));
    let first = provider::builtin_views().filter(discovery::makes(registered@, host@)).map_values(
        |k: KindView| FetchJobView::Builtin(k),
    );
    let second = slugs.filter(discovery::asks(host@)).map_values(
        |s: Seq<char>| FetchJobView::Catalog(s),
    );
    let third = host@.dynamic.map_values(|d: DynamicProviderView| FetchJobView::Dynamic(d.slug));
    let last = seq![FetchJobView::Custom];
    let whole = jobs.deep_view();
    assert(whole =~= first + second + third + last);
    assert(whole[whole.len() - 1] == last[0]);
    let job = FetchJobView::Dynamic(slug);
    if whole.contains(job) {
        let n = choose|n: int| 0 <= n < whole.len() && whole[n] == job;
        if n < first.len() {
            assert(whole[n] == first[n]);
        } else if n < first.len() + second.len() {
            assert(whole[n] == second[n - first.len()]);
        } else if n < first.len() + second.len() + third.len() {
            let i = n - first.len() - second.len();
            assert(whole[n] == third[i]);
            assert(host@.dynamic[i].slug == slug);
        } else {
            assert(whole[n] == last[0]);
        }
    }
    if exists|i: int| 0 <= i < host@.dynamic.len() && (#[trigger] host@.dynamic[i]).slug == slug {
        let i = choose|i: int|
            0 <= i < host@.dynamic.len() && (#[trigger] host@.dynamic[i]).slug == slug;
        assert(whole[first.len() + second.len() + i] == third[i]);
    }
}

} // verus!
