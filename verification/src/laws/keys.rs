//! Keys: where the key of a provider is looked for, and in which order.

use vstd::prelude::*;

use crate::assoc::AssocMap;
use crate::catalog::cat_provider;
use crate::catalog::data::{CatalogIndex, CatalogProvider, ResolvedAuth};
use crate::catalog::provider_data::ProviderData;
use crate::catalog::registry;
use crate::credentials;
use crate::credentials::{Texts, TextsView};
use crate::error::AgentError;
use crate::opencode::catalog;

verus! {

/// None of the variables is set.
pub open spec fn none_set(names: Seq<Seq<char>>, env: TextsView) -> bool {
    forall|i: int| 0 <= i < names.len() ==> !env.contains_key(#[trigger] names[i])
}

/// The first of the variables that is set stands at place `i`.
pub open spec fn first_set_at(names: Seq<Seq<char>>, env: TextsView, i: int) -> bool {
    &&& 0 <= i < names.len()
    &&& env.contains_key(names[i])
    &&& forall|j: int| 0 <= j < i ==> !env.contains_key(#[trigger] names[j])
}

/// The first variable that is set gives its text; and where none is set there is none.
pub proof fn first_set_gives_its_text(names: Seq<Seq<char>>, env: TextsView, i: int)
    ensures
        first_set_at(names, env, i) ==> credentials::first_set(names, env) == Some(names[i])
            && credentials::first_text(names, env) == Some(env[names[i]]),
        none_set(names, env) <==> credentials::first_set(names, env) is None,
        none_set(names, env) <==> credentials::first_text(names, env) is None,
{
    credentials::first_set_is_first(names, env);
    if credentials::first_set(names, env) is Some {
        let name = credentials::first_set(names, env)->0;
        let k = choose|k: int|
            {
                &&& 0 <= k < names.len()
                &&& #[trigger] names[k] == name
                &&& env.contains_key(name)
                &&& forall|j: int| 0 <= j < k ==> !env.contains_key(#[trigger] names[j])
            };
        assert(env.contains_key(names[k]));
        if first_set_at(names, env, i) {
            if k < i {
                assert(!env.contains_key(names[k]));
            }
            if i < k {
                assert(!env.contains_key(names[i]));
            }
        }
    }
}

/// The key that was saved under a slug, or, for Zen, under its former name.
pub open spec fn saved_for(saved: TextsView, slug: Seq<char>) -> Option<Seq<char>> {
    if saved.contains_key(slug) {
        Some(saved[slug])
    } else if slug == "opencode-zen"@ && saved.contains_key("opencode"@) {
        Some(saved["opencode"@])
    } else {
        None
    }
}

/// `key` is the key of a provider of the index: the text of its first variable that is set; else,
/// where the services' variable is among its variables, the key that was saved; else none.
pub open spec fn is_key_of(
    key: Option<Seq<char>>,
    names: Seq<Seq<char>>,
    env: TextsView,
    saved: TextsView,
    slug: Seq<char>,
) -> bool {
    &&& forall|i: int| #[trigger] first_set_at(names, env, i) ==> key == Some(env[names[i]])
    &&& none_set(names, env) ==> key == (if names.contains("OPENCODE_API_KEY"@) {
        saved_for(saved, slug)
    } else {
        None
    })
}

/// The key of a provider is looked for in its variables, and then, for the services, where keys
/// were saved.
pub proof fn provider_key_is_looked_for(
    provider: &CatalogProvider,
    saved: &Texts,
    slug: &str,
    env: &Texts,
    key: Option<String>,
)
    requires
        call_ensures(catalog::resolve_provider_key, (provider, saved, slug, env), key),
    ensures
        is_key_of(key.deep_view(), provider@.env, env@, saved@, slug@),
{
    assert forall|i: int| #[trigger] first_set_at(
        provider@.env,
        env@,
        i,
    ) implies key.deep_view() == Some(env@[provider@.env[i]]) by {
        first_set_gives_its_text(provider@.env, env@, i);
    }
    first_set_gives_its_text(provider@.env, env@, 0);
}

/// Every provider of the index is looked up, and no other; the first party under the slug that
/// users know it by, every other under its own identifier.
pub proof fn every_key_is_looked_for(
    index: &CatalogIndex,
    saved: &Texts,
    env: &Texts,
    keys: AssocMap<String, Option<String>>,
    id: Seq<char>,
)
    requires
        call_ensures(catalog::resolve_provider_keys, (index, saved, env), keys),
    ensures
        keys@.contains_key(id) <==> index@.contains_key(id),
        index@.contains_key(id) ==> is_key_of(
            keys@[id],
            index@[id].env,
            env@,
            saved@,
            if id == "opencode"@ {
                "opencode-zen"@
            } else {
                id
            },
        ),
{
    if index@.contains_key(id) {
        let names = index@[id].env;
        assert forall|i: int| #[trigger] first_set_at(names, env@, i) implies keys@[id] == Some(
            env@[names[i]],
        ) by {
            first_set_gives_its_text(names, env@, i);
        }
        first_set_gives_its_text(names, env@, 0);
    }
}

/// `key` is the key of a third-party provider: the text of its first variable that is set, else the
/// key that was saved under its slug, else none.
pub open spec fn is_third_party_key(
    key: Option<Seq<char>>,
    names: Seq<Seq<char>>,
    env: TextsView,
    saved: TextsView,
    slug: Seq<char>,
) -> bool {
    &&& forall|i: int| #[trigger] first_set_at(names, env, i) ==> key == Some(env[names[i]])
    &&& none_set(names, env) && saved.contains_key(slug) ==> key == Some(saved[slug])
    &&& none_set(names, env) && !saved.contains_key(slug) ==> key is None
}

/// The key of a third-party provider is looked for in its variables and then where keys were saved.
pub proof fn third_party_key_is_looked_for(
    slug: Seq<char>,
    names: Seq<Seq<char>>,
    env: TextsView,
    saved: TextsView,
)
    ensures
        is_third_party_key(registry::catalog_key(slug, names, env, saved), names, env, saved, slug),
{
    assert forall|i: int| #[trigger] first_set_at(names, env, i) implies registry::catalog_key(
        slug,
        names,
        env,
        saved,
    ) == Some(env[names[i]]) by {
        first_set_gives_its_text(names, env, i);
    }
    first_set_gives_its_text(names, env, 0);
}

/// A third-party provider gets its key as a bearer token without an address; without a key the
/// error names the provider and its variables.
pub proof fn third_party_gets_its_key(
    slug: &str,
    names: &Vec<String>,
    env: &Texts,
    saved: &Texts,
    key: Option<Seq<char>>,
    r: Result<ResolvedAuth, AgentError>,
)
    requires
        call_ensures(registry::resolve_auth_for_catalog, (slug, names, env, saved), r),
        is_third_party_key(key, names.deep_view(), env@, saved@, slug@),
    ensures
        key matches Some(k) ==> (r matches Ok(auth) && auth@.base_url is None && auth@.headers
            == seq![("authorization"@, "Bearer "@ + k)]),
        key is None ==> (r matches Err(AgentError::Config { message }) && message@
            == "catalog provider '"@ + slug@ + "' not configured — set one of "@
            + registry::debug_text(names.deep_view()) + " or run `maki auth login "@ + slug@
            + "`"@),
{
    let listed = names.deep_view();
    third_party_key_is_looked_for(slug@, listed, env@, saved@);
    first_set_gives_its_text(listed, env@, 0);
    credentials::first_set_is_first(listed, env@);
    if !none_set(listed, env@) {
        let name = credentials::first_set(listed, env@)->0;
        let k = choose|k: int|
            {
                &&& 0 <= k < listed.len()
                &&& #[trigger] listed[k] == name
                &&& env@.contains_key(name)
                &&& forall|j: int| 0 <= j < k ==> !env@.contains_key(#[trigger] listed[j])
            };
        assert(first_set_at(listed, env@, k));
    }
}

/// What a provider that is shown tells of its keys: which was saved under its slug, which of its
/// variables is the first that is set, and which key is used.
pub proof fn shown_provider_tells_its_keys(
    data: &ProviderData,
    saved: &Texts,
    env: &Texts,
    stored: Option<String>,
    name: Option<&str>,
    key: Option<String>,
)
    requires
        call_ensures(ProviderData::load_key_from_storage, (data, saved), stored),
        call_ensures(ProviderData::env_key_set, (data, env), name),
        call_ensures(ProviderData::resolve_api_key, (data, saved, env), key),
    ensures
        stored.deep_view() == (if saved@.contains_key(data.slug@) {
            Some(saved@[data.slug@])
        } else {
            None
        }),
        forall|i: int| #[trigger]
            first_set_at(data.env_keys.deep_view(), env@, i) ==> name.deep_view() == Some(
                data.env_keys.deep_view()[i],
            ),
        none_set(data.env_keys.deep_view(), env@) ==> name is None,
        is_third_party_key(
            key.deep_view(),
            data.env_keys.deep_view(),
            env@,
            saved@,
            data.slug@,
        ),
{
    let names = data.env_keys.deep_view();
    third_party_key_is_looked_for(data.slug@, names, env@, saved@);
    first_set_gives_its_text(names, env@, 0);
    assert forall|i: int| #[trigger] first_set_at(
        names,
        env@,
        i,
    ) implies name.deep_view() == Some(names[i]) by {
        first_set_gives_its_text(names, env@, i);
    }
}

/// A third-party provider that finds a key anew uses it, at the registered address; one that finds
/// none stays as it was, and says so. Its slug and its registration stay in any case.
pub proof fn third_party_reloads_its_key(
    provider: &mut cat_provider::CatalogProvider,
    env: &Texts,
    saved: &Texts,
    key: Option<Seq<char>>,
    r: Result<(), AgentError>,
)
    requires
        call_ensures(cat_provider::CatalogProvider::reload_auth, (provider, env, saved), r),
        is_third_party_key(
            key,
            old(provider)@.info.env_keys,
            env@,
            saved@,
            old(provider)@.slug,
        ),
    ensures
        r is Ok <==> key is Some,
        final(provider)@.slug == old(provider)@.slug,
        final(provider)@.info == old(provider)@.info,
        key is None ==> final(provider)@.auth == old(provider)@.auth,
        key matches Some(k) ==> final(provider)@.auth.base_url == old(provider)@.info.base_url
            && final(provider)@.auth.headers == seq![("authorization"@, "Bearer "@ + k)],
{
    let names = old(provider)@.info.env_keys;
    third_party_key_is_looked_for(old(provider)@.slug, names, env@, saved@);
    first_set_gives_its_text(names, env@, 0);
    credentials::first_set_is_first(names, env@);
    if !none_set(names, env@) {
        let name = credentials::first_set(names, env@)->0;
        let k = choose|k: int|
            {
                &&& 0 <= k < names.len()
                &&& #[trigger] names[k] == name
                &&& env@.contains_key(name)
                &&& forall|j: int| 0 <= j < k ==> !env@.contains_key(#[trigger] names[j])
            };
        assert(first_set_at(names, env@, k));
    }
}

/// Of a list of names, the first that has a text is found, at its place and with its text; and none
/// exactly where none has one.
pub proof fn first_with_a_text_is_found(
    names: &Vec<String>,
    texts: &Texts,
    place: Option<usize>,
    found: Option<String>,
    i: int,
)
    requires
        call_ensures(credentials::find_set, (names, texts), place),
        call_ensures(credentials::find_text, (names, texts), found),
    ensures
        place is None <==> none_set(names.deep_view(), texts@),
        found is None <==> none_set(names.deep_view(), texts@),
        first_set_at(names.deep_view(), texts@, i) ==> (place matches Some(p)
            && names.deep_view()[p as int] == names.deep_view()[i]) && found.deep_view() == Some(
            texts@[names.deep_view()[i]],
        ),
{
    let listed = names.deep_view();
    first_set_gives_its_text(listed, texts@, i);
    match place {
        Some(p) => {
            assert(listed[p as int] == names@[p as int]@);
        },
        None => {},
    }
}

/// A text is read under its name, where there is one.
pub proof fn text_is_read_under_its_name(texts: &Texts, name: &str, found: Option<String>)
    requires
        call_ensures(credentials::read_text, (texts, name), found),
    ensures
        found is Some <==> texts@.contains_key(name@),
        found matches Some(t) ==> t@ == texts@[name@],
{
}

} // verus!
