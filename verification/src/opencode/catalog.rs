//! Names of the first-party services, and where the keys of providers come from.

use vstd::prelude::*;

use crate::assoc;
use crate::assoc::AssocMap;
use crate::catalog::data;
use crate::catalog::data::{
    maki_slug_for, CatalogIndex, CatalogIndexView, CatalogProvider, CatalogProviderView,
    ZEN_CATALOG_KEY, ZEN_MAKI_SLUG,
};
use crate::credentials;
use crate::credentials::{find_text, read_text, Texts, TextsView};
use crate::text::{lists_text, same_text};

verus! {

/// The key that stands in for a missing one where free models are open to everyone.
pub const PUBLIC_KEY: &'static str = "public";

/// The index entry of the subscription service.
pub const GO_PROVIDER_ID: &'static str = "opencode-go";

/// The environment variable that marks a provider as one whose key may have been saved.
pub const OPENCODE_KEY_VAR: &'static str = "OPENCODE_API_KEY";

/// The key saved under a slug. What Zen lacks is looked for under its former name too.
pub open spec fn saved_or_former(saved: TextsView, slug: Seq<char>) -> Option<Seq<char>> {
    match credentials::text_of(saved, slug) {
        Some(key) => Some(key),
        None => if slug == ZEN_MAKI_SLUG@ {
            credentials::text_of(saved, ZEN_CATALOG_KEY@)
        } else {
            None
        },
    }
}

/// The key of a provider: the first that the environment holds, then, for the first-party
/// services, the one that was saved.
pub open spec fn provider_key(
    provider: CatalogProviderView,
    saved: TextsView,
    slug: Seq<char>,
    env: TextsView,
) -> Option<Seq<char>> {
    match credentials::first_text(provider.env, env) {
        Some(key) => Some(key),
        None => if provider.env.contains(OPENCODE_KEY_VAR@) {
            saved_or_former(saved, slug)
        } else {
            None
        },
    }
}

/// The keys of all providers of the index.
pub open spec fn provider_keys(index: CatalogIndexView, saved: TextsView, env: TextsView) -> Map<
    Seq<char>,
    Option<Seq<char>>,
> {
    Map::new(
        |p: Seq<char>| index.contains_key(p),
        |p: Seq<char>| provider_key(index[p], saved, data::slug_of(p), env),
    )
}

/// The key saved under `slug`, or, for Zen, under its former name.
fn saved_or_former_key(saved: &Texts, slug: &str) -> (key: Option<String>)
    ensures
        key.deep_view() == saved_or_former(saved@, slug@),
{
    match read_text(saved, slug) {
        Some(key) => Some(key),
        None => if same_text(slug, ZEN_MAKI_SLUG) {
            read_text(saved, ZEN_CATALOG_KEY)
        } else {
            None
        },
    }
}

/// The key of a provider, given what is saved and what the environment holds.
pub fn resolve_provider_key(
    provider: &CatalogProvider,
    saved: &Texts,
    saved_key_slug: &str,
    env: &Texts,
) -> (key: Option<String>)
    ensures
        key.deep_view() == provider_key(provider@, saved@, saved_key_slug@, env@),
{
    match find_text(&provider.env, env) {
        Some(key) => Some(key),
        None => if lists_text(&provider.env, OPENCODE_KEY_VAR) {
            saved_or_former_key(saved, saved_key_slug)
        } else {
            None
        },
    }
}

/// The keys of all providers of the index.
pub fn resolve_provider_keys(index: &CatalogIndex, saved: &Texts, env: &Texts) -> (keys: AssocMap<
    String,
    Option<String>,
>)
    ensures
        keys@ == provider_keys(index@, saved@, env@),
{
    let mut keys: AssocMap<String, Option<String>> = AssocMap::new();
    let n: usize = index.len();
    let ghost pairs = index.pairs();
    proof {
        assert(pairs.take(0) =~= Seq::<(Seq<char>, CatalogProviderView)>::empty());
        assert(keys@ =~= provider_keys(assoc::map_of(pairs.take(0)), saved@, env@));
    }
    for i in 0..n
        invariant
            n == pairs.len(),
            pairs == index.pairs(),
            keys@ == provider_keys(assoc::map_of(pairs.take(i as int)), saved@, env@),
    {
        let (provider_id, provider) = index.entry(i);
        let slug = maki_slug_for(provider_id.as_str());
        let key = resolve_provider_key(provider, saved, slug, env);
        keys.insert(provider_id.clone(), key);
        proof {
            assoc::map_of_next(pairs, i as int);
            assert(keys@ =~= provider_keys(assoc::map_of(pairs.take(i + 1)), saved@, env@));
        }
    }
    assert(pairs.take(n as int) =~= pairs);
    keys
}

} // verus!
