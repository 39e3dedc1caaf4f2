//! The third-party providers that the index offers, by slug.

use vstd::prelude::*;

use crate::assoc::AssocMap;
use crate::catalog::data;
use crate::catalog::data::{AuthView, Meta, MetaView, ResolvedAuth};
use crate::credentials;
use crate::credentials::{find_text, read_text, Texts, TextsView};
use crate::error::AgentError;
use crate::text::{copy_text, copy_texts};

verus! {

/// A model of a third-party provider.
#[derive(Debug)]
pub struct CatalogModelInfo {
    pub id: String,
    pub meta: Meta,
}

/// What a `CatalogModelInfo` stands for.
pub struct CatalogModelInfoView {
    pub id: Seq<char>,
    pub meta: MetaView,
}

impl View for CatalogModelInfo {
    type V = CatalogModelInfoView;

    open spec fn view(&self) -> CatalogModelInfoView {
        CatalogModelInfoView { id: self.id@, meta: self.meta@ }
    }
}

impl DeepView for CatalogModelInfo {
    type V = CatalogModelInfoView;

    open spec fn deep_view(&self) -> CatalogModelInfoView {
        self@
    }
}

/// A third-party provider.
#[derive(Debug)]
pub struct CatalogProviderInfo {
    pub display_name: String,
    pub env_keys: Vec<String>,
    pub base_url: Option<String>,
    pub features: String,
    pub models: Vec<CatalogModelInfo>,
}

/// What a `CatalogProviderInfo` stands for.
pub struct CatalogProviderInfoView {
    pub display_name: Seq<char>,
    pub env_keys: Seq<Seq<char>>,
    pub base_url: Option<Seq<char>>,
    pub features: Seq<char>,
    pub models: Seq<CatalogModelInfoView>,
}

impl View for CatalogProviderInfo {
    type V = CatalogProviderInfoView;

    open spec fn view(&self) -> CatalogProviderInfoView {
        CatalogProviderInfoView {
            display_name: self.display_name@,
            env_keys: self.env_keys.deep_view(),
            base_url: self.base_url.deep_view(),
            features: self.features@,
            models: self.models.deep_view(),
        }
    }
}

impl DeepView for CatalogProviderInfo {
    type V = CatalogProviderInfoView;

    open spec fn deep_view(&self) -> CatalogProviderInfoView {
        self@
    }
}

impl Clone for CatalogProviderInfo {
    fn clone(&self) -> (copy: Self)
        ensures
            copy@ == self@,
    {
        let mut models: Vec<CatalogModelInfo> = Vec::new();
        for i in 0..self.models.len()
            invariant
                models@.len() == i,
                forall|j: int| 0 <= j < i ==> models@[j] == self.models@[j],
        {
            let model = &self.models[i];
            models.push(CatalogModelInfo { id: model.id.clone(), meta: model.meta.clone() });
        }
        assert(models@ == self.models@);
        CatalogProviderInfo {
            display_name: self.display_name.clone(),
            env_keys: copy_texts(&self.env_keys),
            base_url: copy_text(&self.base_url),
            features: self.features.clone(),
            models,
        }
    }
}

/// The third-party providers by slug.
pub struct Registry {
    infos: AssocMap<String, CatalogProviderInfo>,
}

impl View for Registry {
    type V = Map<Seq<char>, CatalogProviderInfoView>;

    closed spec fn view(&self) -> Map<Seq<char>, CatalogProviderInfoView> {
        self.infos@
    }
}

impl Registry {
    /// The slugs in the order in which they are listed.
    pub closed spec fn slugs(self) -> Seq<Seq<char>> {
        self.infos.pairs().map_values(|pair: (Seq<char>, CatalogProviderInfoView)| pair.0)
    }

    /// The registry without providers.
    pub fn new() -> (registry: Self)
        ensures
            registry@ == Map::<Seq<char>, CatalogProviderInfoView>::empty(),
    {
        Registry { infos: AssocMap::new() }
    }

    /// Puts `infos` in the place of all that was registered.
    pub fn replace(&mut self, infos: AssocMap<String, CatalogProviderInfo>)
        ensures
            final(self)@ == infos@,
    {
        self.infos = infos;
    }

    /// The provider registered under `slug`.
    pub fn get(&self, slug: &str) -> (info: Option<CatalogProviderInfo>)
        ensures
            match info {
                Some(i) => self@.contains_key(slug@) && i@ == self@[slug@],
                None => !self@.contains_key(slug@),
            },
    {
        match self.infos.get(&slug.to_owned()) {
            Some(info) => Some(info.clone()),
            None => None,
        }
    }

    /// Every slug under which a provider is registered, each once.
    pub fn all_slugs(&self) -> (slugs: Vec<String>)
        ensures
            slugs.deep_view() == self.slugs(),
            slugs.deep_view().no_duplicates(),
            slugs.deep_view().to_set() == self@.dom(),
    {
        let n: usize = self.infos.len();
        let mut slugs: Vec<String> = Vec::new();
        for i in 0..n
            invariant
                n == self.infos.pairs().len(),
                slugs@.len() == i,
                forall|j: int| 0 <= j < i ==> slugs@[j]@ == (#[trigger] self.infos.pairs()[j]).0,
        {
            let (slug, _info) = self.infos.entry(i);
            slugs.push(slug.clone());
        }
        proof {
            let pairs = self.infos.pairs();
            let listed = slugs.deep_view();
            assert(listed == self.slugs());
            assert forall|i: int, j: int| 0 <= i < listed.len() && 0 <= j < listed.len() && i
                != j implies listed[i] != listed[j] by {
                if i < j {
                    assert(pairs[i].0 != pairs[j].0);
                } else {
                    assert(pairs[j].0 != pairs[i].0);
                }
            }
            assert forall|s: Seq<char>| listed.to_set().contains(s) == self@.dom().contains(s) by {
                crate::assoc::map_of_keys(pairs, s);
                if self@.contains_key(s) {
                    let i = choose|i: int| 0 <= i < pairs.len() && (#[trigger] pairs[i]).0 == s;
                    assert(listed[i] == s);
                }
                if listed.contains(s) {
                    let i = choose|i: int| 0 <= i < listed.len() && listed[i] == s;
                    assert(pairs[i].0 == s);
                }
            }
            assert(listed.to_set() =~= self@.dom());
        }
        slugs
    }

    /// Whether a provider is registered under `slug`.
    pub fn contains(&self, slug: &str) -> (found: bool)
        ensures
            found == self@.contains_key(slug@),
    {
        self.infos.contains_key(&slug.to_owned())
    }

    /// Removes every provider.
    pub fn clear(&mut self)
        ensures
            final(self)@ == Map::<Seq<char>, CatalogProviderInfoView>::empty(),
    {
        self.infos = AssocMap::new();
    }
}

/// The key of a third-party provider: the first that the environment holds, else the one saved.
pub open spec fn catalog_key(
    slug: Seq<char>,
    env_keys: Seq<Seq<char>>,
    env: TextsView,
    saved: TextsView,
) -> Option<Seq<char>> {
    match credentials::first_text(env_keys, env) {
        Some(key) => Some(key),
        None => credentials::text_of(saved, slug),
    }
}

/// How to authenticate at a third-party provider, where it has a key.
pub open spec fn catalog_auth(
    slug: Seq<char>,
    env_keys: Seq<Seq<char>>,
    env: TextsView,
    saved: TextsView,
) -> Option<AuthView> {
    match catalog_key(slug, env_keys, env, saved) {
        Some(key) => Some(data::bearer_auth(key)),
        None => None,
    }
}

/// How std writes out a list of texts for debugging.
pub uninterp spec fn debug_text(list: Seq<Seq<char>>) -> Seq<char>;

/// A list of texts as `format!` writes it out with `{:?}`. The result is named and depends on the
/// texts alone; how each text is quoted is left unsaid.
#[verifier::external_body]
fn write_debug(list: &Vec<String>) -> (written: String)
    ensures
        written@ == debug_text(list.deep_view()),
{
    format!("{:?}", list)
}

/// The words that say that a third-party provider has no key, where `listed` is the list of the
/// variables that could hold one.
pub open spec fn unconfigured_words(slug: Seq<char>, listed: Seq<char>) -> Seq<char> {
    "catalog provider '"@ + slug + "' not configured — set one of "@ + listed
        + " or run `maki auth login "@ + slug + "`"@
}

/// The error that says that a third-party provider has no key, where `listed` is the list of the
/// variables that could hold one.
pub fn unconfigured(slug: &str, listed: &str) -> (error: AgentError)
    ensures
        error.words() == unconfigured_words(slug@, listed@),
{
    let mut message = "catalog provider '".to_owned().concat(slug);
    message.append("' not configured — set one of ");
    message.append(listed);
    message.append(" or run `maki auth login ");
    message.append(slug);
    message.append("`");
    AgentError::Config { message }
}

/// How to authenticate at a third-party provider, given what the environment holds and what is
/// saved.
pub fn resolve_auth_for_catalog(
    slug: &str,
    env_keys: &Vec<String>,
    env: &Texts,
    saved: &Texts,
) -> (result: Result<ResolvedAuth, AgentError>)
    ensures
        match result {
            Ok(auth) => catalog_auth(slug@, env_keys.deep_view(), env@, saved@) == Some(auth@),
            Err(error) => {
                &&& catalog_auth(slug@, env_keys.deep_view(), env@, saved@) is None
                &&& error.words() == unconfigured_words(slug@, debug_text(env_keys.deep_view()))
            },
        },
{
    let found = match find_text(env_keys, env) {
        Some(key) => Some(key),
        None => read_text(saved, slug),
    };
    match found {
        Some(key) => Ok(ResolvedAuth::bearer(key.as_str())),
        None => Err(unconfigured(slug, write_debug(env_keys).as_str())),
    }
}

} // verus!
