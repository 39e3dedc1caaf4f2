//! Providers of the index as they are shown to users.

use vstd::prelude::*;

use crate::catalog::data;
use crate::catalog::data::{maki_slug_for, CatalogProvider, CatalogProviderView, EndpointType};
use crate::catalog::registry;
use crate::credentials;
use crate::credentials::{find_set, find_text, read_text, Texts};
use crate::sorting::Labelled;
use crate::text::{copy_text, copy_texts};

verus! {

/// A provider as it is shown.
#[derive(Debug)]
pub struct ProviderData {
    pub slug: String,
    pub display_name: String,
    pub env_keys: Vec<String>,
    pub base_url: Option<String>,
    pub npm: String,
    pub api_format: EndpointType,
}

/// What a `ProviderData` stands for.
pub struct ProviderDataView {
    pub slug: Seq<char>,
    pub display_name: Seq<char>,
    pub env_keys: Seq<Seq<char>>,
    pub base_url: Option<Seq<char>>,
    pub npm: Seq<char>,
    pub api_format: EndpointType,
}

impl View for ProviderData {
    type V = ProviderDataView;

    open spec fn view(&self) -> ProviderDataView {
        ProviderDataView {
            slug: self.slug@,
            display_name: self.display_name@,
            env_keys: self.env_keys.deep_view(),
            base_url: self.base_url.deep_view(),
            npm: self.npm@,
            api_format: self.api_format,
        }
    }
}

impl DeepView for ProviderData {
    type V = ProviderDataView;

    open spec fn deep_view(&self) -> ProviderDataView {
        self@
    }
}

impl Clone for ProviderData {
    fn clone(&self) -> (copy: Self)
        ensures
            copy@ == self@,
    {
        ProviderData {
            slug: self.slug.clone(),
            display_name: self.display_name.clone(),
            env_keys: copy_texts(&self.env_keys),
            base_url: copy_text(&self.base_url),
            npm: self.npm.clone(),
            api_format: self.api_format,
        }
    }
}

impl Labelled for ProviderData {
    open spec fn label_of(v: ProviderDataView) -> Seq<char> {
        v.slug
    }

    fn label(&self) -> (label: &str) {
        self.slug.as_str()
    }
}

/// How provider `provider_id` of the index is shown.
pub open spec fn shown(
    provider_id: Seq<char>,
    provider: CatalogProviderView,
) -> ProviderDataView {
    ProviderDataView {
        slug: data::slug_of(provider_id),
        display_name: provider.name,
        env_keys: provider.env,
        base_url: provider.api,
        npm: provider.npm,
        api_format: EndpointType::of_npm(provider.npm),
    }
}

impl ProviderData {
    /// How provider `provider_id` of the index is shown.
    pub fn from_catalog_entry(provider_id: &str, provider: &CatalogProvider) -> (data: Self)
        ensures
            data@ == shown(provider_id@, provider@),
    {
        ProviderData {
            slug: maki_slug_for(provider_id).to_owned(),
            display_name: provider.name.clone(),
            env_keys: copy_texts(&provider.env),
            base_url: copy_text(&provider.api),
            npm: provider.npm.clone(),
            api_format: EndpointType::from_npm(provider.npm.as_str()),
        }
    }

    /// The key saved for the provider.
    pub fn load_key_from_storage(&self, saved: &Texts) -> (key: Option<String>)
        ensures
            key.deep_view() == credentials::text_of(saved@, self@.slug),
    {
        read_text(saved, self.slug.as_str())
    }

    /// The first of the provider's environment variables that is set.
    pub fn env_key_set(&self, env: &Texts) -> (name: Option<&str>)
        ensures
            name.deep_view() == credentials::first_set(self@.env_keys, env@),
    {
        match find_set(&self.env_keys, env) {
            Some(i) => Some(self.env_keys[i].as_str()),
            None => None,
        }
    }

    /// The key of the provider: the first that the environment holds, else the one saved.
    pub fn resolve_api_key(&self, saved: &Texts, env: &Texts) -> (key: Option<String>)
        ensures
            key.deep_view() == registry::catalog_key(self@.slug, self@.env_keys, env@, saved@),
    {
        match find_text(&self.env_keys, env) {
            Some(key) => Some(key),
            None => self.load_key_from_storage(saved),
        }
    }
}

} // verus!
