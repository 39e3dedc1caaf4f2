//! A third-party provider that is in use.

use std::sync::Arc;

use vstd::prelude::*;

use crate::catalog::data::{AuthView, MetaView, ResolvedAuth};
use crate::catalog::registry;
use crate::catalog::registry::{
    resolve_auth_for_catalog, CatalogModelInfoView, CatalogProviderInfo, CatalogProviderInfoView,
};
use crate::credentials::Texts;
use crate::error::AgentError;
use crate::model;
use crate::model::{
    model_info, send_as, Model, ModelInfo, ModelInfoView, ModelView, PreparedRequest,
    PreparedRequestView,
};
use crate::text::{copy_text, same_text};

verus! {

/// A third-party provider, and how to authenticate at it.
pub struct CatalogProvider {
    pub slug: Arc<str>,
    pub info: CatalogProviderInfo,
    pub auth: ResolvedAuth,
}

/// What a `CatalogProvider` stands for.
pub struct CatalogProviderView {
    pub slug: Seq<char>,
    pub info: CatalogProviderInfoView,
    pub auth: AuthView,
}

impl View for CatalogProvider {
    type V = CatalogProviderView;

    open spec fn view(&self) -> CatalogProviderView {
        CatalogProviderView { slug: (*self.slug)@, info: self.info@, auth: self.auth@ }
    }
}

/// What proves identity, sent to the address that it names or else to `address`.
pub open spec fn addressed(auth: AuthView, address: Option<Seq<char>>) -> AuthView {
    AuthView {
        base_url: match auth.base_url {
            Some(url) => Some(url),
            None => address,
        },
        headers: auth.headers,
    }
}

/// What is known of the first model of the list with identifier `id`.
pub open spec fn meta_in(list: Seq<CatalogModelInfoView>, id: Seq<char>) -> Option<MetaView>
    decreases list.len(),
{
    if list.len() == 0 {
        None
    } else if list[0].id == id {
        Some(list[0].meta)
    } else {
        meta_in(list.drop_first(), id)
    }
}

/// How the models of a third-party provider are listed.
pub open spec fn listed_models(list: Seq<CatalogModelInfoView>) -> Seq<ModelInfoView> {
    list.map_values(|m: CatalogModelInfoView| model::listing(m.id, m.meta))
}

impl CatalogProviderView {
    /// The words that say that the provider does not have a model.
    pub open spec fn no_such_model(self, id: Seq<char>) -> Seq<char> {
        "model '"@ + id + "' not found in catalog provider '"@ + self.slug + "'"@
    }

    /// The request for a chosen model; or the words that say what is missing.
    pub open spec fn prepared(self, model: ModelView) -> Result<PreparedRequestView, Seq<char>> {
        match meta_in(self.info.models, model.id) {
            Some(meta) => Ok(
                PreparedRequestView {
                    model: model::sent_as(model, model.id, meta),
                    endpoint: meta.api_format,
                    auth: self.auth,
                },
            ),
            None => Err(self.no_such_model(model.id)),
        }
    }
}

/// `auth`, sent to the address that it names or else to `address`.
fn address_auth(auth: ResolvedAuth, address: &Option<String>) -> (result: ResolvedAuth)
    ensures
        result@ == addressed(auth@, address.deep_view()),
{
    let base_url = match auth.base_url {
        Some(url) => Some(url),
        None => copy_text(address),
    };
    ResolvedAuth { base_url, headers: auth.headers }
}

/// How the models of a third-party provider are listed.
pub fn catalog_models_to_info(info: &CatalogProviderInfo) -> (models: Vec<ModelInfo>)
    ensures
        models.deep_view() == listed_models(info@.models),
{
    let mut models: Vec<ModelInfo> = Vec::new();
    for i in 0..info.models.len()
        invariant
            models@.len() == i,
            forall|j: int|
                0 <= j < i ==> models@[j]@ == model::listing(
                    info.models@[j]@.id,
                    info.models@[j]@.meta,
                ),
    {
        let m = &info.models[i];
        models.push(model_info(m.id.clone(), &m.meta));
    }
    assert(models.deep_view() =~= listed_models(info@.models));
    models
}

impl CatalogProvider {
    /// The provider with what is registered of it. Where `auth` names no address, the registered
    /// one is used.
    pub fn new(slug: Arc<str>, info: CatalogProviderInfo, auth: ResolvedAuth) -> (provider: Self)
        ensures
            provider@.slug == (*slug)@,
            provider@.info == info@,
            provider@.auth == addressed(auth@, info@.base_url),
    {
        let auth = address_auth(auth, &info.base_url);
        CatalogProvider { slug, info, auth }
    }

    /// The request for a chosen model.
    pub fn prepare(&self, model: &Model) -> (result: Result<PreparedRequest, AgentError>)
        ensures
            match result {
                Ok(request) => self@.prepared(model@) == Ok::<PreparedRequestView, Seq<char>>(
                    request@,
                ),
                Err(e) => self@.prepared(model@) == Err::<PreparedRequestView, Seq<char>>(
                    e.words(),
                ),
            },
    {
        let ghost list = self@.info.models;
        assert(list.skip(0) =~= list);
        for i in 0..self.info.models.len()
            invariant
                list == self@.info.models,
                meta_in(list, model@.id) == meta_in(list.skip(i as int), model@.id),
        {
            let m = &self.info.models[i];
            assert(list.skip(i as int)[0] == m@);
            assert(list.skip(i as int).drop_first() =~= list.skip(i + 1));
            if same_text(m.id.as_str(), model.id.as_str()) {
                return Ok(
                    PreparedRequest {
                        model: send_as(model, model.id.clone(), &m.meta),
                        endpoint: m.meta.api_format,
                        auth: self.auth.clone(),
                    },
                );
            }
        }
        Err(
            AgentError::Config {
                message: "model '".to_owned().concat(model.id.as_str()).concat(
                    "' not found in catalog provider '",
                ).concat(&*self.slug).concat("'"),
            },
        )
    }

    /// How the provider's models are listed.
    pub fn list_models(&self) -> (models: Vec<ModelInfo>)
        ensures
            models.deep_view() == listed_models(self@.info.models),
    {
        catalog_models_to_info(&self.info)
    }

    /// Finds the key anew. Without a key the provider stays as it was.
    pub fn reload_auth(&mut self, env: &Texts, saved: &Texts) -> (result: Result<(), AgentError>)
        ensures
            final(self)@.slug == old(self)@.slug,
            final(self)@.info == old(self)@.info,
            match registry::catalog_auth(
                old(self)@.slug,
                old(self)@.info.env_keys,
                env@,
                saved@,
            ) {
                Some(auth) => result is Ok && final(self)@.auth == addressed(
                    auth,
                    old(self)@.info.base_url,
                ),
                None => {
                    &&& final(self)@.auth == old(self)@.auth
                    &&& result matches Err(e) && e.words() == registry::unconfigured_words(
                        old(self)@.slug,
                        registry::debug_text(old(self)@.info.env_keys),
                    )
                },
            },
    {
        match resolve_auth_for_catalog(&*self.slug, &self.info.env_keys, env, saved) {
            Ok(auth) => {
                self.auth = address_auth(auth, &self.info.base_url);
                Ok(())
            },
            Err(e) => Err(e),
        }
    }
}

} // verus!
