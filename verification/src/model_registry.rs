//! The models that are known of each kind of provider.

use vstd::prelude::*;

use crate::assoc::AssocMap;
use crate::model::{ModelInfo, ModelInfoView};
use crate::provider::{KindView, ProviderKind};
use crate::text::same_text;

verus! {

/// What is known of the models of each kind.
pub type KnownView = Map<KindView, Seq<ModelInfoView>>;

/// The first model of the list with identifier `id`.
pub open spec fn model_in(list: Seq<ModelInfoView>, id: Seq<char>) -> Option<ModelInfoView>
    decreases list.len(),
{
    if list.len() == 0 {
        None
    } else if list[0].id == id {
        Some(list[0])
    } else {
        model_in(list.drop_first(), id)
    }
}

/// The models that are known of each kind of provider.
pub struct ModelRegistry {
    known: AssocMap<ProviderKind, Vec<ModelInfo>>,
}

impl View for ModelRegistry {
    type V = KnownView;

    closed spec fn view(&self) -> KnownView {
        self.known@
    }
}

impl ModelRegistry {
    /// The registry that knows no model.
    pub fn new() -> (registry: Self)
        ensures
            registry@ == KnownView::empty(),
    {
        ModelRegistry { known: AssocMap::new() }
    }

    /// Puts `models` in the place of what was known of the kind.
    pub fn set_known_models(&mut self, kind: ProviderKind, models: Vec<ModelInfo>)
        ensures
            final(self)@ == old(self)@.insert(kind@, models.deep_view()),
    {
        self.known.insert(kind, models);
    }

    /// What is known of the models of the kind, where something is.
    pub fn discovered_models(&self, kind: &ProviderKind) -> (models: Option<&Vec<ModelInfo>>)
        ensures
            match models {
                Some(list) => self@.contains_key(kind@) && list.deep_view() == self@[kind@],
                None => !self@.contains_key(kind@),
            },
    {
        self.known.get(kind)
    }

    /// What is known of model `model_id` of the kind.
    pub fn discovered(&self, kind: &ProviderKind, model_id: &str) -> (model: Option<&ModelInfo>)
        ensures
            match model {
                Some(info) => self@.contains_key(kind@) && model_in(self@[kind@], model_id@) == Some(
                    info@,
                ),
                None => self@.contains_key(kind@) ==> model_in(self@[kind@], model_id@) is None,
            },
    {
        match self.known.get(kind) {
            Some(list) => {
                let ghost whole = list.deep_view();
                assert(whole.skip(0) =~= whole);
                for i in 0..list.len()
                    invariant
                        self@.contains_key(kind@),
                        whole == self@[kind@],
                        whole == list.deep_view(),
                        model_in(whole, model_id@) == model_in(whole.skip(i as int), model_id@),
                {
                    assert(whole.skip(i as int)[0] == list@[i as int]@);
                    assert(whole.skip(i as int).drop_first() =~= whole.skip(i + 1));
                    if same_text(list[i].id.as_str(), model_id) {
                        return Some(&list[i]);
                    }
                }
                None
            },
            None => None,
        }
    }
}

} // verus!
