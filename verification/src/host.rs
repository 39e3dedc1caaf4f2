//! What the surroundings hold, as it was found when it was read.

use vstd::prelude::*;

use crate::assoc::AssocMap;
use crate::credentials::{Texts, TextsView};
use crate::provider::{KindView, ProviderKind};

verus! {

/// The providers that the user configured, and whether each enables free models where it says so.
pub type ProvidersConfig = AssocMap<String, Option<bool>>;

/// A provider that a program of the user serves.
#[derive(Debug)]
pub struct DynamicProvider {
    pub slug: String,
    /// The models that are listed without asking it.
    pub specs: Vec<String>,
}

/// What a `DynamicProvider` stands for.
pub struct DynamicProviderView {
    pub slug: Seq<char>,
    pub specs: Seq<Seq<char>>,
}

impl View for DynamicProvider {
    type V = DynamicProviderView;

    open spec fn view(&self) -> DynamicProviderView {
        DynamicProviderView { slug: self.slug@, specs: self.specs.deep_view() }
    }
}

impl DeepView for DynamicProvider {
    type V = DynamicProviderView;

    open spec fn deep_view(&self) -> DynamicProviderView {
        self@
    }
}

/// What the surroundings hold.
pub struct Host {
    /// The environment variables that are set.
    pub env: Texts,
    /// The keys that were saved, by slug.
    pub saved: Texts,
    /// The slugs of the providers that are supported without the index.
    pub builtins: Vec<String>,
    pub config: ProvidersConfig,
    /// Models of Anthropic are served by Bedrock.
    pub bedrock: bool,
    /// The kinds, other than the first-party services and third-party providers, of which a
    /// provider can be made.
    pub creatable: Vec<ProviderKind>,
    /// The providers that programs of the user serve, in the order of their discovery.
    pub dynamic: Vec<DynamicProvider>,
    /// The slugs that programs of the user give a name to.
    pub dynamic_named: Vec<String>,
    /// The models that the user declared.
    pub declared: Vec<String>,
}

/// What a `Host` stands for.
pub struct HostView {
    pub env: TextsView,
    pub saved: TextsView,
    pub builtins: Seq<Seq<char>>,
    pub config: Map<Seq<char>, Option<bool>>,
    pub bedrock: bool,
    pub creatable: Seq<KindView>,
    pub dynamic: Seq<DynamicProviderView>,
    pub dynamic_named: Seq<Seq<char>>,
    pub declared: Seq<Seq<char>>,
}

impl View for Host {
    type V = HostView;

    open spec fn view(&self) -> HostView {
        HostView {
            env: self.env@,
            saved: self.saved@,
            builtins: self.builtins.deep_view(),
            config: self.config@,
            bedrock: self.bedrock,
            creatable: self.creatable.deep_view(),
            dynamic: self.dynamic.deep_view(),
            dynamic_named: self.dynamic_named.deep_view(),
            declared: self.declared.deep_view(),
        }
    }
}

impl Host {
    /// Whether a provider of the kind can be made.
    pub fn can_create(&self, kind: &ProviderKind) -> (can: bool)
        ensures
            can == self@.creatable.contains(kind@),
    {
        for i in 0..self.creatable.len()
            invariant
                forall|j: int| 0 <= j < i ==> self.creatable@[j]@ != kind@,
        {
            if crate::assoc::MapKey::same_key(&self.creatable[i], kind) {
                assert(self@.creatable[i as int] == kind@);
                return true;
            }
        }
        false
    }
}

} // verus!
