//! Which providers of language models there are, which models each of them offers, and how a
//! request for a model reaches its provider.

pub mod assoc;
pub mod catalog;
pub mod credentials;
pub mod discovery;
pub mod error;
pub mod host;
pub mod laws;
pub mod model;
pub mod model_registry;
pub mod opencode;
pub mod plan;
pub mod provider;
pub mod sorting;
pub mod text;
