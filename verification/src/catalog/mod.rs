//! The provider index, what a provider of it amounts to, and who may use it.

pub mod cat_provider;
pub mod data;
pub mod provider_data;
pub mod registry;
