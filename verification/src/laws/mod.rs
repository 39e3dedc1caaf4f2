//! What holds of the library as a whole.

pub mod catalogs;
pub mod choices;
pub mod discovery;
pub mod free_models;
pub mod identifiers;
pub mod indexes;
pub mod keys;
pub mod kinds;
pub mod listings;
pub mod maps;
pub mod plans;
pub mod registered;
pub mod requests;
pub mod services;
pub mod starting;
pub mod tables;
pub mod texts;
