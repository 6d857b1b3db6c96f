//! Background synchronisation of a remote recipe collection: credentials and
//! session, the content-hash validated disk cache, the catalog cursor and the
//! registry of materialised recipes that readers render.

pub mod account;
pub mod cache;
pub mod encoding;
pub mod paprika;
pub mod recipe;
pub mod recipe_fetcher;
pub mod registry;
pub mod shared_registry;
