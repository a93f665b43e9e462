//! The remote-storage query path of a time-series query engine: resolve
//! the backing files of a metric query from embedded metadata, load them
//! into a local cache under bounded concurrency, bind them with a resolved
//! schema into an isolated session, and drive an external evaluation
//! engine over the bound table, clearing the session on every path.

pub mod loader;
pub mod orchestrator;
pub mod resolver;
pub mod schema;
pub mod session;
pub mod types;

pub use crate::orchestrator::search;
