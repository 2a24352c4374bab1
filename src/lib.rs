//! Collection, reconciliation and notification of vulnerability advisories.
pub mod collector;
pub mod config;
pub mod markdown;
pub mod notify;
pub mod reconcile;
pub mod record;
pub mod registry;
pub mod scheduler;
pub mod severity;
pub mod store;
pub mod text;
pub mod utils;
