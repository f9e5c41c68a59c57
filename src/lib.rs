//! Namespace activity reconciliation: aggregates platform API responses into
//! one activity record per namespace, decodes and encodes stored records, and
//! decides the confirm-then-insert workflow against a record collection.
pub mod aggregate;
pub mod api;
pub mod protocol;
pub mod record;
pub mod store;
pub mod workflow;
