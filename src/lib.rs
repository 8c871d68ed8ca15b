//! State transitions of a collaborative patent-management store: inventor
//! profiles, patent applications and their lifecycle, collaboration sessions,
//! the connection graph, portfolio records, monitoring alerts and trend
//! snapshots. Every operation is a verified function over an in-memory
//! [`store::Store`] whose contract is stated over [`store::StoreView`].
//!
//! - `types`: identities, enums and the row of each table.
//! - `store`: the store, its view and its invariant.
//! - `lifecycle`: inventor profiles, applications, stage progress, alerts.
//! - `tracking`: prior art, document generation, anchoring, portfolios.
//! - `collab`: collaboration sessions and their participants.
//! - `graph`: connections between inventors.
//! - `jobs`: initialization and the two scheduled jobs.
//! - `laws`: properties that relate several operations.
//! - `validate`: an executable test of the store's invariant.

pub mod types;
pub mod store;
pub mod lifecycle;
pub mod tracking;
pub mod collab;
pub mod graph;
pub mod jobs;
pub mod laws;
pub mod validate;
