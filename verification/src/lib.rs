//! A verified model of an engineering-metadata graph.
//!
//! The library defines the entity catalog (typed nodes and their canonical
//! persisted form), the relationship catalog (typed, directed edges with
//! endpoint and cardinality rules), the constraint/index set applied at
//! initialization, and an adapter model of the graph store that enforces
//! uniqueness and referential integrity before any write.

pub mod config;
pub mod errors;
pub mod models;
pub mod props;
pub mod rels;
pub mod schema;
pub mod store;
