//! The error kinds surfaced by the graph layer.
//!
//! A lookup miss is a normal result and is represented by an absent value,
//! not by an error.

use vstd::prelude::*;
use crate::models::PropName;

verus! {

/// Why a graph operation was refused or failed.
#[derive(Clone, Copy, Debug, PartialEq, Eq, Structural)]
pub enum GraphError {
    /// An entity with the same declared unique key already exists.
    DuplicateKey,
    /// A non-duplicable edge to this target already exists.
    DuplicateRelationship,
    /// An edge endpoint is missing or of the wrong entity type, or a
    /// referenced entity does not resolve as required.
    ReferentialIntegrity,
    /// The addressed entity does not exist (or has another type).
    NotFound,
    /// A persisted property mapping is missing or mistypes the named field.
    Deserialization(PropName),
    /// The store is unreachable; fatal for the invocation.
    Connection,
    /// A single constraint/index declaration was refused by the engine;
    /// initialization continues past it.
    ConstraintApplication,
    /// A store call exceeded its deadline; safe to retry.
    Timeout,
}

} // verus!
