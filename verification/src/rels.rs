//! Relationship catalog: the typed, directed edges of the graph, each with
//! its allowed endpoint types, its cardinality, and its persisted edge label.
//!
//! Ownership edges (the `Has*` family) are one-to-many and non-duplicable: a
//! target may have at most one owner through a given ownership edge type.
//! `SourceFor` and `TargetTo` are many-to-one: several pull requests may
//! reference the same branch.

use vstd::prelude::*;
use crate::models::EntityType;

verus! {

/// The typed, directed edges connecting entity types.
#[derive(Clone, Copy, Debug, PartialEq, Eq, Structural)]
pub enum RelationshipType {
    HasRepository,
    HasBranch,
    HasPR,
    HasTicket,
    HasDashboard,
    HasNotebook,
    HasPipeline,
    SourceFor,
    TargetTo,
}

/// Cardinality of a relationship type, seen from the source.
#[derive(Clone, Copy, Debug, PartialEq, Eq, Structural)]
pub enum Cardinality {
    /// One source owns many targets; each target has at most one owner.
    OneToMany,
    /// Many sources may point at the same target.
    ManyToOne,
}

/// Direction of traversal relative to a given entity.
#[derive(Clone, Copy, Debug, PartialEq, Eq, Structural)]
pub enum Direction {
    Outgoing,
    Incoming,
}

impl RelationshipType {
    /// The persisted edge label, in uppercase-snake form.
    pub open spec fn spec_label(self) -> Seq<char> {
        match self {
            RelationshipType::HasRepository => "HAS_REPOSITORY"@,
            RelationshipType::HasBranch => "HAS_BRANCH"@,
            RelationshipType::HasPR => "HAS_PR"@,
            RelationshipType::HasTicket => "HAS_TICKET"@,
            RelationshipType::HasDashboard => "HAS_DASHBOARD"@,
            RelationshipType::HasNotebook => "HAS_NOTEBOOK"@,
            RelationshipType::HasPipeline => "HAS_PIPELINE"@,
            RelationshipType::SourceFor => "SOURCE_FOR"@,
            RelationshipType::TargetTo => "TARGET_TO"@,
        }
    }

    pub fn label(&self) -> (r: &'static str)
        ensures
            r@ == self.spec_label(),
    {
        match self {
            RelationshipType::HasRepository => "HAS_REPOSITORY",
            RelationshipType::HasBranch => "HAS_BRANCH",
            RelationshipType::HasPR => "HAS_PR",
            RelationshipType::HasTicket => "HAS_TICKET",
            RelationshipType::HasDashboard => "HAS_DASHBOARD",
            RelationshipType::HasNotebook => "HAS_NOTEBOOK",
            RelationshipType::HasPipeline => "HAS_PIPELINE",
            RelationshipType::SourceFor => "SOURCE_FOR",
            RelationshipType::TargetTo => "TARGET_TO",
        }
    }

    /// The entity type allowed at the source end of the edge.
    pub open spec fn spec_source_type(self) -> EntityType {
        match self {
            RelationshipType::HasRepository => EntityType::Project,
            RelationshipType::HasBranch => EntityType::Repository,
            RelationshipType::HasPR => EntityType::Repository,
            RelationshipType::HasTicket => EntityType::Project,
            RelationshipType::HasDashboard => EntityType::Project,
            RelationshipType::HasNotebook => EntityType::Project,
            RelationshipType::HasPipeline => EntityType::Project,
            RelationshipType::SourceFor => EntityType::Branch,
            RelationshipType::TargetTo => EntityType::Branch,
        }
    }

    /// The entity type allowed at the target end of the edge.
    pub open spec fn spec_target_type(self) -> EntityType {
        match self {
            RelationshipType::HasRepository => EntityType::Repository,
            RelationshipType::HasBranch => EntityType::Branch,
            RelationshipType::HasPR => EntityType::PullRequest,
            RelationshipType::HasTicket => EntityType::Ticket,
            RelationshipType::HasDashboard => EntityType::Dashboard,
            RelationshipType::HasNotebook => EntityType::Notebook,
            RelationshipType::HasPipeline => EntityType::CIPipeline,
            RelationshipType::SourceFor => EntityType::PullRequest,
            RelationshipType::TargetTo => EntityType::PullRequest,
        }
    }

    /// Whether a second edge of this type to an already-owned target is
    /// allowed.  Ownership edges are not duplicable.
    pub open spec fn spec_duplicable(self) -> bool {
        match self {
            RelationshipType::SourceFor => true,
            RelationshipType::TargetTo => true,
            _ => false,
        }
    }

    pub open spec fn spec_cardinality(self) -> Cardinality {
        if self.spec_duplicable() {
            Cardinality::ManyToOne
        } else {
            Cardinality::OneToMany
        }
    }

    pub fn source_type(&self) -> (r: EntityType)
        ensures
            r == self.spec_source_type(),
    {
        match self {
            RelationshipType::HasRepository => EntityType::Project,
            RelationshipType::HasBranch => EntityType::Repository,
            RelationshipType::HasPR => EntityType::Repository,
            RelationshipType::HasTicket => EntityType::Project,
            RelationshipType::HasDashboard => EntityType::Project,
            RelationshipType::HasNotebook => EntityType::Project,
            RelationshipType::HasPipeline => EntityType::Project,
            RelationshipType::SourceFor => EntityType::Branch,
            RelationshipType::TargetTo => EntityType::Branch,
        }
    }

    pub fn target_type(&self) -> (r: EntityType)
        ensures
            r == self.spec_target_type(),
    {
        match self {
            RelationshipType::HasRepository => EntityType::Repository,
            RelationshipType::HasBranch => EntityType::Branch,
            RelationshipType::HasPR => EntityType::PullRequest,
            RelationshipType::HasTicket => EntityType::Ticket,
            RelationshipType::HasDashboard => EntityType::Dashboard,
            RelationshipType::HasNotebook => EntityType::Notebook,
            RelationshipType::HasPipeline => EntityType::CIPipeline,
            RelationshipType::SourceFor => EntityType::PullRequest,
            RelationshipType::TargetTo => EntityType::PullRequest,
        }
    }

    pub fn duplicable(&self) -> (r: bool)
        ensures
            r == self.spec_duplicable(),
    {
        match self {
            RelationshipType::SourceFor => true,
            RelationshipType::TargetTo => true,
            _ => false,
        }
    }

    pub fn cardinality(&self) -> (r: Cardinality)
        ensures
            r == self.spec_cardinality(),
    {
        if self.duplicable() {
            Cardinality::ManyToOne
        } else {
            Cardinality::OneToMany
        }
    }
}

} // verus!
