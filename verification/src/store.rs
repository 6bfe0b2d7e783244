//! Graph store adapter model: the one component through which entities and
//! edges are created, looked up, and traversed.
//!
//! The store keeps every entity under a store-assigned identifier (the
//! position at which it was created) and every typed edge between two
//! identifiers.  Each write validates the catalog invariants first —
//! uniqueness of declared keys, resolution of entity references, endpoint
//! types and duplicability of edges — and refuses the write with the fitting
//! error, leaving the store untouched, whenever one fails.
//!
//! A lookup miss is a plain absent value, not an error.  Entities are never
//! deleted; an edge can be removed again with `unlink`.

use vstd::prelude::*;
use crate::errors::GraphError;
use crate::models::{
    Branch, CIPipeline, Dashboard, DashboardType, Entity, EntityType, NotebookType, Notebook,
    PipelineType, Project, PullRequest, PullRequestStatus, Repository, Ticket, TicketStatus,
    TicketType, str_eq,
};
use crate::rels::{Direction, RelationshipType};

verus! {

/// A typed, directed edge between two entity identifiers.
#[derive(Clone, Copy, Debug, PartialEq, Eq, Structural)]
pub struct Edge {
    pub rel: RelationshipType,
    pub source: u64,
    pub target: u64,
}

/// The store: entities indexed by their identifier, the edges between them,
/// and the texts of the schema declarations already applied.
pub struct GraphStore {
    pub entities: Vec<Entity>,
    pub edges: Vec<Edge>,
    pub schema_applied: Vec<String>,
}

/// Whether the identifier resolves to an entity of the given type.
pub open spec fn has_entity(s: Seq<Entity>, id: u64, t: EntityType) -> bool {
    id < s.len() && s[id as int].spec_type() == t
}

/// Whether the identifier resolves to a branch owned by the given repository.
pub open spec fn branch_in_repo(s: Seq<Entity>, branch_id: u64, repo_id: u64) -> bool {
    branch_id < s.len() && match s[branch_id as int] {
        Entity::Branch(b) => b.repository_id == repo_id,
        _ => false,
    }
}

/// Whether two entities collide on a declared unique key: same type, same
/// key value.  Pull requests declare no key, and entities of different
/// types never collide.
pub open spec fn same_unique_key(a: Entity, b: Entity) -> bool {
    match (a, b) {
        (Entity::Project(x), Entity::Project(y)) => x.name@ == y.name@,
        (Entity::Repository(x), Entity::Repository(y)) => x.url@ == y.url@,
        (Entity::Branch(x), Entity::Branch(y)) => x.name@ == y.name@ && x.repository_id
            == y.repository_id,
        (Entity::Ticket(x), Entity::Ticket(y)) => x.ticket_id@ == y.ticket_id@,
        (Entity::Dashboard(x), Entity::Dashboard(y)) => x.url@ == y.url@,
        (Entity::Notebook(x), Entity::Notebook(y)) => x.url@ == y.url@,
        (Entity::CIPipeline(x), Entity::CIPipeline(y)) => x.name@ == y.name@ && x.url@ == y.url@,
        _ => false,
    }
}

/// The references an entity carries must resolve: a branch's repository, and
/// a pull request's repository and two branches, the branches owned by that
/// same repository.
pub open spec fn entity_refs_ok(s: Seq<Entity>, e: Entity) -> bool {
    match e {
        Entity::Branch(b) => has_entity(s, b.repository_id, EntityType::Repository),
        Entity::PullRequest(p) => {
            &&& has_entity(s, p.repository_id, EntityType::Repository)
            &&& branch_in_repo(s, p.source_branch_id, p.repository_id)
            &&& branch_in_repo(s, p.target_branch_id, p.repository_id)
        },
        _ => true,
    }
}

/// An edge's endpoints must exist and carry the types its relationship
/// declares.
pub open spec fn edge_ok(s: Seq<Entity>, e: Edge) -> bool {
    has_entity(s, e.source, e.rel.spec_source_type()) && has_entity(
        s,
        e.target,
        e.rel.spec_target_type(),
    )
}

/// Whether an edge claims ownership of the given target under the given
/// non-duplicable relationship.
pub open spec fn owner_match(e: Edge, rel: RelationshipType, target: u64) -> bool {
    e.rel == rel && e.target == target
}

/// Whether any edge already owns this target under this relationship.
pub open spec fn has_owner(eds: Seq<Edge>, rel: RelationshipType, target: u64) -> bool {
    exists|k: int| 0 <= k < eds.len() && owner_match(#[trigger] eds[k], rel, target)
}

/// Two edges of one non-duplicable relationship may not share a target: a
/// target has at most one owner.
pub open spec fn owner_conflict(a: Edge, b: Edge) -> bool {
    !a.rel.spec_duplicable() && a.rel == b.rel && a.target == b.target
}

/// Well-formedness of a store's contents.
pub open spec fn store_wf(s: Seq<Entity>, eds: Seq<Edge>) -> bool {
    &&& forall|i: int| 0 <= i < s.len() ==> (#[trigger] s[i]).spec_id() == i as u64
    &&& forall|i: int, j: int|
        0 <= i < j < s.len() ==> !same_unique_key(#[trigger] s[i], #[trigger] s[j])
    &&& forall|i: int| 0 <= i < s.len() ==> entity_refs_ok(s, #[trigger] s[i])
    &&& forall|k: int| 0 <= k < eds.len() ==> edge_ok(s, #[trigger] eds[k])
    &&& forall|k: int, l: int|
        0 <= k < l < eds.len() ==> !owner_conflict(#[trigger] eds[k], #[trigger] eds[l])
}

/// Per-key membership predicates, one per declared unique key.
pub open spec fn is_project_named(e: Entity, name: Seq<char>) -> bool {
    match e {
        Entity::Project(p) => p.name@ == name,
        _ => false,
    }
}

pub open spec fn has_project_named(s: Seq<Entity>, name: Seq<char>) -> bool {
    exists|i: int| 0 <= i < s.len() && is_project_named(#[trigger] s[i], name)
}

pub open spec fn is_repository_at(e: Entity, url: Seq<char>) -> bool {
    match e {
        Entity::Repository(r) => r.url@ == url,
        _ => false,
    }
}

pub open spec fn has_repository_at(s: Seq<Entity>, url: Seq<char>) -> bool {
    exists|i: int| 0 <= i < s.len() && is_repository_at(#[trigger] s[i], url)
}

pub open spec fn is_branch_keyed(e: Entity, name: Seq<char>, repo_id: u64) -> bool {
    match e {
        Entity::Branch(b) => b.name@ == name && b.repository_id == repo_id,
        _ => false,
    }
}

pub open spec fn has_branch_keyed(s: Seq<Entity>, name: Seq<char>, repo_id: u64) -> bool {
    exists|i: int| 0 <= i < s.len() && is_branch_keyed(#[trigger] s[i], name, repo_id)
}

pub open spec fn is_ticket_keyed(e: Entity, ticket_id: Seq<char>) -> bool {
    match e {
        Entity::Ticket(t) => t.ticket_id@ == ticket_id,
        _ => false,
    }
}

pub open spec fn has_ticket_keyed(s: Seq<Entity>, ticket_id: Seq<char>) -> bool {
    exists|i: int| 0 <= i < s.len() && is_ticket_keyed(#[trigger] s[i], ticket_id)
}

pub open spec fn is_dashboard_at(e: Entity, url: Seq<char>) -> bool {
    match e {
        Entity::Dashboard(d) => d.url@ == url,
        _ => false,
    }
}

pub open spec fn has_dashboard_at(s: Seq<Entity>, url: Seq<char>) -> bool {
    exists|i: int| 0 <= i < s.len() && is_dashboard_at(#[trigger] s[i], url)
}

pub open spec fn is_notebook_at(e: Entity, url: Seq<char>) -> bool {
    match e {
        Entity::Notebook(n) => n.url@ == url,
        _ => false,
    }
}

pub open spec fn has_notebook_at(s: Seq<Entity>, url: Seq<char>) -> bool {
    exists|i: int| 0 <= i < s.len() && is_notebook_at(#[trigger] s[i], url)
}

pub open spec fn is_pipeline_keyed(e: Entity, name: Seq<char>, url: Seq<char>) -> bool {
    match e {
        Entity::CIPipeline(p) => p.name@ == name && p.url@ == url,
        _ => false,
    }
}

pub open spec fn has_pipeline_keyed(s: Seq<Entity>, name: Seq<char>, url: Seq<char>) -> bool {
    exists|i: int| 0 <= i < s.len() && is_pipeline_keyed(#[trigger] s[i], name, url)
}

/// Growing the entity sequence cannot break an entity's references.
proof fn lemma_refs_ok_push(s: Seq<Entity>, v: Entity, e: Entity)
    requires
        entity_refs_ok(s, e),
    ensures
        entity_refs_ok(s.push(v), e),
{
    let s2 = s.push(v);
    assert forall|id: u64, t: EntityType| has_entity(s, id, t) implies has_entity(s2, id, t) by {
        assert(s2[id as int] == s[id as int]);
    }
    match e {
        Entity::Branch(b) => {},
        Entity::PullRequest(p) => {
            assert(s2[p.source_branch_id as int] == s[p.source_branch_id as int]);
            assert(s2[p.target_branch_id as int] == s[p.target_branch_id as int]);
        },
        _ => {},
    }
}

/// Growing the entity sequence cannot break an edge.
proof fn lemma_edge_ok_push(s: Seq<Entity>, v: Entity, e: Edge)
    requires
        edge_ok(s, e),
    ensures
        edge_ok(s.push(v), e),
{
    assert(s.push(v)[e.source as int] == s[e.source as int]);
    assert(s.push(v)[e.target as int] == s[e.target as int]);
}

/// Appending a fresh entity whose identifier is the next position, whose
/// references resolve, and whose key collides with nothing keeps the store
/// well-formed.
proof fn lemma_wf_push_entity(s: Seq<Entity>, eds: Seq<Edge>, v: Entity)
    requires
        store_wf(s, eds),
        v.spec_id() == s.len(),
        entity_refs_ok(s, v),
        forall|i: int| 0 <= i < s.len() ==> !same_unique_key(#[trigger] s[i], v),
    ensures
        store_wf(s.push(v), eds),
{
    let s2 = s.push(v);
    assert forall|i: int| 0 <= i < s2.len() implies (#[trigger] s2[i]).spec_id() == i as u64 by {
        if i < s.len() {
            assert(s2[i] == s[i]);
        } else {
            assert(s2[i] == v);
        }
    }
    assert forall|i: int, j: int|
        0 <= i < j < s2.len() implies !same_unique_key(#[trigger] s2[i], #[trigger] s2[j]) by {
        if j < s.len() {
            assert(s2[i] == s[i] && s2[j] == s[j]);
        } else {
            assert(s2[i] == s[i] && s2[j] == v);
        }
    }
    assert forall|i: int| 0 <= i < s2.len() implies entity_refs_ok(s2, #[trigger] s2[i]) by {
        if i < s.len() {
            assert(s2[i] == s[i]);
            lemma_refs_ok_push(s, v, s[i]);
        } else {
            assert(s2[i] == v);
            lemma_refs_ok_push(s, v, v);
        }
    }
    assert forall|k: int| 0 <= k < eds.len() implies edge_ok(s2, #[trigger] eds[k]) by {
        lemma_edge_ok_push(s, v, eds[k]);
    }
}

impl GraphStore {
    pub open spec fn wf(self) -> bool {
        store_wf(self.entities@, self.edges@)
    }

    /// The schema-declaration texts already applied to this store.
    pub open spec fn applied_texts(self) -> Seq<Seq<char>> {
        self.schema_applied@.map_values(|t: String| t@)
    }

    /// An empty, well-formed store.
    pub fn new() -> (r: GraphStore)
        ensures
            r.wf(),
            r.entities@ == Seq::<Entity>::empty(),
            r.edges@ == Seq::<Edge>::empty(),
            r.applied_texts() == Seq::<Seq<char>>::empty(),
    {
        let r = GraphStore { entities: Vec::new(), edges: Vec::new(), schema_applied: Vec::new() };
        proof {
            assert(r.applied_texts() =~= Seq::<Seq<char>>::empty());
        }
        r
    }

    /// Whether `id` resolves to an entity of type `t`.
    pub fn entity_is(&self, id: u64, t: EntityType) -> (r: bool)
        ensures
            r == has_entity(self.entities@, id, t),
    {
        if id < self.entities.len() as u64 {
            let e = &self.entities[id as usize];
            e.entity_type() == t
        } else {
            false
        }
    }

    /// Whether `branch_id` resolves to a branch owned by `repo_id`.
    pub fn branch_belongs(&self, branch_id: u64, repo_id: u64) -> (r: bool)
        ensures
            r == branch_in_repo(self.entities@, branch_id, repo_id),
    {
        if branch_id < self.entities.len() as u64 {
            match &self.entities[branch_id as usize] {
                Entity::Branch(b) => b.repository_id == repo_id,
                _ => false,
            }
        } else {
            false
        }
    }

    /// Reads an entity by identifier; an absent value is a miss, not an
    /// error.
    pub fn get_by_id(&self, id: u64) -> (r: Option<&Entity>)
        ensures
            match r {
                Some(e) => id < self.entities@.len() && *e == self.entities@[id as int],
                None => id >= self.entities@.len(),
            },
    {
        if id < self.entities.len() as u64 {
            Some(&self.entities[id as usize])
        } else {
            None
        }
    }

    /// Creates a project; `name` is its unique key.
    pub fn create_project(
        &mut self,
        name: String,
        description: Option<String>,
        now: i64,
    ) -> (r: Result<u64, GraphError>)
        requires
            old(self).wf(),
        ensures
            final(self).wf(),
            final(self).edges@ == old(self).edges@,
            final(self).schema_applied@ == old(self).schema_applied@,
            match r {
                Ok(id) => {
                    &&& !has_project_named(old(self).entities@, name@)
                    &&& id == old(self).entities@.len()
                    &&& final(self).entities@ == old(self).entities@.push(
                        Entity::Project(
                            (Project {
                                id,
                                name,
                                description,
                                created_at: now,
                                updated_at: now,
                            }),
                        ),
                    )
                },
                Err(e) => {
                    &&& e == GraphError::DuplicateKey
                    &&& has_project_named(old(self).entities@, name@)
                    &&& final(self).entities@ == old(self).entities@
                },
            },
    {
        if self.find_project_by_name(name.as_str()).is_some() {
            return Err(GraphError::DuplicateKey);
        }
        let id: u64 = self.entities.len() as u64;
        let v = Entity::Project(Project { id, name, description, created_at: now, updated_at: now });
        proof {
            assert forall|i: int|
                0 <= i < self.entities@.len() implies !same_unique_key(
                #[trigger] self.entities@[i],
                v,
            ) by {
                assert(!is_project_named(self.entities@[i], v->Project_0.name@));
            }
            lemma_wf_push_entity(self.entities@, self.edges@, v);
        }
        self.entities.push(v);
        Ok(id)
    }

    /// Creates a repository; `url` is its unique key.
    pub fn create_repository(
        &mut self,
        url: String,
        local_path: Option<String>,
        now: i64,
    ) -> (r: Result<u64, GraphError>)
        requires
            old(self).wf(),
        ensures
            final(self).wf(),
            final(self).edges@ == old(self).edges@,
            final(self).schema_applied@ == old(self).schema_applied@,
            match r {
                Ok(id) => {
                    &&& !has_repository_at(old(self).entities@, url@)
                    &&& id == old(self).entities@.len()
                    &&& final(self).entities@ == old(self).entities@.push(
                        Entity::Repository(
                            (Repository {
                                id,
                                url,
                                local_path,
                                created_at: now,
                                updated_at: now,
                            }),
                        ),
                    )
                },
                Err(e) => {
                    &&& e == GraphError::DuplicateKey
                    &&& has_repository_at(old(self).entities@, url@)
                    &&& final(self).entities@ == old(self).entities@
                },
            },
    {
        if self.find_repository_by_url(url.as_str()).is_some() {
            return Err(GraphError::DuplicateKey);
        }
        let id: u64 = self.entities.len() as u64;
        let v = Entity::Repository(
            Repository { id, url, local_path, created_at: now, updated_at: now },
        );
        proof {
            assert forall|i: int|
                0 <= i < self.entities@.len() implies !same_unique_key(
                #[trigger] self.entities@[i],
                v,
            ) by {
                assert(!is_repository_at(self.entities@[i], v->Repository_0.url@));
            }
            lemma_wf_push_entity(self.entities@, self.edges@, v);
        }
        self.entities.push(v);
        Ok(id)
    }

    /// Creates a branch under an existing repository; the pair
    /// `(name, repository_id)` is its unique key.  The repository reference
    /// is checked first.
    pub fn create_branch(
        &mut self,
        name: String,
        repository_id: u64,
        is_working_branch: bool,
        now: i64,
    ) -> (r: Result<u64, GraphError>)
        requires
            old(self).wf(),
        ensures
            final(self).wf(),
            final(self).edges@ == old(self).edges@,
            final(self).schema_applied@ == old(self).schema_applied@,
            match r {
                Ok(id) => {
                    &&& has_entity(old(self).entities@, repository_id, EntityType::Repository)
                    &&& !has_branch_keyed(old(self).entities@, name@, repository_id)
                    &&& id == old(self).entities@.len()
                    &&& final(self).entities@ == old(self).entities@.push(
                        Entity::Branch(
                            (Branch {
                                id,
                                name,
                                repository_id,
                                is_working_branch,
                                created_at: now,
                            }),
                        ),
                    )
                },
                Err(GraphError::ReferentialIntegrity) => {
                    &&& !has_entity(old(self).entities@, repository_id, EntityType::Repository)
                    &&& final(self).entities@ == old(self).entities@
                },
                Err(GraphError::DuplicateKey) => {
                    &&& has_entity(old(self).entities@, repository_id, EntityType::Repository)
                    &&& has_branch_keyed(old(self).entities@, name@, repository_id)
                    &&& final(self).entities@ == old(self).entities@
                },
                Err(_) => false,
            },
    {
        if !self.entity_is(repository_id, EntityType::Repository) {
            return Err(GraphError::ReferentialIntegrity);
        }
        if self.find_branch_by_key(name.as_str(), repository_id).is_some() {
            return Err(GraphError::DuplicateKey);
        }
        let id: u64 = self.entities.len() as u64;
        let v = Entity::Branch(Branch { id, name, repository_id, is_working_branch, created_at: now });
        proof {
            assert forall|i: int|
                0 <= i < self.entities@.len() implies !same_unique_key(
                #[trigger] self.entities@[i],
                v,
            ) by {
                assert(!is_branch_keyed(self.entities@[i], v->Branch_0.name@, repository_id));
            }
            lemma_wf_push_entity(self.entities@, self.edges@, v);
        }
        self.entities.push(v);
        Ok(id)
    }

    /// Creates a pull request.  Its repository must exist, and both its
    /// source and target branches must exist and belong to that repository;
    /// it declares no unique key of its own.
    pub fn create_pull_request(
        &mut self,
        number: String,
        title: String,
        repository_id: u64,
        source_branch_id: u64,
        target_branch_id: u64,
        status: PullRequestStatus,
        now: i64,
    ) -> (r: Result<u64, GraphError>)
        requires
            old(self).wf(),
        ensures
            final(self).wf(),
            final(self).edges@ == old(self).edges@,
            final(self).schema_applied@ == old(self).schema_applied@,
            match r {
                Ok(id) => {
                    &&& has_entity(old(self).entities@, repository_id, EntityType::Repository)
                    &&& branch_in_repo(old(self).entities@, source_branch_id, repository_id)
                    &&& branch_in_repo(old(self).entities@, target_branch_id, repository_id)
                    &&& id == old(self).entities@.len()
                    &&& final(self).entities@ == old(self).entities@.push(
                        Entity::PullRequest(
                            (PullRequest {
                                id,
                                number,
                                title,
                                repository_id,
                                source_branch_id,
                                target_branch_id,
                                status,
                                created_at: now,
                                updated_at: now,
                            }),
                        ),
                    )
                },
                Err(e) => {
                    &&& e == GraphError::ReferentialIntegrity
                    &&& !(has_entity(old(self).entities@, repository_id, EntityType::Repository)
                        && branch_in_repo(old(self).entities@, source_branch_id, repository_id)
                        && branch_in_repo(old(self).entities@, target_branch_id, repository_id))
                    &&& final(self).entities@ == old(self).entities@
                },
            },
    {
        if !self.entity_is(repository_id, EntityType::Repository) {
            return Err(GraphError::ReferentialIntegrity);
        }
        if !self.branch_belongs(source_branch_id, repository_id) {
            return Err(GraphError::ReferentialIntegrity);
        }
        if !self.branch_belongs(target_branch_id, repository_id) {
            return Err(GraphError::ReferentialIntegrity);
        }
        let id: u64 = self.entities.len() as u64;
        let v = Entity::PullRequest(
            PullRequest {
                id,
                number,
                title,
                repository_id,
                source_branch_id,
                target_branch_id,
                status,
                created_at: now,
                updated_at: now,
            },
        );
        proof {
            assert forall|i: int|
                0 <= i < self.entities@.len() implies !same_unique_key(
                #[trigger] self.entities@[i],
                v,
            ) by {}
            lemma_wf_push_entity(self.entities@, self.edges@, v);
        }
        self.entities.push(v);
        Ok(id)
    }

    /// Creates a ticket; `ticket_id` is its unique key.
    pub fn create_ticket(
        &mut self,
        ticket_id: String,
        title: String,
        status: TicketStatus,
        ticket_type: TicketType,
        now: i64,
    ) -> (r: Result<u64, GraphError>)
        requires
            old(self).wf(),
        ensures
            final(self).wf(),
            final(self).edges@ == old(self).edges@,
            final(self).schema_applied@ == old(self).schema_applied@,
            match r {
                Ok(id) => {
                    &&& !has_ticket_keyed(old(self).entities@, ticket_id@)
                    &&& id == old(self).entities@.len()
                    &&& final(self).entities@ == old(self).entities@.push(
                        Entity::Ticket(
                            (Ticket {
                                id,
                                ticket_id,
                                title,
                                status,
                                ticket_type,
                                created_at: now,
                                updated_at: now,
                            }),
                        ),
                    )
                },
                Err(e) => {
                    &&& e == GraphError::DuplicateKey
                    &&& has_ticket_keyed(old(self).entities@, ticket_id@)
                    &&& final(self).entities@ == old(self).entities@
                },
            },
    {
        if self.find_ticket_by_key(ticket_id.as_str()).is_some() {
            return Err(GraphError::DuplicateKey);
        }
        let id: u64 = self.entities.len() as u64;
        let v = Entity::Ticket(
            Ticket { id, ticket_id, title, status, ticket_type, created_at: now, updated_at: now },
        );
        proof {
            assert forall|i: int|
                0 <= i < self.entities@.len() implies !same_unique_key(
                #[trigger] self.entities@[i],
                v,
            ) by {
                assert(!is_ticket_keyed(self.entities@[i], v->Ticket_0.ticket_id@));
            }
            lemma_wf_push_entity(self.entities@, self.edges@, v);
        }
        self.entities.push(v);
        Ok(id)
    }

    /// Creates a dashboard; `url` is its unique key.
    pub fn create_dashboard(
        &mut self,
        url: String,
        name: String,
        dashboard_type: DashboardType,
        now: i64,
    ) -> (r: Result<u64, GraphError>)
        requires
            old(self).wf(),
        ensures
            final(self).wf(),
            final(self).edges@ == old(self).edges@,
            final(self).schema_applied@ == old(self).schema_applied@,
            match r {
                Ok(id) => {
                    &&& !has_dashboard_at(old(self).entities@, url@)
                    &&& id == old(self).entities@.len()
                    &&& final(self).entities@ == old(self).entities@.push(
                        Entity::Dashboard(
                            (Dashboard {
                                id,
                                url,
                                name,
                                dashboard_type,
                                created_at: now,
                            }),
                        ),
                    )
                },
                Err(e) => {
                    &&& e == GraphError::DuplicateKey
                    &&& has_dashboard_at(old(self).entities@, url@)
                    &&& final(self).entities@ == old(self).entities@
                },
            },
    {
        if self.find_dashboard_by_url(url.as_str()).is_some() {
            return Err(GraphError::DuplicateKey);
        }
        let id: u64 = self.entities.len() as u64;
        let v = Entity::Dashboard(Dashboard { id, url, name, dashboard_type, created_at: now });
        proof {
            assert forall|i: int|
                0 <= i < self.entities@.len() implies !same_unique_key(
                #[trigger] self.entities@[i],
                v,
            ) by {
                assert(!is_dashboard_at(self.entities@[i], v->Dashboard_0.url@));
            }
            lemma_wf_push_entity(self.entities@, self.edges@, v);
        }
        self.entities.push(v);
        Ok(id)
    }

    /// Creates a notebook; `url` is its unique key.
    pub fn create_notebook(
        &mut self,
        url: String,
        name: String,
        notebook_type: NotebookType,
        now: i64,
    ) -> (r: Result<u64, GraphError>)
        requires
            old(self).wf(),
        ensures
            final(self).wf(),
            final(self).edges@ == old(self).edges@,
            final(self).schema_applied@ == old(self).schema_applied@,
            match r {
                Ok(id) => {
                    &&& !has_notebook_at(old(self).entities@, url@)
                    &&& id == old(self).entities@.len()
                    &&& final(self).entities@ == old(self).entities@.push(
                        Entity::Notebook(
                            (Notebook {
                                id,
                                url,
                                name,
                                notebook_type,
                                created_at: now,
                            }),
                        ),
                    )
                },
                Err(e) => {
                    &&& e == GraphError::DuplicateKey
                    &&& has_notebook_at(old(self).entities@, url@)
                    &&& final(self).entities@ == old(self).entities@
                },
            },
    {
        if self.find_notebook_by_url(url.as_str()).is_some() {
            return Err(GraphError::DuplicateKey);
        }
        let id: u64 = self.entities.len() as u64;
        let v = Entity::Notebook(Notebook { id, url, name, notebook_type, created_at: now });
        proof {
            assert forall|i: int|
                0 <= i < self.entities@.len() implies !same_unique_key(
                #[trigger] self.entities@[i],
                v,
            ) by {
                assert(!is_notebook_at(self.entities@[i], v->Notebook_0.url@));
            }
            lemma_wf_push_entity(self.entities@, self.edges@, v);
        }
        self.entities.push(v);
        Ok(id)
    }

    /// Creates a CI pipeline; the pair `(name, url)` is its unique key.
    pub fn create_ci_pipeline(
        &mut self,
        name: String,
        url: String,
        pipeline_type: PipelineType,
        now: i64,
    ) -> (r: Result<u64, GraphError>)
        requires
            old(self).wf(),
        ensures
            final(self).wf(),
            final(self).edges@ == old(self).edges@,
            final(self).schema_applied@ == old(self).schema_applied@,
            match r {
                Ok(id) => {
                    &&& !has_pipeline_keyed(old(self).entities@, name@, url@)
                    &&& id == old(self).entities@.len()
                    &&& final(self).entities@ == old(self).entities@.push(
                        Entity::CIPipeline(
                            (CIPipeline {
                                id,
                                name,
                                url,
                                pipeline_type,
                                created_at: now,
                            }),
                        ),
                    )
                },
                Err(e) => {
                    &&& e == GraphError::DuplicateKey
                    &&& has_pipeline_keyed(old(self).entities@, name@, url@)
                    &&& final(self).entities@ == old(self).entities@
                },
            },
    {
        if self.find_pipeline_by_key(name.as_str(), url.as_str()).is_some() {
            return Err(GraphError::DuplicateKey);
        }
        let id: u64 = self.entities.len() as u64;
        let v = Entity::CIPipeline(CIPipeline { id, name, url, pipeline_type, created_at: now });
        proof {
            assert forall|i: int|
                0 <= i < self.entities@.len() implies !same_unique_key(
                #[trigger] self.entities@[i],
                v,
            ) by {
                assert(!is_pipeline_keyed(
                    self.entities@[i],
                    v->CIPipeline_0.name@,
                    v->CIPipeline_0.url@,
                ));
            }
            lemma_wf_push_entity(self.entities@, self.edges@, v);
        }
        self.entities.push(v);
        Ok(id)
    }

    /// Looks a project up by its unique key.
    pub fn find_project_by_name(&self, name: &str) -> (r: Option<&Project>)
        ensures
            match r {
                Some(p) => p.name@ == name@ && exists|i: int|
                    0 <= i < self.entities@.len() && self.entities@[i] == Entity::Project(*p),
                None => !has_project_named(self.entities@, name@),
            },
    {
        let n = self.entities.len();
        let mut i: usize = 0;
        while i < n
            invariant
                n == self.entities@.len(),
                0 <= i <= n,
                forall|j: int| 0 <= j < i ==> !is_project_named(#[trigger] self.entities@[j], name@),
            decreases n - i,
        {
            match &self.entities[i] {
                Entity::Project(p) => {
                    if str_eq(p.name.as_str(), name) {
                        return Some(p);
                    }
                },
                _ => {},
            }
            i += 1;
        }
        None
    }

    /// Looks a repository up by its unique key.
    pub fn find_repository_by_url(&self, url: &str) -> (r: Option<&Repository>)
        ensures
            match r {
                Some(p) => p.url@ == url@ && exists|i: int|
                    0 <= i < self.entities@.len() && self.entities@[i] == Entity::Repository(*p),
                None => !has_repository_at(self.entities@, url@),
            },
    {
        let n = self.entities.len();
        let mut i: usize = 0;
        while i < n
            invariant
                n == self.entities@.len(),
                0 <= i <= n,
                forall|j: int| 0 <= j < i ==> !is_repository_at(#[trigger] self.entities@[j], url@),
            decreases n - i,
        {
            match &self.entities[i] {
                Entity::Repository(p) => {
                    if str_eq(p.url.as_str(), url) {
                        return Some(p);
                    }
                },
                _ => {},
            }
            i += 1;
        }
        None
    }

    /// Looks a branch up by its unique key.
    pub fn find_branch_by_key(&self, name: &str, repository_id: u64) -> (r: Option<&Branch>)
        ensures
            match r {
                Some(p) => p.name@ == name@ && p.repository_id == repository_id && exists|i: int|
                    0 <= i < self.entities@.len() && self.entities@[i] == Entity::Branch(*p),
                None => !has_branch_keyed(self.entities@, name@, repository_id),
            },
    {
        let n = self.entities.len();
        let mut i: usize = 0;
        while i < n
            invariant
                n == self.entities@.len(),
                0 <= i <= n,
                forall|j: int|
                    0 <= j < i ==> !is_branch_keyed(
                        #[trigger] self.entities@[j],
                        name@,
                        repository_id,
                    ),
            decreases n - i,
        {
            match &self.entities[i] {
                Entity::Branch(p) => {
                    if p.repository_id == repository_id && str_eq(p.name.as_str(), name) {
                        return Some(p);
                    }
                },
                _ => {},
            }
            i += 1;
        }
        None
    }

    /// Looks a ticket up by its unique key.
    pub fn find_ticket_by_key(&self, ticket_id: &str) -> (r: Option<&Ticket>)
        ensures
            match r {
                Some(p) => p.ticket_id@ == ticket_id@ && exists|i: int|
                    0 <= i < self.entities@.len() && self.entities@[i] == Entity::Ticket(*p),
                None => !has_ticket_keyed(self.entities@, ticket_id@),
            },
    {
        let n = self.entities.len();
        let mut i: usize = 0;
        while i < n
            invariant
                n == self.entities@.len(),
                0 <= i <= n,
                forall|j: int| 0 <= j < i ==> !is_ticket_keyed(#[trigger] self.entities@[j], ticket_id@),
            decreases n - i,
        {
            match &self.entities[i] {
                Entity::Ticket(p) => {
                    if str_eq(p.ticket_id.as_str(), ticket_id) {
                        return Some(p);
                    }
                },
                _ => {},
            }
            i += 1;
        }
        None
    }

    /// Looks a dashboard up by its unique key.
    pub fn find_dashboard_by_url(&self, url: &str) -> (r: Option<&Dashboard>)
        ensures
            match r {
                Some(p) => p.url@ == url@ && exists|i: int|
                    0 <= i < self.entities@.len() && self.entities@[i] == Entity::Dashboard(*p),
                None => !has_dashboard_at(self.entities@, url@),
            },
    {
        let n = self.entities.len();
        let mut i: usize = 0;
        while i < n
            invariant
                n == self.entities@.len(),
                0 <= i <= n,
                forall|j: int| 0 <= j < i ==> !is_dashboard_at(#[trigger] self.entities@[j], url@),
            decreases n - i,
        {
            match &self.entities[i] {
                Entity::Dashboard(p) => {
                    if str_eq(p.url.as_str(), url) {
                        return Some(p);
                    }
                },
                _ => {},
            }
            i += 1;
        }
        None
    }

    /// Looks a notebook up by its unique key.
    pub fn find_notebook_by_url(&self, url: &str) -> (r: Option<&Notebook>)
        ensures
            match r {
                Some(p) => p.url@ == url@ && exists|i: int|
                    0 <= i < self.entities@.len() && self.entities@[i] == Entity::Notebook(*p),
                None => !has_notebook_at(self.entities@, url@),
            },
    {
        let n = self.entities.len();
        let mut i: usize = 0;
        while i < n
            invariant
                n == self.entities@.len(),
                0 <= i <= n,
                forall|j: int| 0 <= j < i ==> !is_notebook_at(#[trigger] self.entities@[j], url@),
            decreases n - i,
        {
            match &self.entities[i] {
                Entity::Notebook(p) => {
                    if str_eq(p.url.as_str(), url) {
                        return Some(p);
                    }
                },
                _ => {},
            }
            i += 1;
        }
        None
    }

    /// Looks a CI pipeline up by its unique key.
    pub fn find_pipeline_by_key(&self, name: &str, url: &str) -> (r: Option<&CIPipeline>)
        ensures
            match r {
                Some(p) => p.name@ == name@ && p.url@ == url@ && exists|i: int|
                    0 <= i < self.entities@.len() && self.entities@[i] == Entity::CIPipeline(*p),
                None => !has_pipeline_keyed(self.entities@, name@, url@),
            },
    {
        let n = self.entities.len();
        let mut i: usize = 0;
        while i < n
            invariant
                n == self.entities@.len(),
                0 <= i <= n,
                forall|j: int|
                    0 <= j < i ==> !is_pipeline_keyed(#[trigger] self.entities@[j], name@, url@),
            decreases n - i,
        {
            match &self.entities[i] {
                Entity::CIPipeline(p) => {
                    if str_eq(p.name.as_str(), name) && str_eq(p.url.as_str(), url) {
                        return Some(p);
                    }
                },
                _ => {},
            }
            i += 1;
        }
        None
    }

    /// Whether some edge of this relationship already has this target.
    pub fn has_owner_edge(&self, rel: RelationshipType, target: u64) -> (r: bool)
        ensures
            r == has_owner(self.edges@, rel, target),
    {
        let n = self.edges.len();
        let mut k: usize = 0;
        while k < n
            invariant
                n == self.edges@.len(),
                0 <= k <= n,
                forall|j: int| 0 <= j < k ==> !owner_match(#[trigger] self.edges@[j], rel, target),
            decreases n - k,
        {
            let ed = self.edges[k];
            if ed.rel == rel && ed.target == target {
                return true;
            }
            k += 1;
        }
        false
    }

    /// Creates a typed edge.  Both endpoints must exist and carry the
    /// relationship's declared types; a non-duplicable (ownership) edge is
    /// refused when its target already has an owner of the same type.
    pub fn link(&mut self, rel: RelationshipType, source: u64, target: u64) -> (r: Result<
        (),
        GraphError,
    >)
        requires
            old(self).wf(),
        ensures
            final(self).wf(),
            final(self).entities@ == old(self).entities@,
            final(self).schema_applied@ == old(self).schema_applied@,
            match r {
                Ok(_) => {
                    &&& edge_ok(old(self).entities@, (Edge { rel, source, target }))
                    &&& rel.spec_duplicable() || !has_owner(old(self).edges@, rel, target)
                    &&& final(self).edges@ == old(self).edges@.push(
                        (Edge { rel, source, target }),
                    )
                },
                Err(GraphError::ReferentialIntegrity) => {
                    &&& !edge_ok(old(self).entities@, (Edge { rel, source, target }))
                    &&& final(self).edges@ == old(self).edges@
                },
                Err(GraphError::DuplicateRelationship) => {
                    &&& edge_ok(old(self).entities@, (Edge { rel, source, target }))
                    &&& !rel.spec_duplicable()
                    &&& has_owner(old(self).edges@, rel, target)
                    &&& final(self).edges@ == old(self).edges@
                },
                Err(_) => false,
            },
    {
        if !self.entity_is(source, rel.source_type()) || !self.entity_is(
            target,
            rel.target_type(),
        ) {
            return Err(GraphError::ReferentialIntegrity);
        }
        if !rel.duplicable() {
            if self.has_owner_edge(rel, target) {
                return Err(GraphError::DuplicateRelationship);
            }
        }
        let e = Edge { rel, source, target };
        proof {
            let eds = self.edges@;
            let eds2 = eds.push(e);
            assert forall|k: int| 0 <= k < eds2.len() implies edge_ok(
                self.entities@,
                #[trigger] eds2[k],
            ) by {
                if k < eds.len() {
                    assert(eds2[k] == eds[k]);
                } else {
                    assert(eds2[k] == e);
                }
            }
            assert forall|k: int, l: int|
                0 <= k < l < eds2.len() implies !owner_conflict(
                #[trigger] eds2[k],
                #[trigger] eds2[l],
            ) by {
                if l < eds.len() {
                    assert(eds2[k] == eds[k] && eds2[l] == eds[l]);
                } else {
                    assert(eds2[k] == eds[k] && eds2[l] == e);
                }
            }
        }
        self.edges.push(e);
        Ok(())
    }

    /// Removes every edge of this relationship between the two identifiers.
    /// Returns whether any edge was removed.
    pub fn unlink(&mut self, rel: RelationshipType, source: u64, target: u64) -> (r: bool)
        requires
            old(self).wf(),
        ensures
            final(self).wf(),
            final(self).entities@ == old(self).entities@,
            final(self).schema_applied@ == old(self).schema_applied@,
            final(self).edges@ == remove_edges(old(self).edges@, (Edge { rel, source, target })),
            r == old(self).edges@.contains((Edge { rel, source, target })),
    {
        let key = Edge { rel, source, target };
        let n = self.edges.len();
        let mut kept: Vec<Edge> = Vec::new();
        let mut found: bool = false;
        let mut k: usize = 0;
        while k < n
            invariant
                n == self.edges@.len(),
                0 <= k <= n,
                store_wf(self.entities@, self.edges@),
                kept@ == remove_edges(self.edges@.take(k as int), key),
                found == exists|j: int| 0 <= j < k && self.edges@[j] == key,
                forall|m: int|
                    0 <= m < kept@.len() ==> exists|j: int|
                        0 <= j < k && #[trigger] kept@[m] == self.edges@[j],
                forall|m: int, l: int|
                    0 <= m < l < kept@.len() ==> !owner_conflict(
                        #[trigger] kept@[m],
                        #[trigger] kept@[l],
                    ),
                forall|m: int| 0 <= m < kept@.len() ==> edge_ok(self.entities@, #[trigger] kept@[m]),
            decreases n - k,
        {
            let ed = self.edges[k];
            proof {
                assert(self.edges@.take(k as int + 1).drop_last() =~= self.edges@.take(k as int));
                assert(self.edges@.take(k as int + 1).last() == self.edges@[k as int]);
            }
            if ed == key {
                found = true;
            } else {
                let ghost kept_before = kept@;
                kept.push(ed);
                proof {
                    assert forall|m: int, l: int|
                        0 <= m < l < kept@.len() implies !owner_conflict(
                        #[trigger] kept@[m],
                        #[trigger] kept@[l],
                    ) by {
                        if l < kept_before.len() {
                            assert(kept@[m] == kept_before[m] && kept@[l] == kept_before[l]);
                        } else {
                            assert(kept@[l] == ed);
                            assert(kept@[m] == kept_before[m]);
                            let j = choose|j: int|
                                0 <= j < k && #[trigger] kept_before[m] == self.edges@[j];
                            assert(!owner_conflict(self.edges@[j], self.edges@[k as int]));
                        }
                    }
                }
            }
            k += 1;
        }
        proof {
            assert(self.edges@.take(n as int) =~= self.edges@);
        }
        self.edges = kept;
        found
    }

    /// Lists the entities of one type in order of creation.
    pub fn list(&self, t: EntityType) -> (r: Vec<&Entity>)
        ensures
            r@.map_values(|e: &Entity| *e) == entities_of_type(self.entities@, t),
    {
        let n = self.entities.len();
        let mut out: Vec<&Entity> = Vec::new();
        let mut i: usize = 0;
        while i < n
            invariant
                n == self.entities@.len(),
                0 <= i <= n,
                out@.map_values(|e: &Entity| *e) == entities_of_type(
                    self.entities@.take(i as int),
                    t,
                ),
            decreases n - i,
        {
            proof {
                assert(self.entities@.take(i as int + 1).drop_last() =~= self.entities@.take(
                    i as int,
                ));
                assert(self.entities@.take(i as int + 1).last() == self.entities@[i as int]);
            }
            let ghost out_before = out@;
            let e = &self.entities[i];
            if e.entity_type() == t {
                out.push(e);
                proof {
                    assert(out@.map_values(|x: &Entity| *x) =~= out_before.map_values(
                        |x: &Entity| *x,
                    ).push(*e));
                }
            }
            i += 1;
        }
        proof {
            assert(self.entities@.take(n as int) =~= self.entities@);
        }
        out
    }

    /// Walks the edges of one relationship at an entity and returns the
    /// entities at the far end, in the order the edges were created.
    pub fn neighbors(&self, id: u64, rel: RelationshipType, dir: Direction) -> (r: Vec<&Entity>)
        requires
            self.wf(),
        ensures
            r@.map_values(|e: &Entity| *e) == neighbor_seq(
                self.entities@,
                self.edges@,
                rel,
                id,
                dir,
            ),
    {
        let n = self.edges.len();
        let ne = self.entities.len();
        let mut out: Vec<&Entity> = Vec::new();
        let mut k: usize = 0;
        while k < n
            invariant
                n == self.edges@.len(),
                ne == self.entities@.len(),
                0 <= k <= n,
                self.wf(),
                out@.map_values(|e: &Entity| *e) == neighbor_seq(
                    self.entities@,
                    self.edges@.take(k as int),
                    rel,
                    id,
                    dir,
                ),
            decreases n - k,
        {
            proof {
                assert(self.edges@.take(k as int + 1).drop_last() =~= self.edges@.take(k as int));
                assert(self.edges@.take(k as int + 1).last() == self.edges@[k as int]);
            }
            let ghost out_before = out@;
            let ed = self.edges[k];
            let touches = ed.rel == rel && (match dir {
                Direction::Outgoing => ed.source == id,
                Direction::Incoming => ed.target == id,
            });
            if touches {
                let far: u64 = match dir {
                    Direction::Outgoing => ed.target,
                    Direction::Incoming => ed.source,
                };
                proof {
                    assert(edge_ok(self.entities@, self.edges@[k as int]));
                    assert(far < self.entities@.len());
                }
                let e = &self.entities[far as usize];
                out.push(e);
                proof {
                    assert(*e == self.entities@[far as int]);
                    assert(out@.map_values(|x: &Entity| *x) =~= out_before.map_values(
                        |x: &Entity| *x,
                    ).push(*e));
                }
            }
            k += 1;
        }
        proof {
            assert(self.edges@.take(n as int) =~= self.edges@);
        }
        out
    }

    /// Updates a project's mutable attributes in place; its name, being the
    /// unique key, is immutable.
    pub fn update_project(&mut self, id: u64, description: Option<String>, now: i64) -> (r: Result<
        (),
        GraphError,
    >)
        requires
            old(self).wf(),
        ensures
            final(self).wf(),
            final(self).edges@ == old(self).edges@,
            final(self).schema_applied@ == old(self).schema_applied@,
            match r {
                Ok(_) => {
                    &&& has_entity(old(self).entities@, id, EntityType::Project)
                    &&& (old(self).entities@[id as int] matches Entity::Project(p)
                        && final(self).entities@ == old(self).entities@.update(
                        id as int,
                        Entity::Project((Project { description, updated_at: now, ..p })),
                    ))
                },
                Err(e) => {
                    &&& e == GraphError::NotFound
                    &&& !has_entity(old(self).entities@, id, EntityType::Project)
                    &&& final(self).entities@ == old(self).entities@
                },
            },
    {
        if !self.entity_is(id, EntityType::Project) {
            return Err(GraphError::NotFound);
        }
        let _len: usize = self.entities.len();
        let i = id as usize;
        let v: Entity = match &self.entities[i] {
            Entity::Project(p) => Entity::Project(
                Project {
                    id: p.id,
                    name: p.name.clone(),
                    description,
                    created_at: p.created_at,
                    updated_at: now,
                },
            ),
            _ => {
                return Err(GraphError::NotFound);
            },
        };
        proof {
            assert(same_identity(self.entities@[id as int], v));
            lemma_wf_update_entity(self.entities@, self.edges@, id as int, v);
        }
        self.entities[i] = v;
        Ok(())
    }

    /// Updates a repository's mutable attributes in place; its url, being
    /// the unique key, is immutable.
    pub fn update_repository(
        &mut self,
        id: u64,
        local_path: Option<String>,
        now: i64,
    ) -> (r: Result<(), GraphError>)
        requires
            old(self).wf(),
        ensures
            final(self).wf(),
            final(self).edges@ == old(self).edges@,
            final(self).schema_applied@ == old(self).schema_applied@,
            match r {
                Ok(_) => {
                    &&& has_entity(old(self).entities@, id, EntityType::Repository)
                    &&& (old(self).entities@[id as int] matches Entity::Repository(p)
                        && final(self).entities@ == old(self).entities@.update(
                        id as int,
                        Entity::Repository((Repository { local_path, updated_at: now, ..p })),
                    ))
                },
                Err(e) => {
                    &&& e == GraphError::NotFound
                    &&& !has_entity(old(self).entities@, id, EntityType::Repository)
                    &&& final(self).entities@ == old(self).entities@
                },
            },
    {
        if !self.entity_is(id, EntityType::Repository) {
            return Err(GraphError::NotFound);
        }
        let _len: usize = self.entities.len();
        let i = id as usize;
        let v: Entity = match &self.entities[i] {
            Entity::Repository(p) => Entity::Repository(
                Repository {
                    id: p.id,
                    url: p.url.clone(),
                    local_path,
                    created_at: p.created_at,
                    updated_at: now,
                },
            ),
            _ => {
                return Err(GraphError::NotFound);
            },
        };
        proof {
            assert(same_identity(self.entities@[id as int], v));
            lemma_wf_update_entity(self.entities@, self.edges@, id as int, v);
        }
        self.entities[i] = v;
        Ok(())
    }

    /// Sets a branch's working flag in place.
    pub fn update_branch(&mut self, id: u64, is_working_branch: bool) -> (r: Result<
        (),
        GraphError,
    >)
        requires
            old(self).wf(),
        ensures
            final(self).wf(),
            final(self).edges@ == old(self).edges@,
            final(self).schema_applied@ == old(self).schema_applied@,
            match r {
                Ok(_) => {
                    &&& has_entity(old(self).entities@, id, EntityType::Branch)
                    &&& (old(self).entities@[id as int] matches Entity::Branch(p)
                        && final(self).entities@ == old(self).entities@.update(
                        id as int,
                        Entity::Branch((Branch { is_working_branch, ..p })),
                    ))
                },
                Err(e) => {
                    &&& e == GraphError::NotFound
                    &&& !has_entity(old(self).entities@, id, EntityType::Branch)
                    &&& final(self).entities@ == old(self).entities@
                },
            },
    {
        if !self.entity_is(id, EntityType::Branch) {
            return Err(GraphError::NotFound);
        }
        let _len: usize = self.entities.len();
        let i = id as usize;
        let v: Entity = match &self.entities[i] {
            Entity::Branch(p) => Entity::Branch(
                Branch {
                    id: p.id,
                    name: p.name.clone(),
                    repository_id: p.repository_id,
                    is_working_branch,
                    created_at: p.created_at,
                },
            ),
            _ => {
                return Err(GraphError::NotFound);
            },
        };
        proof {
            assert(same_identity(self.entities@[id as int], v));
            lemma_wf_update_entity(self.entities@, self.edges@, id as int, v);
        }
        self.entities[i] = v;
        Ok(())
    }

    /// Updates a pull request's title and status in place; its references
    /// are immutable.
    pub fn update_pull_request(
        &mut self,
        id: u64,
        title: String,
        status: PullRequestStatus,
        now: i64,
    ) -> (r: Result<(), GraphError>)
        requires
            old(self).wf(),
        ensures
            final(self).wf(),
            final(self).edges@ == old(self).edges@,
            final(self).schema_applied@ == old(self).schema_applied@,
            match r {
                Ok(_) => {
                    &&& has_entity(old(self).entities@, id, EntityType::PullRequest)
                    &&& (old(self).entities@[id as int] matches Entity::PullRequest(p)
                        && final(self).entities@ == old(self).entities@.update(
                        id as int,
                        Entity::PullRequest(
                            (PullRequest { title, status, updated_at: now, ..p }),
                        ),
                    ))
                },
                Err(e) => {
                    &&& e == GraphError::NotFound
                    &&& !has_entity(old(self).entities@, id, EntityType::PullRequest)
                    &&& final(self).entities@ == old(self).entities@
                },
            },
    {
        if !self.entity_is(id, EntityType::PullRequest) {
            return Err(GraphError::NotFound);
        }
        let _len: usize = self.entities.len();
        let i = id as usize;
        let v: Entity = match &self.entities[i] {
            Entity::PullRequest(p) => Entity::PullRequest(
                PullRequest {
                    id: p.id,
                    number: p.number.clone(),
                    title,
                    repository_id: p.repository_id,
                    source_branch_id: p.source_branch_id,
                    target_branch_id: p.target_branch_id,
                    status,
                    created_at: p.created_at,
                    updated_at: now,
                },
            ),
            _ => {
                return Err(GraphError::NotFound);
            },
        };
        proof {
            assert(same_identity(self.entities@[id as int], v));
            lemma_wf_update_entity(self.entities@, self.edges@, id as int, v);
        }
        self.entities[i] = v;
        Ok(())
    }

    /// Updates a ticket's title, status and kind in place; its ticket_id,
    /// being the unique key, is immutable.
    pub fn update_ticket(
        &mut self,
        id: u64,
        title: String,
        status: TicketStatus,
        ticket_type: TicketType,
        now: i64,
    ) -> (r: Result<(), GraphError>)
        requires
            old(self).wf(),
        ensures
            final(self).wf(),
            final(self).edges@ == old(self).edges@,
            final(self).schema_applied@ == old(self).schema_applied@,
            match r {
                Ok(_) => {
                    &&& has_entity(old(self).entities@, id, EntityType::Ticket)
                    &&& (old(self).entities@[id as int] matches Entity::Ticket(p)
                        && final(self).entities@ == old(self).entities@.update(
                        id as int,
                        Entity::Ticket(
                            (Ticket { title, status, ticket_type, updated_at: now, ..p }),
                        ),
                    ))
                },
                Err(e) => {
                    &&& e == GraphError::NotFound
                    &&& !has_entity(old(self).entities@, id, EntityType::Ticket)
                    &&& final(self).entities@ == old(self).entities@
                },
            },
    {
        if !self.entity_is(id, EntityType::Ticket) {
            return Err(GraphError::NotFound);
        }
        let _len: usize = self.entities.len();
        let i = id as usize;
        let v: Entity = match &self.entities[i] {
            Entity::Ticket(p) => Entity::Ticket(
                Ticket {
                    id: p.id,
                    ticket_id: p.ticket_id.clone(),
                    title,
                    status,
                    ticket_type,
                    created_at: p.created_at,
                    updated_at: now,
                },
            ),
            _ => {
                return Err(GraphError::NotFound);
            },
        };
        proof {
            assert(same_identity(self.entities@[id as int], v));
            lemma_wf_update_entity(self.entities@, self.edges@, id as int, v);
        }
        self.entities[i] = v;
        Ok(())
    }

    /// Renames a dashboard in place; its url, being the unique key, is
    /// immutable.
    pub fn update_dashboard(&mut self, id: u64, name: String, dashboard_type: DashboardType) -> (r:
        Result<(), GraphError>)
        requires
            old(self).wf(),
        ensures
            final(self).wf(),
            final(self).edges@ == old(self).edges@,
            final(self).schema_applied@ == old(self).schema_applied@,
            match r {
                Ok(_) => {
                    &&& has_entity(old(self).entities@, id, EntityType::Dashboard)
                    &&& (old(self).entities@[id as int] matches Entity::Dashboard(p)
                        && final(self).entities@ == old(self).entities@.update(
                        id as int,
                        Entity::Dashboard((Dashboard { name, dashboard_type, ..p })),
                    ))
                },
                Err(e) => {
                    &&& e == GraphError::NotFound
                    &&& !has_entity(old(self).entities@, id, EntityType::Dashboard)
                    &&& final(self).entities@ == old(self).entities@
                },
            },
    {
        if !self.entity_is(id, EntityType::Dashboard) {
            return Err(GraphError::NotFound);
        }
        let _len: usize = self.entities.len();
        let i = id as usize;
        let v: Entity = match &self.entities[i] {
            Entity::Dashboard(p) => Entity::Dashboard(
                Dashboard {
                    id: p.id,
                    url: p.url.clone(),
                    name,
                    dashboard_type,
                    created_at: p.created_at,
                },
            ),
            _ => {
                return Err(GraphError::NotFound);
            },
        };
        proof {
            assert(same_identity(self.entities@[id as int], v));
            lemma_wf_update_entity(self.entities@, self.edges@, id as int, v);
        }
        self.entities[i] = v;
        Ok(())
    }

    /// Renames a notebook in place; its url, being the unique key, is
    /// immutable.
    pub fn update_notebook(&mut self, id: u64, name: String, notebook_type: NotebookType) -> (r:
        Result<(), GraphError>)
        requires
            old(self).wf(),
        ensures
            final(self).wf(),
            final(self).edges@ == old(self).edges@,
            final(self).schema_applied@ == old(self).schema_applied@,
            match r {
                Ok(_) => {
                    &&& has_entity(old(self).entities@, id, EntityType::Notebook)
                    &&& (old(self).entities@[id as int] matches Entity::Notebook(p)
                        && final(self).entities@ == old(self).entities@.update(
                        id as int,
                        Entity::Notebook((Notebook { name, notebook_type, ..p })),
                    ))
                },
                Err(e) => {
                    &&& e == GraphError::NotFound
                    &&& !has_entity(old(self).entities@, id, EntityType::Notebook)
                    &&& final(self).entities@ == old(self).entities@
                },
            },
    {
        if !self.entity_is(id, EntityType::Notebook) {
            return Err(GraphError::NotFound);
        }
        let _len: usize = self.entities.len();
        let i = id as usize;
        let v: Entity = match &self.entities[i] {
            Entity::Notebook(p) => Entity::Notebook(
                Notebook {
                    id: p.id,
                    url: p.url.clone(),
                    name,
                    notebook_type,
                    created_at: p.created_at,
                },
            ),
            _ => {
                return Err(GraphError::NotFound);
            },
        };
        proof {
            assert(same_identity(self.entities@[id as int], v));
            lemma_wf_update_entity(self.entities@, self.edges@, id as int, v);
        }
        self.entities[i] = v;
        Ok(())
    }

    /// Changes a CI pipeline's kind in place; its name and url, forming the
    /// unique key, are immutable.
    pub fn update_ci_pipeline(&mut self, id: u64, pipeline_type: PipelineType) -> (r: Result<
        (),
        GraphError,
    >)
        requires
            old(self).wf(),
        ensures
            final(self).wf(),
            final(self).edges@ == old(self).edges@,
            final(self).schema_applied@ == old(self).schema_applied@,
            match r {
                Ok(_) => {
                    &&& has_entity(old(self).entities@, id, EntityType::CIPipeline)
                    &&& (old(self).entities@[id as int] matches Entity::CIPipeline(p)
                        && final(self).entities@ == old(self).entities@.update(
                        id as int,
                        Entity::CIPipeline((CIPipeline { pipeline_type, ..p })),
                    ))
                },
                Err(e) => {
                    &&& e == GraphError::NotFound
                    &&& !has_entity(old(self).entities@, id, EntityType::CIPipeline)
                    &&& final(self).entities@ == old(self).entities@
                },
            },
    {
        if !self.entity_is(id, EntityType::CIPipeline) {
            return Err(GraphError::NotFound);
        }
        let _len: usize = self.entities.len();
        let i = id as usize;
        let v: Entity = match &self.entities[i] {
            Entity::CIPipeline(p) => Entity::CIPipeline(
                CIPipeline {
                    id: p.id,
                    name: p.name.clone(),
                    url: p.url.clone(),
                    pipeline_type,
                    created_at: p.created_at,
                },
            ),
            _ => {
                return Err(GraphError::NotFound);
            },
        };
        proof {
            assert(same_identity(self.entities@[id as int], v));
            lemma_wf_update_entity(self.entities@, self.edges@, id as int, v);
        }
        self.entities[i] = v;
        Ok(())
    }
}

/// Filtering a relationship's edges at an entity down to the entities at the
/// far end, in edge order.
pub open spec fn neighbor_seq(
    s: Seq<Entity>,
    eds: Seq<Edge>,
    rel: RelationshipType,
    id: u64,
    dir: Direction,
) -> Seq<Entity>
    decreases eds.len(),
{
    if eds.len() == 0 {
        Seq::empty()
    } else {
        let prefix = neighbor_seq(s, eds.drop_last(), rel, id, dir);
        let e = eds.last();
        let touches = e.rel == rel && (match dir {
            Direction::Outgoing => e.source == id,
            Direction::Incoming => e.target == id,
        });
        let far = match dir {
            Direction::Outgoing => e.target,
            Direction::Incoming => e.source,
        };
        if touches && far < s.len() {
            prefix.push(s[far as int])
        } else {
            prefix
        }
    }
}

/// The entities of one type, in order of creation.
pub open spec fn entities_of_type(s: Seq<Entity>, t: EntityType) -> Seq<Entity>
    decreases s.len(),
{
    if s.len() == 0 {
        Seq::empty()
    } else {
        let prefix = entities_of_type(s.drop_last(), t);
        if s.last().spec_type() == t {
            prefix.push(s.last())
        } else {
            prefix
        }
    }
}

/// The edges left after removing every copy of `key`.
pub open spec fn remove_edges(eds: Seq<Edge>, key: Edge) -> Seq<Edge>
    decreases eds.len(),
{
    if eds.len() == 0 {
        Seq::empty()
    } else {
        let prefix = remove_edges(eds.drop_last(), key);
        if eds.last() == key {
            prefix
        } else {
            prefix.push(eds.last())
        }
    }
}

/// Whether an update keeps an entity's identity: its variant, its
/// identifier, its declared unique key, and the references other entities
/// or edges may rely on.
pub open spec fn same_identity(a: Entity, b: Entity) -> bool {
    match (a, b) {
        (Entity::Project(x), Entity::Project(y)) => x.id == y.id && x.name@ == y.name@,
        (Entity::Repository(x), Entity::Repository(y)) => x.id == y.id && x.url@ == y.url@,
        (Entity::Branch(x), Entity::Branch(y)) => x.id == y.id && x.name@ == y.name@
            && x.repository_id == y.repository_id,
        (Entity::PullRequest(x), Entity::PullRequest(y)) => x.id == y.id && x.repository_id
            == y.repository_id && x.source_branch_id == y.source_branch_id && x.target_branch_id
            == y.target_branch_id,
        (Entity::Ticket(x), Entity::Ticket(y)) => x.id == y.id && x.ticket_id@ == y.ticket_id@,
        (Entity::Dashboard(x), Entity::Dashboard(y)) => x.id == y.id && x.url@ == y.url@,
        (Entity::Notebook(x), Entity::Notebook(y)) => x.id == y.id && x.url@ == y.url@,
        (Entity::CIPipeline(x), Entity::CIPipeline(y)) => x.id == y.id && x.name@ == y.name@
            && x.url@ == y.url@,
        _ => false,
    }
}

/// Replacing an entity with one of the same identity cannot break another
/// entity's references.
proof fn lemma_refs_ok_update(s: Seq<Entity>, i: int, v: Entity, e: Entity)
    requires
        0 <= i < s.len(),
        same_identity(s[i], v),
        entity_refs_ok(s, e),
    ensures
        entity_refs_ok(s.update(i, v), e),
{
    let s2 = s.update(i, v);
    assert(v.spec_type() == s[i].spec_type());
    assert forall|id: u64, t: EntityType| has_entity(s, id, t) implies has_entity(s2, id, t) by {
        if id != i {
            assert(s2[id as int] == s[id as int]);
        }
    }
    match e {
        Entity::Branch(b) => {},
        Entity::PullRequest(p) => {
            if p.source_branch_id != i {
                assert(s2[p.source_branch_id as int] == s[p.source_branch_id as int]);
            }
            if p.target_branch_id != i {
                assert(s2[p.target_branch_id as int] == s[p.target_branch_id as int]);
            }
        },
        _ => {},
    }
}

/// Replacing an entity with one of the same identity cannot break an edge.
proof fn lemma_edge_ok_update(s: Seq<Entity>, i: int, v: Entity, e: Edge)
    requires
        0 <= i < s.len(),
        same_identity(s[i], v),
        edge_ok(s, e),
    ensures
        edge_ok(s.update(i, v), e),
{
    let s2 = s.update(i, v);
    assert(v.spec_type() == s[i].spec_type());
    if e.source != i {
        assert(s2[e.source as int] == s[e.source as int]);
    }
    if e.target != i {
        assert(s2[e.target as int] == s[e.target as int]);
    }
}

/// Replacing an entity with one of the same identity keeps the store
/// well-formed.
proof fn lemma_wf_update_entity(s: Seq<Entity>, eds: Seq<Edge>, i: int, v: Entity)
    requires
        store_wf(s, eds),
        0 <= i < s.len(),
        same_identity(s[i], v),
    ensures
        store_wf(s.update(i, v), eds),
{
    let s2 = s.update(i, v);
    assert(v.spec_id() == s[i].spec_id());
    assert forall|j: int| 0 <= j < s2.len() implies (#[trigger] s2[j]).spec_id() == j as u64 by {
        if j != i {
            assert(s2[j] == s[j]);
        }
    }
    assert forall|j: int, k: int|
        0 <= j < k < s2.len() implies !same_unique_key(#[trigger] s2[j], #[trigger] s2[k]) by {
        if j == i {
            assert(s2[k] == s[k]);
            assert(!same_unique_key(s[i], s[k]));
        } else if k == i {
            assert(s2[j] == s[j]);
            assert(!same_unique_key(s[j], s[i]));
        } else {
            assert(s2[j] == s[j] && s2[k] == s[k]);
        }
    }
    assert forall|j: int| 0 <= j < s2.len() implies entity_refs_ok(s2, #[trigger] s2[j]) by {
        if j == i {
            assert(entity_refs_ok(s, s[i]));
            assert(entity_refs_ok(s, v));
            lemma_refs_ok_update(s, i, v, v);
        } else {
            assert(s2[j] == s[j]);
            lemma_refs_ok_update(s, i, v, s[j]);
        }
    }
    assert forall|k: int| 0 <= k < eds.len() implies edge_ok(s2, #[trigger] eds[k]) by {
        lemma_edge_ok_update(s, i, v, eds[k]);
    }
}

/// After an entity is created, its declared unique key is occupied: a second
/// creation with the same key must report a duplicate.  One statement per
/// keyed entity type.
pub proof fn lemma_project_key_occupied(s: Seq<Entity>, p: Project)
    ensures
        has_project_named(s.push(Entity::Project(p)), p.name@),
{
    let s2 = s.push(Entity::Project(p));
    assert(is_project_named(s2[s.len() as int], p.name@));
}

pub proof fn lemma_repository_key_occupied(s: Seq<Entity>, p: Repository)
    ensures
        has_repository_at(s.push(Entity::Repository(p)), p.url@),
{
    let s2 = s.push(Entity::Repository(p));
    assert(is_repository_at(s2[s.len() as int], p.url@));
}

pub proof fn lemma_branch_key_occupied(s: Seq<Entity>, p: Branch)
    ensures
        has_branch_keyed(s.push(Entity::Branch(p)), p.name@, p.repository_id),
{
    let s2 = s.push(Entity::Branch(p));
    assert(is_branch_keyed(s2[s.len() as int], p.name@, p.repository_id));
}

pub proof fn lemma_ticket_key_occupied(s: Seq<Entity>, p: Ticket)
    ensures
        has_ticket_keyed(s.push(Entity::Ticket(p)), p.ticket_id@),
{
    let s2 = s.push(Entity::Ticket(p));
    assert(is_ticket_keyed(s2[s.len() as int], p.ticket_id@));
}

pub proof fn lemma_dashboard_key_occupied(s: Seq<Entity>, p: Dashboard)
    ensures
        has_dashboard_at(s.push(Entity::Dashboard(p)), p.url@),
{
    let s2 = s.push(Entity::Dashboard(p));
    assert(is_dashboard_at(s2[s.len() as int], p.url@));
}

pub proof fn lemma_notebook_key_occupied(s: Seq<Entity>, p: Notebook)
    ensures
        has_notebook_at(s.push(Entity::Notebook(p)), p.url@),
{
    let s2 = s.push(Entity::Notebook(p));
    assert(is_notebook_at(s2[s.len() as int], p.url@));
}

pub proof fn lemma_pipeline_key_occupied(s: Seq<Entity>, p: CIPipeline)
    ensures
        has_pipeline_keyed(s.push(Entity::CIPipeline(p)), p.name@, p.url@),
{
    let s2 = s.push(Entity::CIPipeline(p));
    assert(is_pipeline_keyed(s2[s.len() as int], p.name@, p.url@));
}

} // verus!
