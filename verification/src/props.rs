//! Canonical property mappings: the persisted form of every entity.
//!
//! Serializing an entity yields a mapping from attribute names to scalar
//! values, ready for persistence; deserializing a mapping reconstructs the
//! typed entity or names the first missing or mistyped field.  Enumerated
//! values travel as their canonical strings.  Serializing and then
//! deserializing gives the entity back, attribute for attribute.

use vstd::prelude::*;
use crate::errors::GraphError;
use crate::models::{
    Branch, CIPipeline, Dashboard, DashboardType, Entity, EntityType, NotebookType, Notebook,
    PipelineType, Project, PullRequest, PullRequestStatus, Repository, Ticket, TicketStatus,
    TicketType, PropName,
};

verus! {

/// A scalar property value as persisted.
#[derive(Debug, Clone, PartialEq)]
pub enum PropValue {
    Str(String),
    Bool(bool),
    Int(i64),
    Id(u64),
}

/// The mathematical shadow of a scalar property value.
pub enum PropView {
    VStr(Seq<char>),
    VBool(bool),
    VInt(i64),
    VId(u64),
}

impl View for PropValue {
    type V = PropView;

    open spec fn view(&self) -> PropView {
        match self {
            PropValue::Str(s) => PropView::VStr(s@),
            PropValue::Bool(b) => PropView::VBool(*b),
            PropValue::Int(v) => PropView::VInt(*v),
            PropValue::Id(v) => PropView::VId(*v),
        }
    }
}

/// An attribute-name-to-value mapping; the first entry for a name wins.
#[derive(Debug, Clone, PartialEq)]
pub struct PropertyMap {
    pub entries: Vec<(PropName, PropValue)>,
}

/// The value under `k` from position `i` on.
pub open spec fn lookup_from(s: Seq<(PropName, PropView)>, i: int, k: PropName) -> Option<PropView>
    decreases s.len() - i,
{
    if i < 0 || i >= s.len() {
        None
    } else if s[i].0 == k {
        Some(s[i].1)
    } else {
        lookup_from(s, i + 1, k)
    }
}

/// The value under `k`, if any.
pub open spec fn lookup(s: Seq<(PropName, PropView)>, k: PropName) -> Option<PropView> {
    lookup_from(s, 0, k)
}

impl View for PropertyMap {
    type V = Seq<(PropName, PropView)>;

    open spec fn view(&self) -> Seq<(PropName, PropView)> {
        self.entries@.map_values(|p: (PropName, PropValue)| (p.0, p.1.view()))
    }
}

impl PropertyMap {
    /// An empty mapping.
    pub fn new() -> (m: PropertyMap)
        ensures
            m@ == Seq::<(PropName, PropView)>::empty(),
    {
        let m = PropertyMap { entries: Vec::new() };
        proof {
            assert(m@ =~= Seq::<(PropName, PropView)>::empty());
        }
        m
    }

    /// Appends an attribute.
    pub fn put(&mut self, k: PropName, v: PropValue)
        ensures
            final(self)@ == old(self)@.push((k, v@)),
    {
        self.entries.push((k, v));
        proof {
            assert(self@ =~= old(self)@.push((k, v@)));
        }
    }

    /// Reads the value under an attribute name, if present.
    pub fn get(&self, k: PropName) -> (r: Option<&PropValue>)
        ensures
            match r {
                Some(v) => lookup(self@, k) == Some(v@),
                None => lookup(self@, k) == None::<PropView>,
            },
    {
        let n = self.entries.len();
        let mut i: usize = 0;
        while i < n
            invariant
                n == self.entries@.len(),
                0 <= i <= n,
                lookup(self@, k) == lookup_from(self@, i as int, k),
            decreases n - i,
        {
            let pair = &self.entries[i];
            proof {
                assert(self@[i as int] == (pair.0, pair.1.view()));
            }
            if pair.0 == k {
                return Some(&pair.1);
            }
            i += 1;
        }
        None
    }
}

/// Reads a required identifier-valued field.
pub open spec fn take_id(s: Seq<(PropName, PropView)>, k: PropName) -> Result<u64, GraphError> {
    match lookup(s, k) {
        Some(PropView::VId(v)) => Ok(v),
        _ => Err(GraphError::Deserialization(k)),
    }
}

/// Reads a required string-valued field.
pub open spec fn take_str(s: Seq<(PropName, PropView)>, k: PropName) -> Result<
    Seq<char>,
    GraphError,
> {
    match lookup(s, k) {
        Some(PropView::VStr(v)) => Ok(v),
        _ => Err(GraphError::Deserialization(k)),
    }
}

/// Reads an optional string-valued field; absence is a plain `None`.
pub open spec fn take_opt_str(s: Seq<(PropName, PropView)>, k: PropName) -> Result<
    Option<Seq<char>>,
    GraphError,
> {
    match lookup(s, k) {
        None => Ok(None),
        Some(PropView::VStr(v)) => Ok(Some(v)),
        Some(_) => Err(GraphError::Deserialization(k)),
    }
}

/// Reads a required integer-valued field.
pub open spec fn take_int(s: Seq<(PropName, PropView)>, k: PropName) -> Result<i64, GraphError> {
    match lookup(s, k) {
        Some(PropView::VInt(v)) => Ok(v),
        _ => Err(GraphError::Deserialization(k)),
    }
}

/// Reads a required boolean-valued field.
pub open spec fn take_bool(s: Seq<(PropName, PropView)>, k: PropName) -> Result<bool, GraphError> {
    match lookup(s, k) {
        Some(PropView::VBool(v)) => Ok(v),
        _ => Err(GraphError::Deserialization(k)),
    }
}

fn get_id(m: &PropertyMap, k: PropName) -> (r: Result<u64, GraphError>)
    ensures
        r == take_id(m@, k),
{
    match m.get(k) {
        Some(PropValue::Id(v)) => Ok(*v),
        _ => Err(GraphError::Deserialization(k)),
    }
}

fn get_str(m: &PropertyMap, k: PropName) -> (r: Result<String, GraphError>)
    ensures
        match r {
            Ok(s) => take_str(m@, k) == Ok::<Seq<char>, GraphError>(s@),
            Err(e) => take_str(m@, k) == Err::<Seq<char>, GraphError>(e),
        },
{
    match m.get(k) {
        Some(PropValue::Str(v)) => Ok(v.clone()),
        _ => Err(GraphError::Deserialization(k)),
    }
}

fn get_opt_str(m: &PropertyMap, k: PropName) -> (r: Result<Option<String>, GraphError>)
    ensures
        match r {
            Ok(s) => take_opt_str(m@, k) == Ok::<Option<Seq<char>>, GraphError>(
                match s {
                    Some(v) => Some(v@),
                    None => None,
                },
            ),
            Err(e) => take_opt_str(m@, k) == Err::<Option<Seq<char>>, GraphError>(e),
        },
{
    match m.get(k) {
        None => Ok(None),
        Some(PropValue::Str(v)) => Ok(Some(v.clone())),
        Some(_) => Err(GraphError::Deserialization(k)),
    }
}

fn get_int(m: &PropertyMap, k: PropName) -> (r: Result<i64, GraphError>)
    ensures
        r == take_int(m@, k),
{
    match m.get(k) {
        Some(PropValue::Int(v)) => Ok(*v),
        _ => Err(GraphError::Deserialization(k)),
    }
}

fn get_bool(m: &PropertyMap, k: PropName) -> (r: Result<bool, GraphError>)
    ensures
        r == take_bool(m@, k),
{
    match m.get(k) {
        Some(PropValue::Bool(v)) => Ok(*v),
        _ => Err(GraphError::Deserialization(k)),
    }
}

/// Attribute-level shadows of the entity structs.
pub struct ProjectView {
    pub id: u64,
    pub name: Seq<char>,
    pub description: Option<Seq<char>>,
    pub created_at: i64,
    pub updated_at: i64,
}

pub struct RepositoryView {
    pub id: u64,
    pub url: Seq<char>,
    pub local_path: Option<Seq<char>>,
    pub created_at: i64,
    pub updated_at: i64,
}

pub struct BranchView {
    pub id: u64,
    pub name: Seq<char>,
    pub repository_id: u64,
    pub is_working_branch: bool,
    pub created_at: i64,
}

pub struct PullRequestView {
    pub id: u64,
    pub number: Seq<char>,
    pub title: Seq<char>,
    pub repository_id: u64,
    pub source_branch_id: u64,
    pub target_branch_id: u64,
    pub status: PullRequestStatus,
    pub created_at: i64,
    pub updated_at: i64,
}

pub struct TicketView {
    pub id: u64,
    pub ticket_id: Seq<char>,
    pub title: Seq<char>,
    pub status: TicketStatus,
    pub ticket_type: TicketType,
    pub created_at: i64,
    pub updated_at: i64,
}

pub struct DashboardView {
    pub id: u64,
    pub url: Seq<char>,
    pub name: Seq<char>,
    pub dashboard_type: DashboardType,
    pub created_at: i64,
}

pub struct NotebookView {
    pub id: u64,
    pub url: Seq<char>,
    pub name: Seq<char>,
    pub notebook_type: NotebookType,
    pub created_at: i64,
}

pub struct CIPipelineView {
    pub id: u64,
    pub name: Seq<char>,
    pub url: Seq<char>,
    pub pipeline_type: PipelineType,
    pub created_at: i64,
}

impl View for Project {
    type V = ProjectView;

    open spec fn view(&self) -> ProjectView {
        ProjectView {
            id: self.id,
            name: self.name@,
            description: match self.description {
                Some(d) => Some(d@),
                None => None,
            },
            created_at: self.created_at,
            updated_at: self.updated_at,
        }
    }
}

impl View for Repository {
    type V = RepositoryView;

    open spec fn view(&self) -> RepositoryView {
        RepositoryView {
            id: self.id,
            url: self.url@,
            local_path: match self.local_path {
                Some(d) => Some(d@),
                None => None,
            },
            created_at: self.created_at,
            updated_at: self.updated_at,
        }
    }
}

impl View for Branch {
    type V = BranchView;

    open spec fn view(&self) -> BranchView {
        BranchView {
            id: self.id,
            name: self.name@,
            repository_id: self.repository_id,
            is_working_branch: self.is_working_branch,
            created_at: self.created_at,
        }
    }
}

impl View for PullRequest {
    type V = PullRequestView;

    open spec fn view(&self) -> PullRequestView {
        PullRequestView {
            id: self.id,
            number: self.number@,
            title: self.title@,
            repository_id: self.repository_id,
            source_branch_id: self.source_branch_id,
            target_branch_id: self.target_branch_id,
            status: self.status,
            created_at: self.created_at,
            updated_at: self.updated_at,
        }
    }
}

impl View for Ticket {
    type V = TicketView;

    open spec fn view(&self) -> TicketView {
        TicketView {
            id: self.id,
            ticket_id: self.ticket_id@,
            title: self.title@,
            status: self.status,
            ticket_type: self.ticket_type,
            created_at: self.created_at,
            updated_at: self.updated_at,
        }
    }
}

impl View for Dashboard {
    type V = DashboardView;

    open spec fn view(&self) -> DashboardView {
        DashboardView {
            id: self.id,
            url: self.url@,
            name: self.name@,
            dashboard_type: self.dashboard_type,
            created_at: self.created_at,
        }
    }
}

impl View for Notebook {
    type V = NotebookView;

    open spec fn view(&self) -> NotebookView {
        NotebookView {
            id: self.id,
            url: self.url@,
            name: self.name@,
            notebook_type: self.notebook_type,
            created_at: self.created_at,
        }
    }
}

impl View for CIPipeline {
    type V = CIPipelineView;

    open spec fn view(&self) -> CIPipelineView {
        CIPipelineView {
            id: self.id,
            name: self.name@,
            url: self.url@,
            pipeline_type: self.pipeline_type,
            created_at: self.created_at,
        }
    }
}

/// The canonical mapping of a project.
pub open spec fn spec_serialize_project(p: ProjectView) -> Seq<(PropName, PropView)> {
    let base = seq![
        (PropName::Id, PropView::VId(p.id)),
        (PropName::Name, PropView::VStr(p.name)),
    ];
    let mid = match p.description {
        Some(d) => base.push((PropName::Description, PropView::VStr(d))),
        None => base,
    };
    mid + seq![
        (PropName::CreatedAt, PropView::VInt(p.created_at)),
        (PropName::UpdatedAt, PropView::VInt(p.updated_at)),
    ]
}

pub open spec fn spec_deserialize_project(s: Seq<(PropName, PropView)>) -> Result<
    ProjectView,
    GraphError,
> {
    match take_id(s, PropName::Id) {
        Err(e) => Err(e),
        Ok(id) => match take_str(s, PropName::Name) {
            Err(e) => Err(e),
            Ok(name) => match take_opt_str(s, PropName::Description) {
                Err(e) => Err(e),
                Ok(description) => match take_int(s, PropName::CreatedAt) {
                    Err(e) => Err(e),
                    Ok(created_at) => match take_int(s, PropName::UpdatedAt) {
                        Err(e) => Err(e),
                        Ok(updated_at) => Ok(
                            (ProjectView { id, name, description, created_at, updated_at }),
                        ),
                    },
                },
            },
        },
    }
}

pub fn serialize_project(p: &Project) -> (m: PropertyMap)
    ensures
        m@ == spec_serialize_project(p@),
{
    let mut m = PropertyMap::new();
    m.put(PropName::Id, PropValue::Id(p.id));
    m.put(PropName::Name, PropValue::Str(p.name.clone()));
    match &p.description {
        Some(d) => m.put(PropName::Description, PropValue::Str(d.clone())),
        None => {},
    }
    m.put(PropName::CreatedAt, PropValue::Int(p.created_at));
    m.put(PropName::UpdatedAt, PropValue::Int(p.updated_at));
    proof {
        assert(m@ =~= spec_serialize_project(p@));
    }
    m
}

pub fn deserialize_project(m: &PropertyMap) -> (r: Result<Project, GraphError>)
    ensures
        match spec_deserialize_project(m@) {
            Ok(v) => r matches Ok(p) && p@ == v,
            Err(e) => r matches Err(e2) && e2 == e,
        },
{
    let id = match get_id(m, PropName::Id) {
        Ok(v) => v,
        Err(e) => return Err(e),
    };
    let name = match get_str(m, PropName::Name) {
        Ok(v) => v,
        Err(e) => return Err(e),
    };
    let description = match get_opt_str(m, PropName::Description) {
        Ok(v) => v,
        Err(e) => return Err(e),
    };
    let created_at = match get_int(m, PropName::CreatedAt) {
        Ok(v) => v,
        Err(e) => return Err(e),
    };
    let updated_at = match get_int(m, PropName::UpdatedAt) {
        Ok(v) => v,
        Err(e) => return Err(e),
    };
    Ok(Project { id, name, description, created_at, updated_at })
}

/// Serializing a project and reading the mapping back yields the same
/// attributes.
pub proof fn lemma_project_round_trip(p: ProjectView)
    ensures
        spec_deserialize_project(spec_serialize_project(p)) == Ok::<ProjectView, GraphError>(p),
{
    reveal_with_fuel(lookup_from, 8);
    match p.description {
        Some(d) => {
            assert(spec_serialize_project(p) =~= seq![
                (PropName::Id, PropView::VId(p.id)),
                (PropName::Name, PropView::VStr(p.name)),
                (PropName::Description, PropView::VStr(d)),
                (PropName::CreatedAt, PropView::VInt(p.created_at)),
                (PropName::UpdatedAt, PropView::VInt(p.updated_at)),
            ]);
        },
        None => {
            assert(spec_serialize_project(p) =~= seq![
                (PropName::Id, PropView::VId(p.id)),
                (PropName::Name, PropView::VStr(p.name)),
                (PropName::CreatedAt, PropView::VInt(p.created_at)),
                (PropName::UpdatedAt, PropView::VInt(p.updated_at)),
            ]);
        },
    }
}

/// The canonical mapping of a repository.
pub open spec fn spec_serialize_repository(p: RepositoryView) -> Seq<(PropName, PropView)> {
    let base = seq![
        (PropName::Id, PropView::VId(p.id)),
        (PropName::Url, PropView::VStr(p.url)),
    ];
    let mid = match p.local_path {
        Some(d) => base.push((PropName::LocalPath, PropView::VStr(d))),
        None => base,
    };
    mid + seq![
        (PropName::CreatedAt, PropView::VInt(p.created_at)),
        (PropName::UpdatedAt, PropView::VInt(p.updated_at)),
    ]
}

pub open spec fn spec_deserialize_repository(s: Seq<(PropName, PropView)>) -> Result<
    RepositoryView,
    GraphError,
> {
    match take_id(s, PropName::Id) {
        Err(e) => Err(e),
        Ok(id) => match take_str(s, PropName::Url) {
            Err(e) => Err(e),
            Ok(url) => match take_opt_str(s, PropName::LocalPath) {
                Err(e) => Err(e),
                Ok(local_path) => match take_int(s, PropName::CreatedAt) {
                    Err(e) => Err(e),
                    Ok(created_at) => match take_int(s, PropName::UpdatedAt) {
                        Err(e) => Err(e),
                        Ok(updated_at) => Ok(
                            (RepositoryView { id, url, local_path, created_at, updated_at }),
                        ),
                    },
                },
            },
        },
    }
}

pub fn serialize_repository(p: &Repository) -> (m: PropertyMap)
    ensures
        m@ == spec_serialize_repository(p@),
{
    let mut m = PropertyMap::new();
    m.put(PropName::Id, PropValue::Id(p.id));
    m.put(PropName::Url, PropValue::Str(p.url.clone()));
    match &p.local_path {
        Some(d) => m.put(PropName::LocalPath, PropValue::Str(d.clone())),
        None => {},
    }
    m.put(PropName::CreatedAt, PropValue::Int(p.created_at));
    m.put(PropName::UpdatedAt, PropValue::Int(p.updated_at));
    proof {
        assert(m@ =~= spec_serialize_repository(p@));
    }
    m
}

pub fn deserialize_repository(m: &PropertyMap) -> (r: Result<Repository, GraphError>)
    ensures
        match spec_deserialize_repository(m@) {
            Ok(v) => r matches Ok(p) && p@ == v,
            Err(e) => r matches Err(e2) && e2 == e,
        },
{
    let id = match get_id(m, PropName::Id) {
        Ok(v) => v,
        Err(e) => return Err(e),
    };
    let url = match get_str(m, PropName::Url) {
        Ok(v) => v,
        Err(e) => return Err(e),
    };
    let local_path = match get_opt_str(m, PropName::LocalPath) {
        Ok(v) => v,
        Err(e) => return Err(e),
    };
    let created_at = match get_int(m, PropName::CreatedAt) {
        Ok(v) => v,
        Err(e) => return Err(e),
    };
    let updated_at = match get_int(m, PropName::UpdatedAt) {
        Ok(v) => v,
        Err(e) => return Err(e),
    };
    Ok(Repository { id, url, local_path, created_at, updated_at })
}

/// Serializing a repository and reading the mapping back yields the same
/// attributes.
pub proof fn lemma_repository_round_trip(p: RepositoryView)
    ensures
        spec_deserialize_repository(spec_serialize_repository(p)) == Ok::<
            RepositoryView,
            GraphError,
        >(p),
{
    reveal_with_fuel(lookup_from, 8);
    match p.local_path {
        Some(d) => {
            assert(spec_serialize_repository(p) =~= seq![
                (PropName::Id, PropView::VId(p.id)),
                (PropName::Url, PropView::VStr(p.url)),
                (PropName::LocalPath, PropView::VStr(d)),
                (PropName::CreatedAt, PropView::VInt(p.created_at)),
                (PropName::UpdatedAt, PropView::VInt(p.updated_at)),
            ]);
        },
        None => {
            assert(spec_serialize_repository(p) =~= seq![
                (PropName::Id, PropView::VId(p.id)),
                (PropName::Url, PropView::VStr(p.url)),
                (PropName::CreatedAt, PropView::VInt(p.created_at)),
                (PropName::UpdatedAt, PropView::VInt(p.updated_at)),
            ]);
        },
    }
}

/// The canonical mapping of a branch.
pub open spec fn spec_serialize_branch(p: BranchView) -> Seq<(PropName, PropView)> {
    seq![
        (PropName::Id, PropView::VId(p.id)),
        (PropName::Name, PropView::VStr(p.name)),
        (PropName::RepositoryId, PropView::VId(p.repository_id)),
        (PropName::IsWorkingBranch, PropView::VBool(p.is_working_branch)),
        (PropName::CreatedAt, PropView::VInt(p.created_at)),
    ]
}

pub open spec fn spec_deserialize_branch(s: Seq<(PropName, PropView)>) -> Result<
    BranchView,
    GraphError,
> {
    match take_id(s, PropName::Id) {
        Err(e) => Err(e),
        Ok(id) => match take_str(s, PropName::Name) {
            Err(e) => Err(e),
            Ok(name) => match take_id(s, PropName::RepositoryId) {
                Err(e) => Err(e),
                Ok(repository_id) => match take_bool(s, PropName::IsWorkingBranch) {
                    Err(e) => Err(e),
                    Ok(is_working_branch) => match take_int(s, PropName::CreatedAt) {
                        Err(e) => Err(e),
                        Ok(created_at) => Ok(
                            (BranchView {
                                id,
                                name,
                                repository_id,
                                is_working_branch,
                                created_at,
                            }),
                        ),
                    },
                },
            },
        },
    }
}

pub fn serialize_branch(p: &Branch) -> (m: PropertyMap)
    ensures
        m@ == spec_serialize_branch(p@),
{
    let mut m = PropertyMap::new();
    m.put(PropName::Id, PropValue::Id(p.id));
    m.put(PropName::Name, PropValue::Str(p.name.clone()));
    m.put(PropName::RepositoryId, PropValue::Id(p.repository_id));
    m.put(PropName::IsWorkingBranch, PropValue::Bool(p.is_working_branch));
    m.put(PropName::CreatedAt, PropValue::Int(p.created_at));
    proof {
        assert(m@ =~= spec_serialize_branch(p@));
    }
    m
}

pub fn deserialize_branch(m: &PropertyMap) -> (r: Result<Branch, GraphError>)
    ensures
        match spec_deserialize_branch(m@) {
            Ok(v) => r matches Ok(p) && p@ == v,
            Err(e) => r matches Err(e2) && e2 == e,
        },
{
    let id = match get_id(m, PropName::Id) {
        Ok(v) => v,
        Err(e) => return Err(e),
    };
    let name = match get_str(m, PropName::Name) {
        Ok(v) => v,
        Err(e) => return Err(e),
    };
    let repository_id = match get_id(m, PropName::RepositoryId) {
        Ok(v) => v,
        Err(e) => return Err(e),
    };
    let is_working_branch = match get_bool(m, PropName::IsWorkingBranch) {
        Ok(v) => v,
        Err(e) => return Err(e),
    };
    let created_at = match get_int(m, PropName::CreatedAt) {
        Ok(v) => v,
        Err(e) => return Err(e),
    };
    Ok(Branch { id, name, repository_id, is_working_branch, created_at })
}

/// Serializing a branch and reading the mapping back yields the same
/// attributes.
pub proof fn lemma_branch_round_trip(p: BranchView)
    ensures
        spec_deserialize_branch(spec_serialize_branch(p)) == Ok::<BranchView, GraphError>(p),
{
    reveal_with_fuel(lookup_from, 8);
}

/// The canonical mapping of a pull request; the status travels as its
/// canonical string.
pub open spec fn spec_serialize_pull_request(p: PullRequestView) -> Seq<(PropName, PropView)> {
    seq![
        (PropName::Id, PropView::VId(p.id)),
        (PropName::Number, PropView::VStr(p.number)),
        (PropName::Title, PropView::VStr(p.title)),
        (PropName::RepositoryId, PropView::VId(p.repository_id)),
        (PropName::SourceBranchId, PropView::VId(p.source_branch_id)),
        (PropName::TargetBranchId, PropView::VId(p.target_branch_id)),
        (PropName::Status, PropView::VStr(p.status.spec_label())),
        (PropName::CreatedAt, PropView::VInt(p.created_at)),
        (PropName::UpdatedAt, PropView::VInt(p.updated_at)),
    ]
}

pub open spec fn spec_deserialize_pull_request(s: Seq<(PropName, PropView)>) -> Result<
    PullRequestView,
    GraphError,
> {
    match take_id(s, PropName::Id) {
        Err(e) => Err(e),
        Ok(id) => match take_str(s, PropName::Number) {
            Err(e) => Err(e),
            Ok(number) => match take_str(s, PropName::Title) {
                Err(e) => Err(e),
                Ok(title) => match take_id(s, PropName::RepositoryId) {
                    Err(e) => Err(e),
                    Ok(repository_id) => match take_id(s, PropName::SourceBranchId) {
                        Err(e) => Err(e),
                        Ok(source_branch_id) => match take_id(s, PropName::TargetBranchId) {
                            Err(e) => Err(e),
                            Ok(target_branch_id) => match take_str(s, PropName::Status) {
                                Err(e) => Err(e),
                                Ok(sv) => match PullRequestStatus::spec_parse(sv) {
                                    None => Err(GraphError::Deserialization(PropName::Status)),
                                    Some(status) => match take_int(s, PropName::CreatedAt) {
                                        Err(e) => Err(e),
                                        Ok(created_at) => match take_int(s, PropName::UpdatedAt) {
                                            Err(e) => Err(e),
                                            Ok(updated_at) => Ok(
                                                (PullRequestView {
                                                    id,
                                                    number,
                                                    title,
                                                    repository_id,
                                                    source_branch_id,
                                                    target_branch_id,
                                                    status,
                                                    created_at,
                                                    updated_at,
                                                }),
                                            ),
                                        },
                                    },
                                },
                            },
                        },
                    },
                },
            },
        },
    }
}

pub fn serialize_pull_request(p: &PullRequest) -> (m: PropertyMap)
    ensures
        m@ == spec_serialize_pull_request(p@),
{
    let mut m = PropertyMap::new();
    m.put(PropName::Id, PropValue::Id(p.id));
    m.put(PropName::Number, PropValue::Str(p.number.clone()));
    m.put(PropName::Title, PropValue::Str(p.title.clone()));
    m.put(PropName::RepositoryId, PropValue::Id(p.repository_id));
    m.put(PropName::SourceBranchId, PropValue::Id(p.source_branch_id));
    m.put(PropName::TargetBranchId, PropValue::Id(p.target_branch_id));
    m.put(PropName::Status, PropValue::Str(p.status.label().to_owned()));
    m.put(PropName::CreatedAt, PropValue::Int(p.created_at));
    m.put(PropName::UpdatedAt, PropValue::Int(p.updated_at));
    proof {
        assert(m@ =~= spec_serialize_pull_request(p@));
    }
    m
}

pub fn deserialize_pull_request(m: &PropertyMap) -> (r: Result<PullRequest, GraphError>)
    ensures
        match spec_deserialize_pull_request(m@) {
            Ok(v) => r matches Ok(p) && p@ == v,
            Err(e) => r matches Err(e2) && e2 == e,
        },
{
    let id = match get_id(m, PropName::Id) {
        Ok(v) => v,
        Err(e) => return Err(e),
    };
    let number = match get_str(m, PropName::Number) {
        Ok(v) => v,
        Err(e) => return Err(e),
    };
    let title = match get_str(m, PropName::Title) {
        Ok(v) => v,
        Err(e) => return Err(e),
    };
    let repository_id = match get_id(m, PropName::RepositoryId) {
        Ok(v) => v,
        Err(e) => return Err(e),
    };
    let source_branch_id = match get_id(m, PropName::SourceBranchId) {
        Ok(v) => v,
        Err(e) => return Err(e),
    };
    let target_branch_id = match get_id(m, PropName::TargetBranchId) {
        Ok(v) => v,
        Err(e) => return Err(e),
    };
    let sv = match get_str(m, PropName::Status) {
        Ok(v) => v,
        Err(e) => return Err(e),
    };
    let status = match PullRequestStatus::parse(sv.as_str()) {
        Some(v) => v,
        None => return Err(GraphError::Deserialization(PropName::Status)),
    };
    let created_at = match get_int(m, PropName::CreatedAt) {
        Ok(v) => v,
        Err(e) => return Err(e),
    };
    let updated_at = match get_int(m, PropName::UpdatedAt) {
        Ok(v) => v,
        Err(e) => return Err(e),
    };
    Ok(
        PullRequest {
            id,
            number,
            title,
            repository_id,
            source_branch_id,
            target_branch_id,
            status,
            created_at,
            updated_at,
        },
    )
}

/// Serializing a pull request and reading the mapping back yields the same
/// attributes; in particular the status string parses back to the same
/// status.
pub proof fn lemma_pull_request_round_trip(p: PullRequestView)
    ensures
        spec_deserialize_pull_request(spec_serialize_pull_request(p)) == Ok::<
            PullRequestView,
            GraphError,
        >(p),
{
    reveal_with_fuel(lookup_from, 12);
    crate::models::lemma_pull_request_status_round_trip(p.status);
}

/// The canonical mapping of a ticket; status and kind travel as their
/// canonical strings.
pub open spec fn spec_serialize_ticket(p: TicketView) -> Seq<(PropName, PropView)> {
    seq![
        (PropName::Id, PropView::VId(p.id)),
        (PropName::TicketId, PropView::VStr(p.ticket_id)),
        (PropName::Title, PropView::VStr(p.title)),
        (PropName::Status, PropView::VStr(p.status.spec_label())),
        (PropName::TicketType, PropView::VStr(p.ticket_type.spec_label())),
        (PropName::CreatedAt, PropView::VInt(p.created_at)),
        (PropName::UpdatedAt, PropView::VInt(p.updated_at)),
    ]
}

pub open spec fn spec_deserialize_ticket(s: Seq<(PropName, PropView)>) -> Result<
    TicketView,
    GraphError,
> {
    match take_id(s, PropName::Id) {
        Err(e) => Err(e),
        Ok(id) => match take_str(s, PropName::TicketId) {
            Err(e) => Err(e),
            Ok(ticket_id) => match take_str(s, PropName::Title) {
                Err(e) => Err(e),
                Ok(title) => match take_str(s, PropName::Status) {
                    Err(e) => Err(e),
                    Ok(sv) => match TicketStatus::spec_parse(sv) {
                        None => Err(GraphError::Deserialization(PropName::Status)),
                        Some(status) => match take_str(s, PropName::TicketType) {
                            Err(e) => Err(e),
                            Ok(tv) => match TicketType::spec_parse(tv) {
                                None => Err(GraphError::Deserialization(PropName::TicketType)),
                                Some(ticket_type) => match take_int(s, PropName::CreatedAt) {
                                    Err(e) => Err(e),
                                    Ok(created_at) => match take_int(s, PropName::UpdatedAt) {
                                        Err(e) => Err(e),
                                        Ok(updated_at) => Ok(
                                            (TicketView {
                                                id,
                                                ticket_id,
                                                title,
                                                status,
                                                ticket_type,
                                                created_at,
                                                updated_at,
                                            }),
                                        ),
                                    },
                                },
                            },
                        },
                    },
                },
            },
        },
    }
}

pub fn serialize_ticket(p: &Ticket) -> (m: PropertyMap)
    ensures
        m@ == spec_serialize_ticket(p@),
{
    let mut m = PropertyMap::new();
    m.put(PropName::Id, PropValue::Id(p.id));
    m.put(PropName::TicketId, PropValue::Str(p.ticket_id.clone()));
    m.put(PropName::Title, PropValue::Str(p.title.clone()));
    m.put(PropName::Status, PropValue::Str(p.status.label().to_owned()));
    m.put(PropName::TicketType, PropValue::Str(p.ticket_type.label().to_owned()));
    m.put(PropName::CreatedAt, PropValue::Int(p.created_at));
    m.put(PropName::UpdatedAt, PropValue::Int(p.updated_at));
    proof {
        assert(m@ =~= spec_serialize_ticket(p@));
    }
    m
}

pub fn deserialize_ticket(m: &PropertyMap) -> (r: Result<Ticket, GraphError>)
    ensures
        match spec_deserialize_ticket(m@) {
            Ok(v) => r matches Ok(p) && p@ == v,
            Err(e) => r matches Err(e2) && e2 == e,
        },
{
    let id = match get_id(m, PropName::Id) {
        Ok(v) => v,
        Err(e) => return Err(e),
    };
    let ticket_id = match get_str(m, PropName::TicketId) {
        Ok(v) => v,
        Err(e) => return Err(e),
    };
    let title = match get_str(m, PropName::Title) {
        Ok(v) => v,
        Err(e) => return Err(e),
    };
    let sv = match get_str(m, PropName::Status) {
        Ok(v) => v,
        Err(e) => return Err(e),
    };
    let status = match TicketStatus::parse(sv.as_str()) {
        Some(v) => v,
        None => return Err(GraphError::Deserialization(PropName::Status)),
    };
    let tv = match get_str(m, PropName::TicketType) {
        Ok(v) => v,
        Err(e) => return Err(e),
    };
    let ticket_type = match TicketType::parse(tv.as_str()) {
        Some(v) => v,
        None => return Err(GraphError::Deserialization(PropName::TicketType)),
    };
    let created_at = match get_int(m, PropName::CreatedAt) {
        Ok(v) => v,
        Err(e) => return Err(e),
    };
    let updated_at = match get_int(m, PropName::UpdatedAt) {
        Ok(v) => v,
        Err(e) => return Err(e),
    };
    Ok(Ticket { id, ticket_id, title, status, ticket_type, created_at, updated_at })
}

/// Serializing a ticket and reading the mapping back yields the same
/// attributes; status and kind strings parse back to the same variants.
pub proof fn lemma_ticket_round_trip(p: TicketView)
    ensures
        spec_deserialize_ticket(spec_serialize_ticket(p)) == Ok::<TicketView, GraphError>(p),
{
    reveal_with_fuel(lookup_from, 10);
    crate::models::lemma_ticket_status_round_trip(p.status);
    crate::models::lemma_ticket_type_round_trip(p.ticket_type);
}

/// The canonical mapping of a dashboard.
pub open spec fn spec_serialize_dashboard(p: DashboardView) -> Seq<(PropName, PropView)> {
    seq![
        (PropName::Id, PropView::VId(p.id)),
        (PropName::Url, PropView::VStr(p.url)),
        (PropName::Name, PropView::VStr(p.name)),
        (PropName::DashboardType, PropView::VStr(p.dashboard_type.spec_label())),
        (PropName::CreatedAt, PropView::VInt(p.created_at)),
    ]
}

pub open spec fn spec_deserialize_dashboard(s: Seq<(PropName, PropView)>) -> Result<
    DashboardView,
    GraphError,
> {
    match take_id(s, PropName::Id) {
        Err(e) => Err(e),
        Ok(id) => match take_str(s, PropName::Url) {
            Err(e) => Err(e),
            Ok(url) => match take_str(s, PropName::Name) {
                Err(e) => Err(e),
                Ok(name) => match take_str(s, PropName::DashboardType) {
                    Err(e) => Err(e),
                    Ok(tv) => match DashboardType::spec_parse(tv) {
                        None => Err(GraphError::Deserialization(PropName::DashboardType)),
                        Some(dashboard_type) => match take_int(s, PropName::CreatedAt) {
                            Err(e) => Err(e),
                            Ok(created_at) => Ok(
                                (DashboardView { id, url, name, dashboard_type, created_at }),
                            ),
                        },
                    },
                },
            },
        },
    }
}

pub fn serialize_dashboard(p: &Dashboard) -> (m: PropertyMap)
    ensures
        m@ == spec_serialize_dashboard(p@),
{
    let mut m = PropertyMap::new();
    m.put(PropName::Id, PropValue::Id(p.id));
    m.put(PropName::Url, PropValue::Str(p.url.clone()));
    m.put(PropName::Name, PropValue::Str(p.name.clone()));
    m.put(PropName::DashboardType, PropValue::Str(p.dashboard_type.label().to_owned()));
    m.put(PropName::CreatedAt, PropValue::Int(p.created_at));
    proof {
        assert(m@ =~= spec_serialize_dashboard(p@));
    }
    m
}

pub fn deserialize_dashboard(m: &PropertyMap) -> (r: Result<Dashboard, GraphError>)
    ensures
        match spec_deserialize_dashboard(m@) {
            Ok(v) => r matches Ok(p) && p@ == v,
            Err(e) => r matches Err(e2) && e2 == e,
        },
{
    let id = match get_id(m, PropName::Id) {
        Ok(v) => v,
        Err(e) => return Err(e),
    };
    let url = match get_str(m, PropName::Url) {
        Ok(v) => v,
        Err(e) => return Err(e),
    };
    let name = match get_str(m, PropName::Name) {
        Ok(v) => v,
        Err(e) => return Err(e),
    };
    let tv = match get_str(m, PropName::DashboardType) {
        Ok(v) => v,
        Err(e) => return Err(e),
    };
    let dashboard_type = match DashboardType::parse(tv.as_str()) {
        Some(v) => v,
        None => return Err(GraphError::Deserialization(PropName::DashboardType)),
    };
    let created_at = match get_int(m, PropName::CreatedAt) {
        Ok(v) => v,
        Err(e) => return Err(e),
    };
    Ok(Dashboard { id, url, name, dashboard_type, created_at })
}

/// Serializing a dashboard and reading the mapping back yields the same
/// attributes.
pub proof fn lemma_dashboard_round_trip(p: DashboardView)
    ensures
        spec_deserialize_dashboard(spec_serialize_dashboard(p)) == Ok::<DashboardView, GraphError>(
            p,
        ),
{
    reveal_with_fuel(lookup_from, 8);
    crate::models::lemma_dashboard_type_round_trip(p.dashboard_type);
}

/// The canonical mapping of a notebook.
pub open spec fn spec_serialize_notebook(p: NotebookView) -> Seq<(PropName, PropView)> {
    seq![
        (PropName::Id, PropView::VId(p.id)),
        (PropName::Url, PropView::VStr(p.url)),
        (PropName::Name, PropView::VStr(p.name)),
        (PropName::NotebookType, PropView::VStr(p.notebook_type.spec_label())),
        (PropName::CreatedAt, PropView::VInt(p.created_at)),
    ]
}

pub open spec fn spec_deserialize_notebook(s: Seq<(PropName, PropView)>) -> Result<
    NotebookView,
    GraphError,
> {
    match take_id(s, PropName::Id) {
        Err(e) => Err(e),
        Ok(id) => match take_str(s, PropName::Url) {
            Err(e) => Err(e),
            Ok(url) => match take_str(s, PropName::Name) {
                Err(e) => Err(e),
                Ok(name) => match take_str(s, PropName::NotebookType) {
                    Err(e) => Err(e),
                    Ok(tv) => match NotebookType::spec_parse(tv) {
                        None => Err(GraphError::Deserialization(PropName::NotebookType)),
                        Some(notebook_type) => match take_int(s, PropName::CreatedAt) {
                            Err(e) => Err(e),
                            Ok(created_at) => Ok(
                                (NotebookView { id, url, name, notebook_type, created_at }),
                            ),
                        },
                    },
                },
            },
        },
    }
}

pub fn serialize_notebook(p: &Notebook) -> (m: PropertyMap)
    ensures
        m@ == spec_serialize_notebook(p@),
{
    let mut m = PropertyMap::new();
    m.put(PropName::Id, PropValue::Id(p.id));
    m.put(PropName::Url, PropValue::Str(p.url.clone()));
    m.put(PropName::Name, PropValue::Str(p.name.clone()));
    m.put(PropName::NotebookType, PropValue::Str(p.notebook_type.label().to_owned()));
    m.put(PropName::CreatedAt, PropValue::Int(p.created_at));
    proof {
        assert(m@ =~= spec_serialize_notebook(p@));
    }
    m
}

pub fn deserialize_notebook(m: &PropertyMap) -> (r: Result<Notebook, GraphError>)
    ensures
        match spec_deserialize_notebook(m@) {
            Ok(v) => r matches Ok(p) && p@ == v,
            Err(e) => r matches Err(e2) && e2 == e,
        },
{
    let id = match get_id(m, PropName::Id) {
        Ok(v) => v,
        Err(e) => return Err(e),
    };
    let url = match get_str(m, PropName::Url) {
        Ok(v) => v,
        Err(e) => return Err(e),
    };
    let name = match get_str(m, PropName::Name) {
        Ok(v) => v,
        Err(e) => return Err(e),
    };
    let tv = match get_str(m, PropName::NotebookType) {
        Ok(v) => v,
        Err(e) => return Err(e),
    };
    let notebook_type = match NotebookType::parse(tv.as_str()) {
        Some(v) => v,
        None => return Err(GraphError::Deserialization(PropName::NotebookType)),
    };
    let created_at = match get_int(m, PropName::CreatedAt) {
        Ok(v) => v,
        Err(e) => return Err(e),
    };
    Ok(Notebook { id, url, name, notebook_type, created_at })
}

/// Serializing a notebook and reading the mapping back yields the same
/// attributes.
pub proof fn lemma_notebook_round_trip(p: NotebookView)
    ensures
        spec_deserialize_notebook(spec_serialize_notebook(p)) == Ok::<NotebookView, GraphError>(p),
{
    reveal_with_fuel(lookup_from, 8);
    crate::models::lemma_notebook_type_round_trip(p.notebook_type);
}

/// The canonical mapping of a CI pipeline.
pub open spec fn spec_serialize_ci_pipeline(p: CIPipelineView) -> Seq<(PropName, PropView)> {
    seq![
        (PropName::Id, PropView::VId(p.id)),
        (PropName::Name, PropView::VStr(p.name)),
        (PropName::Url, PropView::VStr(p.url)),
        (PropName::PipelineType, PropView::VStr(p.pipeline_type.spec_label())),
        (PropName::CreatedAt, PropView::VInt(p.created_at)),
    ]
}

pub open spec fn spec_deserialize_ci_pipeline(s: Seq<(PropName, PropView)>) -> Result<
    CIPipelineView,
    GraphError,
> {
    match take_id(s, PropName::Id) {
        Err(e) => Err(e),
        Ok(id) => match take_str(s, PropName::Name) {
            Err(e) => Err(e),
            Ok(name) => match take_str(s, PropName::Url) {
                Err(e) => Err(e),
                Ok(url) => match take_str(s, PropName::PipelineType) {
                    Err(e) => Err(e),
                    Ok(tv) => match PipelineType::spec_parse(tv) {
                        None => Err(GraphError::Deserialization(PropName::PipelineType)),
                        Some(pipeline_type) => match take_int(s, PropName::CreatedAt) {
                            Err(e) => Err(e),
                            Ok(created_at) => Ok(
                                (CIPipelineView { id, name, url, pipeline_type, created_at }),
                            ),
                        },
                    },
                },
            },
        },
    }
}

pub fn serialize_ci_pipeline(p: &CIPipeline) -> (m: PropertyMap)
    ensures
        m@ == spec_serialize_ci_pipeline(p@),
{
    let mut m = PropertyMap::new();
    m.put(PropName::Id, PropValue::Id(p.id));
    m.put(PropName::Name, PropValue::Str(p.name.clone()));
    m.put(PropName::Url, PropValue::Str(p.url.clone()));
    m.put(PropName::PipelineType, PropValue::Str(p.pipeline_type.label().to_owned()));
    m.put(PropName::CreatedAt, PropValue::Int(p.created_at));
    proof {
        assert(m@ =~= spec_serialize_ci_pipeline(p@));
    }
    m
}

pub fn deserialize_ci_pipeline(m: &PropertyMap) -> (r: Result<CIPipeline, GraphError>)
    ensures
        match spec_deserialize_ci_pipeline(m@) {
            Ok(v) => r matches Ok(p) && p@ == v,
            Err(e) => r matches Err(e2) && e2 == e,
        },
{
    let id = match get_id(m, PropName::Id) {
        Ok(v) => v,
        Err(e) => return Err(e),
    };
    let name = match get_str(m, PropName::Name) {
        Ok(v) => v,
        Err(e) => return Err(e),
    };
    let url = match get_str(m, PropName::Url) {
        Ok(v) => v,
        Err(e) => return Err(e),
    };
    let tv = match get_str(m, PropName::PipelineType) {
        Ok(v) => v,
        Err(e) => return Err(e),
    };
    let pipeline_type = match PipelineType::parse(tv.as_str()) {
        Some(v) => v,
        None => return Err(GraphError::Deserialization(PropName::PipelineType)),
    };
    let created_at = match get_int(m, PropName::CreatedAt) {
        Ok(v) => v,
        Err(e) => return Err(e),
    };
    Ok(CIPipeline { id, name, url, pipeline_type, created_at })
}

/// Serializing a CI pipeline and reading the mapping back yields the same
/// attributes.
pub proof fn lemma_ci_pipeline_round_trip(p: CIPipelineView)
    ensures
        spec_deserialize_ci_pipeline(spec_serialize_ci_pipeline(p)) == Ok::<
            CIPipelineView,
            GraphError,
        >(p),
{
    reveal_with_fuel(lookup_from, 8);
    crate::models::lemma_pipeline_type_round_trip(p.pipeline_type);
}

/// The canonical mapping of any entity, by its type.
pub fn serialize_entity(e: &Entity) -> (m: PropertyMap)
    ensures
        m@ == (match *e {
            Entity::Project(p) => spec_serialize_project(p@),
            Entity::Repository(p) => spec_serialize_repository(p@),
            Entity::Branch(p) => spec_serialize_branch(p@),
            Entity::PullRequest(p) => spec_serialize_pull_request(p@),
            Entity::Ticket(p) => spec_serialize_ticket(p@),
            Entity::Dashboard(p) => spec_serialize_dashboard(p@),
            Entity::Notebook(p) => spec_serialize_notebook(p@),
            Entity::CIPipeline(p) => spec_serialize_ci_pipeline(p@),
        }),
{
    match e {
        Entity::Project(p) => serialize_project(p),
        Entity::Repository(p) => serialize_repository(p),
        Entity::Branch(p) => serialize_branch(p),
        Entity::PullRequest(p) => serialize_pull_request(p),
        Entity::Ticket(p) => serialize_ticket(p),
        Entity::Dashboard(p) => serialize_dashboard(p),
        Entity::Notebook(p) => serialize_notebook(p),
        Entity::CIPipeline(p) => serialize_ci_pipeline(p),
    }
}

/// Reconstructs an entity of the given type from a persisted mapping, or
/// names the first missing or mistyped field.
pub fn deserialize_entity(t: EntityType, m: &PropertyMap) -> (r: Result<Entity, GraphError>)
    ensures
        match t {
            EntityType::Project => match spec_deserialize_project(m@) {
                Ok(v) => r matches Ok(e) && (e matches Entity::Project(p) && p@ == v),
                Err(e2) => r matches Err(e3) && e3 == e2,
            },
            EntityType::Repository => match spec_deserialize_repository(m@) {
                Ok(v) => r matches Ok(e) && (e matches Entity::Repository(p) && p@ == v),
                Err(e2) => r matches Err(e3) && e3 == e2,
            },
            EntityType::Branch => match spec_deserialize_branch(m@) {
                Ok(v) => r matches Ok(e) && (e matches Entity::Branch(p) && p@ == v),
                Err(e2) => r matches Err(e3) && e3 == e2,
            },
            EntityType::PullRequest => match spec_deserialize_pull_request(m@) {
                Ok(v) => r matches Ok(e) && (e matches Entity::PullRequest(p) && p@ == v),
                Err(e2) => r matches Err(e3) && e3 == e2,
            },
            EntityType::Ticket => match spec_deserialize_ticket(m@) {
                Ok(v) => r matches Ok(e) && (e matches Entity::Ticket(p) && p@ == v),
                Err(e2) => r matches Err(e3) && e3 == e2,
            },
            EntityType::Dashboard => match spec_deserialize_dashboard(m@) {
                Ok(v) => r matches Ok(e) && (e matches Entity::Dashboard(p) && p@ == v),
                Err(e2) => r matches Err(e3) && e3 == e2,
            },
            EntityType::Notebook => match spec_deserialize_notebook(m@) {
                Ok(v) => r matches Ok(e) && (e matches Entity::Notebook(p) && p@ == v),
                Err(e2) => r matches Err(e3) && e3 == e2,
            },
            EntityType::CIPipeline => match spec_deserialize_ci_pipeline(m@) {
                Ok(v) => r matches Ok(e) && (e matches Entity::CIPipeline(p) && p@ == v),
                Err(e2) => r matches Err(e3) && e3 == e2,
            },
        },
{
    match t {
        EntityType::Project => match deserialize_project(m) {
            Ok(p) => Ok(Entity::Project(p)),
            Err(e) => Err(e),
        },
        EntityType::Repository => match deserialize_repository(m) {
            Ok(p) => Ok(Entity::Repository(p)),
            Err(e) => Err(e),
        },
        EntityType::Branch => match deserialize_branch(m) {
            Ok(p) => Ok(Entity::Branch(p)),
            Err(e) => Err(e),
        },
        EntityType::PullRequest => match deserialize_pull_request(m) {
            Ok(p) => Ok(Entity::PullRequest(p)),
            Err(e) => Err(e),
        },
        EntityType::Ticket => match deserialize_ticket(m) {
            Ok(p) => Ok(Entity::Ticket(p)),
            Err(e) => Err(e),
        },
        EntityType::Dashboard => match deserialize_dashboard(m) {
            Ok(p) => Ok(Entity::Dashboard(p)),
            Err(e) => Err(e),
        },
        EntityType::Notebook => match deserialize_notebook(m) {
            Ok(p) => Ok(Entity::Notebook(p)),
            Err(e) => Err(e),
        },
        EntityType::CIPipeline => match deserialize_ci_pipeline(m) {
            Ok(p) => Ok(Entity::CIPipeline(p)),
            Err(e) => Err(e),
        },
    }
}

} // verus!
