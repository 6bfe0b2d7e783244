//! Entity catalog: the node types of the graph, their attributes, and the
//! canonical string form of every enumerated status/type value.
//!
//! The string mappings are part of the persisted contract: they are the
//! literal values written to and read back from the store, so each enum
//! carries an explicit, proved mapping rather than one derived from the
//! variant name.

use vstd::prelude::*;

verus! {

/// Verified string comparison: equal exactly when the character views are.
pub fn str_eq(a: &str, b: &str) -> (r: bool)
    ensures
        r == (a@ == b@),
{
    let sa: String = a.to_owned();
    let sb: String = b.to_owned();
    sa == sb
}

/// A project or initiative.  `name` is the unique key.
#[derive(Debug, Clone, PartialEq)]
pub struct Project {
    pub id: u64,
    pub name: String,
    pub description: Option<String>,
    pub created_at: i64,
    pub updated_at: i64,
}

/// A git repository.  `url` is the unique key.
#[derive(Debug, Clone, PartialEq)]
pub struct Repository {
    pub id: u64,
    pub url: String,
    pub local_path: Option<String>,
    pub created_at: i64,
    pub updated_at: i64,
}

/// A git branch.  The pair `(name, repository_id)` is the unique key.
#[derive(Debug, Clone, PartialEq)]
pub struct Branch {
    pub id: u64,
    pub name: String,
    pub repository_id: u64,
    pub is_working_branch: bool,
    pub created_at: i64,
}

/// A pull/merge request.  Has no unique key beyond its identifier.
#[derive(Debug, Clone, PartialEq)]
pub struct PullRequest {
    pub id: u64,
    pub number: String,
    pub title: String,
    pub repository_id: u64,
    pub source_branch_id: u64,
    pub target_branch_id: u64,
    pub status: PullRequestStatus,
    pub created_at: i64,
    pub updated_at: i64,
}

/// An issue or task in a tracking system.  `ticket_id` is the unique key.
#[derive(Debug, Clone, PartialEq)]
pub struct Ticket {
    pub id: u64,
    pub ticket_id: String,
    pub title: String,
    pub status: TicketStatus,
    pub ticket_type: TicketType,
    pub created_at: i64,
    pub updated_at: i64,
}

/// A monitoring or visualization dashboard.  `url` is the unique key.
#[derive(Debug, Clone, PartialEq)]
pub struct Dashboard {
    pub id: u64,
    pub url: String,
    pub name: String,
    pub dashboard_type: DashboardType,
    pub created_at: i64,
}

/// A data-analysis notebook.  `url` is the unique key.
#[derive(Debug, Clone, PartialEq)]
pub struct Notebook {
    pub id: u64,
    pub url: String,
    pub name: String,
    pub notebook_type: NotebookType,
    pub created_at: i64,
}

/// A continuous-integration pipeline.  The pair `(name, url)` is the unique key.
#[derive(Debug, Clone, PartialEq)]
pub struct CIPipeline {
    pub id: u64,
    pub name: String,
    pub url: String,
    pub pipeline_type: PipelineType,
    pub created_at: i64,
}

/// The node label of each entity type, as persisted in the store.
#[derive(Clone, Copy, Debug, PartialEq, Eq, Structural)]
pub enum EntityType {
    Project,
    Repository,
    Branch,
    PullRequest,
    Ticket,
    Dashboard,
    Notebook,
    CIPipeline,
}

impl EntityType {
    /// The persisted node label for this entity type.
    pub open spec fn spec_label(self) -> Seq<char> {
        match self {
            EntityType::Project => "Project"@,
            EntityType::Repository => "Repository"@,
            EntityType::Branch => "Branch"@,
            EntityType::PullRequest => "PullRequest"@,
            EntityType::Ticket => "Ticket"@,
            EntityType::Dashboard => "Dashboard"@,
            EntityType::Notebook => "Notebook"@,
            EntityType::CIPipeline => "CIPipeline"@,
        }
    }

    pub fn label(&self) -> (r: &'static str)
        ensures
            r@ == self.spec_label(),
    {
        match self {
            EntityType::Project => "Project",
            EntityType::Repository => "Repository",
            EntityType::Branch => "Branch",
            EntityType::PullRequest => "PullRequest",
            EntityType::Ticket => "Ticket",
            EntityType::Dashboard => "Dashboard",
            EntityType::Notebook => "Notebook",
            EntityType::CIPipeline => "CIPipeline",
        }
    }
}

/// Any entity of the catalog, tagged with its type.
#[derive(Debug, Clone, PartialEq)]
pub enum Entity {
    Project(Project),
    Repository(Repository),
    Branch(Branch),
    PullRequest(PullRequest),
    Ticket(Ticket),
    Dashboard(Dashboard),
    Notebook(Notebook),
    CIPipeline(CIPipeline),
}

impl Entity {
    /// The process-assigned identifier carried by every entity.
    pub open spec fn spec_id(self) -> u64 {
        match self {
            Entity::Project(e) => e.id,
            Entity::Repository(e) => e.id,
            Entity::Branch(e) => e.id,
            Entity::PullRequest(e) => e.id,
            Entity::Ticket(e) => e.id,
            Entity::Dashboard(e) => e.id,
            Entity::Notebook(e) => e.id,
            Entity::CIPipeline(e) => e.id,
        }
    }

    pub open spec fn spec_type(self) -> EntityType {
        match self {
            Entity::Project(_) => EntityType::Project,
            Entity::Repository(_) => EntityType::Repository,
            Entity::Branch(_) => EntityType::Branch,
            Entity::PullRequest(_) => EntityType::PullRequest,
            Entity::Ticket(_) => EntityType::Ticket,
            Entity::Dashboard(_) => EntityType::Dashboard,
            Entity::Notebook(_) => EntityType::Notebook,
            Entity::CIPipeline(_) => EntityType::CIPipeline,
        }
    }

    pub fn id(&self) -> (r: u64)
        ensures
            r == self.spec_id(),
    {
        match self {
            Entity::Project(e) => e.id,
            Entity::Repository(e) => e.id,
            Entity::Branch(e) => e.id,
            Entity::PullRequest(e) => e.id,
            Entity::Ticket(e) => e.id,
            Entity::Dashboard(e) => e.id,
            Entity::Notebook(e) => e.id,
            Entity::CIPipeline(e) => e.id,
        }
    }

    pub fn entity_type(&self) -> (r: EntityType)
        ensures
            r == self.spec_type(),
    {
        match self {
            Entity::Project(_) => EntityType::Project,
            Entity::Repository(_) => EntityType::Repository,
            Entity::Branch(_) => EntityType::Branch,
            Entity::PullRequest(_) => EntityType::PullRequest,
            Entity::Ticket(_) => EntityType::Ticket,
            Entity::Dashboard(_) => EntityType::Dashboard,
            Entity::Notebook(_) => EntityType::Notebook,
            Entity::CIPipeline(_) => EntityType::CIPipeline,
        }
    }
}

/// Status of a pull request.
#[derive(Clone, Copy, Debug, PartialEq, Eq, Structural)]
pub enum PullRequestStatus {
    Open,
    Closed,
    Merged,
    Draft,
}

impl PullRequestStatus {
    /// The persisted string for each status.
    pub open spec fn spec_label(self) -> Seq<char> {
        match self {
            PullRequestStatus::Open => "open"@,
            PullRequestStatus::Closed => "closed"@,
            PullRequestStatus::Merged => "merged"@,
            PullRequestStatus::Draft => "draft"@,
        }
    }

    pub open spec fn spec_parse(s: Seq<char>) -> Option<PullRequestStatus> {
        if s == "open"@ {
            Some(PullRequestStatus::Open)
        } else if s == "closed"@ {
            Some(PullRequestStatus::Closed)
        } else if s == "merged"@ {
            Some(PullRequestStatus::Merged)
        } else if s == "draft"@ {
            Some(PullRequestStatus::Draft)
        } else {
            None
        }
    }

    pub fn label(&self) -> (r: &'static str)
        ensures
            r@ == self.spec_label(),
    {
        match self {
            PullRequestStatus::Open => "open",
            PullRequestStatus::Closed => "closed",
            PullRequestStatus::Merged => "merged",
            PullRequestStatus::Draft => "draft",
        }
    }

    pub fn parse(s: &str) -> (r: Option<PullRequestStatus>)
        ensures
            r == Self::spec_parse(s@),
    {
        if str_eq(s, "open") {
            Some(PullRequestStatus::Open)
        } else if str_eq(s, "closed") {
            Some(PullRequestStatus::Closed)
        } else if str_eq(s, "merged") {
            Some(PullRequestStatus::Merged)
        } else if str_eq(s, "draft") {
            Some(PullRequestStatus::Draft)
        } else {
            None
        }
    }
}

/// Parsing inverts the canonical label of every pull-request status.
pub proof fn lemma_pull_request_status_round_trip(v: PullRequestStatus)
    ensures
        PullRequestStatus::spec_parse(v.spec_label()) == Some(v),
{
    reveal_strlit("open");
    reveal_strlit("closed");
    reveal_strlit("merged");
    reveal_strlit("draft");
    assert("open"@.len() == 4);
    assert("closed"@.len() == 6);
    assert("merged"@.len() == 6);
    assert("draft"@.len() == 5);
    assert("merged"@ != "closed"@) by {
        assert("merged"@[0] == 'm');
        assert("closed"@[0] == 'c');
    }
}

/// Status of a ticket.
#[derive(Clone, Copy, Debug, PartialEq, Eq, Structural)]
pub enum TicketStatus {
    Open,
    InProgress,
    Resolved,
    Closed,
    Blocked,
}

impl TicketStatus {
    /// The persisted string for each status.
    pub open spec fn spec_label(self) -> Seq<char> {
        match self {
            TicketStatus::Open => "open"@,
            TicketStatus::InProgress => "in-progress"@,
            TicketStatus::Resolved => "resolved"@,
            TicketStatus::Closed => "closed"@,
            TicketStatus::Blocked => "blocked"@,
        }
    }

    pub open spec fn spec_parse(s: Seq<char>) -> Option<TicketStatus> {
        if s == "open"@ {
            Some(TicketStatus::Open)
        } else if s == "in-progress"@ {
            Some(TicketStatus::InProgress)
        } else if s == "resolved"@ {
            Some(TicketStatus::Resolved)
        } else if s == "closed"@ {
            Some(TicketStatus::Closed)
        } else if s == "blocked"@ {
            Some(TicketStatus::Blocked)
        } else {
            None
        }
    }

    pub fn label(&self) -> (r: &'static str)
        ensures
            r@ == self.spec_label(),
    {
        match self {
            TicketStatus::Open => "open",
            TicketStatus::InProgress => "in-progress",
            TicketStatus::Resolved => "resolved",
            TicketStatus::Closed => "closed",
            TicketStatus::Blocked => "blocked",
        }
    }

    pub fn parse(s: &str) -> (r: Option<TicketStatus>)
        ensures
            r == Self::spec_parse(s@),
    {
        if str_eq(s, "open") {
            Some(TicketStatus::Open)
        } else if str_eq(s, "in-progress") {
            Some(TicketStatus::InProgress)
        } else if str_eq(s, "resolved") {
            Some(TicketStatus::Resolved)
        } else if str_eq(s, "closed") {
            Some(TicketStatus::Closed)
        } else if str_eq(s, "blocked") {
            Some(TicketStatus::Blocked)
        } else {
            None
        }
    }
}

/// Parsing inverts the canonical label of every ticket status.
pub proof fn lemma_ticket_status_round_trip(v: TicketStatus)
    ensures
        TicketStatus::spec_parse(v.spec_label()) == Some(v),
{
    reveal_strlit("open");
    reveal_strlit("in-progress");
    reveal_strlit("resolved");
    reveal_strlit("closed");
    reveal_strlit("blocked");
    assert("open"@.len() == 4);
    assert("in-progress"@.len() == 11);
    assert("resolved"@.len() == 8);
    assert("closed"@.len() == 6);
    assert("blocked"@.len() == 7);
}

/// Kind of a ticket.
#[derive(Clone, Copy, Debug, PartialEq, Eq, Structural)]
pub enum TicketType {
    Bug,
    Feature,
    Task,
    Epic,
    Story,
    Issue,
}

impl TicketType {
    /// The persisted string for each kind.
    pub open spec fn spec_label(self) -> Seq<char> {
        match self {
            TicketType::Bug => "bug"@,
            TicketType::Feature => "feature"@,
            TicketType::Task => "task"@,
            TicketType::Epic => "epic"@,
            TicketType::Story => "story"@,
            TicketType::Issue => "issue"@,
        }
    }

    pub open spec fn spec_parse(s: Seq<char>) -> Option<TicketType> {
        if s == "bug"@ {
            Some(TicketType::Bug)
        } else if s == "feature"@ {
            Some(TicketType::Feature)
        } else if s == "task"@ {
            Some(TicketType::Task)
        } else if s == "epic"@ {
            Some(TicketType::Epic)
        } else if s == "story"@ {
            Some(TicketType::Story)
        } else if s == "issue"@ {
            Some(TicketType::Issue)
        } else {
            None
        }
    }

    pub fn label(&self) -> (r: &'static str)
        ensures
            r@ == self.spec_label(),
    {
        match self {
            TicketType::Bug => "bug",
            TicketType::Feature => "feature",
            TicketType::Task => "task",
            TicketType::Epic => "epic",
            TicketType::Story => "story",
            TicketType::Issue => "issue",
        }
    }

    pub fn parse(s: &str) -> (r: Option<TicketType>)
        ensures
            r == Self::spec_parse(s@),
    {
        if str_eq(s, "bug") {
            Some(TicketType::Bug)
        } else if str_eq(s, "feature") {
            Some(TicketType::Feature)
        } else if str_eq(s, "task") {
            Some(TicketType::Task)
        } else if str_eq(s, "epic") {
            Some(TicketType::Epic)
        } else if str_eq(s, "story") {
            Some(TicketType::Story)
        } else if str_eq(s, "issue") {
            Some(TicketType::Issue)
        } else {
            None
        }
    }
}

/// Parsing inverts the canonical label of every ticket kind.
pub proof fn lemma_ticket_type_round_trip(v: TicketType)
    ensures
        TicketType::spec_parse(v.spec_label()) == Some(v),
{
    reveal_strlit("bug");
    reveal_strlit("feature");
    reveal_strlit("task");
    reveal_strlit("epic");
    reveal_strlit("story");
    reveal_strlit("issue");
    assert("bug"@.len() == 3);
    assert("feature"@.len() == 7);
    assert("task"@.len() == 4);
    assert("epic"@.len() == 4);
    assert("story"@.len() == 5);
    assert("issue"@.len() == 5);
    assert("epic"@ != "task"@) by {
        assert("epic"@[0] == 'e');
        assert("task"@[0] == 't');
    }
    assert("issue"@ != "story"@) by {
        assert("issue"@[0] == 'i');
        assert("story"@[0] == 's');
    }
}

/// Kind of a dashboard.
#[derive(Clone, Copy, Debug, PartialEq, Eq, Structural)]
pub enum DashboardType {
    Kibana,
    Grafana,
    Custom,
}

impl DashboardType {
    /// The persisted string for each kind.
    pub open spec fn spec_label(self) -> Seq<char> {
        match self {
            DashboardType::Kibana => "kibana"@,
            DashboardType::Grafana => "grafana"@,
            DashboardType::Custom => "custom"@,
        }
    }

    pub open spec fn spec_parse(s: Seq<char>) -> Option<DashboardType> {
        if s == "kibana"@ {
            Some(DashboardType::Kibana)
        } else if s == "grafana"@ {
            Some(DashboardType::Grafana)
        } else if s == "custom"@ {
            Some(DashboardType::Custom)
        } else {
            None
        }
    }

    pub fn label(&self) -> (r: &'static str)
        ensures
            r@ == self.spec_label(),
    {
        match self {
            DashboardType::Kibana => "kibana",
            DashboardType::Grafana => "grafana",
            DashboardType::Custom => "custom",
        }
    }

    pub fn parse(s: &str) -> (r: Option<DashboardType>)
        ensures
            r == Self::spec_parse(s@),
    {
        if str_eq(s, "kibana") {
            Some(DashboardType::Kibana)
        } else if str_eq(s, "grafana") {
            Some(DashboardType::Grafana)
        } else if str_eq(s, "custom") {
            Some(DashboardType::Custom)
        } else {
            None
        }
    }
}

/// Parsing inverts the canonical label of every dashboard kind.
pub proof fn lemma_dashboard_type_round_trip(v: DashboardType)
    ensures
        DashboardType::spec_parse(v.spec_label()) == Some(v),
{
    reveal_strlit("kibana");
    reveal_strlit("grafana");
    reveal_strlit("custom");
    assert("kibana"@.len() == 6);
    assert("grafana"@.len() == 7);
    assert("custom"@.len() == 6);
    assert("custom"@ != "kibana"@) by {
        assert("custom"@[0] == 'c');
        assert("kibana"@[0] == 'k');
    }
}

/// Kind of a notebook.
#[derive(Clone, Copy, Debug, PartialEq, Eq, Structural)]
pub enum NotebookType {
    Databricks,
    Jupyter,
    Zeppelin,
    Custom,
}

impl NotebookType {
    /// The persisted string for each kind.
    pub open spec fn spec_label(self) -> Seq<char> {
        match self {
            NotebookType::Databricks => "databricks"@,
            NotebookType::Jupyter => "jupyter"@,
            NotebookType::Zeppelin => "zeppelin"@,
            NotebookType::Custom => "custom"@,
        }
    }

    pub open spec fn spec_parse(s: Seq<char>) -> Option<NotebookType> {
        if s == "databricks"@ {
            Some(NotebookType::Databricks)
        } else if s == "jupyter"@ {
            Some(NotebookType::Jupyter)
        } else if s == "zeppelin"@ {
            Some(NotebookType::Zeppelin)
        } else if s == "custom"@ {
            Some(NotebookType::Custom)
        } else {
            None
        }
    }

    pub fn label(&self) -> (r: &'static str)
        ensures
            r@ == self.spec_label(),
    {
        match self {
            NotebookType::Databricks => "databricks",
            NotebookType::Jupyter => "jupyter",
            NotebookType::Zeppelin => "zeppelin",
            NotebookType::Custom => "custom",
        }
    }

    pub fn parse(s: &str) -> (r: Option<NotebookType>)
        ensures
            r == Self::spec_parse(s@),
    {
        if str_eq(s, "databricks") {
            Some(NotebookType::Databricks)
        } else if str_eq(s, "jupyter") {
            Some(NotebookType::Jupyter)
        } else if str_eq(s, "zeppelin") {
            Some(NotebookType::Zeppelin)
        } else if str_eq(s, "custom") {
            Some(NotebookType::Custom)
        } else {
            None
        }
    }
}

/// Parsing inverts the canonical label of every notebook kind.
pub proof fn lemma_notebook_type_round_trip(v: NotebookType)
    ensures
        NotebookType::spec_parse(v.spec_label()) == Some(v),
{
    reveal_strlit("databricks");
    reveal_strlit("jupyter");
    reveal_strlit("zeppelin");
    reveal_strlit("custom");
    assert("databricks"@.len() == 10);
    assert("jupyter"@.len() == 7);
    assert("zeppelin"@.len() == 8);
    assert("custom"@.len() == 6);
}

/// Kind of a CI pipeline.
#[derive(Clone, Copy, Debug, PartialEq, Eq, Structural)]
pub enum PipelineType {
    Jenkins,
    GitHubActions,
    GitLabCI,
    CircleCI,
    Travis,
    Custom,
}

impl PipelineType {
    /// The persisted string for each kind.  Casing and hyphenation differ
    /// from the variant names, so the mapping is explicit.
    pub open spec fn spec_label(self) -> Seq<char> {
        match self {
            PipelineType::Jenkins => "jenkins"@,
            PipelineType::GitHubActions => "github-actions"@,
            PipelineType::GitLabCI => "gitlab-ci"@,
            PipelineType::CircleCI => "circleci"@,
            PipelineType::Travis => "travis"@,
            PipelineType::Custom => "custom"@,
        }
    }

    pub open spec fn spec_parse(s: Seq<char>) -> Option<PipelineType> {
        if s == "jenkins"@ {
            Some(PipelineType::Jenkins)
        } else if s == "github-actions"@ {
            Some(PipelineType::GitHubActions)
        } else if s == "gitlab-ci"@ {
            Some(PipelineType::GitLabCI)
        } else if s == "circleci"@ {
            Some(PipelineType::CircleCI)
        } else if s == "travis"@ {
            Some(PipelineType::Travis)
        } else if s == "custom"@ {
            Some(PipelineType::Custom)
        } else {
            None
        }
    }

    pub fn label(&self) -> (r: &'static str)
        ensures
            r@ == self.spec_label(),
    {
        match self {
            PipelineType::Jenkins => "jenkins",
            PipelineType::GitHubActions => "github-actions",
            PipelineType::GitLabCI => "gitlab-ci",
            PipelineType::CircleCI => "circleci",
            PipelineType::Travis => "travis",
            PipelineType::Custom => "custom",
        }
    }

    pub fn parse(s: &str) -> (r: Option<PipelineType>)
        ensures
            r == Self::spec_parse(s@),
    {
        if str_eq(s, "jenkins") {
            Some(PipelineType::Jenkins)
        } else if str_eq(s, "github-actions") {
            Some(PipelineType::GitHubActions)
        } else if str_eq(s, "gitlab-ci") {
            Some(PipelineType::GitLabCI)
        } else if str_eq(s, "circleci") {
            Some(PipelineType::CircleCI)
        } else if str_eq(s, "travis") {
            Some(PipelineType::Travis)
        } else if str_eq(s, "custom") {
            Some(PipelineType::Custom)
        } else {
            None
        }
    }
}

/// Parsing inverts the canonical label of every pipeline kind.
pub proof fn lemma_pipeline_type_round_trip(v: PipelineType)
    ensures
        PipelineType::spec_parse(v.spec_label()) == Some(v),
{
    reveal_strlit("jenkins");
    reveal_strlit("github-actions");
    reveal_strlit("gitlab-ci");
    reveal_strlit("circleci");
    reveal_strlit("travis");
    reveal_strlit("custom");
    assert("jenkins"@.len() == 7);
    assert("github-actions"@.len() == 14);
    assert("gitlab-ci"@.len() == 9);
    assert("circleci"@.len() == 8);
    assert("travis"@.len() == 6);
    assert("custom"@.len() == 6);
    assert("custom"@ != "travis"@) by {
        assert("custom"@[0] == 'c');
        assert("travis"@[0] == 't');
    }
}

/// The persisted attribute names of the entity catalog.
#[derive(Clone, Copy, Debug, PartialEq, Eq, Structural)]
pub enum PropName {
    Id,
    Name,
    Description,
    Url,
    LocalPath,
    RepositoryId,
    IsWorkingBranch,
    Number,
    Title,
    SourceBranchId,
    TargetBranchId,
    Status,
    TicketId,
    TicketType,
    DashboardType,
    NotebookType,
    PipelineType,
    CreatedAt,
    UpdatedAt,
}

impl PropName {
    /// The persisted property name for this attribute.
    pub open spec fn spec_label(self) -> Seq<char> {
        match self {
            PropName::Id => "id"@,
            PropName::Name => "name"@,
            PropName::Description => "description"@,
            PropName::Url => "url"@,
            PropName::LocalPath => "local_path"@,
            PropName::RepositoryId => "repository_id"@,
            PropName::IsWorkingBranch => "is_working_branch"@,
            PropName::Number => "number"@,
            PropName::Title => "title"@,
            PropName::SourceBranchId => "source_branch_id"@,
            PropName::TargetBranchId => "target_branch_id"@,
            PropName::Status => "status"@,
            PropName::TicketId => "ticket_id"@,
            PropName::TicketType => "ticket_type"@,
            PropName::DashboardType => "dashboard_type"@,
            PropName::NotebookType => "notebook_type"@,
            PropName::PipelineType => "pipeline_type"@,
            PropName::CreatedAt => "created_at"@,
            PropName::UpdatedAt => "updated_at"@,
        }
    }

    pub fn label(&self) -> (r: &'static str)
        ensures
            r@ == self.spec_label(),
    {
        match self {
            PropName::Id => "id",
            PropName::Name => "name",
            PropName::Description => "description",
            PropName::Url => "url",
            PropName::LocalPath => "local_path",
            PropName::RepositoryId => "repository_id",
            PropName::IsWorkingBranch => "is_working_branch",
            PropName::Number => "number",
            PropName::Title => "title",
            PropName::SourceBranchId => "source_branch_id",
            PropName::TargetBranchId => "target_branch_id",
            PropName::Status => "status",
            PropName::TicketId => "ticket_id",
            PropName::TicketType => "ticket_type",
            PropName::DashboardType => "dashboard_type",
            PropName::NotebookType => "notebook_type",
            PropName::PipelineType => "pipeline_type",
            PropName::CreatedAt => "created_at",
            PropName::UpdatedAt => "updated_at",
        }
    }
}

} // verus!
