use project_graph::config::{connection_verified, StoreConfig};
use project_graph::errors::GraphError;
use project_graph::models::{
    DashboardType, Entity, EntityType, NotebookType, PipelineType, PullRequestStatus, TicketStatus,
    TicketType,
};
use project_graph::rels::{Direction, RelationshipType};
use project_graph::schema::{apply_all, schema_statements, DeclKind};
use project_graph::store::GraphStore;

fn seeded_store() -> (GraphStore, u64, u64) {
    let mut store = GraphStore::new();
    let project = store
        .create_project("acme".to_string(), None, 1)
        .expect("project creates");
    let repo = store
        .create_repository("https://git/acme/app".to_string(), None, 2)
        .expect("repository creates");
    (store, project, repo)
}

#[test]
fn duplicate_project_name_refused() {
    let (mut store, project, _) = seeded_store();
    let second = store.create_project("acme".to_string(), Some("again".to_string()), 9);
    assert_eq!(second, Err(GraphError::DuplicateKey));
    // The first project stays queryable.
    let found = store.find_project_by_name("acme").expect("still present");
    assert_eq!(found.id, project);
    assert_eq!(found.description, None);
}

#[test]
fn duplicate_ticket_and_dashboard_keys_refused() {
    let mut store = GraphStore::new();
    store
        .create_ticket(
            "ENG-1".to_string(),
            "first".to_string(),
            TicketStatus::Open,
            TicketType::Bug,
            1,
        )
        .expect("ticket creates");
    assert_eq!(
        store.create_ticket(
            "ENG-1".to_string(),
            "second".to_string(),
            TicketStatus::Blocked,
            TicketType::Task,
            2,
        ),
        Err(GraphError::DuplicateKey)
    );
    store
        .create_dashboard(
            "https://kibana/x".to_string(),
            "x".to_string(),
            DashboardType::Kibana,
            3,
        )
        .expect("dashboard creates");
    assert_eq!(
        store.create_dashboard(
            "https://kibana/x".to_string(),
            "y".to_string(),
            DashboardType::Custom,
            4,
        ),
        Err(GraphError::DuplicateKey)
    );
    store
        .create_notebook(
            "https://nb/x".to_string(),
            "x".to_string(),
            NotebookType::Zeppelin,
            5,
        )
        .expect("notebook creates");
    assert_eq!(
        store.create_notebook(
            "https://nb/x".to_string(),
            "z".to_string(),
            NotebookType::Custom,
            6,
        ),
        Err(GraphError::DuplicateKey)
    );
    store
        .create_ci_pipeline(
            "build".to_string(),
            "https://ci/b".to_string(),
            PipelineType::Jenkins,
            7,
        )
        .expect("pipeline creates");
    assert_eq!(
        store.create_ci_pipeline(
            "build".to_string(),
            "https://ci/b".to_string(),
            PipelineType::Travis,
            8,
        ),
        Err(GraphError::DuplicateKey)
    );
    // A pipeline with the same name but another url is a different key.
    assert!(store
        .create_ci_pipeline(
            "build".to_string(),
            "https://ci/other".to_string(),
            PipelineType::Travis,
            9,
        )
        .is_ok());
}

#[test]
fn link_and_neighbors_scenario() {
    let (mut store, project, repo) = seeded_store();
    store
        .link(RelationshipType::HasRepository, project, repo)
        .expect("link succeeds");
    let neighbors = store.neighbors(project, RelationshipType::HasRepository, Direction::Outgoing);
    assert_eq!(neighbors.len(), 1);
    match neighbors[0] {
        Entity::Repository(r) => {
            assert_eq!(r.id, repo);
            assert_eq!(r.url, "https://git/acme/app");
        }
        other => panic!("expected a repository, got {:?}", other),
    }
    // Seen from the repository, the edge is incoming.
    let owners = store.neighbors(repo, RelationshipType::HasRepository, Direction::Incoming);
    assert_eq!(owners.len(), 1);
    assert_eq!(owners[0].id(), project);
}

#[test]
fn ownership_edge_is_not_duplicable() {
    let (mut store, project, repo) = seeded_store();
    store
        .link(RelationshipType::HasRepository, project, repo)
        .expect("first link succeeds");
    assert_eq!(
        store.link(RelationshipType::HasRepository, project, repo),
        Err(GraphError::DuplicateRelationship)
    );
    // Another project cannot own the same repository either.
    let other = store
        .create_project("other".to_string(), None, 3)
        .expect("project creates");
    assert_eq!(
        store.link(RelationshipType::HasRepository, other, repo),
        Err(GraphError::DuplicateRelationship)
    );
}

#[test]
fn link_checks_endpoint_types_and_existence() {
    let (mut store, project, repo) = seeded_store();
    // Missing endpoint.
    assert_eq!(
        store.link(RelationshipType::HasRepository, project, 99),
        Err(GraphError::ReferentialIntegrity)
    );
    // Type mismatch at both ends.
    assert_eq!(
        store.link(RelationshipType::HasRepository, repo, project),
        Err(GraphError::ReferentialIntegrity)
    );
    assert_eq!(
        store.link(RelationshipType::SourceFor, project, repo),
        Err(GraphError::ReferentialIntegrity)
    );
}

#[test]
fn unlink_removes_the_edge() {
    let (mut store, project, repo) = seeded_store();
    store
        .link(RelationshipType::HasRepository, project, repo)
        .expect("link succeeds");
    assert!(store.unlink(RelationshipType::HasRepository, project, repo));
    assert_eq!(
        store
            .neighbors(project, RelationshipType::HasRepository, Direction::Outgoing)
            .len(),
        0
    );
    assert!(!store.unlink(RelationshipType::HasRepository, project, repo));
    // After the unlink the repository can be linked again.
    assert!(store.link(RelationshipType::HasRepository, project, repo).is_ok());
}

#[test]
fn duplicate_branch_key_refused_per_repository() {
    let (mut store, _, repo) = seeded_store();
    let first = store
        .create_branch("main".to_string(), repo, true, 3)
        .expect("branch creates");
    let second = store.create_branch("main".to_string(), repo, false, 4);
    assert_eq!(second, Err(GraphError::DuplicateKey));
    // The first branch remains readable through its unique key.
    let found = store.find_branch_by_key("main", repo).expect("still present");
    assert_eq!(found.id, first);
    assert!(found.is_working_branch);
    // The same branch name under another repository is a different key.
    let repo2 = store
        .create_repository("https://git/acme/other".to_string(), None, 5)
        .expect("repository creates");
    assert!(store.create_branch("main".to_string(), repo2, false, 6).is_ok());
}

#[test]
fn branch_requires_existing_repository() {
    let mut store = GraphStore::new();
    assert_eq!(
        store.create_branch("main".to_string(), 0, false, 1),
        Err(GraphError::ReferentialIntegrity)
    );
}

#[test]
fn pull_request_branches_must_belong_to_its_repository() {
    let (mut store, _, repo) = seeded_store();
    let main = store
        .create_branch("main".to_string(), repo, false, 3)
        .expect("branch creates");
    let repo2 = store
        .create_repository("https://git/acme/other".to_string(), None, 4)
        .expect("repository creates");
    let stray = store
        .create_branch("feature".to_string(), repo2, false, 5)
        .expect("branch creates");
    // Source branch owned by another repository than the pull request's.
    assert_eq!(
        store.create_pull_request(
            "1".to_string(),
            "title".to_string(),
            repo,
            stray,
            main,
            PullRequestStatus::Open,
            6,
        ),
        Err(GraphError::ReferentialIntegrity)
    );
    // Both branches owned by the right repository: accepted.
    let feature = store
        .create_branch("feature".to_string(), repo, true, 7)
        .expect("branch creates");
    assert!(store
        .create_pull_request(
            "1".to_string(),
            "title".to_string(),
            repo,
            feature,
            main,
            PullRequestStatus::Open,
            8,
        )
        .is_ok());
}

#[test]
fn get_by_id_and_list() {
    let (store, project, repo) = seeded_store();
    match store.get_by_id(project) {
        Some(Entity::Project(p)) => assert_eq!(p.name, "acme"),
        other => panic!("expected the project, got {:?}", other),
    }
    assert!(store.get_by_id(17).is_none());
    let projects = store.list(EntityType::Project);
    assert_eq!(projects.len(), 1);
    let repos = store.list(EntityType::Repository);
    assert_eq!(repos.len(), 1);
    assert_eq!(repos[0].id(), repo);
    assert_eq!(store.list(EntityType::Ticket).len(), 0);
}

#[test]
fn updates_change_attributes_in_place() {
    let (mut store, project, repo) = seeded_store();
    store
        .update_project(project, Some("new words".to_string()), 50)
        .expect("update succeeds");
    let p = store.find_project_by_name("acme").expect("present");
    assert_eq!(p.description, Some("new words".to_string()));
    assert_eq!(p.updated_at, 50);
    store
        .update_repository(repo, Some("/checkout".to_string()), 51)
        .expect("update succeeds");
    let branch = store
        .create_branch("main".to_string(), repo, false, 52)
        .expect("branch creates");
    store.update_branch(branch, true).expect("update succeeds");
    assert!(store.find_branch_by_key("main", repo).unwrap().is_working_branch);
    assert_eq!(
        store.update_project(repo, None, 53),
        Err(GraphError::NotFound)
    );
    assert_eq!(store.update_ticket(
        99,
        "t".to_string(),
        TicketStatus::Open,
        TicketType::Bug,
        54,
    ), Err(GraphError::NotFound));
}

#[test]
fn duplicate_repository_url_refused() {
    let (mut store, _, _) = seeded_store();
    assert_eq!(
        store.create_repository("https://git/acme/app".to_string(), Some("/app".to_string()), 9),
        Err(GraphError::DuplicateKey)
    );
    let found = store
        .find_repository_by_url("https://git/acme/app")
        .expect("still present");
    assert_eq!(found.local_path, None);
}

#[test]
fn many_to_one_edges_share_a_target_branch() {
    let (mut store, _, repo) = seeded_store();
    let main = store
        .create_branch("main".to_string(), repo, false, 3)
        .expect("branch creates");
    let feature = store
        .create_branch("feature".to_string(), repo, true, 4)
        .expect("branch creates");
    let pr1 = store
        .create_pull_request(
            "1".to_string(),
            "first".to_string(),
            repo,
            feature,
            main,
            PullRequestStatus::Open,
            5,
        )
        .expect("pull request creates");
    let pr2 = store
        .create_pull_request(
            "2".to_string(),
            "second".to_string(),
            repo,
            feature,
            main,
            PullRequestStatus::Draft,
            6,
        )
        .expect("pull request creates");
    // The same branch may target any number of pull requests.
    store.link(RelationshipType::TargetTo, main, pr1).expect("link succeeds");
    store.link(RelationshipType::TargetTo, main, pr2).expect("link succeeds");
    let targeted = store.neighbors(main, RelationshipType::TargetTo, Direction::Outgoing);
    assert_eq!(targeted.len(), 2);
    // Neighbors come back in the order the edges were created.
    assert_eq!(targeted[0].id(), pr1);
    assert_eq!(targeted[1].id(), pr2);
}

#[test]
fn list_keeps_creation_order() {
    let mut store = GraphStore::new();
    let a = store.create_project("alpha".to_string(), None, 1).unwrap();
    store
        .create_repository("https://git/x".to_string(), None, 2)
        .unwrap();
    let b = store.create_project("beta".to_string(), None, 3).unwrap();
    let projects = store.list(EntityType::Project);
    assert_eq!(projects.len(), 2);
    assert_eq!(projects[0].id(), a);
    assert_eq!(projects[1].id(), b);
}

#[test]
fn schema_statement_texts() {
    let stmts = schema_statements();
    assert_eq!(stmts.len(), 14);
    assert_eq!(
        stmts[0].text,
        "CREATE CONSTRAINT project_name_unique IF NOT EXISTS FOR (p:Project) REQUIRE p.name IS UNIQUE"
    );
    assert_eq!(
        stmts[6].text,
        "CREATE CONSTRAINT pipeline_name_unique IF NOT EXISTS FOR (c:CIPipeline) REQUIRE (c.name, c.url) IS UNIQUE"
    );
    assert_eq!(
        stmts[13].text,
        "CREATE INDEX ticket_type IF NOT EXISTS FOR (t:Ticket) ON (t.ticket_type)"
    );
    for (i, s) in stmts.iter().enumerate() {
        if i < 7 {
            assert_eq!(s.kind, DeclKind::Constraint);
        } else {
            assert_eq!(s.kind, DeclKind::Index);
        }
    }
}

#[test]
fn apply_all_is_idempotent() {
    let mut store = GraphStore::new();
    let first = apply_all(&mut store);
    assert_eq!(first.len(), 14);
    assert!(first.iter().all(|o| o.created));
    let applied_once = store.schema_applied.clone();
    let second = apply_all(&mut store);
    assert_eq!(second.len(), 14);
    assert!(second.iter().all(|o| !o.created));
    assert_eq!(store.schema_applied, applied_once);
}

#[test]
fn config_defaults_fill_missing_values() {
    let c = StoreConfig::from_env_values(None, None, None);
    assert_eq!(c.uri, "bolt://localhost:7687");
    assert_eq!(c.user, "neo4j");
    assert_eq!(c.password, "password");
    let c2 = StoreConfig::from_env_values(
        Some("bolt://db:7687".to_string()),
        Some("svc".to_string()),
        None,
    );
    assert_eq!(c2.uri, "bolt://db:7687");
    assert_eq!(c2.user, "svc");
    assert_eq!(c2.password, "password");
}

#[test]
fn connection_probe_decision() {
    assert!(connection_verified(Some(1)));
    assert!(!connection_verified(Some(2)));
    assert!(!connection_verified(None));
}
