use project_graph::errors::GraphError;
use project_graph::models::{
    Branch, CIPipeline, Dashboard, DashboardType, EntityType, Notebook, NotebookType, PipelineType,
    Project, PropName, PullRequest, PullRequestStatus, Repository, Ticket, TicketStatus,
    TicketType,
};
use project_graph::models::Entity;
use project_graph::props::{
    deserialize_branch, deserialize_ci_pipeline, deserialize_dashboard, deserialize_entity,
    deserialize_notebook, deserialize_project, deserialize_pull_request, deserialize_repository,
    deserialize_ticket, serialize_branch, serialize_ci_pipeline, serialize_dashboard,
    serialize_entity, serialize_notebook, serialize_project, serialize_pull_request,
    serialize_repository, serialize_ticket, PropValue, PropertyMap,
};
use project_graph::rels::{Cardinality, RelationshipType};

#[test]
fn pull_request_status_labels() {
    assert_eq!(PullRequestStatus::Open.label(), "open");
    assert_eq!(PullRequestStatus::Closed.label(), "closed");
    assert_eq!(PullRequestStatus::Merged.label(), "merged");
    assert_eq!(PullRequestStatus::Draft.label(), "draft");
}

#[test]
fn ticket_status_labels() {
    assert_eq!(TicketStatus::Open.label(), "open");
    assert_eq!(TicketStatus::InProgress.label(), "in-progress");
    assert_eq!(TicketStatus::Resolved.label(), "resolved");
    assert_eq!(TicketStatus::Closed.label(), "closed");
    assert_eq!(TicketStatus::Blocked.label(), "blocked");
}

#[test]
fn ticket_type_labels() {
    assert_eq!(TicketType::Bug.label(), "bug");
    assert_eq!(TicketType::Feature.label(), "feature");
    assert_eq!(TicketType::Task.label(), "task");
    assert_eq!(TicketType::Epic.label(), "epic");
    assert_eq!(TicketType::Story.label(), "story");
    assert_eq!(TicketType::Issue.label(), "issue");
}

#[test]
fn dashboard_and_notebook_labels() {
    assert_eq!(DashboardType::Kibana.label(), "kibana");
    assert_eq!(DashboardType::Grafana.label(), "grafana");
    assert_eq!(DashboardType::Custom.label(), "custom");
    assert_eq!(NotebookType::Databricks.label(), "databricks");
    assert_eq!(NotebookType::Jupyter.label(), "jupyter");
    assert_eq!(NotebookType::Zeppelin.label(), "zeppelin");
    assert_eq!(NotebookType::Custom.label(), "custom");
}

#[test]
fn pipeline_type_labels() {
    assert_eq!(PipelineType::Jenkins.label(), "jenkins");
    assert_eq!(PipelineType::GitHubActions.label(), "github-actions");
    assert_eq!(PipelineType::GitLabCI.label(), "gitlab-ci");
    assert_eq!(PipelineType::CircleCI.label(), "circleci");
    assert_eq!(PipelineType::Travis.label(), "travis");
    assert_eq!(PipelineType::Custom.label(), "custom");
}

#[test]
fn enum_labels_parse_back() {
    for s in [
        PullRequestStatus::Open,
        PullRequestStatus::Closed,
        PullRequestStatus::Merged,
        PullRequestStatus::Draft,
    ] {
        assert_eq!(PullRequestStatus::parse(s.label()), Some(s));
    }
    for s in [
        TicketStatus::Open,
        TicketStatus::InProgress,
        TicketStatus::Resolved,
        TicketStatus::Closed,
        TicketStatus::Blocked,
    ] {
        assert_eq!(TicketStatus::parse(s.label()), Some(s));
    }
    for s in [
        PipelineType::Jenkins,
        PipelineType::GitHubActions,
        PipelineType::GitLabCI,
        PipelineType::CircleCI,
        PipelineType::Travis,
        PipelineType::Custom,
    ] {
        assert_eq!(PipelineType::parse(s.label()), Some(s));
    }
    assert_eq!(TicketStatus::parse("nonsense"), None);
    assert_eq!(PullRequestStatus::parse(""), None);
}

#[test]
fn entity_and_relationship_labels() {
    assert_eq!(EntityType::Project.label(), "Project");
    assert_eq!(EntityType::CIPipeline.label(), "CIPipeline");
    assert_eq!(RelationshipType::HasRepository.label(), "HAS_REPOSITORY");
    assert_eq!(RelationshipType::HasBranch.label(), "HAS_BRANCH");
    assert_eq!(RelationshipType::HasPR.label(), "HAS_PR");
    assert_eq!(RelationshipType::HasTicket.label(), "HAS_TICKET");
    assert_eq!(RelationshipType::HasDashboard.label(), "HAS_DASHBOARD");
    assert_eq!(RelationshipType::HasNotebook.label(), "HAS_NOTEBOOK");
    assert_eq!(RelationshipType::HasPipeline.label(), "HAS_PIPELINE");
    assert_eq!(RelationshipType::SourceFor.label(), "SOURCE_FOR");
    assert_eq!(RelationshipType::TargetTo.label(), "TARGET_TO");
}

#[test]
fn relationship_endpoints_and_cardinality() {
    assert_eq!(RelationshipType::HasRepository.source_type(), EntityType::Project);
    assert_eq!(RelationshipType::HasRepository.target_type(), EntityType::Repository);
    assert_eq!(RelationshipType::SourceFor.source_type(), EntityType::Branch);
    assert_eq!(RelationshipType::SourceFor.target_type(), EntityType::PullRequest);
    assert_eq!(RelationshipType::HasRepository.cardinality(), Cardinality::OneToMany);
    assert_eq!(RelationshipType::SourceFor.cardinality(), Cardinality::ManyToOne);
    assert!(!RelationshipType::HasBranch.duplicable());
    assert!(RelationshipType::TargetTo.duplicable());
}

#[test]
fn project_round_trip() {
    let p = Project {
        id: 3,
        name: "acme".to_string(),
        description: Some("the acme initiative".to_string()),
        created_at: 1000,
        updated_at: 2000,
    };
    let m = serialize_project(&p);
    assert_eq!(deserialize_project(&m), Ok(p));
}

#[test]
fn project_round_trip_without_description() {
    let p = Project {
        id: 0,
        name: "bare".to_string(),
        description: None,
        created_at: 0,
        updated_at: 0,
    };
    let m = serialize_project(&p);
    assert_eq!(deserialize_project(&m), Ok(p));
}

#[test]
fn repository_round_trip() {
    let p = Repository {
        id: 1,
        url: "https://git/acme/app".to_string(),
        local_path: Some("/src/app".to_string()),
        created_at: 5,
        updated_at: 6,
    };
    let m = serialize_repository(&p);
    assert_eq!(deserialize_repository(&m), Ok(p));
}

#[test]
fn branch_round_trip() {
    let p = Branch {
        id: 2,
        name: "main".to_string(),
        repository_id: 1,
        is_working_branch: true,
        created_at: 7,
    };
    let m = serialize_branch(&p);
    assert_eq!(deserialize_branch(&m), Ok(p));
}

#[test]
fn pull_request_round_trip() {
    let p = PullRequest {
        id: 9,
        number: "42".to_string(),
        title: "fix the build".to_string(),
        repository_id: 1,
        source_branch_id: 2,
        target_branch_id: 3,
        status: PullRequestStatus::Draft,
        created_at: 8,
        updated_at: 9,
    };
    let m = serialize_pull_request(&p);
    assert_eq!(
        m.get(PropName::Status),
        Some(&PropValue::Str("draft".to_string()))
    );
    assert_eq!(deserialize_pull_request(&m), Ok(p));
}

#[test]
fn ticket_round_trip_in_progress() {
    let p = Ticket {
        id: 4,
        ticket_id: "ENG-7".to_string(),
        title: "wire the dashboard".to_string(),
        status: TicketStatus::InProgress,
        ticket_type: TicketType::Feature,
        created_at: 10,
        updated_at: 11,
    };
    let m = serialize_ticket(&p);
    assert_eq!(
        m.get(PropName::Status),
        Some(&PropValue::Str("in-progress".to_string()))
    );
    let back = deserialize_ticket(&m).expect("mapping deserializes");
    assert_eq!(back.status, TicketStatus::InProgress);
    assert_eq!(back, p);
}

#[test]
fn dashboard_round_trip() {
    let p = Dashboard {
        id: 5,
        url: "https://grafana/acme".to_string(),
        name: "acme health".to_string(),
        dashboard_type: DashboardType::Grafana,
        created_at: 12,
    };
    let m = serialize_dashboard(&p);
    assert_eq!(deserialize_dashboard(&m), Ok(p));
}

#[test]
fn notebook_round_trip() {
    let p = Notebook {
        id: 6,
        url: "https://nb/acme".to_string(),
        name: "exploration".to_string(),
        notebook_type: NotebookType::Jupyter,
        created_at: 13,
    };
    let m = serialize_notebook(&p);
    assert_eq!(deserialize_notebook(&m), Ok(p));
}

#[test]
fn ci_pipeline_round_trip() {
    let p = CIPipeline {
        id: 7,
        name: "build".to_string(),
        url: "https://ci/acme/build".to_string(),
        pipeline_type: PipelineType::GitHubActions,
        created_at: 14,
    };
    let m = serialize_ci_pipeline(&p);
    assert_eq!(
        m.get(PropName::PipelineType),
        Some(&PropValue::Str("github-actions".to_string()))
    );
    assert_eq!(deserialize_ci_pipeline(&m), Ok(p));
}

#[test]
fn deserialize_names_missing_field() {
    let m = PropertyMap::new();
    assert_eq!(
        deserialize_project(&m),
        Err(GraphError::Deserialization(PropName::Id))
    );
    let mut m2 = PropertyMap::new();
    m2.put(PropName::Id, PropValue::Id(1));
    assert_eq!(
        deserialize_project(&m2),
        Err(GraphError::Deserialization(PropName::Name))
    );
}

#[test]
fn deserialize_names_malformed_field() {
    let p = Ticket {
        id: 4,
        ticket_id: "ENG-8".to_string(),
        title: "t".to_string(),
        status: TicketStatus::Open,
        ticket_type: TicketType::Bug,
        created_at: 0,
        updated_at: 0,
    };
    let mut m = PropertyMap::new();
    m.put(PropName::Id, PropValue::Id(p.id));
    m.put(PropName::TicketId, PropValue::Str(p.ticket_id.clone()));
    m.put(PropName::Title, PropValue::Str(p.title.clone()));
    m.put(PropName::Status, PropValue::Str("sleeping".to_string()));
    assert_eq!(
        deserialize_ticket(&m),
        Err(GraphError::Deserialization(PropName::Status))
    );
    let mut m2 = PropertyMap::new();
    m2.put(PropName::Id, PropValue::Str("not an id".to_string()));
    assert_eq!(
        deserialize_branch(&m2),
        Err(GraphError::Deserialization(PropName::Id))
    );
}

#[test]
fn entity_dispatch_round_trip() {
    let e = Entity::Branch(Branch {
        id: 8,
        name: "release".to_string(),
        repository_id: 1,
        is_working_branch: false,
        created_at: 20,
    });
    let m = serialize_entity(&e);
    assert_eq!(deserialize_entity(EntityType::Branch, &m), Ok(e));
    // Reading the same mapping as another type names the first field that
    // does not fit.
    assert_eq!(
        deserialize_entity(EntityType::Ticket, &m),
        Err(GraphError::Deserialization(PropName::TicketId))
    );
}

#[test]
fn property_names_are_persisted_forms() {
    assert_eq!(PropName::Id.label(), "id");
    assert_eq!(PropName::LocalPath.label(), "local_path");
    assert_eq!(PropName::IsWorkingBranch.label(), "is_working_branch");
    assert_eq!(PropName::SourceBranchId.label(), "source_branch_id");
    assert_eq!(PropName::TargetBranchId.label(), "target_branch_id");
    assert_eq!(PropName::TicketType.label(), "ticket_type");
    assert_eq!(PropName::CreatedAt.label(), "created_at");
    assert_eq!(PropName::UpdatedAt.label(), "updated_at");
}
