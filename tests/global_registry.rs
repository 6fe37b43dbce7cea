use agent_hub_server::global_registry::{upsert_project, GlobalProjectRegistry, ProjectSummary, GLOBAL_REGISTRY_VERSION};

#[test]
fn upsert_project_updates_entries() {
    let mut registry = GlobalProjectRegistry::empty();
    let first_seen = "2025-11-18T16:00:00Z".to_string();
    let summary = ProjectSummary {
        project_root: "/tmp/some-project".into(),
        project_name: "some-project".into(),
        last_seen: first_seen.clone(),
    };
    upsert_project(&mut registry, summary);
    assert_eq!(registry.projects.len(), 1);
    assert_eq!(registry.projects[0].last_seen, first_seen);

    let updated_summary = ProjectSummary {
        project_root: "/tmp/some-project".into(),
        project_name: "renamed-project".into(),
        last_seen: "2025-11-19T12:00:00Z".into(),
    };
    upsert_project(&mut registry, updated_summary);
    assert_eq!(registry.projects.len(), 1);
    assert_eq!(registry.projects[0].project_name, "renamed-project");
    assert_eq!(registry.projects[0].last_seen, "2025-11-19T12:00:00Z");

    let second_project = ProjectSummary {
        project_root: "/tmp/another".into(),
        project_name: "another".into(),
        last_seen: "2025-11-19T12:00:01Z".into(),
    };
    upsert_project(&mut registry, second_project);
    assert_eq!(registry.projects.len(), 2);
}

#[test]
fn empty_registry_has_current_version() {
    let r = GlobalProjectRegistry::empty();
    assert_eq!(r.version, GLOBAL_REGISTRY_VERSION);
    assert_eq!(r.version, 1);
    assert!(r.projects.is_empty());
}
