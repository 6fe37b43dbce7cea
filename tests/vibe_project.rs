use agent_hub_server::vibe_project::{
    default_project_config, init_status, project_config_path, rules_config_path, InitStatus, VIBE_SCHEMA_VERSION,
};

#[test]
fn init_status_compares_schema_versions() {
    assert_eq!(init_status(true, 7), InitStatus::Created);
    assert_eq!(init_status(false, VIBE_SCHEMA_VERSION), InitStatus::AlreadyInitializedUpToDate);
    assert_eq!(init_status(false, 0), InitStatus::AlreadyInitializedOlderSchema { existing: 0 });
    assert_eq!(init_status(false, 2), InitStatus::AlreadyInitializedNewerSchema { existing: 2 });
}

#[test]
fn config_paths_live_under_vibe_config() {
    assert_eq!(project_config_path("/p"), vec!["/p", ".vibe", "config", "project.json"]);
    assert_eq!(rules_config_path("/p"), vec!["/p", ".vibe", "config", "rules.json"]);
}

#[test]
fn default_config_fields() {
    let c = default_project_config("/p/x".to_string(), "x".to_string(), "2025-01-01T00:00:00Z".to_string());
    assert_eq!(c.schema_version, 1);
    assert_eq!(c.project_name, "x");
    assert_eq!(c.preferred_planner_model.as_deref(), Some("gpt-5.1"));
    assert_eq!(c.notes.as_deref(), Some("Initial .vibe scaffold created by 'vibe init'."));
}
