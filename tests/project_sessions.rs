use agent_hub_server::dispatcher::LaunchSettings;
use agent_hub_server::llm::ProviderKind;
use agent_hub_server::project_sessions::{orchestrator_launch, ProjectSessionStatus, ProjectSessions};

#[test]
fn create_session_for_project_creates_entry() {
    let mut state = ProjectSessions::new();
    let project_root = "/tmp/vibe-project";
    let (session, _) = state.create_or_get_session_for_project(project_root, "Vibe Project");
    assert_eq!(session.project_root, project_root);
    assert_eq!(session.status, ProjectSessionStatus::Active);

    let sessions = state.list_sessions();
    assert_eq!(sessions.len(), 1);
    assert_eq!(sessions[0].session_id, session.session_id);
}

#[test]
fn create_or_get_reuses_active_session() {
    let mut state = ProjectSessions::new();
    let project_root = "/tmp/vibe-project";

    let (first, _) = state.create_or_get_session_for_project(project_root, "Vibe Project");
    let (second, _) = state.create_or_get_session_for_project(project_root, "Vibe Project");
    assert_eq!(first.session_id, second.session_id, "should reuse active session");

    let (other, _) = state.create_or_get_session_for_project("/tmp/another", "Another");
    assert_ne!(first.session_id, other.session_id, "different project roots should create new sessions");
}

#[test]
fn reuse_stamps_last_active_and_reports_no_creation() {
    let mut state = ProjectSessions::new();
    let (a, created) = state.create_or_get_with("/p", "P", "id-1".to_string(), "t1".to_string());
    assert!(created);
    assert_eq!(a.created_at, "t1");
    assert_eq!(a.last_active_at, "t1");
    assert!(a.latest_result.is_none());
    let (b, created) = state.create_or_get_with("/p", "P", "id-2".to_string(), "t2".to_string());
    assert!(!created);
    assert_eq!(b.session_id, "id-1");
    assert_eq!(b.created_at, "t1");
    assert_eq!(b.last_active_at, "t2");
    assert_eq!(state.get_session("id-1").unwrap().last_active_at, "t2");
    assert!(state.get_session("id-2").is_none());
    assert_eq!(state.update_last_active_at("id-1", "t3".to_string()).unwrap().last_active_at, "t3");
    assert!(state.update_last_active_at("nope", "t4".to_string()).is_none());
    let touched = state.update_last_active("id-1").unwrap();
    assert_eq!(touched.session_id, "id-1");
    assert_ne!(touched.last_active_at, "t3");
    assert!(state.update_last_active("nope").is_none());
    assert_eq!(state.find_active_session("/p").unwrap().session_id, "id-1");
    assert!(state.find_active_session("/q").is_none());
}

#[test]
fn orchestrator_launch_embeds_project_and_ids() {
    let settings = LaunchSettings {
        provider: ProviderKind::Codex,
        model: "m".to_string(),
        server_url: "http://h:1".to_string(),
        shim_dir: "/shims".to_string(),
        inherited_path: None,
        api_key: None,
    };
    let l = orchestrator_launch(&settings, "s1", "Vibe Project", "a1");
    assert_eq!(l.agent_type, "orchestrator");
    assert!(l.task_id.is_none());
    assert_eq!(l.command, "codex");
    assert!(l.instruction.starts_with(
        "You are the Root Orchestrator Vibe agent (ID: a1). Your goal is to plan the development of this project: 'Vibe Project'.\n"
    ));
    assert!(l.instruction.contains("- `vibe-ask --agent-id a1 --session-id s1 --question \"<question>\"` (Blocks until user replies)\n"));
    assert!(l.instruction.ends_with("  ]\n}\n```\n"));
    assert_eq!(l.env[3], ("PATH".to_string(), "/shims".to_string()));
}
