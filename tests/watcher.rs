use agent_hub_server::dispatcher::{LaunchSettings, TaskDispatcher};
use agent_hub_server::llm::ProviderKind;
use agent_hub_server::project_sessions::ProjectSessions;
use agent_hub_server::registry::{Agent, AgentRegistry, AgentStatus};
use agent_hub_server::tasks::{Task, TaskGraph};
use agent_hub_server::watcher::{apply_result_file, classify_event_path, extract_task_graph_payload, WatchTarget};

fn comps(parts: &[&str]) -> Vec<Option<String>> {
    parts.iter().map(|p| Some(p.to_string())).collect()
}

fn parse_graph(text: &str) -> Option<TaskGraph> {
    let v: serde_json::Value = serde_json::from_str(text.trim()).ok()?;
    let tasks = v.get("tasks")?.as_array()?;
    let mut out = Vec::new();
    for t in tasks {
        out.push(Task {
            id: t.get("id")?.as_str()?.to_string(),
            description: t.get("description")?.as_str()?.to_string(),
            agent_type: t.get("agent_type").and_then(|a| a.as_str()).map(|a| a.to_string()),
        });
    }
    Some(TaskGraph { tasks: out })
}

#[test]
fn result_file_names_agent_and_session() {
    let t = classify_event_path(&comps(&["srv", ".vibe", "agents", "s1", "a1", "RESULT.md"]), false);
    match t {
        WatchTarget::AgentResult { session_id, agent_id } => {
            assert_eq!(session_id, "s1");
            assert_eq!(agent_id, "a1");
        }
        other => panic!("unexpected {:?}", other),
    }
}

#[test]
fn task_graph_file_names_session() {
    let t = classify_event_path(&comps(&["agents", "s9", "a1", "TASK_GRAPH.json"]), false);
    match t {
        WatchTarget::TaskGraphFile { session_id } => assert_eq!(session_id, "s9"),
        other => panic!("unexpected {:?}", other),
    }
}

#[test]
fn other_empty_and_shallow_files() {
    assert!(matches!(classify_event_path(&comps(&["s", "a", "notes.txt"]), false), WatchTarget::Ignored));
    assert!(matches!(classify_event_path(&comps(&["s", "a", "RESULT.md"]), true), WatchTarget::Ignored));
    assert!(matches!(classify_event_path(&comps(&["a", "RESULT.md"]), false), WatchTarget::Unresolved));
    assert!(matches!(classify_event_path(&comps(&["TASK_GRAPH.json"]), false), WatchTarget::Unresolved));
    assert!(matches!(classify_event_path(&vec![], false), WatchTarget::Ignored));
    let mut bad = comps(&["s", "a", "RESULT.md"]);
    bad[1] = None;
    assert!(matches!(classify_event_path(&bad, false), WatchTarget::Unresolved));
}

#[test]
fn payload_prefers_fenced_json_block() {
    let text = "Plan done.\n```json\n{\"tasks\": [{\"id\": \"t1\", \"description\": \"d\"}]}\n```\nbye";
    assert_eq!(
        extract_task_graph_payload(text).as_deref(),
        Some("\n{\"tasks\": [{\"id\": \"t1\", \"description\": \"d\"}]}\n")
    );
}

#[test]
fn payload_is_whole_text_without_fence() {
    let text = "{\"tasks\": []}";
    assert_eq!(extract_task_graph_payload(text).as_deref(), Some(text));
}

#[test]
fn payload_absent_without_tasks_key() {
    assert_eq!(extract_task_graph_payload("all done, no follow-up"), None);
    assert_eq!(extract_task_graph_payload("```json\n{}\n```"), None);
}

#[test]
fn payload_empty_for_unclosed_fence() {
    assert_eq!(extract_task_graph_payload("\"tasks\" ```json {"), Some(String::new()));
}

#[test]
fn repeated_result_events_dispatch_embedded_graph_once() {
    let mut registry = AgentRegistry::new();
    let mut sessions = ProjectSessions::new();
    let (session, _) = sessions.create_or_get_with("/tmp/p", "p", "s1".to_string(), "t0".to_string());
    registry.register_agent(Agent::with_id("a1".to_string(), session.session_id.clone(), "orchestrator".to_string()));
    let mut d = TaskDispatcher::new(LaunchSettings {
        provider: ProviderKind::Codex,
        model: "m".to_string(),
        server_url: "http://h:1".to_string(),
        shim_dir: "/bin".to_string(),
        inherited_path: None,
        api_key: None,
    });
    let content = "Here is the plan\n```json\n{\"tasks\": [{\"id\": \"init-1\", \"description\": \"Create README.md\", \"agent_type\": \"worker\"}]}\n```\n";

    let mut launches = Vec::new();
    for _event in ["create", "modify"] {
        let target = classify_event_path(&comps(&["base", ".vibe", "agents", "s1", "a1", "RESULT.md"]), false);
        let (sid, aid) = match target {
            WatchTarget::AgentResult { session_id, agent_id } => (session_id, agent_id),
            other => panic!("unexpected {:?}", other),
        };
        let report = apply_result_file(&mut registry, &mut sessions, &aid, &sid, content);
        assert!(report.registry_update.is_ok());
        assert!(report.session_updated);
        let g = parse_graph(&report.payload.unwrap()).unwrap();
        if let Some(l) = d.dispatch(sid, g) {
            launches.push(l);
        }
    }
    assert_eq!(launches.len(), 1);
    assert_eq!(launches[0].task_id.as_deref(), Some("init-1"));
    assert_eq!(d.queue_len(), 0);
    let a = registry.get_agent("a1").unwrap();
    assert_eq!(a.status, AgentStatus::Completed);
    assert_eq!(a.result.as_deref(), Some(content));
    assert_eq!(sessions.get_session("s1").unwrap().latest_result.as_deref(), Some(content));
}

#[test]
fn result_for_unknown_agent_and_session() {
    let mut registry = AgentRegistry::new();
    let mut sessions = ProjectSessions::new();
    let report = apply_result_file(&mut registry, &mut sessions, "nobody", "nowhere", "done");
    assert_eq!(report.registry_update, Err("Agent with ID nobody not found".to_string()));
    assert!(!report.session_updated);
    assert!(report.payload.is_none());
}
