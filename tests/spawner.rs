use agent_hub_server::registry::{Agent, AgentRegistry, AgentStatus};
use agent_hub_server::spawner::{log_entry, AgentSpawner, ExitOutcome, OutputStream};

#[test]
fn workspace_is_keyed_by_session_and_agent() {
    let spawner = AgentSpawner::new("/srv/hub".to_string());
    assert_eq!(spawner.workspace_dir("s1", "a1"), vec!["/srv/hub", ".vibe", "agents", "s1", "a1"]);
    assert_eq!(spawner.agents_root(), vec!["/srv/hub", ".vibe", "agents"]);
}

#[test]
fn plan_without_id_draws_one() {
    let spawner = AgentSpawner::new("/b".to_string());
    let plan = spawner.plan(
        "test-session-1".to_string(),
        "worker".to_string(),
        "Do the work".to_string(),
        "echo".to_string(),
        vec!["Hello from agent".to_string()],
        vec![],
        None,
    );
    assert_eq!(plan.agent.id.len(), 36);
    assert_eq!(plan.agent.status, AgentStatus::Starting);
    assert_eq!(plan.workspace[3], "test-session-1");
    assert_eq!(plan.workspace[4], plan.agent.id);
    assert_eq!(plan.instruction_file, "INSTRUCTION.md");
    assert_eq!(plan.log_file, "debug_log.txt");
    assert_eq!(plan.instruction, "Do the work");
}

#[test]
fn exit_outcomes_set_terminal_status() {
    let spawner = AgentSpawner::new("/b".to_string());
    let mut registry = AgentRegistry::new();
    registry.register_agent(Agent::with_id("ok".to_string(), "s".to_string(), "worker".to_string()));
    registry.register_agent(Agent::with_id("bad".to_string(), "s".to_string(), "worker".to_string()));
    registry.register_agent(Agent::with_id("lost".to_string(), "s".to_string(), "worker".to_string()));

    spawner
        .record_exit(&mut registry, "ok", ExitOutcome::Exited { success: true, detail: "exit status: 0".to_string() })
        .unwrap();
    spawner
        .record_exit(&mut registry, "bad", ExitOutcome::Exited { success: false, detail: "exit status: 1".to_string() })
        .unwrap();
    spawner
        .record_exit(&mut registry, "lost", ExitOutcome::WaitFailed("interrupted".to_string()))
        .unwrap();
    assert_eq!(registry.get_agent("ok").unwrap().status, AgentStatus::Completed);
    assert_eq!(
        registry.get_agent("bad").unwrap().status,
        AgentStatus::Failed("Exited with status: exit status: 1".to_string())
    );
    assert_eq!(
        registry.get_agent("lost").unwrap().status,
        AgentStatus::Failed("Process wait error: interrupted".to_string())
    );
    assert!(spawner
        .record_exit(&mut registry, "nobody", ExitOutcome::WaitFailed("x".to_string()))
        .is_err());
}

#[test]
fn log_lines_are_tagged_and_trimmed() {
    assert_eq!(log_entry("a1", OutputStream::Stdout, "Hello from agent\n"), "[a1] STDOUT: Hello from agent");
    assert_eq!(log_entry("a1", OutputStream::Stderr, "oops  \r\n"), "[a1] STDERR: oops");
}
