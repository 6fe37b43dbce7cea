use agent_hub_server::registry::{Agent, AgentRegistry, AgentStatus};

#[test]
fn test_register_and_get_agent() {
    let mut registry = AgentRegistry::new();
    let agent = Agent::new("session-123".to_string(), "worker".to_string());
    let agent_id = agent.id.clone();

    registry.register_agent(agent);

    let retrieved_agent = registry.get_agent(&agent_id);
    assert!(retrieved_agent.is_some());
    assert_eq!(retrieved_agent.unwrap().session_id, "session-123");
}

#[test]
fn test_update_status() {
    let mut registry = AgentRegistry::new();
    let agent = Agent::new("session-123".to_string(), "worker".to_string());
    let agent_id = agent.id.clone();

    registry.register_agent(agent);
    registry
        .update_status(&agent_id, AgentStatus::Running)
        .expect("Failed to update status");

    let retrieved_agent = registry.get_agent(&agent_id).unwrap();
    assert_eq!(retrieved_agent.status, AgentStatus::Running);
}

#[test]
fn test_remove_agent() {
    let mut registry = AgentRegistry::new();
    let agent = Agent::new("session-123".to_string(), "worker".to_string());
    let agent_id = agent.id.clone();

    registry.register_agent(agent);
    let removed = registry.remove_agent(&agent_id);
    assert!(removed.is_some());
    assert!(registry.get_agent(&agent_id).is_none());
}

#[test]
fn test_list_agents_by_session() {
    let mut registry = AgentRegistry::new();
    let agent1 = Agent::new("session-A".to_string(), "worker".to_string());
    let agent2 = Agent::new("session-A".to_string(), "orchestrator".to_string());
    let agent3 = Agent::new("session-B".to_string(), "worker".to_string());

    registry.register_agent(agent1);
    registry.register_agent(agent2);
    registry.register_agent(agent3);

    let session_a_agents = registry.list_agents_by_session("session-A");
    assert_eq!(session_a_agents.len(), 2);
}

#[test]
fn new_agent_starts_with_zero_progress_and_a_uuid() {
    let agent = Agent::new("s".to_string(), "worker".to_string());
    assert_eq!(agent.id.len(), 36);
    assert_eq!(agent.status, AgentStatus::Starting);
    assert_eq!(agent.progress, Some(0));
    assert!(agent.pid.is_none());
    assert!(agent.result.is_none());
    assert!(agent.last_thought.is_none());
}

#[test]
fn get_reflects_latest_update_of_each_kind() {
    let mut registry = AgentRegistry::new();
    registry.register_agent(Agent::with_id("a1".to_string(), "s".to_string(), "worker".to_string()));

    registry.update_pid("a1", 77).unwrap();
    assert_eq!(registry.get_agent("a1").unwrap().pid, Some(77));

    registry
        .update_status_and_progress("a1", AgentStatus::Running, 40, Some("halfway".to_string()))
        .unwrap();
    let a = registry.get_agent("a1").unwrap();
    assert_eq!(a.status, AgentStatus::Running);
    assert_eq!(a.progress, Some(40));
    assert_eq!(a.last_thought.as_deref(), Some("halfway"));
    assert_eq!(a.pid, Some(77));

    registry
        .update_status_and_result("a1", AgentStatus::Completed, Some("done".to_string()))
        .unwrap();
    let a = registry.get_agent("a1").unwrap();
    assert_eq!(a.status, AgentStatus::Completed);
    assert_eq!(a.result.as_deref(), Some("done"));
    assert_eq!(a.progress, Some(40));

    registry
        .update_status("a1", AgentStatus::Failed("boom".to_string()))
        .unwrap();
    assert_eq!(registry.get_agent("a1").unwrap().status, AgentStatus::Failed("boom".to_string()));
    assert_ne!(registry.get_agent("a1").unwrap().status, AgentStatus::Failed("other".to_string()));
}

#[test]
fn updates_of_unknown_agents_fail_and_change_nothing() {
    let mut registry = AgentRegistry::new();
    registry.register_agent(Agent::with_id("a1".to_string(), "s".to_string(), "worker".to_string()));

    let e = registry.update_status("ghost", AgentStatus::Running).unwrap_err();
    assert_eq!(e, "Agent with ID ghost not found");
    assert!(registry.update_pid("ghost", 1).is_err());
    assert!(registry
        .update_status_and_result("ghost", AgentStatus::Completed, None)
        .is_err());
    assert!(registry
        .update_status_and_progress("ghost", AgentStatus::Running, 5, None)
        .is_err());

    assert!(registry.get_agent("ghost").is_none());
    let a = registry.get_agent("a1").unwrap();
    assert_eq!(a.status, AgentStatus::Starting);
    assert!(registry.remove_agent("ghost").is_none());
    assert_eq!(registry.list_agents_by_session("s").len(), 1);
}

#[test]
fn register_overwrites_same_id() {
    let mut registry = AgentRegistry::new();
    registry.register_agent(Agent::with_id("a1".to_string(), "s".to_string(), "worker".to_string()));
    registry.register_agent(Agent::with_id("a1".to_string(), "t".to_string(), "orchestrator".to_string()));
    assert_eq!(registry.list_agents_by_session("s").len(), 0);
    let a = registry.get_agent("a1").unwrap();
    assert_eq!(a.session_id, "t");
    assert_eq!(a.agent_type, "orchestrator");
}
