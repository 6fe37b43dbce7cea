use agent_hub_server::dispatcher::{LaunchSettings, TaskDispatcher};
use agent_hub_server::llm::ProviderKind;
use agent_hub_server::registry::{AgentRegistry, AgentStatus};
use agent_hub_server::spawner::{AgentSpawner, LaunchOutcome};
use agent_hub_server::tasks::{Task, TaskGraph};

fn settings() -> LaunchSettings {
    LaunchSettings {
        provider: ProviderKind::Gemini,
        model: "gemini-pro".to_string(),
        server_url: "http://127.0.0.1:4110".to_string(),
        shim_dir: "/srv/hub/target/debug".to_string(),
        inherited_path: Some("/usr/bin".to_string()),
        api_key: None,
    }
}

fn task(id: &str, description: &str) -> Task {
    Task { id: id.to_string(), description: description.to_string(), agent_type: None }
}

fn graph(tasks: Vec<Task>) -> TaskGraph {
    TaskGraph { tasks }
}

#[test]
fn dispatch_on_idle_starts_exactly_one_agent() {
    let mut d = TaskDispatcher::new(settings());
    let mut registry = AgentRegistry::new();
    let spawner = AgentSpawner::new("/srv/hub".to_string());

    let launch = d
        .dispatch("s1".to_string(), graph(vec![task("t1", "write README")]))
        .expect("one launch");
    assert_eq!(launch.session_id, "s1");
    assert_eq!(launch.task_id.as_deref(), Some("t1"));
    assert_eq!(launch.agent_type, "worker");
    assert_eq!(d.queue_len(), 0);
    assert_eq!(d.running_agent(), Some(launch.agent_id.clone()));

    let plan = spawner.plan(
        launch.session_id.clone(),
        launch.agent_type.clone(),
        launch.instruction.clone(),
        launch.command.clone(),
        launch.args.clone(),
        launch.env.clone(),
        Some(launch.agent_id.clone()),
    );
    let id = spawner
        .record_launch(&mut registry, plan.agent, &launch.command, LaunchOutcome::Started(Some(4242)))
        .unwrap();
    assert_eq!(id, launch.agent_id);
    let agent = registry.get_agent(&id).unwrap();
    assert_eq!(agent.status, AgentStatus::Running);
    assert_eq!(agent.pid, Some(4242));

    // nothing else is started while the slot is held
    assert!(d.process_queue().is_none());
}

#[test]
fn launch_carries_command_prompt_and_environment() {
    let mut d = TaskDispatcher::new(settings());
    d.enqueue("s1", &graph(vec![task("t1", "write README")]));
    let launch = d.start_next("agent-1".to_string()).unwrap();
    assert_eq!(launch.agent_id, "agent-1");
    assert_eq!(launch.command, "gemini");
    assert_eq!(launch.args, vec!["-p", "INSTRUCTION.md", "--yolo", "-m", "gemini-pro"]);
    assert!(launch.instruction.starts_with("You are a Vibe agent named agent-1. Your task is to write README.\n"));
    assert!(launch
        .instruction
        .contains("- `vibe-complete --agent-id agent-1 --session-id s1 --result \"<summary>\"`\n"));
    assert!(launch.instruction.ends_with("\nTask: write README\n"));
    let env: Vec<(&str, &str)> = launch.env.iter().map(|(k, v)| (k.as_str(), v.as_str())).collect();
    assert_eq!(
        env,
        vec![
            ("VIBE_SERVER_URL", "http://127.0.0.1:4110"),
            ("AGENT_ID", "agent-1"),
            ("SESSION_ID", "s1"),
            ("PATH", "/srv/hub/target/debug:/usr/bin"),
        ]
    );
}

#[test]
fn api_key_is_passed_through_first() {
    let mut s = settings();
    s.api_key = Some("k-123".to_string());
    s.inherited_path = None;
    let mut d = TaskDispatcher::new(s);
    let launch = d.dispatch("s".to_string(), graph(vec![task("t", "x")])).unwrap();
    assert_eq!(launch.env[0], ("GEMINI_API_KEY".to_string(), "k-123".to_string()));
    assert_eq!(launch.env[4], ("PATH".to_string(), "/srv/hub/target/debug".to_string()));
}

#[test]
fn same_graph_twice_starts_each_task_once() {
    let mut d = TaskDispatcher::new(settings());
    let g = graph(vec![task("t1", "a"), task("t2", "b")]);
    let first = d.dispatch("s1".to_string(), g.clone()).unwrap();
    assert_eq!(first.task_id.as_deref(), Some("t1"));
    assert_eq!(d.queue_len(), 1);
    assert!(d.dispatch("s1".to_string(), g.clone()).is_none());
    assert_eq!(d.queue_len(), 1);

    let second = d.on_agent_complete(&first.agent_id).unwrap();
    assert_eq!(second.task_id.as_deref(), Some("t2"));
    assert!(d.dispatch("s1".to_string(), g).is_none());
    assert!(d.on_agent_complete(&second.agent_id).is_none());
    assert_eq!(d.queue_len(), 0);
    assert_eq!(d.running_agent(), None);
}

#[test]
fn same_task_ids_in_another_session_are_new() {
    let mut d = TaskDispatcher::new(settings());
    let a = d.dispatch("s1".to_string(), graph(vec![task("t1", "a")])).unwrap();
    assert!(d.dispatch("s2".to_string(), graph(vec![task("t1", "a")])).is_none());
    assert_eq!(d.queue_len(), 1);
    let b = d.on_agent_complete(&a.agent_id).unwrap();
    assert_eq!(b.session_id, "s2");
}

#[test]
fn second_graph_waits_for_completion_of_first() {
    let mut d = TaskDispatcher::new(settings());
    let a = d.dispatch("s1".to_string(), graph(vec![task("A", "first")])).unwrap();
    assert!(d.dispatch("s1".to_string(), graph(vec![task("B", "second")])).is_none());
    assert_eq!(d.running_agent(), Some(a.agent_id.clone()));
    let b = d.on_agent_complete(&a.agent_id).unwrap();
    assert_eq!(b.task_id.as_deref(), Some("B"));
}

#[test]
fn tasks_start_in_enqueue_order() {
    let mut d = TaskDispatcher::new(settings());
    let first = d.dispatch("s".to_string(), graph(vec![task("t1", "a"), task("t2", "b")])).unwrap();
    assert!(d.dispatch("s".to_string(), graph(vec![task("t3", "c")])).is_none());
    let mut order = vec![first.task_id.clone().unwrap()];
    let mut current = first.agent_id;
    while let Some(next) = d.on_agent_complete(&current) {
        order.push(next.task_id.clone().unwrap());
        current = next.agent_id;
    }
    assert_eq!(order, vec!["t1", "t2", "t3"]);
}

#[test]
fn mismatched_completion_keeps_the_slot() {
    let mut d = TaskDispatcher::new(settings());
    let a = d.dispatch("s".to_string(), graph(vec![task("t1", "a"), task("t2", "b")])).unwrap();
    assert!(d.on_agent_complete("someone-else").is_none());
    assert_eq!(d.running_agent(), Some(a.agent_id));
    assert_eq!(d.queue_len(), 1);
}

#[test]
fn failed_launch_marks_agent_failed_and_frees_the_slot() {
    let mut d = TaskDispatcher::new(settings());
    let mut registry = AgentRegistry::new();
    let spawner = AgentSpawner::new("/srv/hub".to_string());
    let a = d.dispatch("s".to_string(), graph(vec![task("t1", "a"), task("t2", "b")])).unwrap();

    let plan = spawner.plan(
        a.session_id.clone(),
        a.agent_type.clone(),
        a.instruction.clone(),
        "no-such-binary".to_string(),
        a.args.clone(),
        a.env.clone(),
        Some(a.agent_id.clone()),
    );
    let err = spawner
        .record_launch(
            &mut registry,
            plan.agent,
            "no-such-binary",
            LaunchOutcome::NotStarted("No such file or directory (os error 2)".to_string()),
        )
        .unwrap_err();
    assert_eq!(err, "Failed to spawn command 'no-such-binary': No such file or directory (os error 2)");
    assert_eq!(
        registry.get_agent(&a.agent_id).unwrap().status,
        AgentStatus::Failed("No such file or directory (os error 2)".to_string())
    );

    d.on_spawn_failed(&a.agent_id);
    assert_eq!(d.running_agent(), None);
    let b = d.process_queue().unwrap();
    assert_eq!(b.task_id.as_deref(), Some("t2"));
}

#[test]
fn explicit_agent_type_is_kept() {
    let mut d = TaskDispatcher::new(settings());
    let t = Task {
        id: "t".to_string(),
        description: "plan".to_string(),
        agent_type: Some("orchestrator".to_string()),
    };
    let launch = d.dispatch("s".to_string(), graph(vec![t])).unwrap();
    assert_eq!(launch.agent_type, "orchestrator");
}
