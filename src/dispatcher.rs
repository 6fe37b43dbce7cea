use vstd::prelude::*;

use crate::llm::{adapter_for, get_adapter, texts, ProviderAdapter, ProviderKind};
use crate::registry::fresh_id;
use crate::tasks::{Task, TaskGraph, TaskView};
use crate::text::{copy_text, opt_text, same_text};

verus! {

/// What the dispatcher needs from configuration and from the server's own
/// environment to build a launch.
#[derive(Debug, Clone)]
pub struct LaunchSettings {
    pub provider: ProviderKind,
    pub model: String,
    /// Base URL under which agents reach the server.
    pub server_url: String,
    /// Directory that holds the report, ask and complete commands.
    pub shim_dir: String,
    /// The server's own `PATH`, if it has one.
    pub inherited_path: Option<String>,
    /// The provider API key of the server's environment, if set.
    pub api_key: Option<String>,
}

/// Mathematical model of [`LaunchSettings`].
pub ghost struct SettingsView {
    pub provider: ProviderKind,
    pub model: Seq<char>,
    pub server_url: Seq<char>,
    pub shim_dir: Seq<char>,
    pub inherited_path: Option<Seq<char>>,
    pub api_key: Option<Seq<char>>,
}

impl View for LaunchSettings {
    type V = SettingsView;

    open spec fn view(&self) -> SettingsView {
        SettingsView {
            provider: self.provider,
            model: self.model@,
            server_url: self.server_url@,
            shim_dir: self.shim_dir@,
            inherited_path: opt_text(self.inherited_path),
            api_key: opt_text(self.api_key),
        }
    }
}

/// Everything the spawner needs to start the agent for one task.
#[derive(Debug, Clone)]
pub struct LaunchRequest {
    pub session_id: String,
    pub task_id: Option<String>,
    pub agent_id: String,
    pub agent_type: String,
    pub instruction: String,
    pub command: String,
    pub args: Vec<String>,
    pub env: Vec<(String, String)>,
}

/// Mathematical model of a [`LaunchRequest`].
pub ghost struct LaunchView {
    pub session_id: Seq<char>,
    pub task_id: Option<Seq<char>>,
    pub agent_id: Seq<char>,
    pub agent_type: Seq<char>,
    pub instruction: Seq<char>,
    pub command: Seq<char>,
    pub args: Seq<Seq<char>>,
    pub env: Seq<(Seq<char>, Seq<char>)>,
}

/// The views of a sequence of string pairs.
pub open spec fn pair_texts(v: Seq<(String, String)>) -> Seq<(Seq<char>, Seq<char>)> {
    v.map_values(|e: (String, String)| (e.0@, e.1@))
}

impl View for LaunchRequest {
    type V = LaunchView;

    open spec fn view(&self) -> LaunchView {
        LaunchView {
            session_id: self.session_id@,
            task_id: opt_text(self.task_id),
            agent_id: self.agent_id@,
            agent_type: self.agent_type@,
            instruction: self.instruction@,
            command: self.command@,
            args: texts(self.args@),
            env: pair_texts(self.env@),
        }
    }
}

/// The role a task runs under: its own, else a worker.
pub open spec fn role_of(t: TaskView) -> Seq<char> {
    match t.agent_type {
        Some(a) => a,
        None => "worker"@,
    }
}

/// The three callback commands, bound to one agent and session.
pub open spec fn callback_lines(agent_id: Seq<char>, session_id: Seq<char>) -> Seq<char> {
    "- `vibe-report --agent-id "@ + agent_id + " --session-id "@ + session_id
        + " --progress <percentage> --thought \"<message>\"`\n- `vibe-ask --agent-id "@ + agent_id
        + " --session-id "@ + session_id
        + " --question \"<question>\"` (Blocks until user replies)\n- `vibe-complete --agent-id "@
        + agent_id + " --session-id "@ + session_id + " --result \"<summary>\"`\n"@
}

/// Builds [`callback_lines`].
pub fn callback_text(agent_id: &str, session_id: &str) -> (r: String)
    ensures
        r@ == callback_lines(agent_id@, session_id@),
{
    let mut m = String::from_str("- `vibe-report --agent-id ");
    m.append(agent_id);
    m.append(" --session-id ");
    m.append(session_id);
    m.append(" --progress <percentage> --thought \"<message>\"`\n- `vibe-ask --agent-id ");
    m.append(agent_id);
    m.append(" --session-id ");
    m.append(session_id);
    m.append(" --question \"<question>\"` (Blocks until user replies)\n- `vibe-complete --agent-id ");
    m.append(agent_id);
    m.append(" --session-id ");
    m.append(session_id);
    m.append(" --result \"<summary>\"`\n");
    m
}

/// The instruction file of a worker agent.
pub open spec fn worker_instruction(agent_id: Seq<char>, session_id: Seq<char>, description: Seq<char>) -> Seq<char> {
    "You are a Vibe agent named "@ + agent_id + ". Your task is to "@ + description
        + ".\n\nYou have access to the following Vibe utilities, which are executable binaries in your PATH:\n"@
        + callback_lines(agent_id, session_id)
        + "\n**IMPORTANT:** To use these utilities, you MUST use the `run_shell_command` tool. \nFor example: `run_shell_command(command=\"vibe-complete --agent-id ...\")`\n\nDo NOT try to call these as direct tool functions.\n\nYou should use your tools to perform the task. When you believe you have successfully completed the task, use `vibe-complete`.\n\nTask: "@
        + description + "\n"@
}

/// Builds [`worker_instruction`].
pub fn worker_instruction_text(agent_id: &str, session_id: &str, description: &str) -> (r: String)
    ensures
        r@ == worker_instruction(agent_id@, session_id@, description@),
{
    let callbacks = callback_text(agent_id, session_id);
    let mut m = String::from_str("You are a Vibe agent named ");
    m.append(agent_id);
    m.append(". Your task is to ");
    m.append(description);
    m.append(".\n\nYou have access to the following Vibe utilities, which are executable binaries in your PATH:\n");
    m.append(callbacks.as_str());
    m.append("\n**IMPORTANT:** To use these utilities, you MUST use the `run_shell_command` tool. \nFor example: `run_shell_command(command=\"vibe-complete --agent-id ...\")`\n\nDo NOT try to call these as direct tool functions.\n\nYou should use your tools to perform the task. When you believe you have successfully completed the task, use `vibe-complete`.\n\nTask: ");
    m.append(description);
    m.append("\n");
    m
}

/// `PATH` for an agent: the callback directory first, then the server's own.
pub open spec fn agent_search_path(shim_dir: Seq<char>, inherited: Option<Seq<char>>) -> Seq<char> {
    match inherited {
        Some(p) => shim_dir + ":"@ + p,
        None => shim_dir,
    }
}

/// The environment handed to an agent process.
pub open spec fn launch_env(s: SettingsView, agent_id: Seq<char>, session_id: Seq<char>) -> Seq<(Seq<char>, Seq<char>)> {
    let rest = seq![
        ("VIBE_SERVER_URL"@, s.server_url),
        ("AGENT_ID"@, agent_id),
        ("SESSION_ID"@, session_id),
        ("PATH"@, agent_search_path(s.shim_dir, s.inherited_path)),
    ];
    match s.api_key {
        Some(k) => seq![("GEMINI_API_KEY"@, k)] + rest,
        None => rest,
    }
}

/// Builds [`launch_env`].
pub fn launch_env_vars(settings: &LaunchSettings, agent_id: &str, session_id: &str) -> (r: Vec<(String, String)>)
    ensures
        pair_texts(r@) == launch_env(settings@, agent_id@, session_id@),
{
    let mut path = copy_text(settings.shim_dir.as_str());
    match &settings.inherited_path {
        Some(p) => {
            path.append(":");
            path.append(p.as_str());
        },
        None => {},
    }
    let mut r: Vec<(String, String)> = Vec::new();
    match &settings.api_key {
        Some(k) => {
            r.push((String::from_str("GEMINI_API_KEY"), k.clone()));
        },
        None => {},
    }
    r.push((String::from_str("VIBE_SERVER_URL"), settings.server_url.clone()));
    r.push((String::from_str("AGENT_ID"), copy_text(agent_id)));
    r.push((String::from_str("SESSION_ID"), copy_text(session_id)));
    r.push((String::from_str("PATH"), path));
    assert(pair_texts(r@) =~= launch_env(settings@, agent_id@, session_id@));
    r
}

/// The launch of `task` of `session_id` as agent `agent_id`.
pub open spec fn launch_for(s: SettingsView, session_id: Seq<char>, task: TaskView, agent_id: Seq<char>) -> LaunchView {
    LaunchView {
        session_id,
        task_id: Some(task.id),
        agent_id,
        agent_type: role_of(task),
        instruction: worker_instruction(agent_id, session_id, task.description),
        command: adapter_for(s.provider).command_spec(),
        args: adapter_for(s.provider).args_spec("INSTRUCTION.md"@, s.model),
        env: launch_env(s, agent_id, session_id),
    }
}

/// Builds the launch of one task.
pub fn build_launch(settings: &LaunchSettings, session_id: &str, task: &Task, agent_id: &str) -> (r: LaunchRequest)
    ensures
        r@ == launch_for(settings@, session_id@, task@, agent_id@),
{
    let agent_type = match &task.agent_type {
        Some(a) => a.clone(),
        None => String::from_str("worker"),
    };
    let adapter = get_adapter(&settings.provider);
    LaunchRequest {
        session_id: copy_text(session_id),
        task_id: Some(task.id.clone()),
        agent_id: copy_text(agent_id),
        agent_type,
        instruction: worker_instruction_text(agent_id, session_id, task.description.as_str()),
        command: adapter.get_command(),
        args: adapter.get_args("INSTRUCTION.md", settings.model.as_str()),
        env: launch_env_vars(settings, agent_id, session_id),
    }
}

/// The idempotency key of a queue entry: its session and task id.
pub open spec fn key_of(e: (Seq<char>, TaskView)) -> (Seq<char>, Seq<char>) {
    (e.0, e.1.id)
}

/// Mathematical model of a [`TaskDispatcher`].
pub ghost struct DispatcherView {
    /// Tasks waiting to start, oldest first, with their session.
    pub queue: Seq<(Seq<char>, TaskView)>,
    /// The agent holding the single running slot.
    pub running: Option<Seq<char>>,
    /// Every (session, task id) ever accepted.
    pub dispatched: Set<(Seq<char>, Seq<char>)>,
    /// Every (session, task id) handed out for launch, in order.
    pub started: Seq<(Seq<char>, Seq<char>)>,
}

/// Appends to the queue each task of `tasks` whose key has not been seen, in
/// order, and records its key.
pub open spec fn enqueue_all(
    queue: Seq<(Seq<char>, TaskView)>,
    seen: Set<(Seq<char>, Seq<char>)>,
    session_id: Seq<char>,
    tasks: Seq<TaskView>,
) -> (Seq<(Seq<char>, TaskView)>, Set<(Seq<char>, Seq<char>)>)
    decreases tasks.len(),
{
    if tasks.len() == 0 {
        (queue, seen)
    } else {
        let (q, s) = enqueue_all(queue, seen, session_id, tasks.drop_last());
        let t = tasks.last();
        if s.contains((session_id, t.id)) {
            (q, s)
        } else {
            (q.push((session_id, t)), s.insert((session_id, t.id)))
        }
    }
}

/// The state after the tasks of one graph have been accepted.
pub open spec fn enqueued(v: DispatcherView, session_id: Seq<char>, tasks: Seq<TaskView>) -> DispatcherView {
    let (q, s) = enqueue_all(v.queue, v.dispatched, session_id, tasks);
    DispatcherView { queue: q, dispatched: s, ..v }
}

/// The state after a completion (or failed launch) of `agent_id`: the slot
/// is released only if that agent holds it.
pub open spec fn released(v: DispatcherView, agent_id: Seq<char>) -> DispatcherView {
    if v.running == Some(agent_id) {
        DispatcherView { running: None, ..v }
    } else {
        v
    }
}

/// One attempt to start the next task: nothing happens while the slot is
/// held or the queue is empty; otherwise the head of the queue is launched
/// and its agent takes the slot.
pub open spec fn queue_step(pre: DispatcherView, post: DispatcherView, s: SettingsView, r: Option<LaunchView>) -> bool {
    if pre.running is Some || pre.queue.len() == 0 {
        r is None && post == pre
    } else {
        &&& r is Some
        &&& r.unwrap() == launch_for(s, pre.queue[0].0, pre.queue[0].1, r.unwrap().agent_id)
        &&& post == DispatcherView {
            queue: pre.queue.drop_first(),
            running: Some(r.unwrap().agent_id),
            started: pre.started.push(key_of(pre.queue[0])),
            ..pre
        }
    }
}

/// The view of an optional launch.
pub open spec fn opt_launch(r: Option<LaunchRequest>) -> Option<LaunchView> {
    match r {
        Some(l) => Some(l@),
        None => None,
    }
}

/// FIFO scheduler with a single running slot and an idempotency set.
pub struct TaskDispatcher {
    settings: LaunchSettings,
    queue: Vec<(String, Task)>,
    running: Option<String>,
    dispatched: Vec<(String, String)>,
    started: Ghost<Seq<(Seq<char>, Seq<char>)>>,
}

impl View for TaskDispatcher {
    type V = DispatcherView;

    closed spec fn view(&self) -> DispatcherView {
        DispatcherView {
            queue: self.queue@.map_values(|e: (String, Task)| (e.0@, e.1@)),
            running: opt_text(self.running),
            dispatched: Set::new(
                |p: (Seq<char>, Seq<char>)|
                    exists|j: int|
                        0 <= j < self.dispatched@.len() && (self.dispatched@[j].0@, self.dispatched@[j].1@)
                            == p,
            ),
            started: self.started@,
        }
    }
}

impl TaskDispatcher {
    /// The launch settings this dispatcher was made with.
    pub closed spec fn settings_view(&self) -> SettingsView {
        self.settings@
    }

    /// No key is started twice, and every queued or started key has been
    /// accepted; queued keys are distinct and not yet started.
    pub closed spec fn wf(&self) -> bool {
        &&& self@.started.no_duplicates()
        &&& forall|j: int| 0 <= j < self@.started.len() ==> self@.dispatched.contains(#[trigger] self@.started[j])
        &&& forall|j: int|
            0 <= j < self@.queue.len() ==> self@.dispatched.contains(#[trigger] key_of(self@.queue[j]))
                && !self@.started.contains(key_of(self@.queue[j]))
        &&& forall|x: int, y: int|
            0 <= x < y < self@.queue.len() ==> key_of(self@.queue[x]) != key_of(self@.queue[y])
    }

    /// An idle dispatcher with an empty queue.
    pub fn new(settings: LaunchSettings) -> (r: TaskDispatcher)
        ensures
            r.wf(),
            r.settings_view() == settings@,
            r@ == (DispatcherView {
                queue: Seq::empty(),
                running: None,
                dispatched: Set::empty(),
                started: Seq::empty(),
            }),
    {
        let r = TaskDispatcher {
            settings,
            queue: Vec::new(),
            running: None,
            dispatched: Vec::new(),
            started: Ghost(Seq::empty()),
        };
        assert(r@.queue =~= Seq::<(Seq<char>, TaskView)>::empty());
        assert(r@.dispatched =~= Set::<(Seq<char>, Seq<char>)>::empty());
        r
    }

    /// The agent holding the running slot, if any.
    pub fn running_agent(&self) -> (r: Option<String>)
        ensures
            opt_text(r) == self@.running,
    {
        match &self.running {
            Some(a) => Some(a.clone()),
            None => None,
        }
    }

    /// Number of tasks waiting to start.
    pub fn queue_len(&self) -> (r: usize)
        ensures
            r == self@.queue.len(),
    {
        self.queue.len()
    }

    fn was_dispatched(&self, session_id: &str, task_id: &str) -> (r: bool)
        ensures
            r == self@.dispatched.contains((session_id@, task_id@)),
    {
        let mut i: usize = 0;
        while i < self.dispatched.len()
            invariant
                i <= self.dispatched@.len(),
                forall|j: int|
                    0 <= j < i ==> (#[trigger] self.dispatched@[j].0@, self.dispatched@[j].1@) != (
                    session_id@,
                    task_id@,
                ),
            decreases self.dispatched@.len() - i,
        {
            if same_text(self.dispatched[i].0.as_str(), session_id) && same_text(
                self.dispatched[i].1.as_str(),
                task_id,
            ) {
                return true;
            }
            i = i + 1;
        }
        false
    }

    /// Accepts the tasks of `graph` whose (session, id) has not been seen.
    pub fn enqueue(&mut self, session_id: &str, graph: &TaskGraph)
        requires
            old(self).wf(),
        ensures
            final(self).wf(),
            final(self).settings_view() == old(self).settings_view(),
            final(self)@ == enqueued(old(self)@, session_id@, graph@),
    {
        let ghost q0 = self@.queue;
        let ghost d0 = self@.dispatched;
        let mut i: usize = 0;
        assert(graph@.take(0) =~= Seq::<TaskView>::empty());
        while i < graph.tasks.len()
            invariant
                self.wf(),
                i <= graph.tasks@.len(),
                self.settings == old(self).settings,
                self@.running == old(self)@.running,
                self@.started == old(self)@.started,
                (self@.queue, self@.dispatched) == enqueue_all(q0, d0, session_id@, graph@.take(i as int)),
            decreases graph.tasks@.len() - i,
        {
            let task = &graph.tasks[i];
            let ghost pre = self@;
            assert(graph@.take(i + 1).drop_last() =~= graph@.take(i as int));
            assert(graph@.take(i + 1).last() == task@);
            if !self.was_dispatched(session_id, task.id.as_str()) {
                let ghost k = (session_id@, task.id@);
                let ghost dv = self.dispatched@;
                self.dispatched.push((copy_text(session_id), task.id.clone()));
                self.queue.push((copy_text(session_id), task.snapshot()));
                assert(self@.queue =~= pre.queue.push((session_id@, task@)));
                assert(self@.dispatched =~= pre.dispatched.insert(k)) by {
                    assert forall|p: (Seq<char>, Seq<char>)| #[trigger] pre.dispatched.insert(k).contains(p) implies self@.dispatched.contains(p) by {
                        if p == k {
                            let n = self.dispatched@.len() - 1;
                            assert((self.dispatched@[n].0@, self.dispatched@[n].1@) == p);
                        } else {
                            assert(pre.dispatched.contains(p));
                            let j = choose|j: int| 0 <= j < dv.len() && (dv[j].0@, dv[j].1@) == p;
                            assert(self.dispatched@[j] == dv[j]);
                            assert((self.dispatched@[j].0@, self.dispatched@[j].1@) == p);
                        }
                    }
                }
                assert forall|j: int| 0 <= j < self@.started.len() implies self@.dispatched.contains(
                    #[trigger] self@.started[j],
                ) by {
                    assert(pre.dispatched.contains(pre.started[j]));
                }
                assert forall|j: int| 0 <= j < self@.queue.len() implies self@.dispatched.contains(
                    #[trigger] key_of(self@.queue[j]),
                ) && !self@.started.contains(key_of(self@.queue[j])) by {
                    if j < pre.queue.len() {
                        assert(self@.queue[j] == pre.queue[j]);
                    } else {
                        if self@.started.contains(k) {
                            let m = choose|m: int| 0 <= m < pre.started.len() && pre.started[m] == k;
                            assert(pre.dispatched.contains(pre.started[m]));
                        }
                    }
                }
                assert forall|x: int, y: int| 0 <= x < y < self@.queue.len() implies key_of(self@.queue[x])
                    != key_of(self@.queue[y]) by {
                    assert(self@.queue[x] == pre.queue[x]);
                    if y == pre.queue.len() {
                        assert(pre.dispatched.contains(key_of(pre.queue[x])));
                    } else {
                        assert(self@.queue[y] == pre.queue[y]);
                    }
                }
            }
            i = i + 1;
        }
        assert(graph@.take(graph.tasks@.len() as int) =~= graph@);
    }

    /// Launches the head of the queue as agent `agent_id`, provided the slot
    /// is free and the queue is not empty.
    pub fn start_next(&mut self, agent_id: String) -> (r: Option<LaunchRequest>)
        requires
            old(self).wf(),
        ensures
            final(self).wf(),
            final(self).settings_view() == old(self).settings_view(),
            queue_step(old(self)@, final(self)@, old(self).settings_view(), opt_launch(r)),
            r matches Some(l) ==> l.agent_id@ == agent_id@,
    {
        if self.running.is_some() || self.queue.len() == 0 {
            return None;
        }
        let ghost pre = self@;
        let (session_id, task) = self.queue.remove(0);
        let ghost k = (session_id@, task.id@);
        assert(k == key_of(pre.queue[0]));
        let launch = build_launch(&self.settings, session_id.as_str(), &task, agent_id.as_str());
        self.running = Some(agent_id);
        self.started = Ghost(self.started@.push(k));
        assert(self@.queue =~= pre.queue.drop_first());
        assert(self@.dispatched =~= pre.dispatched);
        assert forall|j: int| 0 <= j < self@.started.len() implies self@.dispatched.contains(
            #[trigger] self@.started[j],
        ) by {
            if j < pre.started.len() {
                assert(pre.dispatched.contains(pre.started[j]));
            } else {
                assert(pre.dispatched.contains(key_of(pre.queue[0])));
            }
        }
        assert forall|j: int| 0 <= j < self@.queue.len() implies self@.dispatched.contains(
            #[trigger] key_of(self@.queue[j]),
        ) && !self@.started.contains(key_of(self@.queue[j])) by {
            assert(self@.queue[j] == pre.queue[j + 1]);
            assert(pre.dispatched.contains(key_of(pre.queue[j + 1])));
            assert(!pre.started.contains(key_of(pre.queue[j + 1])));
            assert(key_of(pre.queue[0]) != key_of(pre.queue[j + 1]));
            if self@.started.contains(key_of(self@.queue[j])) {
                let m = choose|m: int| 0 <= m < self@.started.len() && self@.started[m] == key_of(self@.queue[j]);
                if m < pre.started.len() {
                    assert(pre.started[m] == self@.started[m]);
                }
            }
        }
        assert forall|x: int, y: int| 0 <= x < y < self@.queue.len() implies key_of(self@.queue[x])
            != key_of(self@.queue[y]) by {
            assert(self@.queue[x] == pre.queue[x + 1]);
            assert(self@.queue[y] == pre.queue[y + 1]);
        }
        assert(self@.started.no_duplicates()) by {
            assert(!pre.started.contains(key_of(pre.queue[0])));
            assert forall|a: int, b: int| 0 <= a < b < self@.started.len() implies self@.started[a]
                != self@.started[b] by {
                if b == pre.started.len() {
                    assert(self@.started[a] == pre.started[a]);
                } else {
                    assert(self@.started[a] == pre.started[a]);
                    assert(self@.started[b] == pre.started[b]);
                }
            }
        }
        Some(launch)
    }

    /// Launches the head of the queue under a fresh random agent id, provided
    /// the slot is free and the queue is not empty.
    pub fn process_queue(&mut self) -> (r: Option<LaunchRequest>)
        requires
            old(self).wf(),
        ensures
            final(self).wf(),
            final(self).settings_view() == old(self).settings_view(),
            queue_step(old(self)@, final(self)@, old(self).settings_view(), opt_launch(r)),
    {
        if self.running.is_some() || self.queue.len() == 0 {
            return None;
        }
        let agent_id = fresh_id();
        self.start_next(agent_id)
    }

    /// Accepts the tasks of `task_graph` that are new for `session_id`, then
    /// tries to start the next task.
    pub fn dispatch(&mut self, session_id: String, task_graph: TaskGraph) -> (r: Option<LaunchRequest>)
        requires
            old(self).wf(),
        ensures
            final(self).wf(),
            final(self).settings_view() == old(self).settings_view(),
            queue_step(
                enqueued(old(self)@, session_id@, task_graph@),
                final(self)@,
                old(self).settings_view(),
                opt_launch(r),
            ),
    {
        self.enqueue(session_id.as_str(), &task_graph);
        self.process_queue()
    }

    fn release(&mut self, agent_id: &str)
        requires
            old(self).wf(),
        ensures
            final(self).wf(),
            final(self).settings_view() == old(self).settings_view(),
            final(self)@ == released(old(self)@, agent_id@),
    {
        let holds = match &self.running {
            Some(current) => same_text(current.as_str(), agent_id),
            None => false,
        };
        if holds {
            self.running = None;
        }
    }

    /// A completion signal for `agent_id`: frees the slot if that agent holds
    /// it (a stale or unknown id changes nothing), then tries to start the
    /// next task.
    pub fn on_agent_complete(&mut self, agent_id: &str) -> (r: Option<LaunchRequest>)
        requires
            old(self).wf(),
        ensures
            final(self).wf(),
            final(self).settings_view() == old(self).settings_view(),
            queue_step(released(old(self)@, agent_id@), final(self)@, old(self).settings_view(), opt_launch(r)),
    {
        self.release(agent_id);
        self.process_queue()
    }

    /// The spawner could not launch `agent_id`: its task is dropped and the
    /// slot is freed for the next one.
    pub fn on_spawn_failed(&mut self, agent_id: &str)
        requires
            old(self).wf(),
        ensures
            final(self).wf(),
            final(self).settings_view() == old(self).settings_view(),
            final(self)@ == released(old(self)@, agent_id@),
    {
        self.release(agent_id);
    }
}

/// Every key of `tasks` is seen after enqueueing, and nothing seen is forgotten.
pub proof fn lemma_enqueue_records_keys(
    queue: Seq<(Seq<char>, TaskView)>,
    seen: Set<(Seq<char>, Seq<char>)>,
    session_id: Seq<char>,
    tasks: Seq<TaskView>,
)
    ensures
        seen.subset_of(enqueue_all(queue, seen, session_id, tasks).1),
        forall|j: int|
            0 <= j < tasks.len() ==> enqueue_all(queue, seen, session_id, tasks).1.contains(
                (session_id, #[trigger] tasks[j].id),
            ),
    decreases tasks.len(),
{
    if tasks.len() > 0 {
        let init = tasks.drop_last();
        lemma_enqueue_records_keys(queue, seen, session_id, init);
        assert forall|j: int| 0 <= j < tasks.len() implies enqueue_all(queue, seen, session_id, tasks).1.contains(
            (session_id, #[trigger] tasks[j].id),
        ) by {
            if j < tasks.len() - 1 {
                assert(init[j] == tasks[j]);
            }
        }
    }
}

/// Enqueueing tasks whose keys have all been seen changes nothing.
pub proof fn lemma_enqueue_seen_is_noop(
    queue: Seq<(Seq<char>, TaskView)>,
    seen: Set<(Seq<char>, Seq<char>)>,
    session_id: Seq<char>,
    tasks: Seq<TaskView>,
)
    requires
        forall|j: int| 0 <= j < tasks.len() ==> seen.contains((session_id, #[trigger] tasks[j].id)),
    ensures
        enqueue_all(queue, seen, session_id, tasks) == (queue, seen),
    decreases tasks.len(),
{
    if tasks.len() > 0 {
        let init = tasks.drop_last();
        assert forall|j: int| 0 <= j < init.len() implies seen.contains((session_id, #[trigger] init[j].id)) by {
            assert(init[j] == tasks[j]);
        }
        lemma_enqueue_seen_is_noop(queue, seen, session_id, init);
        assert(seen.contains((session_id, tasks[tasks.len() - 1].id)));
    }
}

/// Enqueueing only appends: the old queue stays, in order, at the front.
pub proof fn lemma_enqueue_appends(
    queue: Seq<(Seq<char>, TaskView)>,
    seen: Set<(Seq<char>, Seq<char>)>,
    session_id: Seq<char>,
    tasks: Seq<TaskView>,
)
    ensures
        enqueue_all(queue, seen, session_id, tasks).0.len() >= queue.len(),
        enqueue_all(queue, seen, session_id, tasks).0.take(queue.len() as int) == queue,
    decreases tasks.len(),
{
    if tasks.len() > 0 {
        let init = tasks.drop_last();
        lemma_enqueue_appends(queue, seen, session_id, init);
        let q = enqueue_all(queue, seen, session_id, init).0;
        assert(q.push((session_id, tasks.last())).take(queue.len() as int) =~= q.take(queue.len() as int));
    }
}

/// Dispatching the same graph to the same session twice has the effect of
/// dispatching it once.
pub proof fn lemma_dispatch_idempotent(v: DispatcherView, session_id: Seq<char>, tasks: Seq<TaskView>)
    ensures
        enqueued(enqueued(v, session_id, tasks), session_id, tasks) == enqueued(v, session_id, tasks),
{
    let once = enqueue_all(v.queue, v.dispatched, session_id, tasks);
    lemma_enqueue_records_keys(v.queue, v.dispatched, session_id, tasks);
    lemma_enqueue_seen_is_noop(once.0, once.1, session_id, tasks);
}

/// In every reachable state each (session, task id) has been handed to the
/// spawner at most once.
pub proof fn lemma_started_at_most_once(d: &TaskDispatcher)
    requires
        d.wf(),
    ensures
        d@.started.no_duplicates(),
{
}

/// Nothing is launched while the slot is held, and a held slot stays with
/// its holder until a completion or failed launch of that very agent
/// releases it.
pub proof fn lemma_single_slot(
    pre: DispatcherView,
    post: DispatcherView,
    s: SettingsView,
    r: Option<LaunchView>,
    agent_id: Seq<char>,
)
    ensures
        pre.running is Some && queue_step(pre, post, s, r) ==> r is None && post == pre,
        pre.running is Some && released(pre, agent_id).running is None ==> pre.running == Some(agent_id),
        queue_step(pre, post, s, r) && r is Some ==> post.running == Some(r.unwrap().agent_id),
{
}

/// A completion signal from an agent that does not hold the slot leaves the
/// slot, and the whole state, unchanged.
pub proof fn lemma_mismatched_completion(
    pre: DispatcherView,
    post: DispatcherView,
    s: SettingsView,
    r: Option<LaunchView>,
    agent_id: Seq<char>,
)
    requires
        pre.running is Some,
        pre.running != Some(agent_id),
        queue_step(released(pre, agent_id), post, s, r),
    ensures
        post == pre,
        post.running == pre.running,
        r is None,
{
}

/// Tasks start in the order they were accepted: a dispatch appends behind
/// every task already waiting, and a launch always takes the oldest one.
pub proof fn lemma_fifo(
    v: DispatcherView,
    session_id: Seq<char>,
    tasks: Seq<TaskView>,
    pre: DispatcherView,
    post: DispatcherView,
    s: SettingsView,
    r: Option<LaunchView>,
)
    ensures
        enqueued(v, session_id, tasks).queue.take(v.queue.len() as int) == v.queue,
        queue_step(pre, post, s, r) && r is Some ==> r.unwrap().session_id == pre.queue[0].0
            && r.unwrap().task_id == Some(pre.queue[0].1.id) && post.queue == pre.queue.drop_first(),
{
    lemma_enqueue_appends(v.queue, v.dispatched, session_id, tasks);
}

/// One call on the dispatcher, as an event of its history.
pub ghost enum DispatchEvent {
    Dispatch { session_id: Seq<char>, tasks: Seq<TaskView> },
    Complete { agent_id: Seq<char> },
    SpawnFailed { agent_id: Seq<char> },
    Process,
}

/// What one call does, as its contract states it: `dispatch`,
/// `on_agent_complete`, `on_spawn_failed`, and `process_queue` or
/// `start_next`.
pub open spec fn event_step(
    pre: DispatcherView,
    post: DispatcherView,
    s: SettingsView,
    ev: DispatchEvent,
    r: Option<LaunchView>,
) -> bool {
    match ev {
        DispatchEvent::Dispatch { session_id, tasks } => queue_step(enqueued(pre, session_id, tasks), post, s, r),
        DispatchEvent::Complete { agent_id } => queue_step(released(pre, agent_id), post, s, r),
        DispatchEvent::SpawnFailed { agent_id } => r is None && post == released(pre, agent_id),
        DispatchEvent::Process => queue_step(pre, post, s, r),
    }
}

/// Whether an event frees the slot of `agent_id`.
pub open spec fn frees(ev: DispatchEvent, agent_id: Seq<char>) -> bool {
    match ev {
        DispatchEvent::Complete { agent_id: a } => a == agent_id,
        DispatchEvent::SpawnFailed { agent_id: a } => a == agent_id,
        _ => false,
    }
}

/// A history: `states[i]` goes to `states[i + 1]` by `events[i]`, which
/// hands out `launches[i]`.
pub open spec fn is_history(
    states: Seq<DispatcherView>,
    events: Seq<DispatchEvent>,
    launches: Seq<Option<LaunchView>>,
    s: SettingsView,
) -> bool {
    &&& states.len() == events.len() + 1
    &&& launches.len() == events.len()
    &&& forall|i: int|
        0 <= i < events.len() ==> #[trigger] event_step(states[i], states[i + 1], s, events[i], launches[i])
}

proof fn lemma_slot_stays_held(
    states: Seq<DispatcherView>,
    events: Seq<DispatchEvent>,
    launches: Seq<Option<LaunchView>>,
    s: SettingsView,
    k: int,
    i: int,
)
    requires
        is_history(states, events, launches, s),
        0 <= k < i <= events.len(),
        launches[k] is Some,
        forall|j: int| k < j < i ==> !frees(#[trigger] events[j], launches[k].unwrap().agent_id),
    ensures
        states[i].running == Some(launches[k].unwrap().agent_id),
        forall|j: int| k < j < i ==> #[trigger] launches[j] is None,
    decreases i - k,
{
    let a = launches[k].unwrap().agent_id;
    assert(event_step(states[k], states[k + 1], s, events[k], launches[k]));
    if i > k + 1 {
        lemma_slot_stays_held(states, events, launches, s, k, i - 1);
        let j = i - 1;
        assert(event_step(states[j], states[j + 1], s, events[j], launches[j]));
        assert(!frees(events[j], a));
    }
}

/// Single concurrency over any history: once an agent has been launched, no
/// further launch happens until a completion or a failed launch of that
/// very agent has been signalled.
pub proof fn lemma_next_launch_waits_for_release(
    states: Seq<DispatcherView>,
    events: Seq<DispatchEvent>,
    launches: Seq<Option<LaunchView>>,
    s: SettingsView,
    k: int,
    m: int,
)
    requires
        is_history(states, events, launches, s),
        0 <= k < m < events.len(),
        launches[k] is Some,
        launches[m] is Some,
    ensures
        exists|j: int| k < j <= m && frees(#[trigger] events[j], launches[k].unwrap().agent_id),
{
    let a = launches[k].unwrap().agent_id;
    if forall|j: int| k < j <= m ==> !frees(#[trigger] events[j], a) {
        lemma_slot_stays_held(states, events, launches, s, k, m);
        assert(event_step(states[m], states[m + 1], s, events[m], launches[m]));
        assert(!frees(events[m], a));
    }
}

/// The (session, task id) that a launch of the dispatcher is for.
pub open spec fn launch_key(r: LaunchView) -> (Seq<char>, Seq<char>) {
    (r.session_id, r.task_id.unwrap())
}

proof fn lemma_step_records_launch(
    pre: DispatcherView,
    post: DispatcherView,
    s: SettingsView,
    ev: DispatchEvent,
    r: Option<LaunchView>,
)
    requires
        event_step(pre, post, s, ev, r),
    ensures
        r is None ==> post.started == pre.started,
        r is Some ==> post.started == pre.started.push(launch_key(r.unwrap())),
{
}

proof fn lemma_started_grows(
    states: Seq<DispatcherView>,
    events: Seq<DispatchEvent>,
    launches: Seq<Option<LaunchView>>,
    s: SettingsView,
    i: int,
    j: int,
)
    requires
        is_history(states, events, launches, s),
        0 <= i <= j <= events.len(),
    ensures
        states[i].started.len() <= states[j].started.len(),
        states[j].started.take(states[i].started.len() as int) == states[i].started,
    decreases j - i,
{
    if i < j {
        lemma_started_grows(states, events, launches, s, i, j - 1);
        let p = j - 1;
        assert(event_step(states[p], states[p + 1], s, events[p], launches[p]));
        lemma_step_records_launch(states[p], states[p + 1], s, events[p], launches[p]);
        let n = states[i].started.len() as int;
        let prev = states[j - 1].started;
        assert(states[j].started.take(n) =~= prev.take(n));
    } else {
        assert(states[j].started.take(states[i].started.len() as int) =~= states[i].started);
    }
}

/// Idempotent dispatch over any history: two launches never carry the same
/// (session, task id), however often a graph is delivered.
pub proof fn lemma_each_task_launched_once(
    states: Seq<DispatcherView>,
    events: Seq<DispatchEvent>,
    launches: Seq<Option<LaunchView>>,
    s: SettingsView,
    k: int,
    m: int,
)
    requires
        is_history(states, events, launches, s),
        states[events.len() as int].started.no_duplicates(),
        0 <= k < m < events.len(),
        launches[k] is Some,
        launches[m] is Some,
    ensures
        launch_key(launches[k].unwrap()) != launch_key(launches[m].unwrap()),
{
    let n = events.len() as int;
    let fin = states[n].started;
    assert(event_step(states[k], states[k + 1], s, events[k], launches[k]));
    assert(event_step(states[m], states[m + 1], s, events[m], launches[m]));
    lemma_step_records_launch(states[k], states[k + 1], s, events[k], launches[k]);
    lemma_step_records_launch(states[m], states[m + 1], s, events[m], launches[m]);
    let ik = states[k].started.len() as int;
    let im = states[m].started.len() as int;
    lemma_started_grows(states, events, launches, s, k + 1, m);
    lemma_started_grows(states, events, launches, s, k + 1, n);
    lemma_started_grows(states, events, launches, s, m + 1, n);
    assert(ik < im);
    assert(states[k + 1].started[ik] == launch_key(launches[k].unwrap()));
    assert(states[m + 1].started[im] == launch_key(launches[m].unwrap()));
    assert(fin.take(states[k + 1].started.len() as int)[ik] == fin[ik]);
    assert(fin.take(states[m + 1].started.len() as int)[im] == fin[im]);
    assert(fin[ik] != fin[im]);
}

/// Every key accepted so far, in the order of acceptance: those already
/// launched, then those still waiting.
pub open spec fn accepted_order(v: DispatcherView) -> Seq<(Seq<char>, Seq<char>)> {
    v.started + v.queue.map_values(|e: (Seq<char>, TaskView)| key_of(e))
}

proof fn lemma_queue_step_keeps_order(pre: DispatcherView, post: DispatcherView, s: SettingsView, r: Option<LaunchView>)
    requires
        queue_step(pre, post, s, r),
    ensures
        accepted_order(post) == accepted_order(pre),
{
    if r is Some {
        let keys = pre.queue.map_values(|e: (Seq<char>, TaskView)| key_of(e));
        let rest = post.queue.map_values(|e: (Seq<char>, TaskView)| key_of(e));
        assert(rest =~= keys.drop_first());
        assert(accepted_order(post) =~= accepted_order(pre));
    }
}

/// Tasks start in the order they were accepted, over any history: what has
/// been launched is always a prefix of what has been accepted, and calls
/// only ever append to what has been accepted.
pub proof fn lemma_launch_order_follows_acceptance(
    states: Seq<DispatcherView>,
    events: Seq<DispatchEvent>,
    launches: Seq<Option<LaunchView>>,
    s: SettingsView,
    i: int,
    j: int,
)
    requires
        is_history(states, events, launches, s),
        0 <= i <= j <= events.len(),
    ensures
        accepted_order(states[j]).len() >= accepted_order(states[i]).len(),
        accepted_order(states[j]).take(accepted_order(states[i]).len() as int) == accepted_order(states[i]),
        accepted_order(states[j]).take(states[j].started.len() as int) == states[j].started,
    decreases j - i,
{
    let oj = accepted_order(states[j]);
    assert(oj.take(states[j].started.len() as int) =~= states[j].started);
    if i < j {
        lemma_launch_order_follows_acceptance(states, events, launches, s, i, j - 1);
        let p = j - 1;
        let pre = states[p];
        let post = states[p + 1];
        assert(event_step(pre, post, s, events[p], launches[p]));
        let mid = match events[p] {
            DispatchEvent::Dispatch { session_id, tasks } => enqueued(pre, session_id, tasks),
            DispatchEvent::Complete { agent_id } => released(pre, agent_id),
            DispatchEvent::SpawnFailed { agent_id } => released(pre, agent_id),
            DispatchEvent::Process => pre,
        };
        match events[p] {
            DispatchEvent::Dispatch { session_id, tasks } => {
                lemma_enqueue_appends(pre.queue, pre.dispatched, session_id, tasks);
                let kq = pre.queue.map_values(|e: (Seq<char>, TaskView)| key_of(e));
                let km = mid.queue.map_values(|e: (Seq<char>, TaskView)| key_of(e));
                assert(km.take(kq.len() as int) =~= kq);
                assert(accepted_order(mid).take(accepted_order(pre).len() as int) =~= accepted_order(pre));
                lemma_queue_step_keeps_order(mid, post, s, launches[p]);
            },
            DispatchEvent::SpawnFailed { agent_id } => {
                assert(accepted_order(post) == accepted_order(pre));
            },
            _ => {
                lemma_queue_step_keeps_order(mid, post, s, launches[p]);
                assert(accepted_order(mid) == accepted_order(pre));
            },
        }
        let oi = accepted_order(states[i]);
        let op = accepted_order(pre);
        assert(oj.take(op.len() as int) =~= op);
        assert(oj.take(oi.len() as int) =~= op.take(oi.len() as int));
    } else {
        assert(oj.take(oj.len() as int) =~= oj);
    }
}

} // verus!
