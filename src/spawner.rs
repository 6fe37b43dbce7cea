use vstd::prelude::*;

use crate::llm::texts;
use crate::registry::{fresh_id, Agent, AgentRegistry, AgentStatus, AgentView, StatusView, fresh_agent};
use crate::text::copy_text;

verus! {

/// Path components, below the base directory, of an agent's workspace.
pub open spec fn workspace_path(base_dir: Seq<char>, session_id: Seq<char>, agent_id: Seq<char>) -> Seq<Seq<char>> {
    seq![base_dir, ".vibe"@, "agents"@, session_id, agent_id]
}

/// Path components of the tree under which all agent workspaces live.
pub open spec fn agents_root_path(base_dir: Seq<char>) -> Seq<Seq<char>> {
    seq![base_dir, ".vibe"@, "agents"@]
}

/// What the launching side reports back: a process handle (with its OS id,
/// if the OS gave one) or the error of the failed launch.
#[derive(Debug, Clone)]
pub enum LaunchOutcome {
    Started(Option<u32>),
    NotStarted(String),
}

/// How an agent process ended: an exit (successful or not, with its status
/// text) or a failure while waiting for it.
#[derive(Debug, Clone)]
pub enum ExitOutcome {
    Exited { success: bool, detail: String },
    WaitFailed(String),
}

/// Which output stream of the agent a line came from.
#[derive(Debug, Clone, Copy, PartialEq, Eq, Structural)]
pub enum OutputStream {
    Stdout,
    Stderr,
}

/// Everything needed to materialise and start one agent, decided before any
/// file is written.
#[derive(Debug, Clone)]
pub struct SpawnPlan {
    /// The record, still `Starting`, that the launch will register.
    pub agent: Agent,
    /// Workspace directory, as path components.
    pub workspace: Vec<String>,
    pub instruction_file: String,
    pub log_file: String,
    pub instruction: String,
    pub command: String,
    pub args: Vec<String>,
    pub env: Vec<(String, String)>,
}

/// Name for what `str::trim_end` returns: the text without trailing
/// Unicode white space.
pub uninterp spec fn trim_end_of(s: Seq<char>) -> Seq<char>;

/// Relies on `str::trim_end`: the result depends on the characters alone.
#[verifier::external_body]
fn trim_end_text(s: &str) -> (r: String)
    ensures
        r@ == trim_end_of(s@),
{
    s.trim_end().to_string()
}

/// The debug-log line for one line of agent output.
pub open spec fn log_text(agent_id: Seq<char>, stream: OutputStream, line: Seq<char>) -> Seq<char> {
    "["@ + agent_id + (match stream {
        OutputStream::Stdout => "] STDOUT: "@,
        OutputStream::Stderr => "] STDERR: "@,
    }) + line
}

/// The debug-log line for one line of output that has already been trimmed.
pub fn log_entry_for(agent_id: &str, stream: OutputStream, trimmed: &str) -> (r: String)
    ensures
        r@ == log_text(agent_id@, stream, trimmed@),
{
    let mut m = String::from_str("[");
    m.append(agent_id);
    match stream {
        OutputStream::Stdout => m.append("] STDOUT: "),
        OutputStream::Stderr => m.append("] STDERR: "),
    }
    m.append(trimmed);
    m
}

/// The debug-log line for one raw line of output, trailing white space
/// (the line break included) removed.
pub fn log_entry(agent_id: &str, stream: OutputStream, line: &str) -> (r: String)
    ensures
        r@ == log_text(agent_id@, stream, trim_end_of(line@)),
{
    let trimmed = trim_end_text(line);
    log_entry_for(agent_id, stream, trimmed.as_str())
}

/// The error text of a launch that the OS refused.
pub open spec fn launch_error_text(command: Seq<char>, error: Seq<char>) -> Seq<char> {
    "Failed to spawn command '"@ + command + "': "@ + error
}

/// The terminal status that an exit outcome gives.
pub open spec fn exit_status(o: ExitOutcome) -> StatusView {
    match o {
        ExitOutcome::Exited { success, detail } => if success {
            StatusView::Completed
        } else {
            StatusView::Failed("Exited with status: "@ + detail@)
        },
        ExitOutcome::WaitFailed(e) => StatusView::Failed("Process wait error: "@ + e@),
    }
}

/// Launches agents into per-agent workspaces under a base directory and
/// keeps their registry records in step with the process.
#[derive(Debug, Clone)]
pub struct AgentSpawner {
    pub base_dir: String,
}

impl AgentSpawner {
    /// A spawner placing workspaces under `base_dir`.
    pub fn new(base_dir: String) -> (r: AgentSpawner)
        ensures
            r.base_dir@ == base_dir@,
    {
        AgentSpawner { base_dir }
    }

    /// The workspace directory of agent `agent_id` of session `session_id`.
    pub fn workspace_dir(&self, session_id: &str, agent_id: &str) -> (r: Vec<String>)
        ensures
            texts(r@) == workspace_path(self.base_dir@, session_id@, agent_id@),
    {
        let r = vec![
            self.base_dir.clone(),
            String::from_str(".vibe"),
            String::from_str("agents"),
            copy_text(session_id),
            copy_text(agent_id),
        ];
        assert(texts(r@) =~= workspace_path(self.base_dir@, session_id@, agent_id@));
        r
    }

    /// The directory tree that holds every agent workspace.
    pub fn agents_root(&self) -> (r: Vec<String>)
        ensures
            texts(r@) == agents_root_path(self.base_dir@),
    {
        let r = vec![self.base_dir.clone(), String::from_str(".vibe"), String::from_str("agents")];
        assert(texts(r@) =~= agents_root_path(self.base_dir@));
        r
    }

    /// Decides what a spawn will do, under the caller's agent id or, without
    /// one, a fresh random one.
    pub fn plan(
        &self,
        session_id: String,
        agent_type: String,
        instruction: String,
        command: String,
        args: Vec<String>,
        env: Vec<(String, String)>,
        agent_id: Option<String>,
    ) -> (r: SpawnPlan)
        ensures
            agent_id matches Some(a) ==> r.agent.id@ == a@,
            r.agent@ == fresh_agent(r.agent.id@, session_id@, agent_type@),
            texts(r.workspace@) == workspace_path(self.base_dir@, session_id@, r.agent.id@),
            r.instruction_file@ == "INSTRUCTION.md"@,
            r.log_file@ == "debug_log.txt"@,
            r.instruction@ == instruction@,
            r.command@ == command@,
            r.args@ == args@,
            r.env@ == env@,
    {
        let id = match agent_id {
            Some(a) => a,
            None => fresh_id(),
        };
        let workspace = self.workspace_dir(session_id.as_str(), id.as_str());
        let agent = Agent::with_id(id, session_id, agent_type);
        SpawnPlan {
            agent,
            workspace,
            instruction_file: String::from_str("INSTRUCTION.md"),
            log_file: String::from_str("debug_log.txt"),
            instruction,
            command,
            args,
            env,
        }
    }

    /// Registers the outcome of a launch attempt: a started process makes
    /// the agent `Running` with its process id and yields its id; a refused
    /// launch records the agent as `Failed` with the OS error and yields the
    /// spawn error.
    pub fn record_launch(
        &self,
        registry: &mut AgentRegistry,
        agent: Agent,
        command: &str,
        outcome: LaunchOutcome,
    ) -> (r: Result<String, String>)
        requires
            old(registry).wf(),
        ensures
            final(registry).wf(),
            match outcome {
                LaunchOutcome::Started(pid) => r matches Ok(id) && id@ == agent.id@
                    && final(registry)@ == old(registry)@.insert(
                    agent.id@,
                    AgentView { status: StatusView::Running, pid, ..agent@ },
                ),
                LaunchOutcome::NotStarted(e) => r matches Err(m) && m@ == launch_error_text(command@, e@)
                    && final(registry)@ == old(registry)@.insert(
                    agent.id@,
                    AgentView { status: StatusView::Failed(e@), ..agent@ },
                ),
            },
    {
        let mut agent = agent;
        match outcome {
            LaunchOutcome::Started(pid) => {
                let id = agent.id.clone();
                agent.pid = pid;
                agent.status = AgentStatus::Running;
                registry.register_agent(agent);
                Ok(id)
            },
            LaunchOutcome::NotStarted(e) => {
                let mut m = String::from_str("Failed to spawn command '");
                m.append(command);
                m.append("': ");
                m.append(e.as_str());
                agent.status = AgentStatus::Failed(e);
                registry.register_agent(agent);
                Err(m)
            },
        }
    }

    /// Records how the process of `agent_id` ended: `Completed` on a
    /// successful exit, `Failed` with the detail otherwise.
    pub fn record_exit(&self, registry: &mut AgentRegistry, agent_id: &str, outcome: ExitOutcome) -> (r: Result<
        (),
        String,
    >)
        requires
            old(registry).wf(),
        ensures
            final(registry).wf(),
            r is Ok <==> old(registry)@.contains_key(agent_id@),
            r is Ok ==> final(registry)@ == old(registry)@.insert(
                agent_id@,
                AgentView { status: exit_status(outcome), ..old(registry)@[agent_id@] },
            ),
            r is Err ==> final(registry)@ == old(registry)@,
    {
        let status = match outcome {
            ExitOutcome::Exited { success, detail } => if success {
                AgentStatus::Completed
            } else {
                let mut m = String::from_str("Exited with status: ");
                m.append(detail.as_str());
                AgentStatus::Failed(m)
            },
            ExitOutcome::WaitFailed(e) => {
                let mut m = String::from_str("Process wait error: ");
                m.append(e.as_str());
                AgentStatus::Failed(m)
            },
        };
        registry.update_status(agent_id, status)
    }
}

} // verus!
