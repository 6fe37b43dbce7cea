use vstd::prelude::*;

use crate::dispatcher::{callback_lines, callback_text, launch_env, launch_env_vars, LaunchRequest, LaunchSettings, LaunchView, SettingsView};
use crate::llm::{adapter_for, get_adapter, ProviderAdapter};
use crate::registry::fresh_id;
use crate::text::{copy_opt_text, copy_text, opt_text, same_text};

verus! {

/// Whether a project session still takes work.
#[derive(Debug, Clone, Copy, PartialEq, Eq, Structural)]
pub enum ProjectSessionStatus {
    Active,
    Closed,
}

/// A planning session bound to one project directory.
#[derive(Debug, Clone)]
pub struct ProjectSession {
    pub session_id: String,
    pub project_root: String,
    pub project_name: String,
    pub created_at: String,
    pub last_active_at: String,
    pub status: ProjectSessionStatus,
    pub latest_result: Option<String>,
}

/// Mathematical model of a [`ProjectSession`].
pub ghost struct ProjectSessionView {
    pub session_id: Seq<char>,
    pub project_root: Seq<char>,
    pub project_name: Seq<char>,
    pub created_at: Seq<char>,
    pub last_active_at: Seq<char>,
    pub status: ProjectSessionStatus,
    pub latest_result: Option<Seq<char>>,
}

impl View for ProjectSession {
    type V = ProjectSessionView;

    open spec fn view(&self) -> ProjectSessionView {
        ProjectSessionView {
            session_id: self.session_id@,
            project_root: self.project_root@,
            project_name: self.project_name@,
            created_at: self.created_at@,
            last_active_at: self.last_active_at@,
            status: self.status,
            latest_result: opt_text(self.latest_result),
        }
    }
}

impl ProjectSession {
    /// An independent copy of this session.
    pub fn snapshot(&self) -> (r: ProjectSession)
        ensures
            r@ == self@,
    {
        ProjectSession {
            session_id: self.session_id.clone(),
            project_root: self.project_root.clone(),
            project_name: self.project_name.clone(),
            created_at: self.created_at.clone(),
            last_active_at: self.last_active_at.clone(),
            status: self.status,
            latest_result: copy_opt_text(&self.latest_result),
        }
    }
}

/// The views of a sequence of sessions.
pub open spec fn session_views(v: Seq<ProjectSession>) -> Seq<ProjectSessionView> {
    v.map_values(|s: ProjectSession| s@)
}

/// Whether `s` is an active session of the project at `root`.
pub open spec fn active_for(s: ProjectSessionView, root: Seq<char>) -> bool {
    s.status == ProjectSessionStatus::Active && s.project_root == root
}

/// The session that a new project gets.
pub open spec fn new_session(id: Seq<char>, root: Seq<char>, name: Seq<char>, now: Seq<char>) -> ProjectSessionView {
    ProjectSessionView {
        session_id: id,
        project_root: root,
        project_name: name,
        created_at: now,
        last_active_at: now,
        status: ProjectSessionStatus::Active,
        latest_result: None,
    }
}

/// Relies on chrono's `Utc::now` and `DateTime::to_rfc3339`: the current
/// time as RFC 3339 text. It depends on the clock, so nothing is promised.
#[verifier::external_body]
fn now_rfc3339() -> (r: String) {
    chrono::Utc::now().to_rfc3339()
}

/// Project sessions, in creation order, with distinct ids.
pub struct ProjectSessions {
    sessions: Vec<ProjectSession>,
}

impl View for ProjectSessions {
    type V = Seq<ProjectSessionView>;

    closed spec fn view(&self) -> Seq<ProjectSessionView> {
        session_views(self.sessions@)
    }
}

/// Whether some session of `v` has the id `id`.
pub open spec fn has_session(v: Seq<ProjectSessionView>, id: Seq<char>) -> bool {
    exists|i: int| 0 <= i < v.len() && v[i].session_id == id
}

/// Whether no two sessions of `v` share an id.
pub open spec fn distinct_ids(v: Seq<ProjectSessionView>) -> bool {
    forall|i: int, j: int| 0 <= i < j < v.len() ==> v[i].session_id != v[j].session_id
}

impl ProjectSessions {
    /// No two sessions share an id.
    pub open spec fn wf(&self) -> bool {
        distinct_ids(self@)
    }

    /// An empty store.
    pub fn new() -> (r: ProjectSessions)
        ensures
            r.wf(),
            r@ == Seq::<ProjectSessionView>::empty(),
    {
        let r = ProjectSessions { sessions: Vec::new() };
        assert(r@ =~= Seq::<ProjectSessionView>::empty());
        r
    }

    /// Copies of all sessions.
    pub fn list_sessions(&self) -> (r: Vec<ProjectSession>)
        ensures
            session_views(r@) == self@,
    {
        let mut out: Vec<ProjectSession> = Vec::new();
        let mut i: usize = 0;
        while i < self.sessions.len()
            invariant
                i <= self.sessions@.len(),
                session_views(out@) == self@.take(i as int),
            decreases self.sessions@.len() - i,
        {
            let s = self.sessions[i].snapshot();
            let ghost before = out@;
            out.push(s);
            assert(session_views(out@) =~= session_views(before).push(s@));
            assert(self@.take(i + 1) =~= self@.take(i as int).push(self@[i as int]));
            i = i + 1;
        }
        assert(self@.take(i as int) =~= self@);
        out
    }

    fn position(&self, session_id: &str) -> (r: Option<usize>)
        ensures
            match r {
                Some(i) => i < self@.len() && self@[i as int].session_id == session_id@,
                None => !has_session(self@, session_id@),
            },
    {
        let mut i: usize = 0;
        while i < self.sessions.len()
            invariant
                i <= self.sessions@.len(),
                forall|j: int| 0 <= j < i ==> self@[j].session_id != session_id@,
            decreases self.sessions@.len() - i,
        {
            if same_text(self.sessions[i].session_id.as_str(), session_id) {
                return Some(i);
            }
            i = i + 1;
        }
        None
    }

    /// A copy of the session with id `session_id`, if there is one.
    pub fn get_session(&self, session_id: &str) -> (r: Option<ProjectSession>)
        requires
            self.wf(),
        ensures
            match r {
                Some(s) => exists|i: int| 0 <= i < self@.len() && self@[i] == s@ && s@.session_id == session_id@,
                None => !has_session(self@, session_id@),
            },
    {
        match self.position(session_id) {
            Some(i) => Some(self.sessions[i].snapshot()),
            None => None,
        }
    }

    /// The first active session of the project at `project_root`, if any.
    pub fn find_active_session(&self, project_root: &str) -> (r: Option<ProjectSession>)
        ensures
            match r {
                Some(s) => exists|i: int|
                    0 <= i < self@.len() && self@[i] == s@ && active_for(s@, project_root@) && forall|j: int|
                        0 <= j < i ==> !active_for(#[trigger] self@[j], project_root@),
                None => forall|j: int| 0 <= j < self@.len() ==> !active_for(#[trigger] self@[j], project_root@),
            },
    {
        match self.active_position(project_root) {
            Some(i) => Some(self.sessions[i].snapshot()),
            None => None,
        }
    }

    fn active_position(&self, project_root: &str) -> (r: Option<usize>)
        ensures
            match r {
                Some(i) => i < self@.len() && active_for(self@[i as int], project_root@) && forall|j: int|
                    0 <= j < i ==> !active_for(#[trigger] self@[j], project_root@),
                None => forall|j: int| 0 <= j < self@.len() ==> !active_for(#[trigger] self@[j], project_root@),
            },
    {
        let mut i: usize = 0;
        while i < self.sessions.len()
            invariant
                i <= self.sessions@.len(),
                forall|j: int| 0 <= j < i ==> !active_for(#[trigger] self@[j], project_root@),
            decreases self.sessions@.len() - i,
        {
            let s = &self.sessions[i];
            if s.status == ProjectSessionStatus::Active && same_text(s.project_root.as_str(), project_root) {
                return Some(i);
            }
            i = i + 1;
        }
        None
    }

    fn replace_at(&mut self, i: usize, s: ProjectSession)
        requires
            old(self).wf(),
            i < old(self)@.len(),
            s@.session_id == old(self)@[i as int].session_id,
        ensures
            final(self).wf(),
            final(self)@ == old(self)@.update(i as int, s@),
    {
        self.sessions.set(i, s);
        assert(self@ =~= old(self)@.update(i as int, s@));
    }

    /// Stamps the session `session_id` as active at `now` and returns it.
    pub fn update_last_active_at(&mut self, session_id: &str, now: String) -> (r: Option<ProjectSession>)
        requires
            old(self).wf(),
        ensures
            final(self).wf(),
            match r {
                Some(s) => exists|i: int|
                    0 <= i < old(self)@.len() && old(self)@[i].session_id == session_id@ && s@
                        == (ProjectSessionView { last_active_at: now@, ..old(self)@[i] }) && final(self)@
                        == old(self)@.update(i, s@),
                None => !has_session(old(self)@, session_id@) && final(self)@ == old(self)@,
            },
    {
        match self.position(session_id) {
            Some(i) => {
                let mut s = self.sessions[i].snapshot();
                s.last_active_at = now;
                let out = s.snapshot();
                self.replace_at(i, s);
                Some(out)
            },
            None => None,
        }
    }

    /// Stamps the session `session_id` as active at the current time and
    /// returns it.
    pub fn update_last_active(&mut self, session_id: &str) -> (r: Option<ProjectSession>)
        requires
            old(self).wf(),
        ensures
            final(self).wf(),
            match r {
                Some(s) => exists|i: int|
                    0 <= i < old(self)@.len() && old(self)@[i].session_id == session_id@ && s@
                        == (ProjectSessionView { last_active_at: s@.last_active_at, ..old(self)@[i] })
                        && final(self)@ == old(self)@.update(i, s@),
                None => !has_session(old(self)@, session_id@) && final(self)@ == old(self)@,
            },
    {
        let now = now_rfc3339();
        self.update_last_active_at(session_id, now)
    }

    /// Records the latest result reported in session `session_id`.
    pub fn set_latest_result(&mut self, session_id: &str, result: String) -> (r: bool)
        requires
            old(self).wf(),
        ensures
            final(self).wf(),
            r == has_session(old(self)@, session_id@),
            r ==> exists|i: int|
                0 <= i < old(self)@.len() && old(self)@[i].session_id == session_id@ && final(self)@
                    == old(self)@.update(i, ProjectSessionView { latest_result: Some(result@), ..old(self)@[i] }),
            !r ==> final(self)@ == old(self)@,
    {
        match self.position(session_id) {
            Some(i) => {
                let mut s = self.sessions[i].snapshot();
                s.latest_result = Some(result);
                self.replace_at(i, s);
                true
            },
            None => false,
        }
    }

    /// Adds `s`, replacing a session with the same id if there is one.
    pub fn insert(&mut self, s: ProjectSession)
        requires
            old(self).wf(),
        ensures
            final(self).wf(),
            has_session(old(self)@, s@.session_id) ==> exists|i: int|
                0 <= i < old(self)@.len() && old(self)@[i].session_id == s@.session_id && final(self)@
                    == old(self)@.update(i, s@),
            !has_session(old(self)@, s@.session_id) ==> final(self)@ == old(self)@.push(s@),
    {
        match self.position(s.session_id.as_str()) {
            Some(i) => {
                self.replace_at(i, s);
            },
            None => {
                let ghost v = s@;
                self.sessions.push(s);
                assert(self@ =~= old(self)@.push(v));
                assert forall|x: int, y: int| 0 <= x < y < self@.len() implies self@[x].session_id
                    != self@[y].session_id by {
                    if y == old(self)@.len() {
                        assert(self@[x] == old(self)@[x]);
                    }
                }
            },
        }
    }

    /// Reuses the active session of `project_root` (stamped active at `now`)
    /// or, when there is none, creates one under `new_id`. The flag tells
    /// whether a session was created.
    pub fn create_or_get_with(&mut self, project_root: &str, project_name: &str, new_id: String, now: String) -> (r: (
        ProjectSession,
        bool,
    ))
        requires
            old(self).wf(),
        ensures
            final(self).wf(),
            (exists|j: int| 0 <= j < old(self)@.len() && active_for(old(self)@[j], project_root@)) ==> {
                &&& !r.1
                &&& exists|i: int|
                    0 <= i < old(self)@.len() && active_for(old(self)@[i], project_root@) && (forall|j: int|
                        0 <= j < i ==> !active_for(#[trigger] old(self)@[j], project_root@)) && r.0@
                        == (ProjectSessionView { last_active_at: now@, ..old(self)@[i] }) && final(self)@
                        == old(self)@.update(i, r.0@)
            },
            (forall|j: int| 0 <= j < old(self)@.len() ==> !active_for(#[trigger] old(self)@[j], project_root@))
                ==> r.1 && r.0@ == new_session(new_id@, project_root@, project_name@, now@),
            r.1 && !has_session(old(self)@, new_id@) ==> final(self)@ == old(self)@.push(r.0@),
            r.1 && has_session(old(self)@, new_id@) ==> exists|i: int|
                0 <= i < old(self)@.len() && old(self)@[i].session_id == new_id@ && final(self)@
                    == old(self)@.update(i, r.0@),
    {
        match self.active_position(project_root) {
            Some(i) => {
                let mut s = self.sessions[i].snapshot();
                s.last_active_at = now;
                let out = s.snapshot();
                self.replace_at(i, s);
                (out, false)
            },
            None => {
                let created = copy_text(now.as_str());
                let s = ProjectSession {
                    session_id: new_id,
                    project_root: copy_text(project_root),
                    project_name: copy_text(project_name),
                    created_at: created,
                    last_active_at: now,
                    status: ProjectSessionStatus::Active,
                    latest_result: None,
                };
                let out = s.snapshot();
                self.insert(s);
                (out, true)
            },
        }
    }

    /// Reuses the active session of `project_root` or creates one under a
    /// fresh random id, stamping the current time.
    pub fn create_or_get_session_for_project(&mut self, project_root: &str, project_name: &str) -> (r: (
        ProjectSession,
        bool,
    ))
        requires
            old(self).wf(),
        ensures
            final(self).wf(),
            r.0@.project_root == project_root@,
            r.0@.status == ProjectSessionStatus::Active,
            (exists|j: int| 0 <= j < old(self)@.len() && active_for(old(self)@[j], project_root@)) <==> !r.1,
            !r.1 ==> exists|i: int|
                0 <= i < old(self)@.len() && active_for(old(self)@[i], project_root@) && (forall|j: int|
                    0 <= j < i ==> !active_for(#[trigger] old(self)@[j], project_root@)) && r.0@
                    == (ProjectSessionView { last_active_at: r.0@.last_active_at, ..old(self)@[i] }) && final(self)@
                    == old(self)@.update(i, r.0@),
            r.1 ==> r.0@ == new_session(r.0@.session_id, project_root@, project_name@, r.0@.created_at),
            r.1 ==> final(self)@ == old(self)@.push(r.0@) || exists|i: int|
                0 <= i < old(self)@.len() && old(self)@[i].session_id == r.0@.session_id && final(self)@
                    == old(self)@.update(i, r.0@),
    {
        let id = fresh_id();
        let now = now_rfc3339();
        self.create_or_get_with(project_root, project_name, id, now)
    }
}

/// The instruction file of the root orchestrator of a project session.
pub open spec fn orchestrator_instruction(agent_id: Seq<char>, project_name: Seq<char>, session_id: Seq<char>) -> Seq<char> {
    "You are the Root Orchestrator Vibe agent (ID: "@ + agent_id
        + "). Your goal is to plan the development of this project: '"@ + project_name
        + "'.\n\nYou have access to the following Vibe utilities, which are executable binaries in your PATH:\n"@
        + callback_lines(agent_id, session_id)
        + "\n**IMPORTANT:** To use these utilities, you MUST use the `run_shell_command` tool. \nFor example, to ask a question, you would call:\n`run_shell_command(command=\"vibe-ask --agent-id ... --question ...\")`\n\nDo NOT try to call `vibe_ask` as a direct tool function; it will fail.\n\nYour first task is to analyze the project state and interact with the user to define the immediate goals.\nUse `vibe-ask` to gather requirements if they are vague.\nOnce you have a clear plan, output a JSON object with a 'tasks' array describing the next steps.\nEach task should have an 'id' (string), 'description' (string), and optional 'agent_type' (string).\n\nExample:\n```json\n{\n  \"tasks\": [\n    { \"id\": \"init-1\", \"description\": \"Create README.md\", \"agent_type\": \"worker\" }\n  ]\n}\n```\n"@
}

/// Builds [`orchestrator_instruction`].
pub fn orchestrator_instruction_text(agent_id: &str, project_name: &str, session_id: &str) -> (r: String)
    ensures
        r@ == orchestrator_instruction(agent_id@, project_name@, session_id@),
{
    let callbacks = callback_text(agent_id, session_id);
    let mut m = String::from_str("You are the Root Orchestrator Vibe agent (ID: ");
    m.append(agent_id);
    m.append("). Your goal is to plan the development of this project: '");
    m.append(project_name);
    m.append("'.\n\nYou have access to the following Vibe utilities, which are executable binaries in your PATH:\n");
    m.append(callbacks.as_str());
    m.append("\n**IMPORTANT:** To use these utilities, you MUST use the `run_shell_command` tool. \nFor example, to ask a question, you would call:\n`run_shell_command(command=\"vibe-ask --agent-id ... --question ...\")`\n\nDo NOT try to call `vibe_ask` as a direct tool function; it will fail.\n\nYour first task is to analyze the project state and interact with the user to define the immediate goals.\nUse `vibe-ask` to gather requirements if they are vague.\nOnce you have a clear plan, output a JSON object with a 'tasks' array describing the next steps.\nEach task should have an 'id' (string), 'description' (string), and optional 'agent_type' (string).\n\nExample:\n```json\n{\n  \"tasks\": [\n    { \"id\": \"init-1\", \"description\": \"Create README.md\", \"agent_type\": \"worker\" }\n  ]\n}\n```\n");
    m
}

/// The launch of the root orchestrator of a new project session.
pub open spec fn orchestrator_launch_for(s: SettingsView, session_id: Seq<char>, project_name: Seq<char>, agent_id: Seq<char>) -> LaunchView {
    LaunchView {
        session_id,
        task_id: None,
        agent_id,
        agent_type: "orchestrator"@,
        instruction: orchestrator_instruction(agent_id, project_name, session_id),
        command: adapter_for(s.provider).command_spec(),
        args: adapter_for(s.provider).args_spec("INSTRUCTION.md"@, s.model),
        env: launch_env(s, agent_id, session_id),
    }
}

/// Builds the launch of the root orchestrator of a new project session.
pub fn orchestrator_launch(settings: &LaunchSettings, session_id: &str, project_name: &str, agent_id: &str) -> (r: LaunchRequest)
    ensures
        r@ == orchestrator_launch_for(settings@, session_id@, project_name@, agent_id@),
{
    let adapter = get_adapter(&settings.provider);
    LaunchRequest {
        session_id: copy_text(session_id),
        task_id: None,
        agent_id: copy_text(agent_id),
        agent_type: String::from_str("orchestrator"),
        instruction: orchestrator_instruction_text(agent_id, project_name, session_id),
        command: adapter.get_command(),
        args: adapter.get_args("INSTRUCTION.md", settings.model.as_str()),
        env: launch_env_vars(settings, agent_id, session_id),
    }
}

} // verus!
