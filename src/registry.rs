use vstd::prelude::*;

use crate::text::{copy_opt_text, opt_text, same_text};

verus! {

/// Lifecycle state of one agent run.
#[derive(Debug, Clone)]
pub enum AgentStatus {
    Starting,
    Running,
    Completed,
    Failed(String),
    Terminated,
}

/// Mathematical model of an [`AgentStatus`].
pub ghost enum StatusView {
    Starting,
    Running,
    Completed,
    Failed(Seq<char>),
    Terminated,
}

impl View for AgentStatus {
    type V = StatusView;

    open spec fn view(&self) -> StatusView {
        match self {
            AgentStatus::Starting => StatusView::Starting,
            AgentStatus::Running => StatusView::Running,
            AgentStatus::Completed => StatusView::Completed,
            AgentStatus::Failed(reason) => StatusView::Failed(reason@),
            AgentStatus::Terminated => StatusView::Terminated,
        }
    }
}

impl PartialEq for AgentStatus {
    fn eq(&self, other: &AgentStatus) -> (r: bool) {
        let r = match self {
            AgentStatus::Starting => matches!(other, AgentStatus::Starting),
            AgentStatus::Running => matches!(other, AgentStatus::Running),
            AgentStatus::Completed => matches!(other, AgentStatus::Completed),
            AgentStatus::Failed(a) => match other {
                AgentStatus::Failed(b) => *a == *b,
                _ => false,
            },
            AgentStatus::Terminated => matches!(other, AgentStatus::Terminated),
        };
        assert(r == (self@ == other@));
        r
    }
}

impl vstd::std_specs::cmp::PartialEqSpecImpl for AgentStatus {
    open spec fn obeys_eq_spec() -> bool {
        true
    }

    open spec fn eq_spec(&self, other: &AgentStatus) -> bool {
        self@ == other@
    }
}

impl AgentStatus {
    /// An independent copy of this status.
    pub fn duplicate(&self) -> (r: AgentStatus)
        ensures
            r@ == self@,
    {
        match self {
            AgentStatus::Starting => AgentStatus::Starting,
            AgentStatus::Running => AgentStatus::Running,
            AgentStatus::Completed => AgentStatus::Completed,
            AgentStatus::Failed(reason) => AgentStatus::Failed(reason.clone()),
            AgentStatus::Terminated => AgentStatus::Terminated,
        }
    }
}

/// One agent run: an external process executing a single task.
#[derive(Debug, Clone)]
pub struct Agent {
    pub id: String,
    pub session_id: String,
    pub agent_type: String,
    pub status: AgentStatus,
    pub pid: Option<u32>,
    pub result: Option<String>,
    pub progress: Option<u8>,
    pub last_thought: Option<String>,
}

/// Mathematical model of an [`Agent`].
pub ghost struct AgentView {
    pub id: Seq<char>,
    pub session_id: Seq<char>,
    pub agent_type: Seq<char>,
    pub status: StatusView,
    pub pid: Option<u32>,
    pub result: Option<Seq<char>>,
    pub progress: Option<u8>,
    pub last_thought: Option<Seq<char>>,
}

impl View for Agent {
    type V = AgentView;

    open spec fn view(&self) -> AgentView {
        AgentView {
            id: self.id@,
            session_id: self.session_id@,
            agent_type: self.agent_type@,
            status: self.status@,
            pid: self.pid,
            result: opt_text(self.result),
            progress: self.progress,
            last_thought: opt_text(self.last_thought),
        }
    }
}

/// The record of an agent that has not been launched yet.
pub open spec fn fresh_agent(id: Seq<char>, session_id: Seq<char>, agent_type: Seq<char>) -> AgentView {
    AgentView {
        id,
        session_id,
        agent_type,
        status: StatusView::Starting,
        pid: None,
        result: None,
        progress: Some(0u8),
        last_thought: None,
    }
}

/// Relies on uuid's `Uuid::new_v4` and its hyphenated text form: a random
/// identifier (for agents and sessions), always 36 characters long.
#[verifier::external_body]
pub(crate) fn fresh_id() -> (r: String)
    ensures
        r@.len() == 36,
{
    uuid::Uuid::new_v4().to_string()
}

impl Agent {
    /// A new record in the `Starting` state, under a freshly drawn random id.
    pub fn new(session_id: String, agent_type: String) -> (r: Agent)
        ensures
            r@ == fresh_agent(r.id@, session_id@, agent_type@),
            r.id@.len() == 36,
    {
        Agent::with_id(fresh_id(), session_id, agent_type)
    }

    /// A new record in the `Starting` state under an id chosen by the caller.
    pub fn with_id(id: String, session_id: String, agent_type: String) -> (r: Agent)
        ensures
            r@ == fresh_agent(id@, session_id@, agent_type@),
    {
        Agent {
            id,
            session_id,
            agent_type,
            status: AgentStatus::Starting,
            pid: None,
            result: None,
            progress: Some(0u8),
            last_thought: None,
        }
    }

    /// An independent copy of this record.
    pub fn snapshot(&self) -> (r: Agent)
        ensures
            r@ == self@,
    {
        Agent {
            id: self.id.clone(),
            session_id: self.session_id.clone(),
            agent_type: self.agent_type.clone(),
            status: self.status.duplicate(),
            pid: self.pid,
            result: copy_opt_text(&self.result),
            progress: self.progress,
            last_thought: copy_opt_text(&self.last_thought),
        }
    }
}

/// The text of the error that an update of an unknown agent returns.
pub open spec fn not_found_text(agent_id: Seq<char>) -> Seq<char> {
    "Agent with ID "@ + agent_id + " not found"@
}

fn not_found_message(agent_id: &str) -> (r: String)
    ensures
        r@ == not_found_text(agent_id@),
{
    let mut m = String::from_str("Agent with ID ");
    m.append(agent_id);
    m.append(" not found");
    m
}

/// Store of agent records keyed by agent id.
///
/// Its model is a map from id to record; every operation is a short,
/// self-contained step on that map, and reads hand out independent copies.
pub struct AgentRegistry {
    agents: Vec<Agent>,
    model: Ghost<Map<Seq<char>, AgentView>>,
}

impl View for AgentRegistry {
    type V = Map<Seq<char>, AgentView>;

    closed spec fn view(&self) -> Map<Seq<char>, AgentView> {
        self.model@
    }
}

impl AgentRegistry {
    /// Records and model agree, and no id occurs twice.
    pub closed spec fn wf(&self) -> bool {
        &&& forall|i: int|
            0 <= i < self.agents@.len() ==> #[trigger] self.model@.contains_key(self.agents@[i].id@)
                && self.model@[self.agents@[i].id@] == self.agents@[i]@
        &&& forall|k: Seq<char>|
            #[trigger] self.model@.contains_key(k) ==> exists|i: int|
                0 <= i < self.agents@.len() && self.agents@[i].id@ == k
        &&& forall|i: int, j: int|
            0 <= i < j < self.agents@.len() ==> self.agents@[i].id@ != self.agents@[j].id@
    }

    /// An empty registry.
    pub fn new() -> (r: AgentRegistry)
        ensures
            r.wf(),
            r@ == Map::<Seq<char>, AgentView>::empty(),
    {
        AgentRegistry { agents: Vec::new(), model: Ghost(Map::empty()) }
    }

    fn position(&self, agent_id: &str) -> (r: Option<usize>)
        requires
            self.wf(),
        ensures
            match r {
                Some(i) => i < self.agents@.len() && self.agents@[i as int].id@ == agent_id@
                    && self@.contains_key(agent_id@),
                None => !self@.contains_key(agent_id@),
            },
    {
        let mut i: usize = 0;
        while i < self.agents.len()
            invariant
                self.wf(),
                i <= self.agents@.len(),
                forall|j: int| 0 <= j < i ==> self.agents@[j].id@ != agent_id@,
            decreases self.agents@.len() - i,
        {
            if same_text(self.agents[i].id.as_str(), agent_id) {
                assert(self.model@.contains_key(self.agents@[i as int].id@));
                return Some(i);
            }
            i = i + 1;
        }
        None
    }

    /// Puts `agent` in place of the record at `i`, which has the same id.
    fn replace_at(&mut self, i: usize, agent: Agent)
        requires
            old(self).wf(),
            i < old(self).agents@.len(),
            old(self).agents@[i as int].id@ == agent.id@,
        ensures
            final(self).wf(),
            final(self)@ == old(self)@.insert(agent.id@, agent@),
    {
        let ghost k = agent.id@;
        let ghost v = agent@;
        self.agents[i] = agent;
        self.model = Ghost(self.model@.insert(k, v));
        assert forall|j: int| 0 <= j < self.agents@.len() implies #[trigger] self.model@.contains_key(
            self.agents@[j].id@,
        ) && self.model@[self.agents@[j].id@] == self.agents@[j]@ by {
            if j != i {
                assert(old(self).agents@[j].id@ != k);
            }
        }
        assert forall|key: Seq<char>| #[trigger] self.model@.contains_key(key) implies exists|j: int|
            0 <= j < self.agents@.len() && self.agents@[j].id@ == key by {
            if key == k {
                assert(self.agents@[i as int].id@ == key);
            } else {
                assert(old(self).model@.contains_key(key));
                let j = choose|j: int| 0 <= j < old(self).agents@.len() && old(self).agents@[j].id@ == key;
                assert(self.agents@[j].id@ == key);
            }
        }
    }

    /// Inserts `agent`, replacing any record with the same id.
    pub fn register_agent(&mut self, agent: Agent)
        requires
            old(self).wf(),
        ensures
            final(self).wf(),
            final(self)@ == old(self)@.insert(agent.id@, agent@),
    {
        match self.position(agent.id.as_str()) {
            Some(i) => {
                self.replace_at(i, agent);
            },
            None => {
                let ghost k = agent.id@;
                let ghost v = agent@;
                self.agents.push(agent);
                self.model = Ghost(self.model@.insert(k, v));
                let ghost n = self.agents@.len() - 1;
                assert forall|j: int| 0 <= j < self.agents@.len() implies #[trigger] self.model@.contains_key(
                    self.agents@[j].id@,
                ) && self.model@[self.agents@[j].id@] == self.agents@[j]@ by {
                    if j != n {
                        assert(old(self).agents@[j] == self.agents@[j]);
                        assert(old(self).model@.contains_key(old(self).agents@[j].id@));
                    }
                }
                assert forall|key: Seq<char>| #[trigger] self.model@.contains_key(key) implies exists|j: int|
                    0 <= j < self.agents@.len() && self.agents@[j].id@ == key by {
                    if key == k {
                        assert(self.agents@[n].id@ == key);
                    } else {
                        assert(old(self).model@.contains_key(key));
                        let j = choose|j: int|
                            0 <= j < old(self).agents@.len() && old(self).agents@[j].id@ == key;
                        assert(self.agents@[j].id@ == key);
                    }
                }
                assert forall|a: int, b: int| 0 <= a < b < self.agents@.len() implies self.agents@[a].id@
                    != self.agents@[b].id@ by {
                    if b == n {
                        assert(old(self).model@.contains_key(old(self).agents@[a].id@));
                    }
                }
            },
        }
    }

    /// A copy of the record under `agent_id`, if there is one.
    pub fn get_agent(&self, agent_id: &str) -> (r: Option<Agent>)
        requires
            self.wf(),
        ensures
            match r {
                Some(a) => self@.contains_key(agent_id@) && a@ == self@[agent_id@],
                None => !self@.contains_key(agent_id@),
            },
    {
        match self.position(agent_id) {
            Some(i) => Some(self.agents[i].snapshot()),
            None => None,
        }
    }

    /// Sets the status of the agent under `agent_id`.
    pub fn update_status(&mut self, agent_id: &str, status: AgentStatus) -> (r: Result<(), String>)
        requires
            old(self).wf(),
        ensures
            final(self).wf(),
            r is Ok <==> old(self)@.contains_key(agent_id@),
            final(self)@ == updated(
                old(self)@,
                agent_id@,
                AgentView { status: status@, ..old(self)@[agent_id@] },
            ),
            r matches Err(e) ==> e@ == not_found_text(agent_id@),
    {
        match self.position(agent_id) {
            Some(i) => {
                let mut a = self.agents[i].snapshot();
                a.status = status;
                self.replace_at(i, a);
                Ok(())
            },
            None => Err(not_found_message(agent_id)),
        }
    }

    /// Records the OS process id of the agent under `agent_id`.
    pub fn update_pid(&mut self, agent_id: &str, pid: u32) -> (r: Result<(), String>)
        requires
            old(self).wf(),
        ensures
            final(self).wf(),
            r is Ok <==> old(self)@.contains_key(agent_id@),
            final(self)@ == updated(
                old(self)@,
                agent_id@,
                AgentView { pid: Some(pid), ..old(self)@[agent_id@] },
            ),
            r matches Err(e) ==> e@ == not_found_text(agent_id@),
    {
        match self.position(agent_id) {
            Some(i) => {
                let mut a = self.agents[i].snapshot();
                a.pid = Some(pid);
                self.replace_at(i, a);
                Ok(())
            },
            None => Err(not_found_message(agent_id)),
        }
    }

    /// Removes the record under `agent_id` and hands it back.
    pub fn remove_agent(&mut self, agent_id: &str) -> (r: Option<Agent>)
        requires
            old(self).wf(),
        ensures
            final(self).wf(),
            match r {
                Some(a) => old(self)@.contains_key(agent_id@) && a@ == old(self)@[agent_id@]
                    && final(self)@ == old(self)@.remove(agent_id@),
                None => !old(self)@.contains_key(agent_id@) && final(self)@ == old(self)@,
            },
    {
        match self.position(agent_id) {
            Some(i) => {
                let ghost k = agent_id@;
                let ghost olds = self.agents@;
                let a = self.agents.remove(i);
                self.model = Ghost(self.model@.remove(k));
                assert forall|j: int| 0 <= j < self.agents@.len() implies #[trigger] self.model@.contains_key(
                    self.agents@[j].id@,
                ) && self.model@[self.agents@[j].id@] == self.agents@[j]@ by {
                    let oj = if j < i { j } else { j + 1 };
                    assert(self.agents@[j] == olds[oj]);
                    assert(olds[oj].id@ != olds[i as int].id@);
                    assert(old(self).model@.contains_key(olds[oj].id@));
                }
                assert forall|key: Seq<char>| #[trigger] self.model@.contains_key(key) implies exists|j: int|
                    0 <= j < self.agents@.len() && self.agents@[j].id@ == key by {
                    assert(old(self).model@.contains_key(key));
                    let j = choose|j: int| 0 <= j < olds.len() && olds[j].id@ == key;
                    if j < i {
                        assert(self.agents@[j] == olds[j]);
                    } else {
                        assert(j != i);
                        assert(self.agents@[j - 1] == olds[j]);
                    }
                }
                assert forall|x: int, y: int| 0 <= x < y < self.agents@.len() implies self.agents@[x].id@
                    != self.agents@[y].id@ by {
                    let ox = if x < i { x } else { x + 1 };
                    let oy = if y < i { y } else { y + 1 };
                    assert(self.agents@[x] == olds[ox]);
                    assert(self.agents@[y] == olds[oy]);
                }
                Some(a)
            },
            None => None,
        }
    }

    /// Copies of the records whose session is `session_id`, each once.
    pub fn list_agents_by_session(&self, session_id: &str) -> (r: Vec<Agent>)
        requires
            self.wf(),
        ensures
            forall|j: int|
                0 <= j < r@.len() ==> #[trigger] r@[j]@.session_id == session_id@
                    && self@.contains_key(r@[j]@.id) && self@[r@[j]@.id] == r@[j]@,
            forall|k: Seq<char>|
                #[trigger] self@.contains_key(k) && self@[k].session_id == session_id@
                    ==> exists|j: int| 0 <= j < r@.len() && r@[j]@.id == k,
            forall|x: int, y: int| 0 <= x < y < r@.len() ==> r@[x]@.id != r@[y]@.id,
    {
        let mut out: Vec<Agent> = Vec::new();
        let mut i: usize = 0;
        while i < self.agents.len()
            invariant
                self.wf(),
                i <= self.agents@.len(),
                forall|j: int|
                    0 <= j < out@.len() ==> #[trigger] out@[j]@.session_id == session_id@
                        && self@.contains_key(out@[j]@.id) && self@[out@[j]@.id] == out@[j]@,
                forall|j: int|
                    0 <= j < i && #[trigger] self.agents@[j].session_id@ == session_id@
                        ==> exists|m: int| 0 <= m < out@.len() && out@[m]@.id == self.agents@[j].id@,
                forall|m: int|
                    0 <= m < out@.len() ==> exists|j: int|
                        0 <= j < i && #[trigger] out@[m]@.id == self.agents@[j].id@,
                forall|x: int, y: int| 0 <= x < y < out@.len() ==> out@[x]@.id != out@[y]@.id,
            decreases self.agents@.len() - i,
        {
            if same_text(self.agents[i].session_id.as_str(), session_id) {
                let a = self.agents[i].snapshot();
                let ghost before = out@;
                out.push(a);
                assert(self.model@.contains_key(self.agents@[i as int].id@));
                assert forall|x: int, y: int| 0 <= x < y < out@.len() implies out@[x]@.id
                    != out@[y]@.id by {
                    if y == before.len() {
                        assert(out@[x] == before[x]);
                        let j = choose|j: int| 0 <= j < i && before[x]@.id == self.agents@[j].id@;
                        assert(j != i);
                    }
                }
                assert forall|m: int| 0 <= m < out@.len() implies exists|j: int|
                    0 <= j < i + 1 && #[trigger] out@[m]@.id == self.agents@[j].id@ by {
                    if m < before.len() {
                        assert(out@[m] == before[m]);
                        let j = choose|j: int| 0 <= j < i && before[m]@.id == self.agents@[j].id@;
                        assert(out@[m]@.id == self.agents@[j].id@);
                    } else {
                        assert(out@[m]@.id == self.agents@[i as int].id@);
                    }
                }
                assert forall|j: int|
                    0 <= j < i + 1 && #[trigger] self.agents@[j].session_id@ == session_id@
                        implies exists|m: int| 0 <= m < out@.len() && out@[m]@.id == self.agents@[j].id@ by {
                    if j < i {
                        let m = choose|m: int| 0 <= m < before.len() && before[m]@.id == self.agents@[j].id@;
                        assert(out@[m] == before[m]);
                    } else {
                        assert(out@[before.len() as int]@.id == self.agents@[j].id@);
                    }
                }
            }
            i = i + 1;
        }
        assert forall|k: Seq<char>|
            #[trigger] self@.contains_key(k) && self@[k].session_id == session_id@
                implies exists|j: int| 0 <= j < out@.len() && out@[j]@.id == k by {
            let j = choose|j: int| 0 <= j < self.agents@.len() && self.agents@[j].id@ == k;
            assert(self.model@.contains_key(self.agents@[j].id@));
            assert(self.agents@[j].session_id@ == session_id@);
        }
        out
    }

    /// Sets status and result of the agent under `agent_id` in one step.
    pub fn update_status_and_result(
        &mut self,
        agent_id: &str,
        status: AgentStatus,
        result: Option<String>,
    ) -> (r: Result<(), String>)
        requires
            old(self).wf(),
        ensures
            final(self).wf(),
            r is Ok <==> old(self)@.contains_key(agent_id@),
            final(self)@ == updated(
                old(self)@,
                agent_id@,
                AgentView { status: status@, result: opt_text(result), ..old(self)@[agent_id@] },
            ),
            r matches Err(e) ==> e@ == not_found_text(agent_id@),
    {
        match self.position(agent_id) {
            Some(i) => {
                let mut a = self.agents[i].snapshot();
                a.status = status;
                a.result = result;
                self.replace_at(i, a);
                Ok(())
            },
            None => Err(not_found_message(agent_id)),
        }
    }

    /// Sets status, progress and last thought of the agent under `agent_id` in one step.
    pub fn update_status_and_progress(
        &mut self,
        agent_id: &str,
        status: AgentStatus,
        progress: u8,
        thought: Option<String>,
    ) -> (r: Result<(), String>)
        requires
            old(self).wf(),
        ensures
            final(self).wf(),
            r is Ok <==> old(self)@.contains_key(agent_id@),
            final(self)@ == updated(
                old(self)@,
                agent_id@,
                AgentView {
                    status: status@,
                    progress: Some(progress),
                    last_thought: opt_text(thought),
                    ..old(self)@[agent_id@]
                },
            ),
            r matches Err(e) ==> e@ == not_found_text(agent_id@),
    {
        match self.position(agent_id) {
            Some(i) => {
                let mut a = self.agents[i].snapshot();
                a.status = status;
                a.progress = Some(progress);
                a.last_thought = thought;
                self.replace_at(i, a);
                Ok(())
            },
            None => Err(not_found_message(agent_id)),
        }
    }
}

/// The registry model after an update of one agent's fields.
pub open spec fn updated(m: Map<Seq<char>, AgentView>, agent_id: Seq<char>, v: AgentView) -> Map<Seq<char>, AgentView> {
    if m.contains_key(agent_id) {
        m.insert(agent_id, v)
    } else {
        m
    }
}

/// Reads reflect the most recent successful update: after an update of a
/// registered agent, reading it gives the new record and every other agent
/// reads as before; an update of an unregistered id changes nothing.
pub proof fn lemma_reads_follow_updates(
    m: Map<Seq<char>, AgentView>,
    agent_id: Seq<char>,
    v: AgentView,
    other: Seq<char>,
)
    ensures
        m.contains_key(agent_id) ==> updated(m, agent_id, v).contains_key(agent_id)
            && updated(m, agent_id, v)[agent_id] == v,
        other != agent_id ==> (updated(m, agent_id, v).contains_key(other) == m.contains_key(other)
            && (m.contains_key(other) ==> updated(m, agent_id, v)[other] == m[other])),
        !m.contains_key(agent_id) ==> updated(m, agent_id, v) == m,
        updated(m, agent_id, v).dom() == m.dom(),
{
    if m.contains_key(agent_id) {
        assert(m.insert(agent_id, v).dom() =~= m.dom());
    }
}

} // verus!
