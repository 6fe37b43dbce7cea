use vstd::prelude::*;
use vstd::string::*;

use crate::project_sessions::{has_session, ProjectSessionView, ProjectSessions};
use crate::registry::{AgentRegistry, AgentStatus, AgentView, StatusView};
use crate::text::{copy_text, same_text};

verus! {

/// Whether pattern `p` occurs in `s` starting at index `i`.
pub open spec fn occurs_at(s: Seq<char>, p: Seq<char>, i: int) -> bool {
    0 <= i && i + p.len() <= s.len() && s.subrange(i, i + p.len()) == p
}

/// The first index at or after `i` at which `p` occurs in `s`.
pub open spec fn find_from(s: Seq<char>, p: Seq<char>, i: int) -> Option<int>
    decreases s.len() + 1 - i,
{
    if i < 0 || i + p.len() > s.len() {
        None
    } else if occurs_at(s, p, i) {
        Some(i)
    } else {
        find_from(s, p, i + 1)
    }
}

/// The part of an agent's free-form result that may hold a task graph:
/// nothing unless the text mentions a `"tasks"` key; otherwise the body of
/// the first fenced json block (empty if the fence is never closed), or the
/// whole text when there is no such block.
pub open spec fn task_graph_payload(s: Seq<char>) -> Option<Seq<char>> {
    if find_from(s, "\"tasks\""@, 0) is None {
        None
    } else {
        match find_from(s, "```json"@, 0) {
            Some(start) => {
                let body = s.subrange(start + "```json"@.len(), s.len() as int);
                match find_from(body, "```"@, 0) {
                    Some(end) => Some(body.subrange(0, end)),
                    None => Some(Seq::empty()),
                }
            },
            None => Some(s),
        }
    }
}

/// A found index is an occurrence at or after the starting point.
pub proof fn lemma_find_from_found(s: Seq<char>, p: Seq<char>, i: int)
    ensures
        find_from(s, p, i) matches Some(k) ==> i <= k && occurs_at(s, p, k),
    decreases s.len() + 1 - i,
{
    if !(i < 0 || i + p.len() > s.len()) && !occurs_at(s, p, i) {
        lemma_find_from_found(s, p, i + 1);
    }
}

/// The characters of `s`, in order.
pub fn chars_of(s: &str) -> (r: Vec<char>)
    ensures
        r@ == s@,
{
    let n = s.unicode_len();
    let mut r: Vec<char> = Vec::new();
    let mut i: usize = 0;
    while i < n
        invariant
            n == s@.len(),
            i <= n,
            r@ == s@.take(i as int),
        decreases n - i,
    {
        r.push(s.get_char(i));
        i = i + 1;
        assert(r@ =~= s@.take(i as int));
    }
    assert(s@.take(n as int) =~= s@);
    r
}

fn occurs_in(s: &Vec<char>, p: &Vec<char>, i: usize) -> (r: bool)
    ensures
        r == occurs_at(s@, p@, i as int),
{
    if i > s.len() || p.len() > s.len() - i {
        return false;
    }
    let sl = s.len();
    let mut j: usize = 0;
    while j < p.len()
        invariant
            sl == s@.len(),
            i + p@.len() <= s@.len(),
            j <= p@.len(),
            forall|k: int| 0 <= k < j ==> s@[i + k] == p@[k],
        decreases p@.len() - j,
    {
        assert(i + j < s@.len());
        if s[i + j] != p[j] {
            assert(s@.subrange(i as int, i + p@.len())[j as int] != p@[j as int]);
            return false;
        }
        j = j + 1;
    }
    assert(s@.subrange(i as int, i + p@.len()) =~= p@);
    true
}

/// The view of an optional index.
pub open spec fn opt_index(r: Option<usize>) -> Option<int> {
    match r {
        Some(i) => Some(i as int),
        None => None,
    }
}

/// The first index at or after `from` at which `p` occurs in `s`.
pub fn find_in(s: &Vec<char>, p: &Vec<char>, from: usize) -> (r: Option<usize>)
    ensures
        opt_index(r) == find_from(s@, p@, from as int),
{
    let mut i: usize = from;
    loop
        invariant
            find_from(s@, p@, from as int) == find_from(s@, p@, i as int),
        decreases s@.len() + 1 - i,
    {
        if i > s.len() || p.len() > s.len() - i {
            return None;
        }
        if occurs_in(s, p, i) {
            return Some(i);
        }
        if p.len() == 0 {
            assert(s@.subrange(i as int, i as int) =~= p@);
        }
        i = i + 1;
    }
}

fn slice_chars(s: &Vec<char>, from: usize) -> (r: Vec<char>)
    requires
        from <= s@.len(),
    ensures
        r@ == s@.subrange(from as int, s@.len() as int),
{
    let mut r: Vec<char> = Vec::new();
    let mut i: usize = from;
    while i < s.len()
        invariant
            from <= i <= s@.len(),
            r@ == s@.subrange(from as int, i as int),
        decreases s@.len() - i,
    {
        r.push(s[i]);
        i = i + 1;
        assert(r@ =~= s@.subrange(from as int, i as int));
    }
    r
}

/// Locates a task graph inside an agent's free-form result.
pub fn extract_task_graph_payload(content: &str) -> (r: Option<String>)
    ensures
        match r {
            Some(p) => task_graph_payload(content@) == Some(p@),
            None => task_graph_payload(content@) is None,
        },
{
    let s = chars_of(content);
    let sl = s.len();
    let key = chars_of("\"tasks\"");
    if find_in(&s, &key, 0).is_none() {
        return None;
    }
    let open = chars_of("```json");
    match find_in(&s, &open, 0) {
        Some(start) => {
            proof {
                lemma_find_from_found(s@, open@, 0);
            }
            let body = slice_chars(&s, start + open.len());
            let close = chars_of("```");
            match find_in(&body, &close, 0) {
                Some(end) => {
                    proof {
                        lemma_find_from_found(body@, close@, 0);
                    }
                    let from = start + open.len();
                    assert(content@.subrange(from as int, from + end) =~= body@.subrange(0, end as int));
                    Some(copy_text(content.substring_char(from, from + end)))
                },
                None => {
                    let e = String::new();
                    Some(e)
                },
            }
        },
        None => Some(copy_text(content)),
    }
}

/// What a changed file under the workspace tree asks for.
#[derive(Debug, Clone)]
pub enum WatchTarget {
    /// A result file of agent `agent_id` of session `session_id`.
    AgentResult { session_id: String, agent_id: String },
    /// A task-graph file written in session `session_id`.
    TaskGraphFile { session_id: String },
    /// A file of no interest, or one that is still empty.
    Ignored,
    /// A result or task-graph file whose path lacks the session/agent levels.
    Unresolved,
}

/// Mathematical model of a [`WatchTarget`].
pub ghost enum WatchTargetView {
    AgentResult { session_id: Seq<char>, agent_id: Seq<char> },
    TaskGraphFile { session_id: Seq<char> },
    Ignored,
    Unresolved,
}

impl View for WatchTarget {
    type V = WatchTargetView;

    open spec fn view(&self) -> WatchTargetView {
        match self {
            WatchTarget::AgentResult { session_id, agent_id } => WatchTargetView::AgentResult {
                session_id: session_id@,
                agent_id: agent_id@,
            },
            WatchTarget::TaskGraphFile { session_id } => WatchTargetView::TaskGraphFile {
                session_id: session_id@,
            },
            WatchTarget::Ignored => WatchTargetView::Ignored,
            WatchTarget::Unresolved => WatchTargetView::Unresolved,
        }
    }
}

/// The views of path components; `None` stands for a name that is not
/// valid UTF-8.
pub open spec fn component_texts(c: Seq<Option<String>>) -> Seq<Option<Seq<char>>> {
    c.map_values(|o: Option<String>| match o {
        Some(s) => Some(s@),
        None => None,
    })
}

/// How a changed file is handled, from its path components (file name
/// last) and whether it is empty. A result file names its agent by its
/// directory and its session by the directory above; a task-graph file
/// names only its session, two levels up.
pub open spec fn classify(c: Seq<Option<Seq<char>>>, empty: bool) -> WatchTargetView {
    let n = c.len();
    if n == 0 {
        WatchTargetView::Ignored
    } else if c[n - 1] == Some("RESULT.md"@) {
        if empty {
            WatchTargetView::Ignored
        } else if n >= 3 && c[n - 2] is Some && c[n - 3] is Some {
            WatchTargetView::AgentResult { session_id: c[n - 3].unwrap(), agent_id: c[n - 2].unwrap() }
        } else {
            WatchTargetView::Unresolved
        }
    } else if c[n - 1] == Some("TASK_GRAPH.json"@) {
        if empty {
            WatchTargetView::Ignored
        } else if n >= 3 && c[n - 3] is Some {
            WatchTargetView::TaskGraphFile { session_id: c[n - 3].unwrap() }
        } else {
            WatchTargetView::Unresolved
        }
    } else {
        WatchTargetView::Ignored
    }
}

fn is_named(o: &Option<String>, name: &str) -> (r: bool)
    ensures
        r == (match o {
            Some(s) => s@ == name@,
            None => false,
        }),
{
    match o {
        Some(s) => same_text(s.as_str(), name),
        None => false,
    }
}

/// Decides what a created or modified file under the workspace tree asks for.
pub fn classify_event_path(components: &Vec<Option<String>>, empty: bool) -> (r: WatchTarget)
    ensures
        r@ == classify(component_texts(components@), empty),
{
    let ghost c = component_texts(components@);
    let n = components.len();
    if n == 0 {
        return WatchTarget::Ignored;
    }
    let last = &components[n - 1];
    assert(c[n - 1] == match last {
        Some(s) => Some(s@),
        None => None::<Seq<char>>,
    });
    if is_named(last, "RESULT.md") {
        if empty {
            return WatchTarget::Ignored;
        }
        if n >= 3 {
            match (&components[n - 2], &components[n - 3]) {
                (Some(agent), Some(session)) => {
                    return WatchTarget::AgentResult { session_id: session.clone(), agent_id: agent.clone() };
                },
                _ => {},
            }
        }
        WatchTarget::Unresolved
    } else if is_named(last, "TASK_GRAPH.json") {
        if empty {
            return WatchTarget::Ignored;
        }
        if n >= 3 {
            match &components[n - 3] {
                Some(session) => {
                    return WatchTarget::TaskGraphFile { session_id: session.clone() };
                },
                None => {},
            }
        }
        WatchTarget::Unresolved
    } else {
        WatchTarget::Ignored
    }
}

/// What handling one result file did.
#[derive(Debug)]
pub struct ResultReport {
    /// The registry update, or why it failed (unknown agent).
    pub registry_update: Result<(), String>,
    /// Whether the session was known and its latest result recorded.
    pub session_updated: bool,
    /// A task graph candidate found in the result, still to be parsed.
    pub payload: Option<String>,
}

/// Applies a non-empty result file of agent `agent_id` of session
/// `session_id`: the agent becomes `Completed` with the file's content as
/// result, the session records it as its latest result, and any embedded
/// task graph is handed back for parsing.
pub fn apply_result_file(
    registry: &mut AgentRegistry,
    sessions: &mut ProjectSessions,
    agent_id: &str,
    session_id: &str,
    content: &str,
) -> (r: ResultReport)
    requires
        old(registry).wf(),
        old(sessions).wf(),
    ensures
        final(registry).wf(),
        final(sessions).wf(),
        r.registry_update is Ok <==> old(registry)@.contains_key(agent_id@),
        r.registry_update is Ok ==> final(registry)@ == old(registry)@.insert(
            agent_id@,
            AgentView { status: StatusView::Completed, result: Some(content@), ..old(registry)@[agent_id@] },
        ),
        r.registry_update is Err ==> final(registry)@ == old(registry)@,
        r.session_updated == has_session(old(sessions)@, session_id@),
        r.session_updated ==> exists|i: int|
            0 <= i < old(sessions)@.len() && old(sessions)@[i].session_id == session_id@ && final(sessions)@
                == old(sessions)@.update(
                i,
                ProjectSessionView { latest_result: Some(content@), ..old(sessions)@[i] },
            ),
        !r.session_updated ==> final(sessions)@ == old(sessions)@,
        match r.payload {
            Some(p) => task_graph_payload(content@) == Some(p@),
            None => task_graph_payload(content@) is None,
        },
{
    let registry_update = registry.update_status_and_result(
        agent_id,
        AgentStatus::Completed,
        Some(copy_text(content)),
    );
    let session_updated = sessions.set_latest_result(session_id, copy_text(content));
    let payload = extract_task_graph_payload(content);
    ResultReport { registry_update, session_updated, payload }
}

} // verus!
