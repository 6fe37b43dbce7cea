use vstd::prelude::*;

use crate::text::{copy_opt_text, opt_text};

verus! {

/// One unit of work; without an agent type it goes to a worker.
#[derive(Debug, Clone)]
pub struct Task {
    pub id: String,
    pub description: String,
    pub agent_type: Option<String>,
}

/// Mathematical model of a [`Task`].
pub ghost struct TaskView {
    pub id: Seq<char>,
    pub description: Seq<char>,
    pub agent_type: Option<Seq<char>>,
}

impl View for Task {
    type V = TaskView;

    open spec fn view(&self) -> TaskView {
        TaskView { id: self.id@, description: self.description@, agent_type: opt_text(self.agent_type) }
    }
}

impl Task {
    /// An independent copy.
    pub fn snapshot(&self) -> (r: Task)
        ensures
            r@ == self@,
    {
        Task {
            id: self.id.clone(),
            description: self.description.clone(),
            agent_type: copy_opt_text(&self.agent_type),
        }
    }
}

/// An ordered collection of tasks, the unit of dispatch.
#[derive(Debug, Clone)]
pub struct TaskGraph {
    pub tasks: Vec<Task>,
}

/// The models of a sequence of tasks.
pub open spec fn task_views(ts: Seq<Task>) -> Seq<TaskView> {
    ts.map_values(|t: Task| t@)
}

impl View for TaskGraph {
    type V = Seq<TaskView>;

    open spec fn view(&self) -> Seq<TaskView> {
        task_views(self.tasks@)
    }
}

} // verus!
