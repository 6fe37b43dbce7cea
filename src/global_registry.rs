use vstd::prelude::*;

use crate::text::same_text;

verus! {

/// Format version of the project registry file.
pub const GLOBAL_REGISTRY_VERSION: u32 = 1;

/// One project known across the machine.
#[derive(Debug, Clone)]
pub struct ProjectSummary {
    pub project_root: String,
    pub project_name: String,
    pub last_seen: String,
}

/// Mathematical model of a [`ProjectSummary`].
pub ghost struct SummaryView {
    pub project_root: Seq<char>,
    pub project_name: Seq<char>,
    pub last_seen: Seq<char>,
}

impl View for ProjectSummary {
    type V = SummaryView;

    open spec fn view(&self) -> SummaryView {
        SummaryView { project_root: self.project_root@, project_name: self.project_name@, last_seen: self.last_seen@ }
    }
}

/// The machine-wide list of projects.
#[derive(Debug, Clone)]
pub struct GlobalProjectRegistry {
    pub version: u32,
    pub projects: Vec<ProjectSummary>,
}

/// The views of a sequence of summaries.
pub open spec fn summary_views(v: Seq<ProjectSummary>) -> Seq<SummaryView> {
    v.map_values(|s: ProjectSummary| s@)
}

/// The first index at or after `i` of a project with root `root`.
pub open spec fn root_index_from(ps: Seq<SummaryView>, root: Seq<char>, i: int) -> Option<int>
    decreases ps.len() - i,
{
    if i < 0 || i >= ps.len() {
        None
    } else if ps[i].project_root == root {
        Some(i)
    } else {
        root_index_from(ps, root, i + 1)
    }
}

/// The project list after recording `s`: the first entry with the same root
/// takes its name and time, else `s` is appended.
pub open spec fn upserted(ps: Seq<SummaryView>, s: SummaryView) -> Seq<SummaryView> {
    match root_index_from(ps, s.project_root, 0) {
        Some(i) => ps.update(i, SummaryView { project_name: s.project_name, last_seen: s.last_seen, ..ps[i] }),
        None => ps.push(s),
    }
}

impl GlobalProjectRegistry {
    /// A registry of the current version with no projects.
    pub fn empty() -> (r: GlobalProjectRegistry)
        ensures
            r.version == GLOBAL_REGISTRY_VERSION,
            r.projects@.len() == 0,
    {
        GlobalProjectRegistry { version: GLOBAL_REGISTRY_VERSION, projects: Vec::new() }
    }
}

/// Records `summary`, updating the entry of the same project root if there
/// is one.
pub fn upsert_project(registry: &mut GlobalProjectRegistry, summary: ProjectSummary)
    ensures
        final(registry).version == old(registry).version,
        summary_views(final(registry).projects@) == upserted(summary_views(old(registry).projects@), summary@),
{
    let ghost ps = summary_views(registry.projects@);
    let mut i: usize = 0;
    while i < registry.projects.len()
        invariant
            i <= registry.projects@.len(),
            summary_views(registry.projects@) == ps,
            registry.version == old(registry).version,
            ps == summary_views(old(registry).projects@),
            root_index_from(ps, summary@.project_root, 0) == root_index_from(ps, summary@.project_root, i as int),
        decreases registry.projects@.len() - i,
    {
        if same_text(registry.projects[i].project_root.as_str(), summary.project_root.as_str()) {
            registry.projects[i].project_name = summary.project_name;
            registry.projects[i].last_seen = summary.last_seen;
            assert(summary_views(registry.projects@) =~= upserted(ps, summary@));
            return;
        }
        i = i + 1;
    }
    let ghost v = summary@;
    registry.projects.push(summary);
    assert(summary_views(registry.projects@) =~= ps.push(v));
}

} // verus!
