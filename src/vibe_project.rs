use vstd::prelude::*;

use crate::llm::texts;
use crate::text::copy_text;

verus! {

/// Schema version of the project file this library writes.
pub const VIBE_SCHEMA_VERSION: u32 = 1;

/// Version of the rules file this library writes.
pub const RULES_VERSION: u32 = 1;

/// The project file of an initialised project.
#[derive(Debug, Clone)]
pub struct VibeProjectConfig {
    pub schema_version: u32,
    pub project_root: String,
    pub project_name: String,
    pub created_at: String,
    pub preferred_planner_model: Option<String>,
    pub preferred_worker_model: Option<String>,
    pub notes: Option<String>,
}

/// What initialising a project found.
#[derive(Debug, Clone, Copy, PartialEq, Eq, Structural)]
pub enum InitStatus {
    Created,
    AlreadyInitializedUpToDate,
    AlreadyInitializedOlderSchema { existing: u32 },
    AlreadyInitializedNewerSchema { existing: u32 },
}

/// The status of an initialisation: a fresh project, or an existing one
/// judged by its schema version against the current one.
pub open spec fn init_status_spec(created: bool, existing: u32) -> InitStatus {
    if created {
        InitStatus::Created
    } else if existing == VIBE_SCHEMA_VERSION {
        InitStatus::AlreadyInitializedUpToDate
    } else if existing < VIBE_SCHEMA_VERSION {
        InitStatus::AlreadyInitializedOlderSchema { existing }
    } else {
        InitStatus::AlreadyInitializedNewerSchema { existing }
    }
}

/// Builds [`init_status_spec`].
pub fn init_status(created: bool, existing: u32) -> (r: InitStatus)
    ensures
        r == init_status_spec(created, existing),
{
    if created {
        InitStatus::Created
    } else if existing == VIBE_SCHEMA_VERSION {
        InitStatus::AlreadyInitializedUpToDate
    } else if existing < VIBE_SCHEMA_VERSION {
        InitStatus::AlreadyInitializedOlderSchema { existing }
    } else {
        InitStatus::AlreadyInitializedNewerSchema { existing }
    }
}

/// Path components of the project file under `root`.
pub fn project_config_path(root: &str) -> (r: Vec<String>)
    ensures
        texts(r@) == seq![root@, ".vibe"@, "config"@, "project.json"@],
{
    let r = vec![copy_text(root), String::from_str(".vibe"), String::from_str("config"), String::from_str("project.json")];
    assert(texts(r@) =~= seq![root@, ".vibe"@, "config"@, "project.json"@]);
    r
}

/// Path components of the rules file under `root`.
pub fn rules_config_path(root: &str) -> (r: Vec<String>)
    ensures
        texts(r@) == seq![root@, ".vibe"@, "config"@, "rules.json"@],
{
    let r = vec![copy_text(root), String::from_str(".vibe"), String::from_str("config"), String::from_str("rules.json")];
    assert(texts(r@) =~= seq![root@, ".vibe"@, "config"@, "rules.json"@]);
    r
}

/// The project file written for a newly initialised project.
pub fn default_project_config(project_root: String, project_name: String, created_at: String) -> (r: VibeProjectConfig)
    ensures
        r.schema_version == VIBE_SCHEMA_VERSION,
        r.project_root@ == project_root@,
        r.project_name@ == project_name@,
        r.created_at@ == created_at@,
        r.preferred_planner_model matches Some(m) && m@ == "gpt-5.1"@,
        r.preferred_worker_model is None,
        r.notes matches Some(n) && n@ == "Initial .vibe scaffold created by 'vibe init'."@,
{
    VibeProjectConfig {
        schema_version: VIBE_SCHEMA_VERSION,
        project_root,
        project_name,
        created_at,
        preferred_planner_model: Some(String::from_str("gpt-5.1")),
        preferred_worker_model: None,
        notes: Some(String::from_str("Initial .vibe scaffold created by 'vibe init'.")),
    }
}

} // verus!
