//! Orchestration core for autonomous coding agents: the agent registry, the
//! single-slot task dispatcher, the spawner's bookkeeping and the rules by
//! which the result watcher reacts to files that agents write back.

pub mod text;
pub mod registry;
pub mod llm;
pub mod tasks;
pub mod dispatcher;
pub mod spawner;
pub mod project_sessions;
pub mod watcher;
pub mod global_registry;
pub mod vibe_project;
pub mod profiles;
