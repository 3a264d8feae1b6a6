//! An engine that orchestrates autonomous coding agents working through a
//! backlog of tasks, with its rules proved.
//!
//! Three schedulers share the tasks of a project and nothing else:
//!
//! - the task selector ([`selector`], [`agent_activity`]) admits tasks to
//!   work, layer by layer, asks an advisor which to start, and breaks
//!   complex tasks down ([`breakdown`]);
//! - the review engine ([`review`], [`review_automation`]) runs the tests of
//!   a finished attempt, merges its branch, rebases where the target has
//!   moved, and escalates repeated conflicts;
//! - the timeout monitor ([`task_timeout`]) cancels tasks that are stuck.
//!
//! Each scheduler is a machine that is told what the store, the advisor or
//! git answered and says what to ask or write next; it performs no effect
//! itself. What holds of a project whatever the schedulers do is proved in
//! [`invariants`].

pub mod agent_activity;
pub mod arith;
pub mod breakdown;
pub mod claude_api;
pub mod codebase_rules;
pub mod database_validator;
pub mod ident;
pub mod invariants;
pub mod project_requirements;
pub mod questions;
pub mod requirements_analyzer;
pub mod review;
pub mod review_automation;
pub mod selector;
pub mod store;
pub mod task;
pub mod task_timeout;
pub mod text;
pub mod workspace;
