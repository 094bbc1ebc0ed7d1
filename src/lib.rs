//! Provisioning a developer workstation: a package catalog, a dependency
//! resolver, the execution engine with its fallback and safety policies,
//! status detection, and the task queue that feeds a front end.

pub mod catalog;
pub mod components;
pub mod flow;
pub mod history;
pub mod manager;
pub mod packages;
pub mod progress;
pub mod resolver;
pub mod status;
pub mod templates;
pub mod tasks;
pub mod text;

