//! An SSH connection manager's core: host and credential records, the
//! credential vault, the resolver that picks how to authenticate, the registry
//! of live sessions and the decisions of the per-session worker.

pub mod clock;
pub mod commands;
pub mod db;
pub mod error;
pub mod ids;
pub mod k8s;
pub mod master_key;
pub mod models;
pub mod order;
pub mod resolver;
pub mod runtime;
pub mod secrets;
pub mod ssh;
pub mod state;
pub mod storage;
pub mod text;
pub mod traits;
