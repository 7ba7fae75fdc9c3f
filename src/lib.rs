//! Speculative parallel block execution: static dependency routing of
//! transactions onto a pool of execution workers, detection of cross-worker
//! conflicts, and the commit-or-fallback protocol around a sequential
//! verification worker.
pub mod types;
pub mod table;
pub mod block;
pub mod routing;
pub mod conflict;
pub mod manager;
pub mod laws;
