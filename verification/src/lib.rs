//! A GPU profiling agent's session-orchestration core.
//!
//! The library decides, for a stream of runtime callbacks (context created,
//! context destroying, kernel launch), when a hardware range-profiling
//! session is active, keeps that hardware resource exclusive to one logical
//! context at a time, buffers asynchronously delivered kernel records, and
//! correlates them with evaluated counter metrics into one finalized
//! performance record per kernel launch.
//!
//! The hardware engine itself is an external collaborator: the handlers here
//! return the ordered engine commands to perform, and the embedder reports
//! outcomes back as further events.

pub mod config;
pub mod demangle;
pub mod dispatch;
pub mod metrics;
pub mod occupancy;
pub mod records;
pub mod registry;
pub mod session;
pub mod tracing;

pub use session::check_cupti;
