//! Deployment coordinator core: the rules that decide which container
//! composition is redeployed, when periodic work runs, how the outcome of an
//! external command is classified, and how shutdown is drained.
//!
//! Everything here works on plain values. Sockets, timers, signals and child
//! processes live with the caller, which feeds this crate what it observed and
//! carries out what this crate decides.

pub mod text;
pub mod registry;
pub mod error;
pub mod config;
pub mod operation;
pub mod trigger;
pub mod task;
pub mod sweep;
pub mod shutdown;

pub use config::{default_port, Config, Worker};
pub use error::Error;
pub use operation::{
    do_prune_command, do_prune_result, restart_command, restart_result, Command, ProcessOutcome,
};
pub use registry::{ManagedComposition, Registry};
pub use shutdown::Coordinator;
pub use sweep::{restart_all, Attempt, SweepStep};
pub use task::{step, TaskAction, TaskEvent, TaskState};
pub use trigger::{check, respond, restart_web, Reply, Response};
