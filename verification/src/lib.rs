//! Runtime-neutral application orchestration for an encrypted note vault.
//!
//! Every decision of the service is a verified state machine: the scheduler,
//! the session, the pending security transitions, the per-operation event
//! queue and the rules that validate requests and host values. The machines
//! own no thread, lock, clock or file. A runtime drives them: it performs the
//! action that a call names and hands the outcome back.

pub mod bytes;
pub mod command;
pub mod error;
pub mod event;
pub mod external_files;
pub mod laws;
pub mod local_use_cases;
pub mod memory;
pub mod operation;
pub mod ports;
pub mod secret;
pub mod service;
pub mod session;
pub mod time;

pub use error::ServiceError;
pub use event::{
    ConflictSummary, DurabilitySummary, OperationEvent, OperationPhase, Progress, ProgressUnit,
    WarningCode,
};
pub use time::Duration;
