//! What holds of the service across calls and in every state.

pub mod announcing;
pub mod bounds;
pub mod calling;
pub mod carrying;
pub mod closing;
pub mod governing;
pub mod handling;
pub mod history;
pub mod holding;
pub mod keeping;
pub mod locking;
pub mod operation;
pub mod reporting;
pub mod runs;
pub mod service;
pub mod serving;
pub mod session;
pub mod terms;
pub mod transitions;
pub mod unlocking;
pub mod use_cases;
pub mod values;
pub mod warning;
