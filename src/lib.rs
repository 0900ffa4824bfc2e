//! Deletion of a filesystem entry on behalf of a caller: the choice of
//! removal strategy, the lifecycle of one attempt, and the translation of
//! every way an attempt can end into a single reportable outcome.
//!
//! The filesystem itself and the worker that runs the removal live with the
//! caller; this crate decides what to run and what the result means.

mod deletion;
mod greeting;

pub use deletion::{
    abnormal_end_is_execution_fault, describe, failure_kind, failure_message_never_empty,
    missing_path_is_not_found, strategy_is_exact, success_only_from_removal, DeletionAttempt, outcome, removal_for, settle, DeletionError, DeletionRequest,
    FailureKind, FsErrorKind, FsFailure, Phase, Removal, WorkerReport,
};
pub use greeting::greet;
