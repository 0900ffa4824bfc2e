use vstd::prelude::*;
use vstd::string::StringExecFns;

verus! {

/// The removal primitive that a request selects.
#[derive(Clone, Copy, Debug, PartialEq, Eq, Structural)]
pub enum Removal {
    /// Remove the single file at the path.
    File,
    /// Remove the directory at the path and everything below it.
    DirectoryTree,
}

/// What the host filesystem said about a removal that it refused.
#[derive(Clone, Copy, Debug, PartialEq, Eq, Structural)]
pub enum FsErrorKind {
    NotFound,
    PermissionDenied,
    /// A file removal was asked of a directory.
    IsADirectory,
    /// A directory removal was asked of something that is no directory.
    NotADirectory,
    Other,
}

/// The kinds of failure that a deletion reports.
#[derive(Clone, Copy, Debug, PartialEq, Eq, Structural)]
pub enum FailureKind {
    /// The path did not exist when the removal was attempted.
    NotFound,
    /// The process may not remove the entry.
    PermissionDenied,
    /// The directory hint did not match the entry, and the primitive refused.
    TypeMismatch,
    /// The worker ended abnormally before it returned a result.
    ExecutionFault,
    /// Any other refusal of the filesystem.
    Other,
}

/// A removal refused by the filesystem: its kind and its text.
pub struct FsFailure {
    pub kind: FsErrorKind,
    pub message: String,
}

/// How the worker that ran the removal primitive ended.
pub enum WorkerReport {
    /// The primitive returned success.
    Removed,
    /// The primitive returned an error.
    Failed(FsFailure),
    /// The worker ended without returning anything.
    Terminated,
}

/// A failed deletion: its kind and a non-empty human-readable message.
pub struct DeletionError {
    pub kind: FailureKind,
    pub message: String,
}

/// One caller's request: the path and the hint that selects the strategy.
pub struct DeletionRequest {
    pub path: String,
    pub is_directory: bool,
}

/// Where one deletion attempt stands.
#[derive(Clone, Copy, Debug, PartialEq, Eq, Structural)]
pub enum Phase {
    Pending,
    Running,
    Succeeded,
    FailedFilesystem,
    FailedExecution,
}

pub open spec fn removal_of(is_directory: bool) -> Removal {
    if is_directory {
        Removal::DirectoryTree
    } else {
        Removal::File
    }
}

pub open spec fn kind_of(k: FsErrorKind) -> FailureKind {
    match k {
        FsErrorKind::NotFound => FailureKind::NotFound,
        FsErrorKind::PermissionDenied => FailureKind::PermissionDenied,
        FsErrorKind::IsADirectory => FailureKind::TypeMismatch,
        FsErrorKind::NotADirectory => FailureKind::TypeMismatch,
        FsErrorKind::Other => FailureKind::Other,
    }
}

/// The text that stands for a kind of failure where nothing better is known.
pub open spec fn description_of(k: FailureKind) -> Seq<char> {
    match k {
        FailureKind::NotFound => "path not found"@,
        FailureKind::PermissionDenied => "permission denied"@,
        FailureKind::TypeMismatch => "entry type does not match the removal requested"@,
        FailureKind::ExecutionFault => "Thread panic during deletion"@,
        FailureKind::Other => "removal failed"@,
    }
}

/// The kind of failure that a report amounts to (meaningless for `Removed`).
pub open spec fn report_kind(report: WorkerReport) -> FailureKind {
    match report {
        WorkerReport::Failed(f) => kind_of(f.kind),
        _ => FailureKind::ExecutionFault,
    }
}

/// The message of the failure that a report amounts to: the filesystem's own
/// text when it gave one, else the description of the kind.
pub open spec fn report_message(report: WorkerReport) -> Seq<char> {
    match report {
        WorkerReport::Failed(f) => if f.message@.len() > 0 {
            f.message@
        } else {
            description_of(kind_of(f.kind))
        },
        _ => description_of(FailureKind::ExecutionFault),
    }
}

/// The phase in which an attempt ends, given how its worker ended.
pub open spec fn phase_after(report: WorkerReport) -> Phase {
    match report {
        WorkerReport::Removed => Phase::Succeeded,
        WorkerReport::Failed(_) => Phase::FailedFilesystem,
        WorkerReport::Terminated => Phase::FailedExecution,
    }
}

pub open spec fn is_terminal(p: Phase) -> bool {
    p == Phase::Succeeded || p == Phase::FailedFilesystem || p == Phase::FailedExecution
}

/// Selects the removal primitive: exactly one, chosen by the hint alone.
pub fn removal_for(is_directory: bool) -> (r: Removal)
    ensures
        r == removal_of(is_directory),
{
    if is_directory {
        Removal::DirectoryTree
    } else {
        Removal::File
    }
}

/// Classifies a filesystem refusal.
pub fn failure_kind(k: FsErrorKind) -> (r: FailureKind)
    ensures
        r == kind_of(k),
{
    match k {
        FsErrorKind::NotFound => FailureKind::NotFound,
        FsErrorKind::PermissionDenied => FailureKind::PermissionDenied,
        FsErrorKind::IsADirectory => FailureKind::TypeMismatch,
        FsErrorKind::NotADirectory => FailureKind::TypeMismatch,
        FsErrorKind::Other => FailureKind::Other,
    }
}

/// Describes a kind of failure in words.
pub fn describe(k: FailureKind) -> (r: String)
    ensures
        r@ == description_of(k),
        r@.len() > 0,
{
    proof {
        reveal_strlit("path not found");
        reveal_strlit("permission denied");
        reveal_strlit("entry type does not match the removal requested");
        reveal_strlit("Thread panic during deletion");
        reveal_strlit("removal failed");
    }
    match k {
        FailureKind::NotFound => String::from_str("path not found"),
        FailureKind::PermissionDenied => String::from_str("permission denied"),
        FailureKind::TypeMismatch => String::from_str(
            "entry type does not match the removal requested",
        ),
        FailureKind::ExecutionFault => String::from_str("Thread panic during deletion"),
        FailureKind::Other => String::from_str("removal failed"),
    }
}

/// Turns how the worker ended into the outcome of the deletion, keeping the
/// kind of failure.
pub fn settle(report: WorkerReport) -> (r: Result<(), DeletionError>)
    ensures
        (r is Ok) <==> (report is Removed),
        r is Err ==> r->Err_0.kind == report_kind(report),
        r is Err ==> r->Err_0.message@ == report_message(report),
        r is Err ==> r->Err_0.message@.len() > 0,
{
    match report {
        WorkerReport::Removed => Ok(()),
        WorkerReport::Failed(f) => {
            let kind = failure_kind(f.kind);
            if f.message.as_str().is_empty() {
                Err(DeletionError { kind, message: describe(kind) })
            } else {
                Err(DeletionError { kind, message: f.message })
            }
        },
        WorkerReport::Terminated => {
            let kind = FailureKind::ExecutionFault;
            Err(DeletionError { kind, message: describe(kind) })
        },
    }
}

/// The outcome handed to the caller: success, or the failure's message.
pub fn outcome(report: WorkerReport) -> (r: Result<(), String>)
    ensures
        (r is Ok) <==> (report is Removed),
        r is Err ==> r->Err_0@ == report_message(report),
        r is Err ==> r->Err_0@.len() > 0,
{
    match settle(report) {
        Ok(()) => Ok(()),
        Err(e) => Err(e.message),
    }
}

/// One deletion attempt: a request, consumed once, and the phase it is in.
pub struct DeletionAttempt {
    request: DeletionRequest,
    phase: Phase,
}

impl DeletionAttempt {
    pub closed spec fn phase_of(&self) -> Phase {
        self.phase
    }

    pub closed spec fn path_of(&self) -> Seq<char> {
        self.request.path@
    }

    pub closed spec fn hint_of(&self) -> bool {
        self.request.is_directory
    }

    /// Takes ownership of a request; nothing has run yet.
    pub fn new(request: DeletionRequest) -> (r: DeletionAttempt)
        ensures
            r.phase_of() == Phase::Pending,
            r.path_of() == request.path@,
            r.hint_of() == request.is_directory,
    {
        DeletionAttempt { request, phase: Phase::Pending }
    }

    pub fn phase(&self) -> (r: Phase)
        ensures
            r == self.phase_of(),
    {
        self.phase
    }

    pub fn path(&self) -> (r: &str)
        ensures
            r@ == self.path_of(),
    {
        self.request.path.as_str()
    }

    /// Starts the single attempt of a pending request and says which
    /// primitive the worker is to run.
    pub fn start(&mut self) -> (r: Removal)
        requires
            old(self).phase_of() == Phase::Pending,
        ensures
            final(self).phase_of() == Phase::Running,
            final(self).path_of() == old(self).path_of(),
            final(self).hint_of() == old(self).hint_of(),
            r == removal_of(old(self).hint_of()),
    {
        self.phase = Phase::Running;
        removal_for(self.request.is_directory)
    }

    /// Ends a running attempt with how its worker ended.
    pub fn finish(&mut self, report: WorkerReport) -> (r: Result<(), String>)
        requires
            old(self).phase_of() == Phase::Running,
        ensures
            final(self).phase_of() == phase_after(report),
            is_terminal(final(self).phase_of()),
            final(self).path_of() == old(self).path_of(),
            final(self).hint_of() == old(self).hint_of(),
            (r is Ok) <==> (report is Removed),
            r is Err ==> r->Err_0@ == report_message(report),
            r is Err ==> r->Err_0@.len() > 0,
    {
        self.phase = match &report {
            WorkerReport::Removed => Phase::Succeeded,
            WorkerReport::Failed(_) => Phase::FailedFilesystem,
            WorkerReport::Terminated => Phase::FailedExecution,
        };
        outcome(report)
    }
}

/// Every failure carries a non-empty message, whatever the worker reported.
pub proof fn failure_message_never_empty(report: WorkerReport)
    ensures
        !(report is Removed) ==> report_message(report).len() > 0,
{
    reveal_strlit("path not found");
    reveal_strlit("permission denied");
    reveal_strlit("entry type does not match the removal requested");
    reveal_strlit("Thread panic during deletion");
    reveal_strlit("removal failed");
}

/// A worker that ends abnormally yields an execution-fault failure, never a
/// success.
pub proof fn abnormal_end_is_execution_fault(report: WorkerReport)
    requires
        report is Terminated,
    ensures
        report_kind(report) == FailureKind::ExecutionFault,
        phase_after(report) == Phase::FailedExecution,
        report_message(report) == "Thread panic during deletion"@,
{
}

/// A missing path fails as not found, each time it is reported.
pub proof fn missing_path_is_not_found(f: FsFailure)
    requires
        f.kind == FsErrorKind::NotFound,
    ensures
        report_kind(WorkerReport::Failed(f)) == FailureKind::NotFound,
        phase_after(WorkerReport::Failed(f)) == Phase::FailedFilesystem,
{
}

/// The hint alone picks the primitive, one of the two and never both; a
/// primitive refused for the wrong entry type fails as a type mismatch.
pub proof fn strategy_is_exact(is_directory: bool, f: FsFailure)
    requires
        f.kind == FsErrorKind::IsADirectory || f.kind == FsErrorKind::NotADirectory,
    ensures
        removal_of(is_directory) == Removal::DirectoryTree <==> is_directory,
        removal_of(is_directory) == Removal::File <==> !is_directory,
        report_kind(WorkerReport::Failed(f)) == FailureKind::TypeMismatch,
{
}

/// Only a removal that the primitive reported done ends in success; every
/// other end is a failure, in a terminal phase.
pub proof fn success_only_from_removal(report: WorkerReport)
    ensures
        phase_after(report) == Phase::Succeeded <==> report is Removed,
        is_terminal(phase_after(report)),
{
}

} // verus!
