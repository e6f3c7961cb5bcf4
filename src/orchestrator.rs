use vstd::prelude::*;
use vstd::string::*;
use crate::naming::{i64_string, int_text};
use crate::status::{compiling, orchestrator_step, ProgramStatus, SqlCompilerMessage};

verus! {

/// The stage of a compilation job.
#[derive(Debug, Clone, Copy, PartialEq, Eq, Structural)]
pub enum Stage {
    /// SQL to dataflow source.
    Sql,
    /// Dataflow source to native executable.
    Rust,
}

/// The job the orchestrator is running: which program version, in which
/// stage. The child process itself is held by the caller.
#[derive(Debug, Clone, Copy, PartialEq, Eq, Structural)]
pub struct CompilationJob {
    pub stage: Stage,
    pub tenant_id: u128,
    pub program_id: u128,
    pub version: i64,
}

/// What the catalog currently says of a program.
#[derive(Debug, Clone)]
pub struct ProgramView {
    pub version: i64,
    pub status: ProgramStatus,
}

/// How waiting on the job's process ended.
#[derive(Debug, Clone)]
pub enum ExitOutcome {
    /// The compiler exited with status 0.
    Succeeded,
    /// The compiler exited with a failure; `exit_code` as the shell reports it.
    Failed { exit_code: i32 },
    /// Waiting on the process failed with this I/O error text.
    WaitError(String),
}

/// What the caller does after the job's process has ended.
#[derive(Debug, Clone)]
pub enum ExitDecision {
    /// Store the schema and set `CompilingRust` in one catalog transaction,
    /// then start the native job.
    StartNative,
    /// Copy the target executable to its versioned path, then set `Success`.
    PromoteBinary,
    /// Read the compiler's error output and write `failure_status` of it.
    ReportFailure { stage: Stage, exit_code: i32 },
    /// Write this status.
    Report(ProgramStatus),
}

/// Why a guarded status write was refused.
#[derive(Debug, Clone, Copy, PartialEq, Eq, Structural)]
pub enum GuardError {
    /// The program no longer exists.
    UnknownProgram,
    /// The program has moved on to another version.
    OutdatedVersion,
}

/// The status a job's program holds while the job runs.
pub open spec fn stage_status(s: Stage) -> ProgramStatus {
    match s {
        Stage::Sql => ProgramStatus::CompilingSql,
        Stage::Rust => ProgramStatus::CompilingRust,
    }
}

/// A running job is cancelled when its program is gone, has another version,
/// or is no longer compiling.
pub open spec fn cancel_needed(job: CompilationJob, view: Option<ProgramView>) -> bool {
    match view {
        Option::None => true,
        Option::Some(v) => v.version != job.version || !compiling(v.status),
    }
}

pub open spec fn guard_accepts(current: Option<ProgramView>, version: i64) -> bool {
    current matches Some(c) && c.version == version
}

pub open spec fn exit_code_suffix(code: i32) -> Seq<char> {
    seq!['\n', 'e', 'x', 'i', 't', ' ', 'c', 'o', 'd', 'e', ':', ' '] + int_text(code as int)
}

pub open spec fn native_output_text(stdout: Seq<char>, stderr: Seq<char>) -> Seq<char> {
    seq!['s', 't', 'd', 'o', 'u', 't', ':', '\n'] + stdout + seq![
        '\n',
        's',
        't',
        'd',
        'e',
        'r',
        'r',
        ':',
        '\n',
    ] + stderr
}

pub open spec fn compiler_label(stage: Stage) -> Seq<char> {
    match stage {
        Stage::Sql => seq!['s', 'q', 'l', '-', 't', 'o', '-', 'd', 'b', 's', 'p'],
        Stage::Rust => seq!['r', 'u', 's', 't', 'c'],
    }
}

pub open spec fn wait_error_text(stage: Stage, err: Seq<char>) -> Seq<char> {
    seq!['I', '/', 'O', ' ', 'e', 'r', 'r', 'o', 'r', ' ', 'w', 'i', 't', 'h', ' '] + compiler_label(
        stage,
    ) + seq![':', ' '] + err
}

/// Whether a guarded status write for `version` commits: exactly when the
/// program still exists at that version.
pub fn check_guard(current: &Option<ProgramView>, version: i64) -> (r: Result<(), GuardError>)
    ensures
        r is Ok <==> guard_accepts(*current, version),
        r == Err::<(), GuardError>(GuardError::UnknownProgram) <==> current is None,
        r == Err::<(), GuardError>(GuardError::OutdatedVersion) <==> (current matches Some(c)
            && c.version != version),
{
    match current {
        Some(c) => {
            if c.version == version {
                Ok(())
            } else {
                Err(GuardError::OutdatedVersion)
            }
        },
        None => Err(GuardError::UnknownProgram),
    }
}

/// Error output of the native stage: both captured streams, labelled.
pub fn native_error_output(stdout: &str, stderr: &str) -> (r: String)
    ensures
        r@ == native_output_text(stdout@, stderr@),
{
    let mut r = String::from_str("stdout:\n");
    r.append(stdout);
    r.append("\nstderr:\n");
    r.append(stderr);
    proof {
        reveal_strlit("stdout:\n");
        reveal_strlit("\nstderr:\n");
        assert(r@ =~= native_output_text(stdout@, stderr@));
    }
    r
}

fn with_exit_code(output: &str, exit_code: i32) -> (r: String)
    ensures
        r@ == output@ + exit_code_suffix(exit_code),
{
    let mut r = String::from_str(output);
    r.append("\nexit code: ");
    let code = i64_string(exit_code as i64);
    r.append(code.as_str());
    proof {
        reveal_strlit("\nexit code: ");
        assert(r@ =~= output@ + exit_code_suffix(exit_code));
    }
    r
}

/// Status of a job whose compiler exited with a failure. A native failure is
/// a `RustError`; a SQL failure is an `SqlError` when its error output parsed
/// as a diagnostic array (`messages`), else a `SystemError`. The texts end
/// with the exit code.
pub fn failure_status(
    stage: Stage,
    output: &str,
    exit_code: i32,
    messages: Option<Vec<SqlCompilerMessage>>,
) -> (r: ProgramStatus)
    ensures
        stage is Rust ==> (r matches ProgramStatus::RustError(t) && t@ == output@
            + exit_code_suffix(exit_code)),
        stage is Sql && messages is Some ==> r == ProgramStatus::SqlError(messages->0),
        stage is Sql && messages is None ==> (r matches ProgramStatus::SystemError(t) && t@
            == output@ + exit_code_suffix(exit_code)),
        orchestrator_step(stage_status(stage), r),
{
    match stage {
        Stage::Rust => ProgramStatus::RustError(with_exit_code(output, exit_code)),
        Stage::Sql => match messages {
            Some(m) => ProgramStatus::SqlError(m),
            None => ProgramStatus::SystemError(with_exit_code(output, exit_code)),
        },
    }
}

/// Status written when waiting on the compiler process failed.
pub fn wait_error_status(stage: Stage, err: &str) -> (r: ProgramStatus)
    ensures
        r matches ProgramStatus::SystemError(t) && t@ == wait_error_text(stage, err@),
        orchestrator_step(stage_status(stage), r),
{
    let mut t = String::from_str("I/O error with ");
    match stage {
        Stage::Sql => t.append("sql-to-dbsp"),
        Stage::Rust => t.append("rustc"),
    }
    t.append(": ");
    t.append(err);
    proof {
        reveal_strlit("I/O error with ");
        reveal_strlit("sql-to-dbsp");
        reveal_strlit("rustc");
        reveal_strlit(": ");
        assert(t@ =~= wait_error_text(stage, err@));
    }
    ProgramStatus::SystemError(t)
}

/// The decisions of the compilation loop. It holds at most one job.
pub struct Orchestrator {
    pub job: Option<CompilationJob>,
}

impl Orchestrator {
    /// An orchestrator with no job.
    pub fn new() -> (r: Orchestrator)
        ensures
            r.job is None,
    {
        Orchestrator { job: None }
    }

    /// A poll tick: given the catalog's view of the job's program, decides
    /// whether to cancel the job. A cancelled job is dropped.
    pub fn on_tick(&mut self, view: &Option<ProgramView>) -> (cancel: bool)
        ensures
            cancel == (old(self).job matches Some(j) && cancel_needed(j, *view)),
            final(self).job == (if cancel {
                None
            } else {
                old(self).job
            }),
    {
        match self.job {
            Some(j) => {
                let cancel = match view {
                    None => true,
                    Some(v) => v.version != j.version || !v.status.is_compiling(),
                };
                if cancel {
                    self.job = None;
                }
                cancel
            },
            None => false,
        }
    }

    /// Takes the next queued program: starts its SQL stage and returns the
    /// status to write for it.
    pub fn start_job(&mut self, tenant_id: u128, program_id: u128, version: i64) -> (r:
        ProgramStatus)
        requires
            old(self).job is None,
        ensures
            final(self).job == Some(
                CompilationJob { stage: Stage::Sql, tenant_id, program_id, version },
            ),
            r == ProgramStatus::CompilingSql,
            orchestrator_step(ProgramStatus::Pending, r),
    {
        self.job = Some(CompilationJob { stage: Stage::Sql, tenant_id, program_id, version });
        ProgramStatus::CompilingSql
    }

    /// The job's process has ended: decides what to do next. Only a successful
    /// SQL stage keeps a job, now in the native stage.
    pub fn on_exit(&mut self, outcome: &ExitOutcome) -> (r: ExitDecision)
        requires
            old(self).job is Some,
        ensures
            ({
                let j = old(self).job->0;
                &&& (*outcome is Succeeded && j.stage is Sql) <==> r is StartNative
                &&& (*outcome is Succeeded && j.stage is Rust) <==> r is PromoteBinary
                &&& r is StartNative ==> final(self).job == Some(
                    CompilationJob { stage: Stage::Rust, ..j },
                )
                &&& !(r is StartNative) ==> final(self).job is None
                &&& *outcome matches ExitOutcome::Failed { exit_code } ==> r == (
                ExitDecision::ReportFailure { stage: j.stage, exit_code })
                &&& *outcome matches ExitOutcome::WaitError(e) ==> (r matches ExitDecision::Report(
                    s,
                ) && s matches ProgramStatus::SystemError(t) && t@ == wait_error_text(j.stage, e@))
                &&& r is StartNative ==> orchestrator_step(
                    stage_status(j.stage),
                    ProgramStatus::CompilingRust,
                )
                &&& r is PromoteBinary ==> orchestrator_step(
                    stage_status(j.stage),
                    ProgramStatus::Success,
                )
                &&& r matches ExitDecision::Report(s) ==> orchestrator_step(stage_status(j.stage), s)
            }),
    {
        let j = self.job.unwrap();
        match outcome {
            ExitOutcome::Succeeded => {
                match j.stage {
                    Stage::Sql => {
                        self.job = Some(CompilationJob { stage: Stage::Rust, ..j });
                        ExitDecision::StartNative
                    },
                    Stage::Rust => {
                        self.job = None;
                        ExitDecision::PromoteBinary
                    },
                }
            },
            ExitOutcome::Failed { exit_code } => {
                self.job = None;
                ExitDecision::ReportFailure { stage: j.stage, exit_code: *exit_code }
            },
            ExitOutcome::WaitError(e) => {
                self.job = None;
                ExitDecision::Report(wait_error_status(j.stage, e.as_str()))
            },
        }
    }

    /// Preparing or spawning the job's compiler failed with this text: the
    /// job is dropped and a `SystemError` is written.
    pub fn on_start_failure(&mut self, err: &str) -> (r: ProgramStatus)
        requires
            old(self).job is Some,
        ensures
            r matches ProgramStatus::SystemError(t) && t@ == err@,
            orchestrator_step(stage_status(old(self).job->0.stage), r),
            final(self).job is None,
    {
        self.job = None;
        ProgramStatus::SystemError(String::from_str(err))
    }
}

/// Once the versioned executable of a native job has been copied, the
/// `Success` write that follows commits unless the program has been deleted
/// or has moved to another version.
pub proof fn lemma_promoted_binary_then_success(job: CompilationJob, current: Option<ProgramView>)
    requires
        job.stage is Rust,
    ensures
        orchestrator_step(stage_status(job.stage), ProgramStatus::Success),
        !guard_accepts(current, job.version) ==> (current is None || current->0.version
            != job.version),
        (current matches Some(c) && c.version == job.version) ==> guard_accepts(
            current,
            job.version,
        ),
{
}

} // verus!
