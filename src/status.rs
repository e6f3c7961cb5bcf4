use vstd::prelude::*;

verus! {

/// One diagnostic record emitted by the SQL compiler in its JSON error array.
#[derive(Debug, Clone, PartialEq, Eq)]
pub struct SqlCompilerMessage {
    pub start_line_number: usize,
    pub start_column: usize,
    pub end_line_number: usize,
    pub end_column: usize,
    pub warning: bool,
    pub error_type: String,
    pub message: String,
}

/// Compilation status of a program, as stored in the catalog.
#[derive(Debug, Clone, PartialEq, Eq)]
pub enum ProgramStatus {
    /// Created or edited; compilation not requested yet.
    Idle,
    /// Queued for compilation.
    Pending,
    /// The SQL stage is running.
    CompilingSql,
    /// The native stage is running.
    CompilingRust,
    /// A versioned executable exists on disk.
    Success,
    /// The SQL compiler reported diagnostics.
    SqlError(Vec<SqlCompilerMessage>),
    /// The native compiler failed.
    RustError(String),
    /// Spawn, I/O or unparseable-output failure.
    SystemError(String),
}

pub open spec fn not_yet_compiled(s: ProgramStatus) -> bool {
    s is Idle || s is Pending
}

pub open spec fn compiling(s: ProgramStatus) -> bool {
    s is CompilingSql || s is CompilingRust
}

pub open spec fn failed(s: ProgramStatus) -> bool {
    s is SqlError || s is RustError || s is SystemError
}

/// Position of a status along the lifecycle `Idle -> Pending -> CompilingSql
/// -> CompilingRust -> Success`, with every failure status terminal.
pub open spec fn stage_rank(s: ProgramStatus) -> nat {
    match s {
        ProgramStatus::Idle => 0,
        ProgramStatus::Pending => 1,
        ProgramStatus::CompilingSql => 2,
        ProgramStatus::CompilingRust => 3,
        _ => 4,
    }
}

/// The transitions that the orchestrator may perform on one `(program, version)`.
pub open spec fn orchestrator_step(from: ProgramStatus, to: ProgramStatus) -> bool {
    match from {
        ProgramStatus::Pending => to is CompilingSql,
        ProgramStatus::CompilingSql => to is CompilingRust || to is SqlError || to is SystemError,
        ProgramStatus::CompilingRust => to is Success || to is RustError || to is SystemError,
        _ => false,
    }
}

/// A run of statuses in which each one follows from the previous by an
/// orchestrator step.
pub open spec fn orchestrator_run(run: Seq<ProgramStatus>) -> bool {
    forall|i: int| 0 <= i < run.len() - 1 ==> #[trigger] orchestrator_step(run[i], run[i + 1])
}

/// Each orchestrator step moves strictly forward along the lifecycle, and no
/// step leaves a terminal status.
pub proof fn lemma_step_moves_forward(from: ProgramStatus, to: ProgramStatus)
    requires
        orchestrator_step(from, to),
    ensures
        stage_rank(from) < stage_rank(to),
        !failed(from) && !(from is Success),
        !not_yet_compiled(to),
{
}

/// Statuses observed along a run of orchestrator steps never go back: their
/// lifecycle positions strictly increase, so a run visits each status at most
/// once and ends at the first terminal status it meets.
pub proof fn lemma_run_monotone(run: Seq<ProgramStatus>, i: int, j: int)
    requires
        orchestrator_run(run),
        0 <= i < j < run.len(),
    ensures
        stage_rank(run[i]) < stage_rank(run[j]),
    decreases j - i,
{
    let k = j - 1;
    assert(orchestrator_step(run[k], run[k + 1]));
    lemma_step_moves_forward(run[k], run[k + 1]);
    if i < j - 1 {
        lemma_run_monotone(run, i, j - 1);
    }
}

/// A run of orchestrator steps that starts at `Pending` is a prefix of one of
/// the lifecycle paths: `Pending, CompilingSql`, then `CompilingRust` or a SQL
/// failure, then (after `CompilingRust`) `Success` or a native failure.
pub proof fn lemma_run_follows_lifecycle(run: Seq<ProgramStatus>)
    requires
        orchestrator_run(run),
        run.len() > 0,
        run[0] is Pending,
    ensures
        run.len() <= 4,
        run.len() > 1 ==> run[1] is CompilingSql,
        run.len() > 2 ==> (run[2] is CompilingRust || run[2] is SqlError || run[2] is SystemError),
        run.len() > 3 ==> (run[2] is CompilingRust && (run[3] is Success || run[3] is RustError
            || run[3] is SystemError)),
{
    if run.len() > 1 {
        assert(orchestrator_step(run[0 as int], run[0 as int + 1]));
    }
    if run.len() > 2 {
        assert(orchestrator_step(run[1 as int], run[1 as int + 1]));
    }
    if run.len() > 3 {
        assert(orchestrator_step(run[2 as int], run[2 as int + 1]));
    }
    if run.len() > 4 {
        assert(orchestrator_step(run[3 as int], run[3 as int + 1]));
    }
}

impl ProgramStatus {
    /// True of a program that is not compiled yet but may be later.
    pub fn is_not_yet_compiled(&self) -> (r: bool)
        ensures
            r == not_yet_compiled(*self),
    {
        match self {
            ProgramStatus::Idle | ProgramStatus::Pending => true,
            _ => false,
        }
    }

    /// True of a program whose compilation failed, for any reason.
    pub fn has_failed_to_compile(&self) -> (r: bool)
        ensures
            r == failed(*self),
    {
        match self {
            ProgramStatus::SqlError(_) | ProgramStatus::RustError(_) | ProgramStatus::SystemError(
                _,
            ) => true,
            _ => false,
        }
    }

    /// True of a program with a compilation stage in progress.
    pub fn is_compiling(&self) -> (r: bool)
        ensures
            r == compiling(*self),
    {
        match self {
            ProgramStatus::CompilingSql | ProgramStatus::CompilingRust => true,
            _ => false,
        }
    }

    /// True of `Success`.
    pub fn is_success(&self) -> (r: bool)
        ensures
            r == (*self is Success),
    {
        match self {
            ProgramStatus::Success => true,
            _ => false,
        }
    }

    /// True of `CompilingRust`.
    pub fn is_compiling_rust(&self) -> (r: bool)
        ensures
            r == (*self is CompilingRust),
    {
        match self {
            ProgramStatus::CompilingRust => true,
            _ => false,
        }
    }
}

} // verus!
