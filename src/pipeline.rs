//! The execution pipeline as a state machine. The caller performs each
//! action (write a file, spawn the compiler or the artifact under a budget,
//! remove files) and hands back what happened as an event; the machine
//! decides what comes next.
use std::time::Duration;
use vstd::prelude::*;
use crate::safety::{is_denied, is_safe_code};
use crate::workspace::{
    artifact_path_of, entry_under, lemma_scratch_paths_disjoint, source_path_of, RustCodeExecutor, ScratchEntry,
    ScratchView,
};

verus! {

/// Relies on `Duration` being `Copy`: its clone is the same value. The
/// derived `Clone` of `CodeExecutionResult` calls it.
pub assume_specification[ <Duration as Clone>::clone ](d: &Duration) -> (r: Duration)
    ensures
        r == *d,
;

/// Seconds the compiler may run.
pub const COMPILE_BUDGET_SECS: u64 = 30;

/// Seconds the compiled artifact may run.
pub const RUN_BUDGET_SECS: u64 = 10;

/// The exit code reported when none is available (a killed process).
pub const NO_EXIT_CODE: i32 = -1;

/// How a request that produced a result ended.
#[derive(Clone, Copy, Debug, PartialEq, Eq, Structural)]
pub enum ExecutionStatus {
    /// The artifact ran and exited, with any code.
    Completed,
    /// The artifact was ended by a signal and left no exit code.
    ExecuteCrashed,
    /// The compiler exited with a non-zero status.
    CompileFailed,
    /// The compiler did not finish within its budget and was killed.
    CompileTimedOut,
    /// The artifact did not finish within its budget and was killed.
    ExecuteTimedOut,
}

/// Failures for which no result exists.
#[derive(Clone, Copy, Debug, PartialEq, Eq, Structural)]
pub enum PipelineError {
    /// The snippet holds a denied substring; nothing was spawned.
    RejectedBySafetyGate,
    /// The source file could not be written.
    WorkspaceIo,
    /// The compiler or the artifact could not be launched.
    SpawnFailure,
}

/// What the compiler did.
#[derive(Debug, Clone)]
pub struct CompileResult {
    pub success: bool,
    pub stdout: String,
    pub stderr: String,
    pub exit_code: i32,
}

/// What the artifact did.
#[derive(Debug, Clone)]
pub struct ExecutionResult {
    pub stdout: String,
    pub stderr: String,
    pub exit_code: i32,
    /// The process was ended by a signal; `exit_code` is then `NO_EXIT_CODE`.
    pub signaled: bool,
}

/// What a request returns to its caller.
#[derive(Debug, Clone)]
pub struct CodeExecutionResult {
    pub stdout: String,
    pub stderr: String,
    pub exit_code: i32,
    pub execution_time: Duration,
    pub status: ExecutionStatus,
}

pub struct ResultView {
    pub stdout: Seq<char>,
    pub stderr: Seq<char>,
    pub exit_code: i32,
    pub execution_time: Duration,
    pub status: ExecutionStatus,
}

impl View for CodeExecutionResult {
    type V = ResultView;

    open spec fn view(&self) -> ResultView {
        ResultView {
            stdout: self.stdout@,
            stderr: self.stderr@,
            exit_code: self.exit_code,
            execution_time: self.execution_time,
            status: self.status,
        }
    }
}

pub open spec fn outcome_view(o: Result<CodeExecutionResult, PipelineError>) -> Result<ResultView, PipelineError> {
    match o {
        Ok(r) => Ok(r@),
        Err(e) => Err(e),
    }
}

/// Where a request stands. A state that holds an entry owns its files.
pub enum PipelineState {
    Writing { entry: ScratchEntry },
    Compiling { entry: ScratchEntry },
    Executing { entry: ScratchEntry },
    CleaningUp { outcome: Result<CodeExecutionResult, PipelineError> },
    Finished,
}

pub enum StateView {
    Writing(ScratchView),
    Compiling(ScratchView),
    Executing(ScratchView),
    CleaningUp(Result<ResultView, PipelineError>),
    Finished,
}

impl View for PipelineState {
    type V = StateView;

    open spec fn view(&self) -> StateView {
        match self {
            PipelineState::Writing { entry } => StateView::Writing(entry@),
            PipelineState::Compiling { entry } => StateView::Compiling(entry@),
            PipelineState::Executing { entry } => StateView::Executing(entry@),
            PipelineState::CleaningUp { outcome } => StateView::CleaningUp(outcome_view(*outcome)),
            PipelineState::Finished => StateView::Finished,
        }
    }
}

/// What the caller is to do next.
pub enum Action {
    /// Write `text` to `path`.
    WriteSource { path: String, text: String },
    /// Compile `source` into `artifact`, killing the compiler after `budget_secs`.
    Compile { source: String, artifact: String, budget_secs: u64 },
    /// Run `artifact` with no input, killing it after `budget_secs`.
    Run { artifact: String, budget_secs: u64 },
    /// Remove both files, ignoring failures.
    Cleanup { source: String, artifact: String },
    /// Hand `outcome` to the requester; nothing is left to do.
    Finish { outcome: Result<CodeExecutionResult, PipelineError> },
}

pub enum ActionView {
    WriteSource(Seq<char>, Seq<char>),
    Compile(Seq<char>, Seq<char>, u64),
    Run(Seq<char>, u64),
    Cleanup(Seq<char>, Seq<char>),
    Finish(Result<ResultView, PipelineError>),
}

impl View for Action {
    type V = ActionView;

    open spec fn view(&self) -> ActionView {
        match self {
            Action::WriteSource { path, text } => ActionView::WriteSource(path@, text@),
            Action::Compile { source, artifact, budget_secs } => ActionView::Compile(source@, artifact@, *budget_secs),
            Action::Run { artifact, budget_secs } => ActionView::Run(artifact@, *budget_secs),
            Action::Cleanup { source, artifact } => ActionView::Cleanup(source@, artifact@),
            Action::Finish { outcome } => ActionView::Finish(outcome_view(*outcome)),
        }
    }
}

/// What happened when the caller performed the last action.
pub enum Event {
    SourceWritten,
    WriteFailed,
    Compiled { outcome: CompileResult, elapsed: Duration },
    CompileTimedOut { elapsed: Duration },
    CompileSpawnFailed,
    Ran { outcome: ExecutionResult, elapsed: Duration },
    RunTimedOut { elapsed: Duration },
    RunSpawnFailed,
    CleanedUp,
}

/// The events that answer the action that state `s` issued.
pub open spec fn accepts(s: StateView, e: Event) -> bool {
    match s {
        StateView::Writing(_) => e is SourceWritten || e is WriteFailed,
        StateView::Compiling(_) => e is Compiled || e is CompileTimedOut || e is CompileSpawnFailed,
        StateView::Executing(_) => e is Ran || e is RunTimedOut || e is RunSpawnFailed,
        StateView::CleaningUp(_) => e is CleanedUp,
        StateView::Finished => false,
    }
}

/// The stderr text of a compile that ran out of time.
pub open spec fn compile_timeout_text() -> Seq<char> {
    "compilation timed out"@
}

/// The stderr text of a run that ran out of time.
pub open spec fn run_timeout_text() -> Seq<char> {
    "execution timed out"@
}

/// Leave a state that owns `en`, with `outcome` as the request's answer.
pub open spec fn release(en: ScratchView, outcome: Result<ResultView, PipelineError>) -> (StateView, ActionView) {
    (StateView::CleaningUp(outcome), ActionView::Cleanup(en.source_path, en.artifact_path))
}

/// The transition table.
pub open spec fn next(s: StateView, e: Event) -> (StateView, ActionView) {
    match s {
        StateView::Writing(en) => match e {
            Event::SourceWritten => (
                StateView::Compiling(en),
                ActionView::Compile(en.source_path, en.artifact_path, COMPILE_BUDGET_SECS),
            ),
            _ => release(en, Err(PipelineError::WorkspaceIo)),
        },
        StateView::Compiling(en) => match e {
            Event::Compiled { outcome, elapsed } => if outcome.success {
                (StateView::Executing(en), ActionView::Run(en.artifact_path, RUN_BUDGET_SECS))
            } else {
                release(en, Ok(ResultView {
                    stdout: outcome.stdout@,
                    stderr: outcome.stderr@,
                    exit_code: outcome.exit_code,
                    execution_time: elapsed,
                    status: ExecutionStatus::CompileFailed,
                }))
            },
            Event::CompileTimedOut { elapsed } => release(en, Ok(ResultView {
                stdout: Seq::empty(),
                stderr: compile_timeout_text(),
                exit_code: NO_EXIT_CODE,
                execution_time: elapsed,
                status: ExecutionStatus::CompileTimedOut,
            })),
            _ => release(en, Err(PipelineError::SpawnFailure)),
        },
        StateView::Executing(en) => match e {
            Event::Ran { outcome, elapsed } => release(en, Ok(ResultView {
                stdout: outcome.stdout@,
                stderr: outcome.stderr@,
                exit_code: outcome.exit_code,
                execution_time: elapsed,
                status: if outcome.signaled { ExecutionStatus::ExecuteCrashed } else { ExecutionStatus::Completed },
            })),
            Event::RunTimedOut { elapsed } => release(en, Ok(ResultView {
                stdout: Seq::empty(),
                stderr: run_timeout_text(),
                exit_code: NO_EXIT_CODE,
                execution_time: elapsed,
                status: ExecutionStatus::ExecuteTimedOut,
            })),
            _ => release(en, Err(PipelineError::SpawnFailure)),
        },
        StateView::CleaningUp(o) => (StateView::Finished, ActionView::Finish(o)),
        // No event is accepted once finished; this arm only makes the table total.
        StateView::Finished => (StateView::Finished, ActionView::Finish(Err(PipelineError::RejectedBySafetyGate))),
    }
}

/// How a request starts: rejected at once by the denylist, or by writing its
/// source into the entry.
pub open spec fn begin_spec(code: Seq<char>, en: ScratchView) -> (StateView, ActionView) {
    if is_denied(code) {
        (StateView::Finished, ActionView::Finish(Err(PipelineError::RejectedBySafetyGate)))
    } else {
        (StateView::Writing(en), ActionView::WriteSource(en.source_path, code))
    }
}

/// The answer of a request that was refused by the denylist.
fn rejected() -> (r: (PipelineState, Action))
    ensures
        r.0@ == StateView::Finished,
        r.1@ == ActionView::Finish(Err(PipelineError::RejectedBySafetyGate)),
{
    (PipelineState::Finished, Action::Finish { outcome: Err(PipelineError::RejectedBySafetyGate) })
}

/// Start a request for `code` in `entry`.
pub fn begin(code: &str, entry: ScratchEntry) -> (r: (PipelineState, Action))
    ensures
        (r.0@, r.1@) == begin_spec(code@, entry@),
{
    if !is_safe_code(code) {
        return rejected();
    }
    let path = entry.source_path.clone();
    (PipelineState::Writing { entry }, Action::WriteSource { path, text: String::from_str(code) })
}

fn release_entry(entry: ScratchEntry, outcome: Result<CodeExecutionResult, PipelineError>) -> (r: (PipelineState, Action))
    ensures
        (r.0@, r.1@) == release(entry@, outcome_view(outcome)),
{
    (
        PipelineState::CleaningUp { outcome },
        Action::Cleanup { source: entry.source_path, artifact: entry.artifact_path },
    )
}

/// Answer `event`, which reports on the action that `state` issued.
pub fn step(state: PipelineState, event: Event) -> (r: (PipelineState, Action))
    requires
        accepts(state@, event),
    ensures
        (r.0@, r.1@) == next(state@, event),
{
    match state {
        PipelineState::Writing { entry } => match event {
            Event::SourceWritten => {
                let source = entry.source_path.clone();
                let artifact = entry.artifact_path.clone();
                (
                    PipelineState::Compiling { entry },
                    Action::Compile { source, artifact, budget_secs: COMPILE_BUDGET_SECS },
                )
            },
            _ => release_entry(entry, Err(PipelineError::WorkspaceIo)),
        },
        PipelineState::Compiling { entry } => match event {
            Event::Compiled { outcome, elapsed } => {
                if outcome.success {
                    let artifact = entry.artifact_path.clone();
                    (PipelineState::Executing { entry }, Action::Run { artifact, budget_secs: RUN_BUDGET_SECS })
                } else {
                    let r = CodeExecutionResult {
                        stdout: outcome.stdout,
                        stderr: outcome.stderr,
                        exit_code: outcome.exit_code,
                        execution_time: elapsed,
                        status: ExecutionStatus::CompileFailed,
                    };
                    release_entry(entry, Ok(r))
                }
            },
            Event::CompileTimedOut { elapsed } => {
                let r = CodeExecutionResult {
                    stdout: String::new(),
                    stderr: String::from_str("compilation timed out"),
                    exit_code: NO_EXIT_CODE,
                    execution_time: elapsed,
                    status: ExecutionStatus::CompileTimedOut,
                };
                release_entry(entry, Ok(r))
            },
            _ => release_entry(entry, Err(PipelineError::SpawnFailure)),
        },
        PipelineState::Executing { entry } => match event {
            Event::Ran { outcome, elapsed } => {
                let status = if outcome.signaled {
                    ExecutionStatus::ExecuteCrashed
                } else {
                    ExecutionStatus::Completed
                };
                let r = CodeExecutionResult {
                    stdout: outcome.stdout,
                    stderr: outcome.stderr,
                    exit_code: outcome.exit_code,
                    execution_time: elapsed,
                    status,
                };
                release_entry(entry, Ok(r))
            },
            Event::RunTimedOut { elapsed } => {
                let r = CodeExecutionResult {
                    stdout: String::new(),
                    stderr: String::from_str("execution timed out"),
                    exit_code: NO_EXIT_CODE,
                    execution_time: elapsed,
                    status: ExecutionStatus::ExecuteTimedOut,
                };
                release_entry(entry, Ok(r))
            },
            _ => release_entry(entry, Err(PipelineError::SpawnFailure)),
        },
        PipelineState::CleaningUp { outcome } => (PipelineState::Finished, Action::Finish { outcome }),
        PipelineState::Finished => rejected(),
    }
}

/// Whether `event` answers the action that `state` issued.
pub fn accepts_event(state: &PipelineState, event: &Event) -> (r: bool)
    ensures
        r == accepts(state@, *event),
{
    match state {
        PipelineState::Writing { .. } => matches!(event, Event::SourceWritten | Event::WriteFailed),
        PipelineState::Compiling { .. } => matches!(
            event,
            Event::Compiled { .. } | Event::CompileTimedOut { .. } | Event::CompileSpawnFailed
        ),
        PipelineState::Executing { .. } => matches!(
            event,
            Event::Ran { .. } | Event::RunTimedOut { .. } | Event::RunSpawnFailed
        ),
        PipelineState::CleaningUp { .. } => matches!(event, Event::CleanedUp),
        PipelineState::Finished => false,
    }
}

impl RustCodeExecutor {
    /// Start a request for `code` in an entry under this executor's root,
    /// named by the UUID made of `random`. A snippet that the denylist
    /// refuses gets no entry.
    pub fn start(&self, code: &str, random: [u8; 16]) -> (r: (PipelineState, Action))
        ensures
            is_denied(code@) ==> r.0@ == StateView::Finished
                && r.1@ == ActionView::Finish(Err(PipelineError::RejectedBySafetyGate)),
            !is_denied(code@) ==> exists|en: ScratchView|
                en.id.len() == 36 && entry_under(en, self@) && (r.0@, r.1@) == begin_spec(code@, en),
    {
        if !is_safe_code(code) {
            return rejected();
        }
        let entry = self.allocate(random);
        let ghost en = entry@;
        let r = begin(code, entry);
        assert(en.id.len() == 36 && entry_under(en, self@) && (r.0@, r.1@) == begin_spec(code@, en));
        r
    }
}

/// The entry that a state owns, if any.
pub open spec fn entry_of(s: StateView) -> Option<ScratchView> {
    match s {
        StateView::Writing(en) => Some(en),
        StateView::Compiling(en) => Some(en),
        StateView::Executing(en) => Some(en),
        _ => None,
    }
}

/// The answer that the request hands back once cleanup is reported from `s`.
pub open spec fn answer_after_cleanup(s: StateView) -> ActionView {
    next(s, Event::CleanedUp).1
}

/// A program that compiled and then exited with code 0 and printed `out`
/// is answered with exit code 0 and exactly `out` on standard output.
pub proof fn lemma_successful_run_answer(en: ScratchView, outcome: ExecutionResult, elapsed: Duration)
    requires
        outcome.exit_code == 0,
        !outcome.signaled,
    ensures
        ({
            let (s, a) = next(StateView::Executing(en), Event::Ran { outcome, elapsed });
            &&& a == ActionView::Cleanup(en.source_path, en.artifact_path)
            &&& answer_after_cleanup(s) matches ActionView::Finish(Ok(r))
            &&& r.exit_code == 0
            &&& r.stdout == outcome.stdout@
            &&& r.status == ExecutionStatus::Completed
        }),
{
}

/// A compile that fails is answered with the compiler's streams and exit
/// code; the artifact is never run, and the entry is cleaned up.
pub proof fn lemma_compile_failure_answer(en: ScratchView, outcome: CompileResult, elapsed: Duration)
    requires
        !outcome.success,
    ensures
        ({
            let (s, a) = next(StateView::Compiling(en), Event::Compiled { outcome, elapsed });
            &&& a == ActionView::Cleanup(en.source_path, en.artifact_path)
            &&& answer_after_cleanup(s) matches ActionView::Finish(Ok(r))
            &&& r.stdout == outcome.stdout@
            &&& r.stderr == outcome.stderr@
            &&& r.exit_code == outcome.exit_code
            &&& r.status == ExecutionStatus::CompileFailed
        }),
{
}

/// The artifact is run only right after the compiler has been seen to
/// succeed.
pub proof fn lemma_run_only_after_successful_compile(s: StateView, e: Event)
    requires
        accepts(s, e),
        next(s, e).1 is Run,
    ensures
        s is Compiling,
        e matches Event::Compiled { outcome, .. } && outcome.success,
{
}

/// A run that outlives its budget is answered as timed out, with no exit
/// code, and its entry is cleaned up.
pub proof fn lemma_run_timeout_answer(en: ScratchView, elapsed: Duration)
    ensures
        ({
            let (s, a) = next(StateView::Executing(en), Event::RunTimedOut { elapsed });
            &&& a == ActionView::Cleanup(en.source_path, en.artifact_path)
            &&& answer_after_cleanup(s) matches ActionView::Finish(Ok(r))
            &&& r.status == ExecutionStatus::ExecuteTimedOut
            &&& r.exit_code == NO_EXIT_CODE
            &&& r.execution_time == elapsed
        }),
{
}

/// A compile that outlives its budget is answered as timed out, and its
/// entry is cleaned up.
pub proof fn lemma_compile_timeout_answer(en: ScratchView, elapsed: Duration)
    ensures
        ({
            let (s, a) = next(StateView::Compiling(en), Event::CompileTimedOut { elapsed });
            &&& a == ActionView::Cleanup(en.source_path, en.artifact_path)
            &&& answer_after_cleanup(s) matches ActionView::Finish(Ok(r))
            &&& r.status == ExecutionStatus::CompileTimedOut
            &&& r.exit_code == NO_EXIT_CODE
        }),
{
}

/// Every step keeps the entry or gives it up by asking for both of its
/// files to be removed; a request answers (`Finish`) only from a state that
/// owns no files. So whatever happens, success, failure, timeout or a fatal
/// error, the entry's files are removed once before the answer.
pub proof fn lemma_cleanup_on_every_exit(s: StateView, e: Event)
    requires
        accepts(s, e),
    ensures
        entry_of(s) matches Some(en) ==> (entry_of(next(s, e).0) == Some(en) && !(next(s, e).1 is Cleanup))
            || (next(s, e).0 is CleaningUp && next(s, e).1 == ActionView::Cleanup(en.source_path, en.artifact_path)),
        entry_of(s) is None ==> entry_of(next(s, e).0) is None && !(next(s, e).1 is Cleanup),
        next(s, e).1 is Finish ==> s is CleaningUp,
{
}

/// Requests in flight together do not mix: entries with distinct ids of
/// one length under one root share no path, and each request that ran is
/// answered with its own run's output and exit code, whatever the others did.
pub proof fn lemma_requests_do_not_mix(
    root: Seq<char>,
    ens: Seq<ScratchView>,
    outs: Seq<ExecutionResult>,
    times: Seq<Duration>,
)
    requires
        outs.len() == ens.len(),
        times.len() == ens.len(),
        forall|i: int| 0 <= i < ens.len() ==> entry_under(#[trigger] ens[i], root) && ens[i].id.len() == 36,
        forall|i: int, j: int| 0 <= i < j < ens.len() ==> #[trigger] ens[i].id != #[trigger] ens[j].id,
    ensures
        forall|i: int, j: int| 0 <= i < ens.len() && 0 <= j < ens.len() && i != j ==> {
            &&& #[trigger] ens[i].source_path != #[trigger] ens[j].source_path
            &&& ens[i].artifact_path != ens[j].artifact_path
            &&& ens[i].source_path != ens[j].artifact_path
        },
        forall|i: int| 0 <= i < ens.len() ==> (answer_after_cleanup(
            #[trigger] next(StateView::Executing(ens[i]), Event::Ran { outcome: outs[i], elapsed: times[i] }).0,
        ) matches ActionView::Finish(Ok(r)) && r.stdout == outs[i].stdout@ && r.stderr == outs[i].stderr@
            && r.exit_code == outs[i].exit_code),
{
    assert forall|i: int, j: int| 0 <= i < ens.len() && 0 <= j < ens.len() && i != j implies {
        &&& #[trigger] ens[i].source_path != #[trigger] ens[j].source_path
        &&& ens[i].artifact_path != ens[j].artifact_path
        &&& ens[i].source_path != ens[j].artifact_path
    } by {
        if i < j {
            assert(ens[i].id != ens[j].id);
        } else {
            assert(ens[j].id != ens[i].id);
        }
        lemma_scratch_paths_disjoint(root, ens[i].id, ens[j].id);
    }
}

} // verus!
