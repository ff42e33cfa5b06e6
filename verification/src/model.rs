//! Core data model: assertion modes, captured process output, pipeline
//! stages, execution records, and verdicts.

use vstd::prelude::*;

verus! {

/// How a test case's pass/fail decision is reached, and which auxiliary
/// inputs its compile and link stages take.
#[derive(Clone, Copy, PartialEq, Eq, Structural, Debug)]
pub enum AssertionMode {
    /// Compare only the exit statuses of the two compiled programs.
    Simple,
    /// Like `Simple`, but the snippet may call helpers from a fixed set of
    /// auxiliary object files, which both toolchains link against.
    OuterLinked,
    /// Compare exit statuses and the captured standard output text.
    PrintCheck,
    /// Same comparison rule as `Simple`; the snippet is expected to exercise
    /// rejection paths.
    Negative,
}

/// The final pass/fail determination for one test case.
#[derive(Clone, Copy, PartialEq, Eq, Structural, Debug)]
pub enum Verdict {
    Success,
    Failure,
}

/// The five pipeline stages, in the strict order they execute for one case.
#[derive(Clone, Copy, PartialEq, Eq, Structural, Debug)]
pub enum Stage {
    /// Reference toolchain compiles the materialized source to a binary.
    RefCompile,
    /// Candidate compiler emits an assembly file from the source.
    CandCompile,
    /// Reference toolchain assembles and links the candidate's assembly.
    Assemble,
    /// The candidate-built binary runs.
    CandRun,
    /// The reference-built binary runs.
    RefRun,
}

impl Stage {
    /// Position of the stage in execution order, starting at 1.
    pub open spec fn number(self) -> int {
        match self {
            Stage::RefCompile => 1,
            Stage::CandCompile => 2,
            Stage::Assemble => 3,
            Stage::CandRun => 4,
            Stage::RefRun => 5,
        }
    }

    /// True for the stages whose process must exit with code 0 for the
    /// pipeline to continue; the two run stages accept any exit.
    pub open spec fn is_tool_stage(self) -> bool {
        match self {
            Stage::RefCompile | Stage::CandCompile | Stage::Assemble => true,
            Stage::CandRun | Stage::RefRun => false,
        }
    }
}

/// Mathematical value of a [`CapturedOutput`].
pub ghost struct OutputModel {
    pub stdout: Option<Seq<char>>,
    pub stderr: Option<Seq<char>>,
    pub exit_status: Option<Option<i32>>,
}

impl OutputModel {
    /// All three fields unset together: the process exceeded its deadline.
    pub open spec fn is_timeout_marker(self) -> bool {
        self.stdout is None && self.stderr is None && self.exit_status is None
    }

    /// The marker stored for a stage whose process timed out.
    pub open spec fn timeout_marker() -> OutputModel {
        OutputModel { stdout: None, stderr: None, exit_status: None }
    }

    /// The process terminated in time with exit code 0.
    pub open spec fn exited_zero(self) -> bool {
        self.exit_status == Some(Some(0i32))
    }
}

/// What one external process left behind. The outer option on
/// `exit_status` is "did the process terminate in time"; the inner option
/// is "did it exit with a code, as opposed to dying from a signal".
/// All three fields unset together signals a timeout.
pub struct CapturedOutput {
    pub stdout: Option<String>,
    pub stderr: Option<String>,
    pub exit_status: Option<Option<i32>>,
}

impl View for CapturedOutput {
    type V = OutputModel;

    open spec fn view(&self) -> OutputModel {
        OutputModel {
            stdout: self.stdout.deep_view(),
            stderr: self.stderr.deep_view(),
            exit_status: self.exit_status,
        }
    }
}

impl CapturedOutput {
    /// The record stored for a stage whose process timed out.
    pub fn timeout_marker() -> (r: CapturedOutput)
        ensures
            r@ == OutputModel::timeout_marker(),
    {
        CapturedOutput { stdout: None, stderr: None, exit_status: None }
    }

    /// Whether the captured exit status is exactly "terminated with code 0".
    pub fn exited_zero(&self) -> (r: bool)
        ensures
            r == self@.exited_zero(),
    {
        match self.exit_status {
            Some(Some(c)) => c == 0,
            _ => false,
        }
    }

    /// A value equal to this one.
    pub fn duplicate(&self) -> (r: CapturedOutput)
        ensures
            r@ == self@,
    {
        CapturedOutput {
            stdout: duplicate_text(&self.stdout),
            stderr: duplicate_text(&self.stderr),
            exit_status: self.exit_status,
        }
    }
}

/// A value equal to the given optional text.
pub fn duplicate_text(t: &Option<String>) -> (r: Option<String>)
    ensures
        r.deep_view() == t.deep_view(),
{
    match t {
        Some(s) => Some(s.clone()),
        None => None,
    }
}

/// Mathematical value of an [`ExecutionRecord`].
pub ghost struct RecordModel {
    pub ref_compile: Option<OutputModel>,
    pub cand_compile: Option<OutputModel>,
    pub assemble: Option<OutputModel>,
    pub cand_run: Option<OutputModel>,
    pub ref_run: Option<OutputModel>,
}

impl RecordModel {
    pub open spec fn empty() -> RecordModel {
        RecordModel {
            ref_compile: None,
            cand_compile: None,
            assemble: None,
            cand_run: None,
            ref_run: None,
        }
    }

    pub open spec fn slot(self, s: Stage) -> Option<OutputModel> {
        match s {
            Stage::RefCompile => self.ref_compile,
            Stage::CandCompile => self.cand_compile,
            Stage::Assemble => self.assemble,
            Stage::CandRun => self.cand_run,
            Stage::RefRun => self.ref_run,
        }
    }

    /// The record with the slot of stage `s` replaced by `out`.
    pub open spec fn with_slot(self, s: Stage, out: OutputModel) -> RecordModel {
        match s {
            Stage::RefCompile => RecordModel { ref_compile: Some(out), ..self },
            Stage::CandCompile => RecordModel { cand_compile: Some(out), ..self },
            Stage::Assemble => RecordModel { assemble: Some(out), ..self },
            Stage::CandRun => RecordModel { cand_run: Some(out), ..self },
            Stage::RefRun => RecordModel { ref_run: Some(out), ..self },
        }
    }

    /// Every stage strictly before position `k` holds a captured output.
    pub open spec fn populated_below(self, k: int) -> bool {
        forall|s: Stage| s.number() < k ==> (#[trigger] self.slot(s)) is Some
    }

    /// Every stage at position `k` or later is still unset.
    pub open spec fn unset_from(self, k: int) -> bool {
        forall|s: Stage| s.number() >= k ==> (#[trigger] self.slot(s)) is None
    }
}

/// Up to five captured outputs, one per pipeline stage, populated
/// incrementally. A failing stage leaves all later slots unset; that
/// partial state is itself meaningful, as it diagnoses where the pipeline
/// broke.
pub struct ExecutionRecord {
    pub ref_compile: Option<CapturedOutput>,
    pub cand_compile: Option<CapturedOutput>,
    pub assemble: Option<CapturedOutput>,
    pub cand_run: Option<CapturedOutput>,
    pub ref_run: Option<CapturedOutput>,
}

impl View for ExecutionRecord {
    type V = RecordModel;

    open spec fn view(&self) -> RecordModel {
        RecordModel {
            ref_compile: match self.ref_compile {
                Some(ref o) => Some(o@),
                None => None,
            },
            cand_compile: match self.cand_compile {
                Some(ref o) => Some(o@),
                None => None,
            },
            assemble: match self.assemble {
                Some(ref o) => Some(o@),
                None => None,
            },
            cand_run: match self.cand_run {
                Some(ref o) => Some(o@),
                None => None,
            },
            ref_run: match self.ref_run {
                Some(ref o) => Some(o@),
                None => None,
            },
        }
    }
}

impl ExecutionRecord {
    /// A record with every slot unset, as a pipeline starts with.
    pub fn empty() -> (r: ExecutionRecord)
        ensures
            r@ == RecordModel::empty(),
    {
        ExecutionRecord {
            ref_compile: None,
            cand_compile: None,
            assemble: None,
            cand_run: None,
            ref_run: None,
        }
    }

    /// Store `out` into the slot of stage `s`.
    pub fn set_slot(&mut self, s: Stage, out: CapturedOutput)
        ensures
            final(self)@ == old(self)@.with_slot(s, out@),
    {
        match s {
            Stage::RefCompile => self.ref_compile = Some(out),
            Stage::CandCompile => self.cand_compile = Some(out),
            Stage::Assemble => self.assemble = Some(out),
            Stage::CandRun => self.cand_run = Some(out),
            Stage::RefRun => self.ref_run = Some(out),
        }
    }

    /// Read the slot of stage `s`.
    pub fn slot(&self, s: Stage) -> (r: &Option<CapturedOutput>)
        ensures
            r is Some <==> self@.slot(s) is Some,
            r matches Some(o) ==> self@.slot(s) == Some(o@),
    {
        match s {
            Stage::RefCompile => &self.ref_compile,
            Stage::CandCompile => &self.cand_compile,
            Stage::Assemble => &self.assemble,
            Stage::CandRun => &self.cand_run,
            Stage::RefRun => &self.ref_run,
        }
    }

    /// A value whose model equals this one's.
    pub fn duplicate(&self) -> (r: ExecutionRecord)
        ensures
            r@ == self@,
    {
        ExecutionRecord {
            ref_compile: duplicate_slot(&self.ref_compile),
            cand_compile: duplicate_slot(&self.cand_compile),
            assemble: duplicate_slot(&self.assemble),
            cand_run: duplicate_slot(&self.cand_run),
            ref_run: duplicate_slot(&self.ref_run),
        }
    }
}

/// A value modelling the same optional captured output.
pub fn duplicate_slot(o: &Option<CapturedOutput>) -> (r: Option<CapturedOutput>)
    ensures
        r is Some <==> o is Some,
        r matches Some(x) ==> o matches Some(y) && x@ == y@,
{
    match o {
        Some(c) => Some(c.duplicate()),
        None => None,
    }
}

/// Mathematical value of a [`TestCase`].
pub ghost struct CaseModel {
    pub id: int,
    pub mode: AssertionMode,
    pub source: Seq<char>,
}

/// One test case: its position in the corpus, its assertion mode, and the
/// source snippet fed to both toolchains. Immutable once created.
pub struct TestCase {
    pub id: usize,
    pub mode: AssertionMode,
    pub source: String,
}

impl View for TestCase {
    type V = CaseModel;

    open spec fn view(&self) -> CaseModel {
        CaseModel { id: self.id as int, mode: self.mode, source: self.source@ }
    }
}

impl TestCase {
    /// A value equal in model to this one.
    pub fn duplicate(&self) -> (r: TestCase)
        ensures
            r@ == self@,
    {
        TestCase { id: self.id, mode: self.mode, source: self.source.clone() }
    }
}

/// Mathematical value of a [`RunOutcome`].
pub ghost enum OutcomeModel {
    Completed(OutputModel),
    TimedOut,
    SpawnFailed(Seq<char>),
}

/// What one attempt to run an external process came to. `SpawnFailed` is
/// not a test result: it means the environment is broken, and the whole
/// run must abort rather than marking the case as failed.
pub enum RunOutcome {
    /// The process terminated in time, normally or via signal.
    Completed(CapturedOutput),
    /// The deadline elapsed first; the child is abandoned.
    TimedOut,
    /// The executable could not be launched at all.
    SpawnFailed(String),
}

impl View for RunOutcome {
    type V = OutcomeModel;

    open spec fn view(&self) -> OutcomeModel {
        match self {
            RunOutcome::Completed(o) => OutcomeModel::Completed(o@),
            RunOutcome::TimedOut => OutcomeModel::TimedOut,
            RunOutcome::SpawnFailed(c) => OutcomeModel::SpawnFailed(c@),
        }
    }
}

} // verus!
