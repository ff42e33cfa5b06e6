//! The case runner: a five-stage pipeline state machine for one test
//! case. The machine is driven by feeding it the outcome of each external
//! process; it answers with the next command to run or the final verdict,
//! short-circuiting on the first failing or timed-out stage.

use vstd::prelude::*;

use crate::command::{build_command, command_model, AuxiliaryInputs, CommandSpec};
use crate::model::{
    AssertionMode, CapturedOutput, ExecutionRecord, OutcomeModel, OutputModel, RecordModel,
    RunOutcome, Stage, TestCase, Verdict,
};
use crate::verdict::{compute_verdict, verdict_of};

verus! {

/// Where one case's pipeline stands: still awaiting the outcome of a
/// stage, or settled on a verdict.
#[derive(Clone, Copy, PartialEq, Eq, Structural, Debug)]
pub enum Phase {
    /// The stage whose process outcome the pipeline is waiting for.
    Running(Stage),
    /// The pipeline is over; no further stage runs.
    Done(Verdict),
}

/// What the caller should do after feeding one process outcome to the
/// pipeline.
#[derive(Clone, Copy, PartialEq, Eq, Structural, Debug)]
pub enum StepResult {
    /// Run the next stage's command and feed its outcome back.
    Continue,
    /// The case is settled; write the verdict into the result store.
    Finished(Verdict),
    /// The process could not be launched at all. The environment is
    /// broken: abort the whole run instead of recording a case failure.
    FatalSpawn,
}

impl Stage {
    /// The stage that follows `self` in execution order. The last stage
    /// is its own successor; the pipeline never asks for it.
    pub open spec fn next(self) -> Stage {
        match self {
            Stage::RefCompile => Stage::CandCompile,
            Stage::CandCompile => Stage::Assemble,
            Stage::Assemble => Stage::CandRun,
            Stage::CandRun => Stage::RefRun,
            Stage::RefRun => Stage::RefRun,
        }
    }

    /// Compute the following stage.
    pub fn successor(self) -> (t: Stage)
        ensures
            t == self.next(),
    {
        match self {
            Stage::RefCompile => Stage::CandCompile,
            Stage::CandCompile => Stage::Assemble,
            Stage::Assemble => Stage::CandRun,
            Stage::CandRun => Stage::RefRun,
            Stage::RefRun => Stage::RefRun,
        }
    }

    /// Decide whether this stage demands exit code 0 to continue.
    pub fn requires_exit_zero(self) -> (r: bool)
        ensures
            r == self.is_tool_stage(),
    {
        match self {
            Stage::RefCompile | Stage::CandCompile | Stage::Assemble => true,
            Stage::CandRun | Stage::RefRun => false,
        }
    }
}

/// Mathematical state of one case's pipeline.
pub ghost struct PipelineModel {
    pub mode: AssertionMode,
    pub id: int,
    pub record: RecordModel,
    pub phase: Phase,
}

impl PipelineModel {
    /// The record always mirrors the phase: while stage `s` is awaited,
    /// exactly the earlier stages are populated, and every earlier tool
    /// stage exited with code 0.
    pub open spec fn wf(self) -> bool {
        match self.phase {
            Phase::Running(s) => self.record.populated_below(s.number())
                && self.record.unset_from(s.number()) && (forall|t: Stage|
                t.is_tool_stage() && t.number() < s.number() ==> ((#[trigger] self.record.slot(t))
                    matches Some(o) && o.exited_zero())),
            Phase::Done(_) => true,
        }
    }
}

/// The candidate-run output already recorded, once the pipeline has
/// reached the final stage.
pub open spec fn recorded_cand_run(m: PipelineModel) -> OutputModel {
    match m.record.cand_run {
        Some(c) => c,
        None => OutputModel::timeout_marker(),
    }
}

/// One transition of the pipeline state machine: what feeding the outcome
/// `o` of the awaited stage's process does to the state.
///
/// A timeout stores the all-unset marker in the stage's slot and settles
/// on `Failure`. A completed tool-stage process continues only on exit
/// code 0, else settles on `Failure`. A completed run-stage process is
/// always recorded; after the last stage the verdict is computed from the
/// two run outputs. A spawn failure changes nothing: it is fatal to the
/// whole run, not a property of the case.
pub open spec fn spec_step(m: PipelineModel, o: OutcomeModel) -> PipelineModel {
    match m.phase {
        Phase::Done(_) => m,
        Phase::Running(s) => match o {
            OutcomeModel::SpawnFailed(_) => m,
            OutcomeModel::TimedOut => PipelineModel {
                record: m.record.with_slot(s, OutputModel::timeout_marker()),
                phase: Phase::Done(Verdict::Failure),
                ..m
            },
            OutcomeModel::Completed(out) => {
                if s.is_tool_stage() {
                    if out.exited_zero() {
                        PipelineModel {
                            record: m.record.with_slot(s, out),
                            phase: Phase::Running(s.next()),
                            ..m
                        }
                    } else {
                        PipelineModel {
                            record: m.record.with_slot(s, out),
                            phase: Phase::Done(Verdict::Failure),
                            ..m
                        }
                    }
                } else if s is CandRun {
                    PipelineModel {
                        record: m.record.with_slot(s, out),
                        phase: Phase::Running(Stage::RefRun),
                        ..m
                    }
                } else {
                    PipelineModel {
                        record: m.record.with_slot(s, out),
                        phase: Phase::Done(verdict_of(m.mode, out, recorded_cand_run(m))),
                        ..m
                    }
                }
            },
        },
    }
}

/// The step result the caller is owed for outcome `o` leading to state
/// `m2`.
pub open spec fn result_of(o: OutcomeModel, m2: PipelineModel) -> StepResult {
    if o is SpawnFailed {
        StepResult::FatalSpawn
    } else {
        match m2.phase {
            Phase::Running(_) => StepResult::Continue,
            Phase::Done(v) => StepResult::Finished(v),
        }
    }
}

/// The state after feeding a whole sequence of process outcomes, first
/// one first.
pub open spec fn run_model(m: PipelineModel, os: Seq<OutcomeModel>) -> PipelineModel
    decreases os.len(),
{
    if os.len() == 0 {
        m
    } else {
        run_model(spec_step(m, os[0]), os.drop_first())
    }
}

/// Every step keeps the record mirroring the phase.
pub proof fn lemma_step_preserves_wf(m: PipelineModel, o: OutcomeModel)
    requires
        m.wf(),
    ensures
        spec_step(m, o).wf(),
{
    let m2 = spec_step(m, o);
    match m.phase {
        Phase::Done(_) => {},
        Phase::Running(s) => {
            match o {
                OutcomeModel::SpawnFailed(_) => {},
                OutcomeModel::TimedOut => {},
                OutcomeModel::Completed(out) => {
                    if (s.is_tool_stage() && out.exited_zero()) || s is CandRun {
                        let r2 = m.record.with_slot(s, out);
                        let k = s.next().number();
                        assert forall|t: Stage| t.number() < k implies (#[trigger] r2.slot(t))
                            is Some by {
                            if t != s {
                                assert(r2.slot(t) == m.record.slot(t));
                            }
                        }
                        assert forall|t: Stage| t.number() >= k implies (#[trigger] r2.slot(t))
                            is None by {
                            assert(r2.slot(t) == m.record.slot(t));
                        }
                        assert forall|t: Stage|
                            t.is_tool_stage() && t.number() < k implies ((#[trigger] r2.slot(t))
                            matches Some(oo) && oo.exited_zero()) by {
                            if t != s {
                                assert(r2.slot(t) == m.record.slot(t));
                            }
                        }
                    }
                },
            }
        },
    }
}

/// If the stage at position `k` fails or times out, the settled record
/// holds captured outputs for exactly the stages up to and through `k`,
/// and every later slot is still unset.
pub proof fn lemma_failed_stage_bounds_record(m: PipelineModel, o: OutcomeModel, s: Stage)
    requires
        m.wf(),
        m.phase == Phase::Running(s),
        !(o is SpawnFailed),
        spec_step(m, o).phase == Phase::Done(Verdict::Failure),
    ensures
        spec_step(m, o).record.populated_below(s.number() + 1),
        spec_step(m, o).record.unset_from(s.number() + 1),
{
    let m2 = spec_step(m, o);
    let n = s.number();
    match o {
        OutcomeModel::SpawnFailed(_) => {},
        OutcomeModel::TimedOut => {
            assert forall|t: Stage| t.number() < n + 1 implies (#[trigger] m2.record.slot(t))
                is Some by {
                if t != s {
                    assert(m2.record.slot(t) == m.record.slot(t));
                }
            }
            assert forall|t: Stage| t.number() >= n + 1 implies (#[trigger] m2.record.slot(t))
                is None by {
                assert(m2.record.slot(t) == m.record.slot(t));
            }
        },
        OutcomeModel::Completed(_) => {
            assert forall|t: Stage| t.number() < n + 1 implies (#[trigger] m2.record.slot(t))
                is Some by {
                if t != s {
                    assert(m2.record.slot(t) == m.record.slot(t));
                }
            }
            assert forall|t: Stage| t.number() >= n + 1 implies (#[trigger] m2.record.slot(t))
                is None by {
                assert(m2.record.slot(t) == m.record.slot(t));
            }
        },
    }
}

/// A stage that exceeds its deadline settles the case as `Failure`, with
/// the stage's slot holding the marker whose exit status is unset; and it
/// is not fatal to the run, so sibling cases go on.
pub proof fn lemma_timeout_is_failure(m: PipelineModel, s: Stage)
    requires
        m.wf(),
        m.phase == Phase::Running(s),
    ensures
        spec_step(m, OutcomeModel::TimedOut).phase == Phase::Done(Verdict::Failure),
        spec_step(m, OutcomeModel::TimedOut).record.slot(s) == Some(OutputModel::timeout_marker()),
        spec_step(m, OutcomeModel::TimedOut).record.slot(s) matches Some(o) && o.exit_status
            is None,
        result_of(OutcomeModel::TimedOut, spec_step(m, OutcomeModel::TimedOut))
            != StepResult::FatalSpawn,
{
}

/// Once both run stages have completed, the settled verdict follows the
/// mode's comparison rule: exit-status equality, and for print-check
/// cases also standard-output equality. `out` is the reference run's
/// output, `cand` the candidate run's output already on record.
pub proof fn lemma_final_verdict(m: PipelineModel, out: OutputModel, cand: OutputModel)
    requires
        m.wf(),
        m.phase == Phase::Running(Stage::RefRun),
        m.record.cand_run == Some(cand),
    ensures
        spec_step(m, OutcomeModel::Completed(out)).phase == Phase::Done(
            verdict_of(m.mode, out, cand),
        ),
        !(m.mode is PrintCheck) ==> (spec_step(m, OutcomeModel::Completed(out)).phase
            == Phase::Done(Verdict::Success) <==> out.exit_status == cand.exit_status),
        m.mode is PrintCheck ==> (spec_step(m, OutcomeModel::Completed(out)).phase == Phase::Done(
            Verdict::Success,
        ) <==> out.exit_status == cand.exit_status && out.stdout == cand.stdout),
{
}

/// Rerunning an unchanged case against unchanged process outcomes settles
/// on the identical state: the pipeline itself introduces no
/// nondeterminism.
pub proof fn lemma_run_deterministic(
    m1: PipelineModel,
    m2: PipelineModel,
    os1: Seq<OutcomeModel>,
    os2: Seq<OutcomeModel>,
)
    requires
        m1 == m2,
        os1 == os2,
    ensures
        run_model(m1, os1) == run_model(m2, os2),
    decreases os1.len(),
{
}

/// The prefix text prepended to an outer-linked snippet so it can call
/// the helpers the auxiliary files define, followed by a newline and a
/// space, followed by the snippet; other modes take the snippet as is.
pub open spec fn materialized_model(
    mode: AssertionMode,
    directive: Seq<char>,
    source: Seq<char>,
) -> Seq<char> {
    if mode is OuterLinked {
        directive + "\n "@ + source
    } else {
        source
    }
}

/// The text written to the scratch source file for one case.
pub fn materialize_source(mode: AssertionMode, header_directive: &str, source: &str) -> (r: String)
    ensures
        r@ == materialized_model(mode, header_directive@, source@),
{
    if matches!(mode, AssertionMode::OuterLinked) {
        let mut s = String::from_str(header_directive);
        s.append("\n ");
        s.append(source);
        s
    } else {
        String::from_str(source)
    }
}

/// The pipeline for one test case: the case itself, the path its
/// materialized source was written to, the fixed harness inputs, the
/// incrementally populated execution record, and the current phase.
pub struct Pipeline {
    pub case: TestCase,
    pub source_path: String,
    pub aux: AuxiliaryInputs,
    pub record: ExecutionRecord,
    pub phase: Phase,
}

impl View for Pipeline {
    type V = PipelineModel;

    open spec fn view(&self) -> PipelineModel {
        PipelineModel {
            mode: self.case.mode,
            id: self.case.id as int,
            record: self.record@,
            phase: self.phase,
        }
    }
}

impl Pipeline {
    /// Start the pipeline for `case`, whose materialized source sits at
    /// `source_path`, with every record slot unset and the first stage
    /// awaited.
    pub fn new(case: TestCase, source_path: String, aux: AuxiliaryInputs) -> (p: Pipeline)
        ensures
            p@.mode == case@.mode,
            p@.id == case@.id,
            p@.record == RecordModel::empty(),
            p@.phase == Phase::Running(Stage::RefCompile),
            p@.wf(),
            p.case@ == case@,
            p.source_path@ == source_path@,
            p.aux@ == aux@,
    {
        Pipeline {
            case,
            source_path,
            aux,
            record: ExecutionRecord::empty(),
            phase: Phase::Running(Stage::RefCompile),
        }
    }

    /// The command for the stage the pipeline is waiting on.
    pub fn current_command(&self) -> (c: CommandSpec)
        requires
            self@.phase is Running,
    ensures
            self@.phase matches Phase::Running(s) ==> c@ == command_model(
                s,
                self.case@.mode,
                self.case@.id as nat,
                self.source_path@,
                self.case.source@,
                self.aux@,
            ),
    {
        let stage = match self.phase {
            Phase::Running(s) => s,
            Phase::Done(_) => Stage::RefCompile,
        };
        build_command(
            stage,
            self.case.mode,
            self.case.id,
            self.source_path.as_str(),
            self.case.source.as_str(),
            &self.aux,
        )
    }

    /// Feed the awaited stage's process outcome to the state machine.
    pub fn step(&mut self, outcome: RunOutcome) -> (r: StepResult)
        requires
            old(self)@.phase is Running,
            old(self)@.wf(),
        ensures
            final(self)@ == spec_step(old(self)@, outcome@),
            final(self)@.wf(),
            r == result_of(outcome@, final(self)@),
            final(self).case@ == old(self).case@,
            final(self).source_path@ == old(self).source_path@,
            final(self).aux@ == old(self).aux@,
    {
        proof {
            lemma_step_preserves_wf(old(self)@, outcome@);
        }
        let stage = match self.phase {
            Phase::Running(s) => s,
            Phase::Done(_) => Stage::RefCompile,
        };
        match outcome {
            RunOutcome::SpawnFailed(_) => StepResult::FatalSpawn,
            RunOutcome::TimedOut => {
                self.record.set_slot(stage, CapturedOutput::timeout_marker());
                self.phase = Phase::Done(Verdict::Failure);
                StepResult::Finished(Verdict::Failure)
            },
            RunOutcome::Completed(out) => {
                if stage.requires_exit_zero() {
                    let ok = out.exited_zero();
                    self.record.set_slot(stage, out);
                    if ok {
                        self.phase = Phase::Running(stage.successor());
                        StepResult::Continue
                    } else {
                        self.phase = Phase::Done(Verdict::Failure);
                        StepResult::Finished(Verdict::Failure)
                    }
                } else if matches!(stage, Stage::CandRun) {
                    self.record.set_slot(stage, out);
                    self.phase = Phase::Running(Stage::RefRun);
                    StepResult::Continue
                } else {
                    proof {
                        assert(old(self)@.record.slot(Stage::CandRun) is Some);
                    }
                    let v = match &self.record.cand_run {
                        Option::Some(c) => compute_verdict(self.case.mode, &out, c),
                        Option::None => Verdict::Failure,
                    };
                    self.record.set_slot(stage, out);
                    self.phase = Phase::Done(v);
                    StepResult::Finished(v)
                }
            },
        }
    }
}

} // verus!
