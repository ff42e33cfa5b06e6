use difftester::command::AuxiliaryInputs;
use difftester::model::{AssertionMode, CapturedOutput, RunOutcome, Stage, TestCase, Verdict};
use difftester::pipeline::{Phase, Pipeline, StepResult};

fn aux() -> AuxiliaryInputs {
    AuxiliaryInputs {
        sources: vec!["./test/alloc2.c".to_string(), "./test/fibonacci.c".to_string()],
        objects: vec!["./test/alloc2.o".to_string(), "./test/fibonacci.o".to_string()],
        header_directive: "HDR".to_string(),
    }
}

fn pipeline(id: usize, mode: AssertionMode, source: &str) -> Pipeline {
    let case = TestCase {
        id,
        mode,
        source: source.to_string(),
    };
    Pipeline::new(case, format!("/tmp/case{}.c", id), aux())
}

fn completed(code: i32, stdout: &str) -> RunOutcome {
    RunOutcome::Completed(CapturedOutput {
        stdout: Some(stdout.to_string()),
        stderr: Some(String::new()),
        exit_status: Some(Some(code)),
    })
}

/// Drive all three tool stages to a clean exit, then both run stages
/// with the given exit codes and stdout texts; return the final result.
fn drive(p: &mut Pipeline, cand: (i32, &str), reference: (i32, &str)) -> StepResult {
    assert_eq!(p.step(completed(0, "")), StepResult::Continue);
    assert_eq!(p.step(completed(0, "")), StepResult::Continue);
    assert_eq!(p.step(completed(0, "")), StepResult::Continue);
    assert_eq!(p.step(completed(cand.0, cand.1)), StepResult::Continue);
    p.step(completed(reference.0, reference.1))
}

#[test]
fn scenario_trivial_main_succeeds() {
    let mut p = pipeline(0, AssertionMode::Simple, "int main(){return 0;}");
    let r = drive(&mut p, (0, ""), (0, ""));
    assert_eq!(r, StepResult::Finished(Verdict::Success));
    assert_eq!(p.phase, Phase::Done(Verdict::Success));
    assert!(p.record.ref_run.is_some());
    assert!(p.record.cand_run.is_some());
}

#[test]
fn scenario_exit_forty_two_succeeds() {
    let mut p = pipeline(1, AssertionMode::Simple, "int main(){return 42;}");
    let r = drive(&mut p, (42, ""), (42, ""));
    assert_eq!(r, StepResult::Finished(Verdict::Success));
}

#[test]
fn differing_exit_codes_fail() {
    let mut p = pipeline(2, AssertionMode::Simple, "int main(){return 42;}");
    let r = drive(&mut p, (41, ""), (42, ""));
    assert_eq!(r, StepResult::Finished(Verdict::Failure));
}

#[test]
fn scenario_undeclared_symbol_fails_reference_compile() {
    let mut p = pipeline(3, AssertionMode::OuterLinked, "int main(){return func();}");
    // Auxiliary objects omitted: the reference compile rejects the source.
    let r = p.step(completed(1, ""));
    assert_eq!(r, StepResult::Finished(Verdict::Failure));
    assert_eq!(p.phase, Phase::Done(Verdict::Failure));
    // Only the first stage is populated; everything after it is unset.
    assert!(p.record.ref_compile.is_some());
    assert!(p.record.cand_compile.is_none());
    assert!(p.record.assemble.is_none());
    assert!(p.record.cand_run.is_none());
    assert!(p.record.ref_run.is_none());
}

#[test]
fn scenario_print_check_compares_stdout() {
    let src = "int main(){printf(\"%s\\n\", \"hi\");}";
    let mut p = pipeline(4, AssertionMode::PrintCheck, src);
    let r = drive(&mut p, (0, "hi\n"), (0, "hi\n"));
    assert_eq!(r, StepResult::Finished(Verdict::Success));

    let mut q = pipeline(5, AssertionMode::PrintCheck, src);
    let r = drive(&mut q, (0, "hi\n"), (0, "ho\n"));
    assert_eq!(r, StepResult::Finished(Verdict::Failure));

    let mut q = pipeline(6, AssertionMode::PrintCheck, src);
    let r = drive(&mut q, (1, "hi\n"), (0, "hi\n"));
    assert_eq!(r, StepResult::Finished(Verdict::Failure));
}

#[test]
fn failing_candidate_compile_leaves_later_stages_unset() {
    let mut p = pipeline(7, AssertionMode::Simple, "int main(){return 0;}");
    assert_eq!(p.step(completed(0, "")), StepResult::Continue);
    let r = p.step(completed(1, ""));
    assert_eq!(r, StepResult::Finished(Verdict::Failure));
    assert!(p.record.ref_compile.is_some());
    assert!(p.record.cand_compile.is_some());
    assert!(p.record.assemble.is_none());
    assert!(p.record.cand_run.is_none());
    assert!(p.record.ref_run.is_none());
}

#[test]
fn timeout_is_failure_with_unset_exit_status() {
    let mut p = pipeline(8, AssertionMode::Simple, "int main(){for(;;);}");
    assert_eq!(p.step(completed(0, "")), StepResult::Continue);
    assert_eq!(p.step(completed(0, "")), StepResult::Continue);
    assert_eq!(p.step(completed(0, "")), StepResult::Continue);
    let r = p.step(RunOutcome::TimedOut);
    // A timeout settles the case as a failure, never as a fatal
    // condition that would abort sibling cases.
    assert_eq!(r, StepResult::Finished(Verdict::Failure));
    let slot = p.record.cand_run.as_ref().expect("timed-out stage is still recorded");
    assert!(slot.exit_status.is_none());
    assert!(slot.stdout.is_none());
    assert!(slot.stderr.is_none());
    assert!(p.record.ref_run.is_none());
}

#[test]
fn spawn_failure_is_fatal_and_changes_nothing() {
    let mut p = pipeline(9, AssertionMode::Simple, "int main(){return 0;}");
    let r = p.step(RunOutcome::SpawnFailed("no such executable".to_string()));
    assert_eq!(r, StepResult::FatalSpawn);
    assert_eq!(p.phase, Phase::Running(Stage::RefCompile));
    assert!(p.record.ref_compile.is_none());
}

#[test]
fn run_stage_exit_codes_are_results_not_errors() {
    // A non-zero exit from the compiled programs is a legitimate result
    // to compare, not a stage failure.
    let mut p = pipeline(10, AssertionMode::Simple, "int main(){return 7;}");
    let r = drive(&mut p, (7, ""), (7, ""));
    assert_eq!(r, StepResult::Finished(Verdict::Success));
}

#[test]
fn rerunning_identical_outcomes_gives_identical_verdicts() {
    let outcomes = [(0, ""), (0, ""), (0, ""), (3, "a"), (3, "b")];
    let mut verdicts = Vec::new();
    for _ in 0..2 {
        let mut p = pipeline(11, AssertionMode::Simple, "int main(){return 3;}");
        let mut last = StepResult::Continue;
        for (code, text) in outcomes.iter() {
            last = p.step(completed(*code, text));
        }
        verdicts.push(last);
    }
    assert_eq!(verdicts[0], verdicts[1]);
    assert_eq!(verdicts[0], StepResult::Finished(Verdict::Success));
}
