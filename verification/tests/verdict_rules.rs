use difftester::model::{AssertionMode, CapturedOutput, Verdict};
use difftester::verdict::{captured_text_eq, compute_verdict, exit_status_eq};

fn exited(code: i32, stdout: &str) -> CapturedOutput {
    CapturedOutput {
        stdout: Some(stdout.to_string()),
        stderr: Some(String::new()),
        exit_status: Some(Some(code)),
    }
}

#[test]
fn simple_equal_exits_succeed() {
    let reference = exited(0, "");
    let candidate = exited(0, "");
    assert_eq!(
        compute_verdict(AssertionMode::Simple, &reference, &candidate),
        Verdict::Success
    );
}

#[test]
fn simple_unequal_exits_fail() {
    let reference = exited(0, "");
    let candidate = exited(1, "");
    assert_eq!(
        compute_verdict(AssertionMode::Simple, &reference, &candidate),
        Verdict::Failure
    );
}

#[test]
fn negative_mode_uses_exit_statuses_only() {
    let reference = exited(1, "a");
    let candidate = exited(1, "b");
    assert_eq!(
        compute_verdict(AssertionMode::Negative, &reference, &candidate),
        Verdict::Success
    );
}

#[test]
fn outer_linked_mode_uses_exit_statuses_only() {
    let reference = exited(5, "x");
    let candidate = exited(5, "y");
    assert_eq!(
        compute_verdict(AssertionMode::OuterLinked, &reference, &candidate),
        Verdict::Success
    );
}

#[test]
fn simple_ignores_stdout_differences() {
    let reference = exited(0, "left");
    let candidate = exited(0, "right");
    assert_eq!(
        compute_verdict(AssertionMode::Simple, &reference, &candidate),
        Verdict::Success
    );
}

#[test]
fn print_check_requires_equal_stdout() {
    let reference = exited(0, "hi\n");
    let candidate = exited(0, "hi\n");
    assert_eq!(
        compute_verdict(AssertionMode::PrintCheck, &reference, &candidate),
        Verdict::Success
    );
    let differing = exited(0, "ho\n");
    assert_eq!(
        compute_verdict(AssertionMode::PrintCheck, &reference, &differing),
        Verdict::Failure
    );
}

#[test]
fn print_check_requires_equal_exits_too() {
    let reference = exited(0, "hi\n");
    let candidate = exited(1, "hi\n");
    assert_eq!(
        compute_verdict(AssertionMode::PrintCheck, &reference, &candidate),
        Verdict::Failure
    );
}

#[test]
fn signal_deaths_on_both_sides_match() {
    let reference = CapturedOutput {
        stdout: Some(String::new()),
        stderr: Some(String::new()),
        exit_status: Some(None),
    };
    let candidate = CapturedOutput {
        stdout: Some(String::new()),
        stderr: Some(String::new()),
        exit_status: Some(None),
    };
    assert_eq!(
        compute_verdict(AssertionMode::Simple, &reference, &candidate),
        Verdict::Success
    );
}

#[test]
fn signal_death_differs_from_exit_code() {
    let reference = exited(0, "");
    let candidate = CapturedOutput {
        stdout: Some(String::new()),
        stderr: Some(String::new()),
        exit_status: Some(None),
    };
    assert_eq!(
        compute_verdict(AssertionMode::Simple, &reference, &candidate),
        Verdict::Failure
    );
}

#[test]
fn exit_status_comparison_distinguishes_all_shapes() {
    assert!(exit_status_eq(&None, &None));
    assert!(exit_status_eq(&Some(None), &Some(None)));
    assert!(exit_status_eq(&Some(Some(3)), &Some(Some(3))));
    assert!(!exit_status_eq(&None, &Some(None)));
    assert!(!exit_status_eq(&Some(None), &Some(Some(0))));
    assert!(!exit_status_eq(&Some(Some(0)), &Some(Some(1))));
}

#[test]
fn captured_text_comparison() {
    assert!(captured_text_eq(&None, &None));
    assert!(captured_text_eq(
        &Some("abc".to_string()),
        &Some("abc".to_string())
    ));
    assert!(!captured_text_eq(&Some("abc".to_string()), &None));
    assert!(!captured_text_eq(
        &Some("abc".to_string()),
        &Some("abd".to_string())
    ));
}
