//! The verdict rule: how two captured program outputs are compared under a
//! case's assertion mode.

use vstd::prelude::*;

use crate::model::{AssertionMode, CapturedOutput, OutputModel, Verdict};

verus! {

/// The comparison rule. Success requires the two exit statuses to be equal
/// as whole optional-of-optional values, so a signal-death on both sides
/// still counts as a match; `PrintCheck` mode additionally requires the
/// captured standard output text to be equal.
pub open spec fn verdict_of(
    mode: AssertionMode,
    reference: OutputModel,
    candidate: OutputModel,
) -> Verdict {
    if reference.exit_status == candidate.exit_status && (mode is PrintCheck
        ==> reference.stdout == candidate.stdout) {
        Verdict::Success
    } else {
        Verdict::Failure
    }
}

/// Whether two captured exit statuses are equal, distinguishing
/// "timed out" (outer `None`) from "died from a signal" (inner `None`)
/// from each concrete exit code.
pub fn exit_status_eq(a: &Option<Option<i32>>, b: &Option<Option<i32>>) -> (r: bool)
    ensures
        r == (*a == *b),
{
    match (a, b) {
        (Option::None, Option::None) => true,
        (Option::Some(Option::None), Option::Some(Option::None)) => true,
        (Option::Some(Option::Some(x)), Option::Some(Option::Some(y))) => *x == *y,
        _ => false,
    }
}

/// Whether two captured text channels are equal: both absent, or both
/// present with the same characters.
pub fn captured_text_eq(a: &Option<String>, b: &Option<String>) -> (r: bool)
    ensures
        r == (a.deep_view() == b.deep_view()),
{
    match (a, b) {
        (Option::Some(x), Option::Some(y)) => {
            let eq = x.eq(y);
            proof {
                assert(a.deep_view() == Option::Some(x@));
                assert(b.deep_view() == Option::Some(y@));
            }
            eq
        },
        (Option::None, Option::None) => true,
        _ => false,
    }
}

/// Decide the verdict for one case once both run stages have completed.
///
/// For `Simple`, `Negative` and `OuterLinked` cases the verdict is
/// `Success` exactly when the two exit statuses are equal; for
/// `PrintCheck` cases, exactly when the exit statuses and the captured
/// standard output are both equal.
pub fn compute_verdict(
    mode: AssertionMode,
    reference: &CapturedOutput,
    candidate: &CapturedOutput,
) -> (v: Verdict)
    ensures
        v == verdict_of(mode, reference@, candidate@),
        !(mode is PrintCheck) ==> (v == Verdict::Success <==> reference@.exit_status
            == candidate@.exit_status),
        mode is PrintCheck ==> (v == Verdict::Success <==> reference@.exit_status
            == candidate@.exit_status && reference@.stdout == candidate@.stdout),
{
    let exits_equal = exit_status_eq(&reference.exit_status, &candidate.exit_status);
    let agreed = match mode {
        AssertionMode::PrintCheck => exits_equal && captured_text_eq(
            &reference.stdout,
            &candidate.stdout,
        ),
        _ => exits_equal,
    };
    if agreed {
        Verdict::Success
    } else {
        Verdict::Failure
    }
}

} // verus!
