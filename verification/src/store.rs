//! The result store: an ordered sequence of suites, each an ordered
//! sequence of case outcomes. Slots are allocated as `Pending` before any
//! work starts, so observers can always count what is still in flight,
//! and each slot is filled exactly once with its record and verdict.

use vstd::prelude::*;

use crate::model::{CaseModel, ExecutionRecord, RecordModel, TestCase, Verdict};

verus! {

/// Mathematical value of an [`OutcomeState`].
pub ghost enum OutcomeStateModel {
    Pending,
    Completed { record: RecordModel, verdict: Verdict },
}

/// Where one case stands: created as `Pending`, then set exactly once to
/// its record and verdict together, so no observer ever sees a settled
/// verdict without the record that led to it.
pub enum OutcomeState {
    Pending,
    Completed { record: ExecutionRecord, verdict: Verdict },
}

impl View for OutcomeState {
    type V = OutcomeStateModel;

    open spec fn view(&self) -> OutcomeStateModel {
        match self {
            OutcomeState::Pending => OutcomeStateModel::Pending,
            OutcomeState::Completed { record, verdict } => OutcomeStateModel::Completed {
                record: record@,
                verdict: *verdict,
            },
        }
    }
}

/// Mathematical value of a [`TestOutcome`].
pub ghost struct OutcomeEntryModel {
    pub case: CaseModel,
    pub state: OutcomeStateModel,
}

impl OutcomeEntryModel {
    /// Whether the case is settled and succeeded; a still-pending case
    /// does not count as a success.
    pub open spec fn succeeded(self) -> bool {
        match self.state {
            OutcomeStateModel::Completed { record: _, verdict } => verdict == Verdict::Success,
            OutcomeStateModel::Pending => false,
        }
    }
}

/// One case together with where it stands.
pub struct TestOutcome {
    pub case: TestCase,
    pub state: OutcomeState,
}

impl View for TestOutcome {
    type V = OutcomeEntryModel;

    open spec fn view(&self) -> OutcomeEntryModel {
        OutcomeEntryModel { case: self.case@, state: self.state@ }
    }
}

/// The models of a sequence of outcomes, in order.
pub open spec fn entry_views(s: Seq<TestOutcome>) -> Seq<OutcomeEntryModel> {
    s.map_values(|o: TestOutcome| o@)
}

/// Mathematical value of a [`Suite`].
pub ghost struct SuiteModel {
    pub name: Seq<char>,
    pub outcomes: Seq<OutcomeEntryModel>,
}

/// A named, ordered run of cases. Insertion order is the only ordering
/// observers may rely on.
pub struct Suite {
    pub name: String,
    pub outcomes: Vec<TestOutcome>,
}

impl View for Suite {
    type V = SuiteModel;

    open spec fn view(&self) -> SuiteModel {
        SuiteModel { name: self.name@, outcomes: entry_views(self.outcomes@) }
    }
}

/// The models of a sequence of suites, in order.
pub open spec fn suite_views(s: Seq<Suite>) -> Seq<SuiteModel> {
    s.map_values(|x: Suite| x@)
}

/// The ordered suites, shared by reference between the orchestrator, the
/// concurrent case runners, and any observer. The wrapping in a lock, and
/// who may write which slot, are the surrounding application's protocol;
/// the operations here say exactly what each write does to the whole
/// store.
pub struct ResultStore {
    pub suites: Vec<Suite>,
}

impl View for ResultStore {
    type V = Seq<SuiteModel>;

    open spec fn view(&self) -> Seq<SuiteModel> {
        suite_views(self.suites@)
    }
}

pub proof fn lemma_entry_views_push(s: Seq<TestOutcome>, x: TestOutcome)
    ensures
        entry_views(s.push(x)) =~= entry_views(s).push(x@),
{
    assert forall|j: int| 0 <= j < s.len() + 1 implies #[trigger] entry_views(s.push(x))[j]
        == entry_views(s).push(x@)[j] by {
        if j < s.len() {
            assert(s.push(x)[j] == s[j]);
        } else {
            assert(s.push(x)[j] == x);
        }
    }
}

pub proof fn lemma_entry_views_update(s: Seq<TestOutcome>, i: int, x: TestOutcome)
    requires
        0 <= i < s.len(),
    ensures
        entry_views(s.update(i, x)) =~= entry_views(s).update(i, x@),
{
    assert forall|j: int| 0 <= j < s.len() implies #[trigger] entry_views(s.update(i, x))[j]
        == entry_views(s).update(i, x@)[j] by {
        if j != i {
            assert(s.update(i, x)[j] == s[j]);
        } else {
            assert(s.update(i, x)[j] == x);
        }
    }
}

pub proof fn lemma_suite_views_push(s: Seq<Suite>, x: Suite)
    ensures
        suite_views(s.push(x)) =~= suite_views(s).push(x@),
{
    assert forall|j: int| 0 <= j < s.len() + 1 implies #[trigger] suite_views(s.push(x))[j]
        == suite_views(s).push(x@)[j] by {
        if j < s.len() {
            assert(s.push(x)[j] == s[j]);
        } else {
            assert(s.push(x)[j] == x);
        }
    }
}

pub proof fn lemma_suite_views_update(s: Seq<Suite>, i: int, x: Suite)
    requires
        0 <= i < s.len(),
    ensures
        suite_views(s.update(i, x)) =~= suite_views(s).update(i, x@),
{
    assert forall|j: int| 0 <= j < s.len() implies #[trigger] suite_views(s.update(i, x))[j]
        == suite_views(s).update(i, x@)[j] by {
        if j != i {
            assert(s.update(i, x)[j] == s[j]);
        } else {
            assert(s.update(i, x)[j] == x);
        }
    }
}

/// Taking an element out and putting another back at the same position is
/// an in-place replacement.
pub proof fn lemma_remove_insert<A>(s: Seq<A>, i: int, x: A)
    requires
        0 <= i < s.len(),
    ensures
        s.remove(i).insert(i, x) =~= s.update(i, x),
{
}

/// How many of the outcomes are anything other than a settled success:
/// the aggregate the orchestrator reports after a run.
pub open spec fn spec_failure_count(s: Seq<OutcomeEntryModel>) -> int
    decreases s.len(),
{
    if s.len() == 0 {
        0
    } else {
        spec_failure_count(s.drop_last()) + if s.last().succeeded() {
            0int
        } else {
            1int
        }
    }
}

pub proof fn lemma_failure_count_push(s: Seq<OutcomeEntryModel>, x: OutcomeEntryModel)
    ensures
        spec_failure_count(s.push(x)) == spec_failure_count(s) + if x.succeeded() {
            0int
        } else {
            1int
        },
{
    assert(s.push(x).drop_last() =~= s);
    assert(s.push(x).last() == x);
}

impl ResultStore {
    /// A store with no suites.
    pub fn new() -> (s: ResultStore)
        ensures
            s@ == Seq::<SuiteModel>::empty(),
    {
        let s = ResultStore { suites: Vec::new() };
        proof {
            assert(s@ =~= Seq::<SuiteModel>::empty());
        }
        s
    }

    /// How many suites the store holds.
    pub fn suite_count(&self) -> (n: usize)
        ensures
            n == self@.len(),
    {
        self.suites.len()
    }

    /// How many case slots the given suite holds, pending or settled.
    pub fn case_count(&self, suite: usize) -> (n: usize)
        requires
            suite < self@.len(),
        ensures
            n == self@[suite as int].outcomes.len(),
    {
        self.suites[suite].outcomes.len()
    }

    /// Append a new, empty suite, fixing its index before any of its
    /// cases start.
    pub fn push_suite(&mut self, name: String) -> (idx: usize)
        ensures
            idx == old(self)@.len(),
            final(self)@ == old(self)@.push(
                SuiteModel { name: name@, outcomes: Seq::empty() },
            ),
    {
        let ghost name_view = name@;
        let idx = self.suites.len();
        let fresh = Suite { name, outcomes: Vec::new() };
        proof {
            assert(entry_views(fresh.outcomes@) =~= Seq::<OutcomeEntryModel>::empty());
        }
        self.suites.push(fresh);
        proof {
            lemma_suite_views_push(old(self).suites@, self.suites@.last());
            assert(final(self)@ =~= old(self)@.push(
                SuiteModel { name: name_view, outcomes: Seq::empty() },
            ));
        }
        idx
    }

    /// Append a `Pending` placeholder for `case` to the given suite, so
    /// the case's slot index is visible before its pipeline starts.
    pub fn push_pending(&mut self, suite: usize, case: TestCase) -> (idx: usize)
        requires
            suite < old(self)@.len(),
        ensures
            idx == old(self)@[suite as int].outcomes.len(),
            final(self)@ == old(self)@.update(
                suite as int,
                SuiteModel {
                    name: old(self)@[suite as int].name,
                    outcomes: old(self)@[suite as int].outcomes.push(
                        OutcomeEntryModel { case: case@, state: OutcomeStateModel::Pending },
                    ),
                },
            ),
    {
        let ghost case_view = case@;
        let mut s = self.suites.remove(suite);
        let idx = s.outcomes.len();
        let ghost prev_outcomes = s.outcomes@;
        s.outcomes.push(TestOutcome { case, state: OutcomeState::Pending });
        proof {
            lemma_entry_views_push(prev_outcomes, s.outcomes@.last());
        }
        self.suites.insert(suite, s);
        proof {
            lemma_remove_insert(old(self).suites@, suite as int, self.suites@[suite as int]);
            lemma_suite_views_update(old(self).suites@, suite as int, self.suites@[suite as int]);
            assert(final(self)@ =~= old(self)@.update(
                suite as int,
                SuiteModel {
                    name: old(self)@[suite as int].name,
                    outcomes: old(self)@[suite as int].outcomes.push(
                        OutcomeEntryModel { case: case_view, state: OutcomeStateModel::Pending },
                    ),
                },
            ));
        }
        idx
    }

    /// Settle one case: replace its `Pending` state, in a single write,
    /// with its record and verdict together. The slot must still be
    /// pending, so a settled outcome is never overwritten, and every
    /// other slot is untouched.
    pub fn complete(
        &mut self,
        suite: usize,
        idx: usize,
        record: ExecutionRecord,
        verdict: Verdict,
    )
        requires
            suite < old(self)@.len(),
            idx < old(self)@[suite as int].outcomes.len(),
            old(self)@[suite as int].outcomes[idx as int].state is Pending,
        ensures
            final(self)@ == old(self)@.update(
                suite as int,
                SuiteModel {
                    name: old(self)@[suite as int].name,
                    outcomes: old(self)@[suite as int].outcomes.update(
                        idx as int,
                        OutcomeEntryModel {
                            case: old(self)@[suite as int].outcomes[idx as int].case,
                            state: OutcomeStateModel::Completed { record: record@, verdict },
                        },
                    ),
                },
            ),
    {
        let mut s = self.suites.remove(suite);
        let entry = s.outcomes.remove(idx);
        let ghost mid_outcomes = s.outcomes@;
        let settled = TestOutcome {
            case: entry.case,
            state: OutcomeState::Completed { record, verdict },
        };
        s.outcomes.insert(idx, settled);
        proof {
            lemma_remove_insert(
                old(self)@[suite as int].outcomes,
                idx as int,
                s.outcomes@[idx as int]@,
            );
            lemma_remove_insert(
                old(self).suites@[suite as int].outcomes@,
                idx as int,
                s.outcomes@[idx as int],
            );
            lemma_entry_views_update(
                old(self).suites@[suite as int].outcomes@,
                idx as int,
                s.outcomes@[idx as int],
            );
        }
        self.suites.insert(suite, s);
        proof {
            lemma_remove_insert(old(self).suites@, suite as int, self.suites@[suite as int]);
            lemma_suite_views_update(old(self).suites@, suite as int, self.suites@[suite as int]);
            assert(final(self)@ =~= old(self)@.update(
                suite as int,
                SuiteModel {
                    name: old(self)@[suite as int].name,
                    outcomes: old(self)@[suite as int].outcomes.update(
                        idx as int,
                        OutcomeEntryModel {
                            case: old(self)@[suite as int].outcomes[idx as int].case,
                            state: OutcomeStateModel::Completed { record: record@, verdict },
                        },
                    ),
                },
            ));
        }
    }

    /// How many of the given suite's outcomes are anything other than a
    /// settled success.
    pub fn failure_count(&self, suite: usize) -> (n: usize)
        requires
            suite < self@.len(),
        ensures
            n == spec_failure_count(self@[suite as int].outcomes),
    {
        let s = &self.suites[suite];
        let ghost entries = self@[suite as int].outcomes;
        let mut n: usize = 0;
        let mut j: usize = 0;
        proof {
            assert(entries.take(0) =~= Seq::<OutcomeEntryModel>::empty());
        }
        while j < s.outcomes.len()
            invariant
                j <= s.outcomes.len(),
                n <= j,
                entries == entry_views(s.outcomes@),
                n == spec_failure_count(entries.take(j as int)),
            decreases s.outcomes.len() - j,
        {
            let succeeded = match &s.outcomes[j].state {
                OutcomeState::Completed { record: _, verdict } => matches!(
                    verdict,
                    Verdict::Success
                ),
                OutcomeState::Pending => false,
            };
            proof {
                assert(entries[j as int] == s.outcomes@[j as int]@);
                assert(entries.take(j + 1) =~= entries.take(j as int).push(entries[j as int]));
                lemma_failure_count_push(entries.take(j as int), entries[j as int]);
            }
            if !succeeded {
                n = n + 1;
            }
            j = j + 1;
        }
        proof {
            assert(entries.take(s.outcomes@.len() as int) =~= entries);
        }
        n
    }

    /// An immutable copy of the whole store at one point in time, for
    /// observers: they never reach into the live store itself.
    pub fn snapshot(&self) -> (r: ResultStore)
        ensures
            r@ == self@,
    {
        let mut suites: Vec<Suite> = Vec::new();
        let mut i: usize = 0;
        while i < self.suites.len()
            invariant
                i <= self.suites.len(),
                suite_views(suites@) =~= suite_views(self.suites@).take(i as int),
            decreases self.suites.len() - i,
        {
            let ghost prev = suites@;
            let copy = duplicate_suite(&self.suites[i]);
            suites.push(copy);
            proof {
                lemma_suite_views_push(prev, suites@.last());
                assert(suite_views(self.suites@).take(i + 1) =~= suite_views(
                    self.suites@,
                ).take(i as int).push(suite_views(self.suites@)[i as int]));
            }
            i = i + 1;
        }
        proof {
            assert(suite_views(self.suites@).take(self.suites@.len() as int) =~= suite_views(
                self.suites@,
            ));
        }
        ResultStore { suites }
    }
}

/// A suite whose model equals the given one's.
fn duplicate_suite(s: &Suite) -> (r: Suite)
    ensures
        r@ == s@,
{
    let mut outcomes: Vec<TestOutcome> = Vec::new();
    let mut j: usize = 0;
    while j < s.outcomes.len()
        invariant
            j <= s.outcomes.len(),
            entry_views(outcomes@) =~= entry_views(s.outcomes@).take(j as int),
        decreases s.outcomes.len() - j,
    {
        let ghost prev = outcomes@;
        let copy = duplicate_outcome(&s.outcomes[j]);
        outcomes.push(copy);
        proof {
            lemma_entry_views_push(prev, outcomes@.last());
            assert(entry_views(s.outcomes@).take(j + 1) =~= entry_views(s.outcomes@).take(
                j as int,
            ).push(entry_views(s.outcomes@)[j as int]));
        }
        j = j + 1;
    }
    proof {
        assert(entry_views(s.outcomes@).take(s.outcomes@.len() as int) =~= entry_views(
            s.outcomes@,
        ));
    }
    Suite { name: s.name.clone(), outcomes }
}

/// An outcome whose model equals the given one's.
fn duplicate_outcome(o: &TestOutcome) -> (r: TestOutcome)
    ensures
        r@ == o@,
{
    let state = match &o.state {
        OutcomeState::Pending => OutcomeState::Pending,
        OutcomeState::Completed { record, verdict } => OutcomeState::Completed {
            record: record.duplicate(),
            verdict: *verdict,
        },
    };
    TestOutcome { case: o.case.duplicate(), state }
}

} // verus!
