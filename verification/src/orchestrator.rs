//! The synchronous part of a run: before any pipeline starts, a suite
//! entry and one `Pending` placeholder per case are appended to the
//! store, so every case's slot index is fixed and visible to observers
//! while the work is still in flight.

use vstd::prelude::*;

use crate::model::{AssertionMode, CaseModel, TestCase};
use crate::store::{OutcomeEntryModel, OutcomeStateModel, ResultStore, SuiteModel};

verus! {

/// Mathematical value of a [`CorpusEntry`].
pub ghost struct CorpusEntryModel {
    pub mode: AssertionMode,
    pub source: Seq<char>,
}

/// One corpus item as a collaborator supplies it: an assertion mode and a
/// source snippet. The case's id is its position in the corpus.
pub struct CorpusEntry {
    pub mode: AssertionMode,
    pub source: String,
}

impl View for CorpusEntry {
    type V = CorpusEntryModel;

    open spec fn view(&self) -> CorpusEntryModel {
        CorpusEntryModel { mode: self.mode, source: self.source@ }
    }
}

/// The models of a sequence of corpus entries, in order.
pub open spec fn corpus_views(s: Seq<CorpusEntry>) -> Seq<CorpusEntryModel> {
    s.map_values(|e: CorpusEntry| e@)
}

/// The placeholder outcomes a corpus is allotted: one `Pending` slot per
/// entry, the case's id being its corpus position.
pub open spec fn pending_outcomes(c: Seq<CorpusEntryModel>) -> Seq<OutcomeEntryModel> {
    Seq::new(
        c.len(),
        |i: int|
            OutcomeEntryModel {
                case: CaseModel { id: i, mode: c[i].mode, source: c[i].source },
                state: OutcomeStateModel::Pending,
            },
    )
}

/// Append a suite named `name` with one `Pending` placeholder per corpus
/// entry, in corpus order, and hand back the suite's index. Launching the
/// pipelines, and settling each slot as they finish, come after.
pub fn prepare_suite(store: &mut ResultStore, name: String, corpus: &Vec<CorpusEntry>) -> (idx:
    usize)
    ensures
        idx == old(store)@.len(),
        final(store)@ == old(store)@.push(
            SuiteModel { name: name@, outcomes: pending_outcomes(corpus_views(corpus@)) },
        ),
{
    let ghost name_view = name@;
    let ghost goal = pending_outcomes(corpus_views(corpus@));
    let idx = store.push_suite(name);
    let mut i: usize = 0;
    proof {
        assert(goal.take(0) =~= Seq::<OutcomeEntryModel>::empty());
        assert(store@ =~= old(store)@.push(SuiteModel { name: name_view, outcomes: goal.take(0) }));
    }
    while i < corpus.len()
        invariant
            i <= corpus.len(),
            idx == old(store)@.len(),
            goal == pending_outcomes(corpus_views(corpus@)),
            goal.len() == corpus@.len(),
            store@ == old(store)@.push(
                SuiteModel { name: name_view, outcomes: goal.take(i as int) },
            ),
        decreases corpus.len() - i,
    {
        let entry = &corpus[i];
        let case = TestCase { id: i, mode: entry.mode, source: entry.source.clone() };
        proof {
            assert(corpus_views(corpus@)[i as int] == entry@);
            assert(case@ == goal[i as int].case);
        }
        let ghost before = store@;
        store.push_pending(idx, case);
        proof {
            assert(before[idx as int] == SuiteModel {
                name: name_view,
                outcomes: goal.take(i as int),
            });
            assert(goal.take(i + 1) =~= goal.take(i as int).push(goal[i as int]));
            assert(store@ =~= old(store)@.push(
                SuiteModel { name: name_view, outcomes: goal.take(i + 1) },
            ));
        }
        i = i + 1;
    }
    proof {
        assert(goal.take(corpus@.len() as int) =~= goal);
    }
    idx
}

} // verus!
