//! The orchestrator's join over its slots: all of them have to terminate,
//! and the first failure decides.
//!
//! The slots run elsewhere, and finish in no fixed order. The join is told of
//! each slot that has finished, in the order in which the reports come, and
//! says after each report how the whole run stands.

use vstd::prelude::*;
use crate::slot::{SlotError, SlotErrorView, SlotReport, SlotReportView};

verus! {

/// How a run of slots stands.
#[derive(Debug)]
pub enum JoinOutcome {
    /// No slot has failed, and not all have terminated.
    Pending,
    /// Every slot has terminated.
    Success,
    /// A slot has failed: the run has failed with that slot's error.
    Failure(SlotError),
}

/// What a `JoinOutcome` holds, as mathematical values.
pub enum JoinOutcomeView {
    Pending,
    Success,
    Failure(SlotErrorView),
}

impl View for JoinOutcome {
    type V = JoinOutcomeView;

    open spec fn view(&self) -> JoinOutcomeView {
        match self {
            JoinOutcome::Pending => JoinOutcomeView::Pending,
            JoinOutcome::Success => JoinOutcomeView::Success,
            JoinOutcome::Failure(error) => JoinOutcomeView::Failure(error@),
        }
    }
}

/// The join over the slots `1 ..= total`.
#[derive(Debug)]
pub struct FailFastJoin {
    total: usize,
    terminated: Vec<usize>,
    failure: Option<SlotError>,
}

/// What a `FailFastJoin` holds, as mathematical values.
pub struct JoinView {
    /// The number of slots.
    pub total: nat,
    /// The slots that have terminated, in the order of their reports.
    pub terminated: Seq<nat>,
    /// The error of the first slot that failed.
    pub failure: Option<SlotErrorView>,
}

/// The identities in `slots`, as natural numbers.
pub open spec fn identities(slots: Seq<usize>) -> Seq<nat> {
    Seq::new(slots.len(), |i: int| slots[i] as nat)
}

/// The views of `reports`.
pub open spec fn report_views(reports: Seq<SlotReport>) -> Seq<SlotReportView> {
    Seq::new(reports.len(), |i: int| reports[i]@)
}

impl View for FailFastJoin {
    type V = JoinView;

    closed spec fn view(&self) -> JoinView {
        JoinView {
            total: self.total as nat,
            terminated: identities(self.terminated@),
            failure: match self.failure {
                Some(error) => Some(error@),
                None => None,
            },
        }
    }
}

/// The join over `total` slots before any report.
pub open spec fn initial(total: nat) -> JoinView {
    JoinView { total, terminated: Seq::empty(), failure: None }
}

/// A join is well formed when the slots it holds as terminated are slots of
/// the run, each held once.
pub open spec fn join_wf(join: JoinView) -> bool {
    &&& join.terminated.no_duplicates()
    &&& forall|i: int|
        0 <= i < join.terminated.len() ==> 1 <= #[trigger] join.terminated[i] <= join.total
}

/// How the run stands: failed with the first error, if a slot has failed;
/// else succeeded, if as many slots have terminated as there are; else
/// pending.
pub open spec fn outcome_spec(join: JoinView) -> JoinOutcomeView {
    match join.failure {
        Some(error) => JoinOutcomeView::Failure(error),
        None => if join.terminated.len() == join.total {
            JoinOutcomeView::Success
        } else {
            JoinOutcomeView::Pending
        },
    }
}

/// Whether the run is decided: it has failed or succeeded.
pub open spec fn decided(join: JoinView) -> bool {
    !(outcome_spec(join) is Pending)
}

/// Whether a termination of `slot` counts: it is a slot of the run and has
/// not terminated before.
pub open spec fn accepts(join: JoinView, slot: nat) -> bool {
    1 <= slot <= join.total && !join.terminated.contains(slot)
}

/// The join after `report`. A run that is decided stays as it is: the first
/// failure is the one that is kept. In a pending run a failure decides, and a
/// termination is recorded if it counts.
pub open spec fn observe_spec(join: JoinView, report: SlotReportView) -> JoinView {
    if decided(join) {
        join
    } else {
        match report {
            SlotReportView::Failed(error) => JoinView { failure: Some(error), ..join },
            SlotReportView::Terminated(slot) => if accepts(join, slot) {
                JoinView { terminated: join.terminated.push(slot), ..join }
            } else {
                join
            },
        }
    }
}

/// The join after each report of `reports` in turn.
pub open spec fn observe_all_spec(join: JoinView, reports: Seq<SlotReportView>) -> JoinView
    decreases reports.len(),
{
    if reports.len() == 0 {
        join
    } else {
        observe_spec(observe_all_spec(join, reports.drop_last()), reports.last())
    }
}

/// How a run of `total` slots stands after `reports`.
pub open spec fn join_spec(total: nat, reports: Seq<SlotReportView>) -> JoinOutcomeView {
    outcome_spec(observe_all_spec(initial(total), reports))
}

/// The identities of the slots of a run, in the order in which they are
/// started: ascending from 1.
pub fn slot_identities(total: usize) -> (slots: Vec<usize>)
    ensures
        slots@.len() == total,
        forall|i: int| 0 <= i < total ==> slots@[i] == i + 1,
{
    let mut slots: Vec<usize> = Vec::new();
    let mut next: usize = 0;
    while next < total
        invariant
            next <= total,
            slots@.len() == next,
            forall|i: int| 0 <= i < next ==> slots@[i] == i + 1,
        decreases total - next,
    {
        next = next + 1;
        slots.push(next);
    }
    slots
}

impl FailFastJoin {
    /// Whether the terminated slots are slots of the run, each held once.
    /// This holds of every join.
    pub open spec fn wf(&self) -> bool {
        join_wf(self@)
    }

    #[verifier::type_invariant]
    spec fn held_once(&self) -> bool {
        self.wf()
    }

    /// The join over the slots `1 ..= total`, before any report.
    pub fn new(total: usize) -> (join: FailFastJoin)
        ensures
            join@ == initial(total as nat),
            join.wf(),
    {
        let join = FailFastJoin { total, terminated: Vec::new(), failure: None };
        assert(join@.terminated =~= Seq::<nat>::empty());
        join
    }

    /// The number of slots of the run.
    pub fn total(&self) -> (total: usize)
        ensures
            total == self@.total,
    {
        self.total
    }

    /// The slots that have terminated, in the order of their reports.
    pub fn terminated(&self) -> (slots: &Vec<usize>)
        ensures
            identities(slots@) == self@.terminated,
    {
        &self.terminated
    }

    /// How the run stands.
    pub fn outcome(&self) -> (outcome: JoinOutcome)
        ensures
            outcome@ == outcome_spec(self@),
    {
        match &self.failure {
            Some(error) => JoinOutcome::Failure(error.duplicate()),
            None => if self.terminated.len() == self.total {
                JoinOutcome::Success
            } else {
                JoinOutcome::Pending
            },
        }
    }

    /// The join after the report of a slot that has finished.
    pub fn observe(self, report: SlotReport) -> (next: FailFastJoin)
        ensures
            next@ == observe_spec(self@, report@),
            next.wf(),
    {
        proof {
            use_type_invariant(&self);
            observe_keeps_wf(self@, report@);
        }
        let ghost before = self@;
        let FailFastJoin { total, mut terminated, failure } = self;
        let undecided: bool = failure.is_none() && terminated.len() != total;
        if !undecided {
            return FailFastJoin { total, terminated, failure };
        }
        match report {
            SlotReport::Failed(error) => FailFastJoin { total, terminated, failure: Some(error) },
            SlotReport::Terminated(slot) => {
                if 1 <= slot && slot <= total && !holds(&terminated, slot) {
                    proof {
                        assert(identities(terminated@.push(slot)) =~= before.terminated.push(
                            slot as nat,
                        ));
                    }
                    terminated.push(slot);
                }
                FailFastJoin { total, terminated, failure }
            },
        }
    }
}

/// Whether `slot` is among `slots`.
fn holds(slots: &Vec<usize>, slot: usize) -> (b: bool)
    ensures
        b == identities(slots@).contains(slot as nat),
{
    let mut i: usize = 0;
    while i < slots.len()
        invariant
            i <= slots@.len(),
            forall|j: int| 0 <= j < i ==> slots@[j] != slot,
        decreases slots@.len() - i,
    {
        if slots[i] == slot {
            assert(identities(slots@)[i as int] == slot as nat);
            return true;
        }
        i = i + 1;
    }
    assert forall|j: int| 0 <= j < identities(slots@).len() implies identities(slots@)[j]
        != slot as nat by {
        assert(slots@[j] != slot);
    }
    false
}

/// Joins a run of `total` slots over the reports of its slots, taken in the
/// order in which they came. It stops at the report that decides the run:
/// what comes after the first failure is not looked at.
pub fn join_all(total: usize, reports: &Vec<SlotReport>) -> (outcome: JoinOutcome)
    ensures
        outcome@ == join_spec(total as nat, report_views(reports@)),
{
    let ghost all = report_views(reports@);
    let mut join = FailFastJoin::new(total);
    let mut i: usize = 0;
    proof {
        assert(all.take(0) =~= Seq::<SlotReportView>::empty());
    }
    while i < reports.len()
        invariant
            i <= reports@.len(),
            all == report_views(reports@),
            join@ == observe_all_spec(initial(total as nat), all.take(i as int)),
        decreases reports@.len() - i,
    {
        join = join.observe(reports[i].duplicate());
        let outcome = join.outcome();
        proof {
            let seen = all.take(i + 1);
            assert(seen.drop_last() =~= all.take(i as int));
            assert(seen.last() == reports@[i as int]@);
        }
        i = i + 1;
        if let JoinOutcome::Failure(error) = outcome {
            proof {
                decision_is_kept(initial(total as nat), all, i as int);
            }
            return JoinOutcome::Failure(error);
        }
    }
    proof {
        assert(all.take(i as int) =~= all);
    }
    join.outcome()
}

/// A well-formed join is well formed after any report.
pub proof fn observe_keeps_wf(join: JoinView, report: SlotReportView)
    requires
        join_wf(join),
    ensures
        join_wf(observe_spec(join, report)),
{
    let after = observe_spec(join, report);
    if after.terminated != join.terminated {
        let slot = report->Terminated_0;
        assert(after.terminated == join.terminated.push(slot));
        assert forall|i: int, j: int|
            0 <= i < after.terminated.len() && 0 <= j < after.terminated.len() && i
                != j implies after.terminated[i] != after.terminated[j] by {
            if i < join.terminated.len() {
                assert(join.terminated.contains(after.terminated[i]));
            }
            if j < join.terminated.len() {
                assert(join.terminated.contains(after.terminated[j]));
            }
        }
    }
}

/// A well-formed join is well formed after any reports.
pub proof fn observe_all_keeps_wf(join: JoinView, reports: Seq<SlotReportView>)
    requires
        join_wf(join),
    ensures
        join_wf(observe_all_spec(join, reports)),
    decreases reports.len(),
{
    if reports.len() > 0 {
        observe_all_keeps_wf(join, reports.drop_last());
        observe_keeps_wf(observe_all_spec(join, reports.drop_last()), reports.last());
    }
}

/// Once the run is decided after the first `upto` reports, the reports that
/// follow change nothing: the first failure is the one that the run fails
/// with, and a run that has succeeded has succeeded.
pub proof fn decision_is_kept(join: JoinView, reports: Seq<SlotReportView>, upto: int)
    requires
        0 <= upto <= reports.len(),
        decided(observe_all_spec(join, reports.take(upto))),
    ensures
        observe_all_spec(join, reports) == observe_all_spec(join, reports.take(upto)),
    decreases reports.len(),
{
    if upto == reports.len() {
        assert(reports.take(upto) =~= reports);
    } else {
        let earlier = reports.drop_last();
        assert(earlier.take(upto) =~= reports.take(upto));
        decision_is_kept(join, earlier, upto);
    }
}

/// While slots only terminate, none has failed, and no more slots are held
/// as terminated than reports have come.
pub proof fn terminations_do_not_fail(total: nat, reports: Seq<SlotReportView>)
    requires
        forall|i: int| 0 <= i < reports.len() ==> reports[i] is Terminated,
    ensures
        observe_all_spec(initial(total), reports).failure is None,
        observe_all_spec(initial(total), reports).terminated.len() <= reports.len(),
        observe_all_spec(initial(total), reports).total == total,
    decreases reports.len(),
{
    if reports.len() > 0 {
        let earlier = reports.drop_last();
        assert forall|i: int| 0 <= i < earlier.len() implies earlier[i] is Terminated by {
            assert(earlier[i] == reports[i]);
        }
        terminations_do_not_fail(total, earlier);
    }
}

/// A failure that is reported while the run is pending decides it: the run
/// has failed with the error of that report, whatever is reported after it.
pub proof fn failure_of_a_pending_run_decides(
    total: nat,
    reports: Seq<SlotReportView>,
    at: int,
)
    requires
        0 <= at < reports.len(),
        !decided(observe_all_spec(initial(total), reports.take(at))),
        reports[at] is Failed,
    ensures
        join_spec(total, reports) == JoinOutcomeView::Failure(reports[at]->Failed_0),
{
    let upto = reports.take(at + 1);
    assert(upto.drop_last() =~= reports.take(at));
    assert(upto.last() == reports[at]);
    decision_is_kept(initial(total), reports, at + 1);
}

/// If a slot fails, the run fails, and with that slot's error: when the
/// report at `at` is the first failure, and fewer reports than there are
/// slots came before it, the run has failed with the error of that report,
/// whatever is reported after it.
pub proof fn first_failure_decides(total: nat, reports: Seq<SlotReportView>, at: int)
    requires
        0 <= at < reports.len(),
        at < total,
        forall|i: int| 0 <= i < at ==> reports[i] is Terminated,
        reports[at] is Failed,
    ensures
        join_spec(total, reports) == JoinOutcomeView::Failure(reports[at]->Failed_0),
{
    let before = reports.take(at);
    assert forall|i: int| 0 <= i < before.len() implies before[i] is Terminated by {
        assert(before[i] == reports[i]);
    }
    terminations_do_not_fail(total, before);
    failure_of_a_pending_run_decides(total, reports, at);
}

/// The slots named by reports that are all terminations.
pub open spec fn terminated_slots(reports: Seq<SlotReportView>) -> Seq<nat> {
    Seq::new(reports.len(), |i: int| reports[i]->Terminated_0)
}

/// If the slots of a run terminate one after the other, each once, in
/// whatever order, the join holds them in the order of their reports and
/// none has failed. So the run has succeeded exactly when all of them have
/// terminated, with as many terminations as there are slots, and is pending
/// before that.
pub proof fn terminations_are_counted(total: nat, reports: Seq<SlotReportView>)
    requires
        reports.len() <= total,
        forall|i: int| 0 <= i < reports.len() ==> reports[i] is Terminated,
        forall|i: int|
            0 <= i < reports.len() ==> 1 <= (#[trigger] reports[i])->Terminated_0 <= total,
        forall|i: int, j: int|
            0 <= i < j < reports.len() ==> reports[i]->Terminated_0 != reports[j]->Terminated_0,
    ensures
        observe_all_spec(initial(total), reports) == (JoinView {
            total,
            terminated: terminated_slots(reports),
            failure: None,
        }),
        reports.len() == total ==> join_spec(total, reports) is Success,
        reports.len() < total ==> join_spec(total, reports) is Pending,
    decreases reports.len(),
{
    if reports.len() == 0 {
        assert(terminated_slots(reports) =~= Seq::<nat>::empty());
    } else {
        let earlier = reports.drop_last();
        assert forall|i: int| 0 <= i < earlier.len() implies earlier[i] is Terminated && 1 <= (
        #[trigger] earlier[i])->Terminated_0 <= total by {
            assert(earlier[i] == reports[i]);
        }
        assert forall|i: int, j: int| 0 <= i < j < earlier.len() implies earlier[i]->Terminated_0
            != earlier[j]->Terminated_0 by {
            assert(earlier[i] == reports[i]);
            assert(earlier[j] == reports[j]);
        }
        terminations_are_counted(total, earlier);
        let join = observe_all_spec(initial(total), earlier);
        let slot = reports.last()->Terminated_0;
        assert(!join.terminated.contains(slot)) by {
            if join.terminated.contains(slot) {
                let k = choose|k: int| 0 <= k < join.terminated.len() && join.terminated[k] == slot;
                assert(earlier[k] == reports[k]);
            }
        }
        assert(terminated_slots(reports) =~= terminated_slots(earlier).push(slot)) by {
            assert forall|i: int| 0 <= i < earlier.len() implies terminated_slots(reports)[i]
                == terminated_slots(earlier)[i] by {
                assert(earlier[i] == reports[i]);
            }
        }
    }
}

/// A run has succeeded only if every one of its slots has terminated.
pub proof fn success_covers_every_slot(join: JoinView, slot: nat)
    requires
        join_wf(join),
        outcome_spec(join) is Success,
        1 <= slot <= join.total,
    ensures
        join.terminated.contains(slot),
{
    let held = join.terminated.to_set();
    let all = Set::new(|s: nat| 1 <= s <= join.total);
    join.terminated.unique_seq_to_set();
    slots_are_finitely_many(join.total);
    assert(held.subset_of(all)) by {
        assert forall|s: nat| held.contains(s) implies all.contains(s) by {
            let k = choose|k: int| 0 <= k < join.terminated.len() && join.terminated[k] == s;
            assert(1 <= join.terminated[k] <= join.total);
        }
    }
    vstd::set_lib::lemma_subset_equality(held, all);
    assert(all.contains(slot));
    assert(held.contains(slot));
}

/// There are `total` slots from 1 to `total`.
proof fn slots_are_finitely_many(total: nat)
    ensures
        Set::new(|s: nat| 1 <= s <= total).finite(),
        Set::new(|s: nat| 1 <= s <= total).len() == total,
    decreases total,
{
    let all = Set::new(|s: nat| 1 <= s <= total);
    if total == 0 {
        assert(all =~= Set::<nat>::empty());
    } else {
        let fewer = Set::new(|s: nat| 1 <= s <= (total - 1) as nat);
        slots_are_finitely_many((total - 1) as nat);
        assert(all =~= fewer.insert(total));
    }
}

} // verus!
