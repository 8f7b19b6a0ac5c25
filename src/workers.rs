use vstd::prelude::*;

use crate::execution::{ExecutionInput, Model, ModelView, record_of, views_of};
use crate::service::{
    DescribeOutcome, ReconcileError, plan_reconcile, polled_record, polled_status,
    reconcile_effect, reconcile_one,
};
use crate::store::ExecutionStore;

verus! {

/// The job that one reconciliation tick runs.
#[derive(Clone, Copy, Debug, Default)]
pub struct UpdateExecutionStatusJob;

/// The table after reconciling each polled record against its outcome, in order.
pub open spec fn tick_effect(
    rows: Seq<ModelView>,
    polled: Seq<ModelView>,
    outcomes: Seq<DescribeOutcome>,
) -> Seq<ModelView>
    decreases polled.len(),
{
    if polled.len() == 0 || outcomes.len() == 0 {
        rows
    } else {
        reconcile_effect(
            tick_effect(rows, polled.drop_last(), outcomes.drop_last()),
            polled.last(),
            outcomes.last(),
        )
    }
}

impl UpdateExecutionStatusJob {
    /// Runs one reconciliation pass: `outcomes[i]` is what the engine answered for `polled[i]`.
    /// Each record is handled on its own; a failure for one never stops the others.
    pub fn run(
        &self,
        db: &mut ExecutionStore,
        polled: &Vec<Model>,
        outcomes: &Vec<DescribeOutcome>,
    ) -> (r: Vec<Result<Model, ReconcileError>>)
        requires
            old(db).wf(),
            polled@.len() == outcomes@.len(),
        ensures
            final(db).wf(),
            final(db)@ == tick_effect(old(db)@, views_of(polled@), outcomes@),
            r@.len() == polled@.len(),
            forall|i: int|
                0 <= i < r@.len() ==> (#[trigger] r@[i] == Err::<Model, ReconcileError>(
                    ReconcileError::EngineUnavailable,
                ) <==> outcomes@[i] == DescribeOutcome::Unavailable),
    {
        let mut results: Vec<Result<Model, ReconcileError>> = Vec::new();
        let mut i: usize = 0;
        while i < polled.len()
            invariant
                i <= polled@.len(),
                polled@.len() == outcomes@.len(),
                db.wf(),
                db@ == tick_effect(
                    old(db)@,
                    views_of(polled@).subrange(0, i as int),
                    outcomes@.subrange(0, i as int),
                ),
                results@.len() == i,
                forall|j: int|
                    0 <= j < i ==> (#[trigger] results@[j] == Err::<Model, ReconcileError>(
                        ReconcileError::EngineUnavailable,
                    ) <==> outcomes@[j] == DescribeOutcome::Unavailable),
            decreases polled@.len() - i,
        {
            let ghost vp = views_of(polled@);
            assert(vp.subrange(0, i + 1).drop_last() =~= vp.subrange(0, i as int));
            assert(outcomes@.subrange(0, i + 1).drop_last() =~= outcomes@.subrange(0, i as int));
            let res = reconcile_one(db, &polled[i], outcomes[i]);
            results.push(res);
            i = i + 1;
        }
        assert(views_of(polled@).subrange(0, i as int) =~= views_of(polled@));
        assert(outcomes@.subrange(0, i as int) =~= outcomes@);
        results
    }
}

/// Where the reconciliation loop stands within a tick.
#[derive(Clone, Copy, Debug, PartialEq, Eq, Structural)]
pub enum Phase {
    /// Waiting for the next tick.
    Idle,
    /// Waiting for the list of incomplete executions.
    Listing,
    /// Waiting for the engine's answer on the current execution.
    Describing,
    /// Waiting for the update of the current execution to be written.
    Writing,
}

/// What the loop reports back to the scheduler.
pub enum SchedulerEvent {
    /// The period has elapsed.
    Tick,
    /// The incomplete executions, as listed from the store.
    Listed(Vec<Model>),
    /// Listing the incomplete executions failed.
    ListFailed,
    /// The engine's answer for the current execution.
    Described(DescribeOutcome),
    /// The requested write was attempted, whatever its result.
    Written,
}

/// What the scheduler asks the loop to do next.
pub enum SchedulerAction {
    /// Nothing until the next tick.
    Sleep,
    /// List the incomplete executions and report them with `Listed` or `ListFailed`.
    ListIncomplete,
    /// Ask the engine for this execution's run and report the answer with `Described`.
    Describe(Model),
    /// Write this update to the record keyed by the id, then report `Written`.
    Write(u128, ExecutionInput),
}

/// The reconciliation loop's decisions: which execution to poll next and what to write.
/// One execution's failure never holds up the others: every answer moves the tick on.
pub struct StatusScheduler {
    phase: Phase,
    queue: Vec<Model>,
    next: usize,
}

pub struct SchedulerView {
    pub phase: Phase,
    pub queue: Seq<ModelView>,
    pub next: int,
}

impl View for StatusScheduler {
    type V = SchedulerView;

    closed spec fn view(&self) -> SchedulerView {
        SchedulerView { phase: self.phase, queue: views_of(self.queue@), next: self.next as int }
    }
}

/// The state after the current execution is done with, and the phase it leads to.
pub open spec fn advanced(s: SchedulerView) -> SchedulerView {
    if s.next + 1 < s.queue.len() {
        SchedulerView { phase: Phase::Describing, next: s.next + 1, ..s }
    } else {
        SchedulerView { phase: Phase::Idle, queue: Seq::empty(), next: 0 }
    }
}

/// `a` is the action that state `s` calls for on entering it.
pub open spec fn action_for(s: SchedulerView, a: SchedulerAction) -> bool {
    match s.phase {
        Phase::Describing => a matches SchedulerAction::Describe(m) && m@ == s.queue[s.next],
        Phase::Idle => a is Sleep,
        _ => false,
    }
}

impl StatusScheduler {
    pub open spec fn wf(&self) -> bool {
        &&& 0 <= self@.next <= self@.queue.len()
        &&& (self@.phase == Phase::Describing || self@.phase == Phase::Writing) ==> self@.next
            < self@.queue.len()
    }

    pub fn new() -> (r: StatusScheduler)
        ensures
            r.wf(),
            r@.phase == Phase::Idle,
            r@.queue.len() == 0,
    {
        StatusScheduler { phase: Phase::Idle, queue: Vec::new(), next: 0 }
    }

    pub fn phase(&self) -> (r: Phase)
        ensures
            r == self@.phase,
    {
        self.phase
    }

    fn advance(&mut self) -> (a: SchedulerAction)
        requires
            old(self).wf(),
            old(self)@.phase == Phase::Describing || old(self)@.phase == Phase::Writing,
        ensures
            final(self).wf(),
            final(self)@ == advanced(old(self)@),
            action_for(final(self)@, a),
    {
        let len = self.queue.len();
        assert(self@.queue.len() == len);
        if self.next < len - 1 {
            self.next = self.next + 1;
            self.phase = Phase::Describing;
            SchedulerAction::Describe(self.queue[self.next].snapshot())
        } else {
            self.queue = Vec::new();
            self.next = 0;
            self.phase = Phase::Idle;
            proof {
                assert(self@.queue =~= Seq::<ModelView>::empty());
            }
            SchedulerAction::Sleep
        }
    }

    /// Takes the loop's report and says what to do next. A report that does not fit the
    /// current phase changes nothing.
    pub fn step(&mut self, event: SchedulerEvent) -> (a: SchedulerAction)
        requires
            old(self).wf(),
        ensures
            final(self).wf(),
            old(self)@.phase == Phase::Idle && event is Tick ==> final(self)@.phase
                == Phase::Listing && a is ListIncomplete,
            old(self)@.phase == Phase::Listing && event is ListFailed ==> final(self)@.phase
                == Phase::Idle && a is Sleep,
            old(self)@.phase == Phase::Listing && event is Listed ==> final(self)@.queue
                == views_of(event->Listed_0@) && final(self)@.next == 0
                && final(self)@.phase == (if event->Listed_0@.len() == 0 {
                Phase::Idle
            } else {
                Phase::Describing
            }) && action_for(final(self)@, a),
            old(self)@.phase == Phase::Describing && event is Described ==> ({
                let cur = old(self)@.queue[old(self)@.next];
                match polled_status(event->Described_0) {
                    Some(st) => final(self)@ == (SchedulerView {
                        phase: Phase::Writing,
                        ..old(self)@
                    }) && (a matches SchedulerAction::Write(id, input) && id == cur.id
                        && record_of(id, input) == polled_record(cur, st)),
                    None => final(self)@ == advanced(old(self)@) && action_for(final(self)@, a),
                }
            }),
            old(self)@.phase == Phase::Writing && event is Written ==> final(self)@ == advanced(
                old(self)@,
            ) && action_for(final(self)@, a),
            !(old(self)@.phase == Phase::Idle && event is Tick) && !(old(self)@.phase
                == Phase::Listing && (event is ListFailed || event is Listed)) && !(old(self)@.phase
                == Phase::Describing && event is Described) && !(old(self)@.phase == Phase::Writing
                && event is Written) ==> final(self)@ == old(self)@ && a is Sleep,
    {
        match (self.phase, event) {
            (Phase::Idle, SchedulerEvent::Tick) => {
                self.phase = Phase::Listing;
                SchedulerAction::ListIncomplete
            },
            (Phase::Listing, SchedulerEvent::ListFailed) => {
                self.phase = Phase::Idle;
                SchedulerAction::Sleep
            },
            (Phase::Listing, SchedulerEvent::Listed(v)) => {
                self.queue = v;
                self.next = 0;
                if self.queue.len() == 0 {
                    self.phase = Phase::Idle;
                    SchedulerAction::Sleep
                } else {
                    self.phase = Phase::Describing;
                    SchedulerAction::Describe(self.queue[0].snapshot())
                }
            },
            (Phase::Describing, SchedulerEvent::Described(o)) => {
                match plan_reconcile(&self.queue[self.next], o) {
                    Some(input) => {
                        self.phase = Phase::Writing;
                        SchedulerAction::Write(self.queue[self.next].id, input)
                    },
                    None => self.advance(),
                }
            },
            (Phase::Writing, SchedulerEvent::Written) => self.advance(),
            _ => SchedulerAction::Sleep,
        }
    }
}

} // verus!
