use vstd::prelude::*;

use crate::execution::{ExecutionInput, Model, ModelView, record_of, views_of};
use crate::status::{
    ExecutionStatus, RemoteStatus, is_terminal_status, local_status_of, map_remote_status,
};
use crate::store::{
    ExecutionStore, StoreError, contains_id, ids_unique, replace_record, with_status,
};

verus! {

/// Why the engine did not serve a request.
#[derive(Clone, Copy, Debug, PartialEq, Eq, Structural)]
pub enum EngineError {
    /// The engine could not be reached.
    Unavailable,
    /// The engine refused the request.
    Rejected,
}

/// Why creating an execution failed.
#[derive(Clone, Copy, Debug, PartialEq, Eq, Structural)]
pub enum CreateError {
    /// The remote run was not started; nothing was stored.
    Engine(EngineError),
    /// The remote run was started but the record could not be stored.
    Store(StoreError),
}

/// What the engine answered when asked for the status of a run.
#[derive(Clone, Copy, Debug, PartialEq, Eq, Structural)]
pub enum DescribeOutcome {
    /// The engine knows the run and reports this status.
    Reported(RemoteStatus),
    /// The engine no longer recognises the run.
    RunNotFound,
    /// The engine could not be reached.
    Unavailable,
}

/// Why reconciling one execution changed nothing.
#[derive(Clone, Copy, Debug, PartialEq, Eq, Structural)]
pub enum ReconcileError {
    /// The engine could not be reached; the record is left as it was.
    EngineUnavailable,
    /// The record was deleted while it was being polled.
    RecordGone,
}

/// The local status that a poll outcome calls for; `None` where nothing may be written.
pub open spec fn polled_status(outcome: DescribeOutcome) -> Option<ExecutionStatus> {
    match outcome {
        DescribeOutcome::Reported(r) => Some(local_status_of(r)),
        DescribeOutcome::RunNotFound => Some(ExecutionStatus::Unknown),
        DescribeOutcome::Unavailable => None,
    }
}

/// The record to write back for `rec` after a poll that found `st`: same identifiers, new status.
pub open spec fn polled_record(rec: ModelView, st: ExecutionStatus) -> ModelView {
    ModelView { status: st, ..rec }
}

/// The table after reconciling `rec` against `outcome`.
pub open spec fn reconcile_effect(
    rows: Seq<ModelView>,
    rec: ModelView,
    outcome: DescribeOutcome,
) -> Seq<ModelView> {
    match polled_status(outcome) {
        Some(st) => replace_record(rows, polled_record(rec, st)),
        None => rows,
    }
}

/// Inserts the record that `input` describes; fails with `Conflict` where its id is taken.
pub fn create_execution(db: &mut ExecutionStore, input: ExecutionInput) -> (r: Result<
    Model,
    StoreError,
>)
    requires
        old(db).wf(),
    ensures
        final(db).wf(),
        contains_id(old(db)@, input.id) ==> r == Err::<Model, StoreError>(StoreError::Conflict)
            && final(db)@ == old(db)@,
        !contains_id(old(db)@, input.id) ==> (r matches Ok(m) && m@ == record_of(input.id, input)
            && final(db)@ == old(db)@.push(record_of(input.id, input))),
{
    let id = input.id;
    db.insert(Model::from_input(id, input))
}

/// The record to store for a run that the engine was asked to start: none where the start
/// failed, else a `RUNNING` record under `id` pointing at the started run.
pub fn plan_create(id: u128, started: Result<(String, String), EngineError>) -> (r: Result<
    ExecutionInput,
    EngineError,
>)
    ensures
        started matches Err(e) ==> r == Err::<ExecutionInput, EngineError>(e),
        started is Ok ==> (r matches Ok(input) && input.id == id && record_of(id, input) == (
        ModelView {
            id,
            workflow_id: started->Ok_0.0@,
            run_id: started->Ok_0.1@,
            status: ExecutionStatus::Running,
        })),
{
    match started {
        Err(e) => Err(e),
        Ok((workflow_id, run_id)) => Ok(
            ExecutionInput { id, workflow_id, run_id, status: ExecutionStatus::Running },
        ),
    }
}

/// Records a new execution once the engine has answered the request to start its run.
/// A failed start writes nothing; a started run gets exactly one `RUNNING` record.
pub fn add_execution(
    db: &mut ExecutionStore,
    id: u128,
    started: Result<(String, String), EngineError>,
) -> (r: Result<Model, CreateError>)
    requires
        old(db).wf(),
    ensures
        final(db).wf(),
        started matches Err(e) ==> r == Err::<Model, CreateError>(CreateError::Engine(e))
            && final(db)@ == old(db)@,
        started is Ok && contains_id(old(db)@, id) ==> r == Err::<Model, CreateError>(
            CreateError::Store(StoreError::Conflict),
        ) && final(db)@ == old(db)@,
        started is Ok && !contains_id(old(db)@, id) ==> (r matches Ok(m) && m@ == (ModelView {
            id,
            workflow_id: started->Ok_0.0@,
            run_id: started->Ok_0.1@,
            status: ExecutionStatus::Running,
        }) && final(db)@ == old(db)@.push(m@)),
{
    match plan_create(id, started) {
        Err(e) => Err(CreateError::Engine(e)),
        Ok(input) => match create_execution(db, input) {
            Ok(m) => Ok(m),
            Err(e) => Err(CreateError::Store(e)),
        },
    }
}

/// The record keyed `id`; `None` is the ordinary answer for a missing record.
pub fn get_execution_by_id(db: &ExecutionStore, id: u128) -> (r: Option<Model>)
    requires
        db.wf(),
    ensures
        r is None <==> !contains_id(db@, id),
        r matches Some(m) ==> m@.id == id && db@.contains(m@),
{
    db.find_by_id(id)
}

/// Overwrites the identifiers and status of the record keyed `id`; `NotFound` where it is absent.
pub fn update_execution(db: &mut ExecutionStore, id: u128, input: ExecutionInput) -> (r: Result<
    Model,
    StoreError,
>)
    requires
        old(db).wf(),
    ensures
        final(db).wf(),
        !contains_id(old(db)@, id) ==> r == Err::<Model, StoreError>(StoreError::NotFound)
            && final(db)@ == old(db)@,
        contains_id(old(db)@, id) ==> (r matches Ok(m) && m@ == record_of(id, input)
            && final(db)@ == replace_record(old(db)@, record_of(id, input))),
{
    db.update(id, input)
}

/// Deletes the record keyed `id`; returns the number of records removed.
/// The remote run is not cancelled: only the local record goes.
pub fn delete_execution(db: &mut ExecutionStore, id: u128) -> (r: u64)
    requires
        old(db).wf(),
    ensures
        final(db).wf(),
        !contains_id(final(db)@, id),
        !contains_id(old(db)@, id) ==> r == 0 && final(db)@ == old(db)@,
        contains_id(old(db)@, id) ==> r == 1 && exists|k: int|
            0 <= k < old(db)@.len() && old(db)@[k].id == id && final(db)@ == old(db)@.remove(k),
{
    db.delete(id)
}

/// Every record.
pub fn list_executions(db: &ExecutionStore) -> (r: Vec<Model>)
    ensures
        views_of(r@) == db@,
{
    db.list_all()
}

/// The records that reconciliation polls: those still `RUNNING`. None of them is terminal.
pub fn list_incomplete_executions(db: &ExecutionStore) -> (r: Vec<Model>)
    ensures
        views_of(r@) == with_status(db@, ExecutionStatus::Running),
        forall|j: int| 0 <= j < r@.len() ==> !is_terminal_status(#[trigger] r@[j].status),
{
    let r = db.list_by_status(ExecutionStatus::Running);
    proof {
        assert forall|j: int| 0 <= j < r@.len() implies !is_terminal_status(
            #[trigger] r@[j].status,
        ) by {
            db@.lemma_filter_pred(|x: ModelView| x.status == ExecutionStatus::Running, j);
            assert(views_of(r@)[j] == r@[j]@);
        }
    }
    r
}

/// The status to store for a record after a poll; `None` where the engine was unreachable.
pub fn plan_status(outcome: DescribeOutcome) -> (r: Option<ExecutionStatus>)
    ensures
        r == polled_status(outcome),
{
    match outcome {
        DescribeOutcome::Reported(s) => Some(map_remote_status(s)),
        DescribeOutcome::RunNotFound => Some(ExecutionStatus::Unknown),
        DescribeOutcome::Unavailable => None,
    }
}

/// The update to write for `rec` after a poll: its own identifiers with the polled status.
pub fn plan_reconcile(rec: &Model, outcome: DescribeOutcome) -> (r: Option<ExecutionInput>)
    ensures
        r is None <==> polled_status(outcome) is None,
        r matches Some(input) ==> record_of(rec.id, input) == polled_record(
            rec@,
            polled_status(outcome)->Some_0,
        ) && input.id == rec.id,
{
    match plan_status(outcome) {
        None => None,
        Some(status) => Some(
            ExecutionInput {
                id: rec.id,
                workflow_id: rec.workflow_id.clone(),
                run_id: rec.run_id.clone(),
                status,
            },
        ),
    }
}

/// Applies the outcome of polling the engine for `rec`. An unreachable engine writes
/// nothing; a record deleted meanwhile is reported, not treated as fatal.
pub fn reconcile_one(db: &mut ExecutionStore, rec: &Model, outcome: DescribeOutcome) -> (r: Result<
    Model,
    ReconcileError,
>)
    requires
        old(db).wf(),
    ensures
        final(db).wf(),
        final(db)@ == reconcile_effect(old(db)@, rec@, outcome),
        outcome == DescribeOutcome::Unavailable <==> r == Err::<Model, ReconcileError>(
            ReconcileError::EngineUnavailable,
        ),
        outcome != DescribeOutcome::Unavailable && !contains_id(old(db)@, rec.id) ==> r == Err::<
            Model,
            ReconcileError,
        >(ReconcileError::RecordGone),
        r matches Ok(m) ==> contains_id(old(db)@, rec.id) && m@ == polled_record(
            rec@,
            polled_status(outcome)->Some_0,
        ),
{
    match plan_reconcile(rec, outcome) {
        None => Err(ReconcileError::EngineUnavailable),
        Some(input) => {
            let id = rec.id;
            match db.update(id, input) {
                Ok(m) => Ok(m),
                Err(_) => {
                    proof {
                        assert(replace_record(old(db)@, record_of(id, input)) =~= old(db)@);
                    }
                    Err(ReconcileError::RecordGone)
                },
            }
        },
    }
}

/// After a successful delete of `id`, looking `id` up finds nothing.
pub proof fn lemma_get_after_delete(rows: Seq<ModelView>, k: int)
    requires
        ids_unique(rows),
        0 <= k < rows.len(),
    ensures
        !contains_id(rows.remove(k), rows[k].id),
{
    let after = rows.remove(k);
    assert forall|i: int| 0 <= i < after.len() implies #[trigger] after[i].id != rows[k].id by {
        if i < k {
            assert(rows[i].id != rows[k].id);
        } else {
            assert(after[i] == rows[i + 1]);
            assert(rows[k].id != rows[i + 1].id);
        }
    }
}

/// Reconciling a stored record whose run the engine reports completed stores `COMPLETE`
/// for it, and the record is no longer among the incomplete ones.
pub proof fn lemma_completed_leaves_incomplete(rows: Seq<ModelView>, rec: ModelView)
    requires
        contains_id(rows, rec.id),
    ensures
        ({
            let after = reconcile_effect(rows, rec, DescribeOutcome::Reported(RemoteStatus::Completed));
            &&& forall|i: int| 0 <= i < after.len() && #[trigger] after[i].id == rec.id
                ==> after[i].status == ExecutionStatus::Complete
            &&& contains_id(after, rec.id)
            &&& forall|j: int| 0 <= j < with_status(after, ExecutionStatus::Running).len()
                ==> #[trigger] with_status(after, ExecutionStatus::Running)[j].id != rec.id
        }),
{
    let after = reconcile_effect(rows, rec, DescribeOutcome::Reported(RemoteStatus::Completed));
    let k = choose|k: int| 0 <= k < rows.len() && #[trigger] rows[k].id == rec.id;
    assert(after[k].id == rec.id);
    let pred = |x: ModelView| x.status == ExecutionStatus::Running;
    assert forall|j: int| 0 <= j < with_status(after, ExecutionStatus::Running).len()
        implies #[trigger] with_status(after, ExecutionStatus::Running)[j].id != rec.id by {
        let x = after.filter(pred)[j];
        after.lemma_filter_pred(pred, j);
        assert(after.filter(pred).contains(x));
        after.lemma_filter_contains_rev(pred, x);
        let i = choose|i: int| 0 <= i < after.len() && after[i] == x;
        assert(after[i].id == x.id);
    }
}

/// Reconciling the same record twice against an unchanged remote status stores the same
/// table as reconciling it once.
pub proof fn lemma_reconcile_idempotent(
    rows: Seq<ModelView>,
    rec: ModelView,
    outcome: DescribeOutcome,
)
    ensures
        reconcile_effect(reconcile_effect(rows, rec, outcome), rec, outcome) == reconcile_effect(
            rows,
            rec,
            outcome,
        ),
{
    assert(reconcile_effect(reconcile_effect(rows, rec, outcome), rec, outcome) =~= reconcile_effect(
        rows,
        rec,
        outcome,
    ));
}

} // verus!
