use vstd::prelude::*;

use crate::status::ExecutionStatus;

verus! {

/// A locally persisted execution record, pointing at exactly one remote run.
#[derive(Clone, Debug)]
pub struct Model {
    /// Local primary key.
    pub id: u128,
    /// Workflow identifier chosen at start time.
    pub workflow_id: String,
    /// Run identifier assigned by the engine.
    pub run_id: String,
    pub status: ExecutionStatus,
}

/// The values of a record, as the contracts see them.
pub struct ModelView {
    pub id: u128,
    pub workflow_id: Seq<char>,
    pub run_id: Seq<char>,
    pub status: ExecutionStatus,
}

impl View for Model {
    type V = ModelView;

    open spec fn view(&self) -> ModelView {
        ModelView {
            id: self.id,
            workflow_id: self.workflow_id@,
            run_id: self.run_id@,
            status: self.status,
        }
    }
}

/// The fields written when a record is created or updated.
#[derive(Clone, Debug)]
pub struct ExecutionInput {
    pub id: u128,
    pub workflow_id: String,
    pub run_id: String,
    pub status: ExecutionStatus,
}

/// The record that `input` describes, under the key `id`.
pub open spec fn record_of(id: u128, input: ExecutionInput) -> ModelView {
    ModelView {
        id,
        workflow_id: input.workflow_id@,
        run_id: input.run_id@,
        status: input.status,
    }
}

/// The views of a sequence of records.
pub open spec fn views_of(s: Seq<Model>) -> Seq<ModelView> {
    s.map_values(|m: Model| m@)
}

impl Model {
    /// A field-by-field copy of this record.
    pub fn snapshot(&self) -> (r: Model)
        ensures
            r@ == self@,
    {
        Model {
            id: self.id,
            workflow_id: self.workflow_id.clone(),
            run_id: self.run_id.clone(),
            status: self.status,
        }
    }

    /// The record that `input` describes, under the key `id`.
    pub fn from_input(id: u128, input: ExecutionInput) -> (r: Model)
        ensures
            r@ == record_of(id, input),
    {
        Model { id, workflow_id: input.workflow_id, run_id: input.run_id, status: input.status }
    }
}

} // verus!
