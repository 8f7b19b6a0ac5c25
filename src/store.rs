use vstd::prelude::*;

use crate::execution::{ExecutionInput, Model, ModelView, record_of, views_of};
use crate::status::ExecutionStatus;

verus! {

/// Why a store operation refused to act.
#[derive(Clone, Copy, Debug, PartialEq, Eq, Structural)]
pub enum StoreError {
    /// A record with this id already exists.
    Conflict,
    /// No record with this id exists.
    NotFound,
}

/// Whether some record of `rows` has the key `id`.
pub open spec fn contains_id(rows: Seq<ModelView>, id: u128) -> bool {
    exists|i: int| 0 <= i < rows.len() && #[trigger] rows[i].id == id
}

/// No two records share a key.
pub open spec fn ids_unique(rows: Seq<ModelView>) -> bool {
    forall|i: int, j: int| 0 <= i < j < rows.len() ==> #[trigger] rows[i].id != #[trigger] rows[j].id
}

/// `rows` with the record keyed `m.id` replaced by `m`; unchanged where no record has that key.
pub open spec fn replace_record(rows: Seq<ModelView>, m: ModelView) -> Seq<ModelView> {
    rows.map_values(|x: ModelView| if x.id == m.id { m } else { x })
}

/// The records of `rows` whose status is `st`, in order.
pub open spec fn with_status(rows: Seq<ModelView>, st: ExecutionStatus) -> Seq<ModelView> {
    rows.filter(|x: ModelView| x.status == st)
}

/// An in-memory table of execution records keyed by `id`, kept in insertion order.
pub struct ExecutionStore {
    rows: Vec<Model>,
}

impl View for ExecutionStore {
    type V = Seq<ModelView>;

    closed spec fn view(&self) -> Seq<ModelView> {
        views_of(self.rows@)
    }
}

impl ExecutionStore {
    pub open spec fn wf(&self) -> bool {
        ids_unique(self@)
    }

    pub fn new() -> (r: ExecutionStore)
        ensures
            r@ == Seq::<ModelView>::empty(),
            r.wf(),
    {
        let r = ExecutionStore { rows: Vec::new() };
        assert(r@ =~= Seq::<ModelView>::empty());
        r
    }

    pub fn len(&self) -> (r: usize)
        ensures
            r == self@.len(),
    {
        self.rows.len()
    }

    fn index_of(&self, id: u128) -> (r: Option<usize>)
        ensures
            r matches Some(k) ==> k < self@.len() && self@[k as int].id == id,
            r is None ==> !contains_id(self@, id),
    {
        let mut i: usize = 0;
        while i < self.rows.len()
            invariant
                i <= self.rows.len(),
                self@.len() == self.rows.len(),
                forall|j: int| 0 <= j < i ==> #[trigger] self@[j].id != id,
            decreases self.rows.len() - i,
        {
            if self.rows[i].id == id {
                return Some(i);
            }
            i = i + 1;
        }
        None
    }

    /// Stores a new record; fails with `Conflict` where its id is taken.
    pub fn insert(&mut self, rec: Model) -> (r: Result<Model, StoreError>)
        requires
            old(self).wf(),
        ensures
            final(self).wf(),
            contains_id(old(self)@, rec.id) ==> r == Err::<Model, StoreError>(
                StoreError::Conflict,
            ) && final(self)@ == old(self)@,
            !contains_id(old(self)@, rec.id) ==> (r matches Ok(m) && m@ == rec@ && final(self)@
                == old(self)@.push(rec@)),
    {
        if self.index_of(rec.id).is_some() {
            return Err(StoreError::Conflict);
        }
        let out = rec.snapshot();
        self.rows.push(rec);
        assert(self@ =~= old(self)@.push(out@));
        proof {
            assert forall|i: int, j: int| 0 <= i < j < self@.len() implies #[trigger] self@[i].id
                != #[trigger] self@[j].id by {
                if j == self@.len() - 1 {
                    assert(old(self)@[i].id == self@[i].id);
                }
            }
        }
        Ok(out)
    }

    /// The record keyed `id`, if any; a missing record is an ordinary empty result.
    pub fn find_by_id(&self, id: u128) -> (r: Option<Model>)
        requires
            self.wf(),
        ensures
            r is None <==> !contains_id(self@, id),
            r matches Some(m) ==> m@.id == id && self@.contains(m@),
    {
        match self.index_of(id) {
            Some(k) => Some(self.rows[k].snapshot()),
            None => None,
        }
    }

    /// Overwrites the workflow id, run id and status of the record keyed `id`.
    pub fn update(&mut self, id: u128, input: ExecutionInput) -> (r: Result<Model, StoreError>)
        requires
            old(self).wf(),
        ensures
            final(self).wf(),
            !contains_id(old(self)@, id) ==> r == Err::<Model, StoreError>(StoreError::NotFound)
                && final(self)@ == old(self)@,
            contains_id(old(self)@, id) ==> (r matches Ok(m) && m@ == record_of(id, input)
                && final(self)@ == replace_record(old(self)@, record_of(id, input))),
    {
        match self.index_of(id) {
            None => {
                proof {
                    assert(replace_record(self@, record_of(id, input)) =~= self@);
                }
                Err(StoreError::NotFound)
            },
            Some(k) => {
                let m = Model::from_input(id, input);
                let out = m.snapshot();
                self.rows.set(k, m);
                proof {
                    let new = record_of(id, input);
                    assert(self@ =~= replace_record(old(self)@, new)) by {
                        assert forall|j: int| 0 <= j < self@.len() implies self@[j]
                            == replace_record(old(self)@, new)[j] by {
                            if j != k {
                                if j < k {
                                    assert(old(self)@[j].id != old(self)@[k as int].id);
                                } else {
                                    assert(old(self)@[k as int].id != old(self)@[j].id);
                                }
                            }
                        }
                    }
                    assert forall|i: int, j: int| 0 <= i < j < self@.len() implies #[trigger] self@[i].id
                        != #[trigger] self@[j].id by {
                        assert(old(self)@[i].id != old(self)@[j].id);
                    }
                }
                Ok(out)
            },
        }
    }

    /// Removes the record keyed `id`, if present; returns how many records were removed.
    pub fn delete(&mut self, id: u128) -> (r: u64)
        requires
            old(self).wf(),
        ensures
            final(self).wf(),
            !contains_id(final(self)@, id),
            !contains_id(old(self)@, id) ==> r == 0 && final(self)@ == old(self)@,
            contains_id(old(self)@, id) ==> r == 1 && exists|k: int|
                0 <= k < old(self)@.len() && old(self)@[k].id == id && final(self)@ == old(
                    self,
                )@.remove(k),
    {
        match self.index_of(id) {
            None => 0,
            Some(k) => {
                self.rows.remove(k);
                proof {
                    let o = old(self)@;
                    assert(self@ =~= o.remove(k as int));
                    assert forall|i: int, j: int| 0 <= i < j < self@.len() implies #[trigger] self@[i].id
                        != #[trigger] self@[j].id by {
                        let oi = if i < k { i } else { i + 1 };
                        let oj = if j < k { j } else { j + 1 };
                        assert(o[oi].id != o[oj].id);
                    }
                    assert forall|i: int| 0 <= i < self@.len() implies #[trigger] self@[i].id != id by {
                        let oi = if i < k { i } else { i + 1 };
                        if oi < k {
                            assert(o[oi].id != o[k as int].id);
                        } else {
                            assert(o[k as int].id != o[oi].id);
                        }
                    }
                }
                1
            },
        }
    }

    /// Every record, in insertion order.
    pub fn list_all(&self) -> (r: Vec<Model>)
        ensures
            views_of(r@) == self@,
    {
        let mut out: Vec<Model> = Vec::new();
        let mut i: usize = 0;
        while i < self.rows.len()
            invariant
                i <= self.rows.len(),
                self@.len() == self.rows.len(),
                views_of(out@) == self@.subrange(0, i as int),
            decreases self.rows.len() - i,
        {
            let ghost before = out@;
            out.push(self.rows[i].snapshot());
            assert(out@ == before.push(out@.last()));
            assert(views_of(out@) =~= views_of(before).push(self@[i as int]));
            i = i + 1;
            assert(views_of(out@) =~= self@.subrange(0, i as int));
        }
        assert(self@.subrange(0, i as int) =~= self@);
        out
    }

    /// The records whose status is `st`, in insertion order.
    pub fn list_by_status(&self, st: ExecutionStatus) -> (r: Vec<Model>)
        ensures
            views_of(r@) == with_status(self@, st),
    {
        let mut out: Vec<Model> = Vec::new();
        let mut i: usize = 0;
        while i < self.rows.len()
            invariant
                i <= self.rows.len(),
                self@.len() == self.rows.len(),
                views_of(out@) == with_status(self@.subrange(0, i as int), st),
            decreases self.rows.len() - i,
        {
            let ghost prefix = self@.subrange(0, i as int);
            let ghost next = self@.subrange(0, i + 1);
            assert(next.drop_last() =~= prefix);
            reveal(Seq::filter);
            if self.rows[i].status == st {
                out.push(self.rows[i].snapshot());
            }
            i = i + 1;
            assert(views_of(out@) =~= with_status(self@.subrange(0, i as int), st));
        }
        assert(self@.subrange(0, i as int) =~= self@);
        out
    }
}

} // verus!
