//! The in-memory backend: the reference implementation of the storage
//! contract, one table of records held in process memory.
//!
//! Callers that run operations concurrently serialize them through one
//! coarse reader/writer lock around the whole repository — any number of
//! readers, writers exclusive — so each method here is the body of one
//! critical section and works on the table undisturbed.

use vstd::prelude::*;
use crate::error::Error;
use crate::idgen;
use crate::model::{Todo, TodoView};
use crate::repository::{
    completed_view, contains_id, created_view, index_of_id, lemma_replaced_view, lemma_table_at,
    lemma_table_finite, lemma_table_push, lemma_table_remove, lemma_table_update, replaced_view,
    table_of, unique_ids, views_of, Repository,
};
use crate::timestamp::{now, Timestamp};

verus! {

/// The reference backend: records in insertion order, with an identifier
/// generator of its own. Identifiers are checked against the table on
/// creation, so they stay unique even if the generator were to repeat
/// itself.
pub struct MemoryRepository {
    items: Vec<Todo>,
    id_gen: libxid::Generator,
}

impl MemoryRepository {
    /// The rows of the table, in insertion order.
    pub closed spec fn rows(&self) -> Seq<TodoView> {
        views_of(self.items@)
    }

    pub fn new() -> (r: MemoryRepository)
        ensures
            r.wf(),
            r.rows() == Seq::<TodoView>::empty(),
            r.table() == Map::<Seq<char>, TodoView>::empty(),
    {
        let r = MemoryRepository { items: Vec::new(), id_gen: libxid::new_generator() };
        proof {
            assert(r.rows() =~= Seq::<TodoView>::empty());
            assert(r.table() =~= Map::<Seq<char>, TodoView>::empty());
        }
        r
    }

    /// The index of the record carrying `id`, if any.
    fn find(&self, id: &String) -> (r: Option<usize>)
        ensures
            r matches Some(i) ==> i < self.items@.len() && self.rows()[i as int].id == id@,
            r is None ==> !contains_id(self.rows(), id@),
    {
        let mut i: usize = 0;
        while i < self.items.len()
            invariant
                i <= self.items@.len(),
                forall|j: int| 0 <= j < i ==> (#[trigger] self.rows()[j]).id != id@,
            decreases self.items@.len() - i,
        {
            if self.items[i].id == *id {
                return Some(i);
            }
            i += 1;
        }
        None
    }

    /// The deterministic core of `create`: the caller supplies the fresh
    /// identifier and the creation instant, and the new record is exactly
    /// [`created_view`] of them.
    pub fn create_with(&mut self, id: String, title: String, body: String, now_ts: Timestamp) -> (r:
        Todo)
        requires
            old(self).wf(),
            !contains_id(old(self).rows(), id@),
            now_ts.valid(),
        ensures
            final(self).wf(),
            r@ == created_view(id@, title@, body@, now_ts),
            final(self).rows() == old(self).rows().push(r@),
            final(self).table() == old(self).table().insert(id@, r@),
    {
        let todo = Todo {
            id,
            title,
            body,
            is_completed: false,
            created_at: now_ts,
            updated_at: now_ts,
        };
        let ghost tv = todo@;
        let ghost rows0 = self.rows();
        let result = todo.clone();
        self.items.push(todo);
        proof {
            assert(self.rows() =~= rows0.push(tv));
            lemma_table_push(rows0, tv);
        }
        result
    }

    /// The deterministic core of `update`: the caller supplies the clock
    /// reading, and the replaced record is exactly [`replaced_view`] of
    /// the stored one.
    pub fn update_with(
        &mut self,
        id: &String,
        title: String,
        body: String,
        is_completed: bool,
        now_ts: Timestamp,
    ) -> (r: Result<Todo, Error>)
        requires
            old(self).wf(),
            now_ts.valid(),
        ensures
            final(self).wf(),
            old(self).table().contains_key(id@) ==> (r matches Ok(t) && t@ == replaced_view(
                old(self).table()[id@],
                title@,
                body@,
                is_completed,
                now_ts,
            ) && final(self).table() == old(self).table().insert(id@, t@)),
            !old(self).table().contains_key(id@) ==> r == Err::<Todo, Error>(Error::NotFound)
                && *final(self) == *old(self),
    {
        match self.find(id) {
            None => Err(Error::NotFound),
            Some(i) => {
                proof {
                    lemma_table_at(self.rows(), i as int);
                }
                let prev_created = self.items[i].created_at;
                let prev_updated = self.items[i].updated_at;
                let old_id = self.items[i].id.clone();
                let updated = Todo {
                    id: old_id,
                    title,
                    body,
                    is_completed,
                    created_at: prev_created,
                    updated_at: prev_updated.advance(&now_ts),
                };
                let ghost tv = updated@;
                let ghost rows0 = self.rows();
                let result = updated.clone();
                self.items[i] = updated;
                proof {
                    assert(self.rows() =~= rows0.update(i as int, tv));
                    lemma_table_update(rows0, i as int, tv);
                    lemma_replaced_view(rows0[i as int], title@, body@, is_completed, now_ts);
                }
                Ok(result)
            },
        }
    }

    /// The deterministic core of `complete`: the caller supplies the
    /// clock reading, and a first completion leaves exactly
    /// [`completed_view`] of the stored record.
    pub fn complete_with(&mut self, id: &String, now_ts: Timestamp) -> (r: Result<Todo, Error>)
        requires
            old(self).wf(),
            now_ts.valid(),
        ensures
            final(self).wf(),
            old(self).table().contains_key(id@) && !old(self).table()[id@].is_completed ==> (r
                matches Ok(t) && t@ == completed_view(old(self).table()[id@], now_ts)
                && final(self).table() == old(self).table().insert(id@, t@)),
            old(self).table().contains_key(id@) && old(self).table()[id@].is_completed ==> r
                == Err::<Todo, Error>(Error::AlreadyCompleted) && *final(self) == *old(self),
            !old(self).table().contains_key(id@) ==> r == Err::<Todo, Error>(Error::NotFound)
                && *final(self) == *old(self),
    {
        match self.find(id) {
            None => Err(Error::NotFound),
            Some(i) => {
                proof {
                    lemma_table_at(self.rows(), i as int);
                }
                if self.items[i].is_completed {
                    return Err(Error::AlreadyCompleted);
                }
                let prev_created = self.items[i].created_at;
                let prev_updated = self.items[i].updated_at;
                let old_id = self.items[i].id.clone();
                let old_title = self.items[i].title.clone();
                let old_body = self.items[i].body.clone();
                let completed = Todo {
                    id: old_id,
                    title: old_title,
                    body: old_body,
                    is_completed: true,
                    created_at: prev_created,
                    updated_at: prev_updated.advance(&now_ts),
                };
                let ghost tv = completed@;
                let ghost rows0 = self.rows();
                let result = completed.clone();
                self.items[i] = completed;
                proof {
                    assert(self.rows() =~= rows0.update(i as int, tv));
                    lemma_table_update(rows0, i as int, tv);
                    let prev = rows0[i as int];
                    lemma_replaced_view(prev, prev.title, prev.body, true, now_ts);
                }
                Ok(result)
            },
        }
    }
}

impl Repository for MemoryRepository {
    /// The table is exactly the rows, keyed by identifier.
    closed spec fn table(&self) -> Map<Seq<char>, TodoView> {
        table_of(self.rows())
    }

    /// Identifiers are unique across the rows and every record is valid.
    closed spec fn wf(&self) -> bool {
        &&& unique_ids(self.rows())
        &&& forall|i: int| 0 <= i < self.rows().len() ==> (#[trigger] self.rows()[i]).valid()
    }

    proof fn lemma_wf_table(&self) {
        lemma_table_finite(self.rows());
        assert forall|id: Seq<char>| #[trigger]
            self.table().dom().contains(id) implies self.table()[id].id == id
            && self.table()[id].valid() by {
            let i = index_of_id(self.rows(), id);
            assert(0 <= i < self.rows().len() && self.rows()[i].id == id);
        }
    }

    /// Never fails; the snapshot is the rows in insertion order.
    fn list(&self) -> (r: Result<Vec<Todo>, Error>)
        ensures
            r matches Ok(v) && views_of(v@) == self.rows(),
    {
        let mut out: Vec<Todo> = Vec::new();
        let mut i: usize = 0;
        while i < self.items.len()
            invariant
                i <= self.items@.len(),
                out@.len() == i,
                forall|j: int| 0 <= j < i ==> (#[trigger] out@[j])@ == self.rows()[j],
            decreases self.items@.len() - i,
        {
            out.push(self.items[i].clone());
            i += 1;
        }
        proof {
            assert(views_of(out@) =~= self.rows());
        }
        Ok(out)
    }

    /// Succeeds exactly on the identifiers the table holds.
    fn get(&self, id: &String) -> (r: Result<Todo, Error>)
        ensures
            self.table().contains_key(id@) ==> (r matches Ok(t) && t@ == self.table()[id@]),
            !self.table().contains_key(id@) ==> r == Err::<Todo, Error>(Error::NotFound),
    {
        match self.find(id) {
            Some(i) => {
                proof {
                    lemma_table_at(self.rows(), i as int);
                }
                Ok(self.items[i].clone())
            },
            None => Err(Error::NotFound),
        }
    }

    /// Fails only when identifier allocation fails — with the table
    /// untouched — and otherwise appends the new record to the rows.
    fn create(&mut self, title: String, body: String) -> (r: Result<Todo, Error>)
        ensures
            r matches Err(e) ==> e == Error::IDGenerationError && *final(self) == *old(self),
            r matches Ok(t) ==> idgen::well_formed_id(t@.id) && final(self).rows() == old(
                self,
            ).rows().push(t@),
    {
        let id = match idgen::fresh_id(&self.id_gen) {
            Some(id) => id,
            None => {
                return Err(Error::IDGenerationError);
            },
        };
        match self.find(&id) {
            Some(_) => Err(Error::IDGenerationError),
            None => {
                let now_ts = now();
                Ok(self.create_with(id, title, body, now_ts))
            },
        }
    }

    /// Succeeds exactly on the identifiers the table holds.
    fn update(&mut self, id: &String, title: String, body: String, is_completed: bool) -> (r:
        Result<Todo, Error>)
        ensures
            old(self).table().contains_key(id@) ==> r is Ok,
            !old(self).table().contains_key(id@) ==> r == Err::<Todo, Error>(Error::NotFound)
                && *final(self) == *old(self),
    {
        let now_ts = now();
        self.update_with(id, title, body, is_completed, now_ts)
    }

    /// Succeeds exactly on the identifiers the table holds, and removes
    /// the record from the rows.
    fn delete(&mut self, id: &String) -> (r: Result<(), Error>)
        ensures
            old(self).table().contains_key(id@) ==> r is Ok,
            !old(self).table().contains_key(id@) ==> r == Err::<(), Error>(Error::NotFound)
                && *final(self) == *old(self),
    {
        match self.find(id) {
            None => Err(Error::NotFound),
            Some(i) => {
                proof {
                    lemma_table_at(self.rows(), i as int);
                }
                let ghost rows0 = self.rows();
                self.items.remove(i);
                proof {
                    rows0.remove_ensures(i as int);
                    old(self).items@.remove_ensures(i as int);
                    assert(self.rows() =~= rows0.remove(i as int));
                    lemma_table_remove(rows0, i as int);
                }
                Ok(())
            },
        }
    }

    /// The three outcomes are decided exactly by presence and flag.
    fn complete(&mut self, id: &String) -> (r: Result<Todo, Error>)
        ensures
            old(self).table().contains_key(id@) && !old(self).table()[id@].is_completed ==> r
                is Ok,
            old(self).table().contains_key(id@) && old(self).table()[id@].is_completed ==> r
                == Err::<Todo, Error>(Error::AlreadyCompleted) && *final(self) == *old(self),
            !old(self).table().contains_key(id@) ==> r == Err::<Todo, Error>(Error::NotFound)
                && *final(self) == *old(self),
    {
        let now_ts = now();
        self.complete_with(id, now_ts)
    }
}

} // verus!
