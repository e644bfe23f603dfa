//! The service facade: binds exactly one repository — chosen at process
//! construction — to the outward surface. Every call delegates to the
//! matching repository operation, encodes a successful result for the
//! wire, and maps a repository error to its outward status.

use vstd::prelude::*;
use crate::error::Error;
use crate::repository::{
    created_view, lemma_table_at, replaces, table_of, unique_ids, Repository,
};
use crate::status::{status_of_error, Status};
use crate::wire::{lemma_wire_round_trip, to_wire, to_wire_list, todo_of_wire, wire_of, WireTodo};

verus! {

/// An error status a backend fault may surface as.
pub open spec fn fault_status(st: Status) -> bool {
    exists|e: Error| #[trigger] status_of_error(e) == st@ && e is SQLError
}

/// The facade over one bound repository.
pub struct TodoServiceImpl<R: Repository> {
    pub repo: R,
}

impl<R: Repository> TodoServiceImpl<R> {
    pub fn new(repo: R) -> (r: TodoServiceImpl<R>)
        ensures
            r.repo == repo,
    {
        TodoServiceImpl { repo }
    }

    /// The whole table, encoded for the wire: decoding the snapshot gives
    /// back exactly the repository's records.
    pub fn list(&self) -> (r: Result<Vec<WireTodo>, Status>)
        requires
            self.repo.wf(),
        ensures
            r matches Ok(v) ==> ({
                let decoded = v@.map_values(|w: WireTodo| todo_of_wire(w@));
                &&& unique_ids(decoded)
                &&& table_of(decoded) == self.repo.table()
            }),
            r matches Err(st) ==> fault_status(st),
    {
        match self.repo.list() {
            Ok(todos) => {
                proof {
                    self.repo.lemma_wf_table();
                    assert forall|i: int| 0 <= i < todos@.len() implies (#[trigger] todos@[i])@.valid() by {
                        let rows = crate::repository::views_of(todos@);
                        assert(rows[i] == todos@[i]@);
                        lemma_table_at(rows, i);
                    }
                }
                let encoded = to_wire_list(&todos);
                proof {
                    let rows = crate::repository::views_of(todos@);
                    let decoded = encoded@.map_values(|w: WireTodo| todo_of_wire(w@));
                    assert forall|i: int| 0 <= i < rows.len() implies decoded[i] == rows[i] by {
                        assert(rows[i] == todos@[i]@);
                        assert(encoded@[i]@ == wire_of(todos@[i]@));
                        lemma_wire_round_trip(todos@[i]@);
                    }
                    assert(decoded =~= rows);
                }
                Ok(encoded)
            },
            Err(e) => {
                let st = Status::from_error(e);
                proof {
                    assert(status_of_error(e) == st@ && e is SQLError);
                }
                Err(st)
            },
        }
    }

    /// The record carrying `id`, encoded for the wire.
    pub fn get_by_id(&self, id: &String) -> (r: Result<WireTodo, Status>)
        requires
            self.repo.wf(),
        ensures
            r matches Ok(w) ==> self.repo.table().contains_key(id@) && todo_of_wire(w@)
                == self.repo.table()[id@],
            r matches Err(st) ==> (st@ == status_of_error(Error::NotFound)
                && !self.repo.table().contains_key(id@)) || fault_status(st),
    {
        match self.repo.get(id) {
            Ok(todo) => {
                proof {
                    self.repo.lemma_wf_table();
                    lemma_wire_round_trip(todo@);
                }
                Ok(to_wire(&todo))
            },
            Err(e) => {
                let st = Status::from_error(e);
                proof {
                    if e is SQLError {
                        assert(status_of_error(e) == st@);
                    }
                }
                Err(st)
            },
        }
    }

    /// A new record from the given fields, encoded for the wire.
    pub fn create(&mut self, title: String, body: String) -> (r: Result<WireTodo, Status>)
        requires
            old(self).repo.wf(),
        ensures
            final(self).repo.wf(),
            r matches Ok(w) ==> ({
                let t = todo_of_wire(w@);
                &&& !old(self).repo.table().contains_key(t.id)
                &&& t == created_view(t.id, title@, body@, t.created_at)
                &&& final(self).repo.table() == old(self).repo.table().insert(t.id, t)
            }),
            r matches Err(st) ==> (st@ == status_of_error(Error::IDGenerationError) || fault_status(
                st,
            )) && final(self).repo.table() == old(self).repo.table(),
    {
        match self.repo.create(title, body) {
            Ok(todo) => {
                proof {
                    lemma_wire_round_trip(todo@);
                }
                Ok(to_wire(&todo))
            },
            Err(e) => {
                let st = Status::from_error(e);
                proof {
                    if e is SQLError {
                        assert(status_of_error(e) == st@);
                    }
                }
                Err(st)
            },
        }
    }

    /// Full replacement of the record's mutable fields, encoded for the
    /// wire.
    pub fn update(&mut self, id: &String, title: String, body: String, is_completed: bool) -> (r:
        Result<WireTodo, Status>)
        requires
            old(self).repo.wf(),
        ensures
            final(self).repo.wf(),
            r matches Ok(w) ==> ({
                let t = todo_of_wire(w@);
                &&& old(self).repo.table().contains_key(id@)
                &&& replaces(old(self).repo.table()[id@], title@, body@, is_completed, t)
                &&& final(self).repo.table() == old(self).repo.table().insert(id@, t)
            }),
            r matches Err(st) ==> ((st@ == status_of_error(Error::NotFound) && !old(
                self,
            ).repo.table().contains_key(id@)) || fault_status(st)) && final(self).repo.table()
                == old(self).repo.table(),
    {
        match self.repo.update(id, title, body, is_completed) {
            Ok(todo) => {
                proof {
                    lemma_wire_round_trip(todo@);
                }
                Ok(to_wire(&todo))
            },
            Err(e) => {
                let st = Status::from_error(e);
                proof {
                    if e is SQLError {
                        assert(status_of_error(e) == st@);
                    }
                }
                Err(st)
            },
        }
    }

    /// Removes the record carrying `id`.
    pub fn delete(&mut self, id: &String) -> (r: Result<(), Status>)
        requires
            old(self).repo.wf(),
        ensures
            final(self).repo.wf(),
            r is Ok ==> old(self).repo.table().contains_key(id@) && final(self).repo.table()
                == old(self).repo.table().remove(id@),
            r matches Err(st) ==> ((st@ == status_of_error(Error::NotFound) && !old(
                self,
            ).repo.table().contains_key(id@)) || fault_status(st)) && final(self).repo.table()
                == old(self).repo.table(),
    {
        match self.repo.delete(id) {
            Ok(_) => Ok(()),
            Err(e) => {
                let st = Status::from_error(e);
                proof {
                    if e is SQLError {
                        assert(status_of_error(e) == st@);
                    }
                }
                Err(st)
            },
        }
    }

    /// First completion of the record carrying `id`, encoded for the
    /// wire; a repeat is rejected with the invalid-argument status.
    pub fn complete(&mut self, id: &String) -> (r: Result<WireTodo, Status>)
        requires
            old(self).repo.wf(),
        ensures
            final(self).repo.wf(),
            r matches Ok(w) ==> ({
                let t = todo_of_wire(w@);
                &&& old(self).repo.table().contains_key(id@)
                &&& !old(self).repo.table()[id@].is_completed
                &&& crate::repository::completes(old(self).repo.table()[id@], t)
                &&& final(self).repo.table() == old(self).repo.table().insert(id@, t)
            }),
            r matches Err(st) ==> ({
                ||| (st@ == status_of_error(Error::NotFound) && !old(self).repo.table().contains_key(
                    id@,
                ))
                ||| (st@ == status_of_error(Error::AlreadyCompleted) && old(
                    self,
                ).repo.table().contains_key(id@) && old(self).repo.table()[id@].is_completed)
                ||| fault_status(st)
            }) && final(self).repo.table() == old(self).repo.table(),
    {
        match self.repo.complete(id) {
            Ok(todo) => {
                proof {
                    lemma_wire_round_trip(todo@);
                }
                Ok(to_wire(&todo))
            },
            Err(e) => {
                let st = Status::from_error(e);
                proof {
                    if e is SQLError {
                        assert(status_of_error(e) == st@);
                    }
                }
                Err(st)
            },
        }
    }
}

} // verus!
