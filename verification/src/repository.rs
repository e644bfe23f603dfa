//! The storage contract: six operations over one logical table of todo
//! records, stated against a mathematical model so that any backend that
//! implements them is interchangeable behind the service facade.
//!
//! The model of a backend's state is a finite map from identifier to
//! record view. A backend that lists its rows hands them out in an order
//! of its own; the contract only fixes which records are present.

use vstd::prelude::*;
use crate::error::Error;
use crate::model::{Todo, TodoView, Todos};
use crate::timestamp::Timestamp;

verus! {

/// The views of a sequence of records.
pub open spec fn views_of(rows: Seq<Todo>) -> Seq<TodoView> {
    rows.map_values(|t: Todo| t@)
}

/// No two rows carry the same identifier.
pub open spec fn unique_ids(rows: Seq<TodoView>) -> bool {
    forall|i: int, j: int|
        0 <= i < rows.len() && 0 <= j < rows.len() && i != j ==> (#[trigger] rows[i]).id != (
        #[trigger] rows[j]).id
}

/// Some row carries the identifier.
pub open spec fn contains_id(rows: Seq<TodoView>, id: Seq<char>) -> bool {
    exists|i: int| 0 <= i < rows.len() && (#[trigger] rows[i]).id == id
}

/// The index of the row carrying the identifier; meaningful only when
/// [`contains_id`] holds and the identifiers are unique.
pub open spec fn index_of_id(rows: Seq<TodoView>, id: Seq<char>) -> int {
    choose|i: int| 0 <= i < rows.len() && (#[trigger] rows[i]).id == id
}

/// The table a sequence of rows represents: each identifier present maps
/// to the row that carries it.
pub open spec fn table_of(rows: Seq<TodoView>) -> Map<Seq<char>, TodoView> {
    Map::new(|id: Seq<char>| contains_id(rows, id), |id: Seq<char>| rows[index_of_id(rows, id)])
}

/// The record `create` makes: the given fields, not completed, both
/// timestamps set to the creation instant.
pub open spec fn created_view(
    id: Seq<char>,
    title: Seq<char>,
    body: Seq<char>,
    now: Timestamp,
) -> TodoView {
    TodoView {
        id: id,
        title: title,
        body: body,
        is_completed: false,
        created_at: now,
        updated_at: now,
    }
}

/// How an updated record relates to the one it replaces: the mutable
/// fields are exactly the given ones, identifier and creation instant are
/// untouched, and the modification timestamp never moves backwards — it
/// moves strictly forward except from the one saturated timestamp, which
/// no clock reading reaches.
pub open spec fn replaces(
    prev: TodoView,
    title: Seq<char>,
    body: Seq<char>,
    is_completed: bool,
    t: TodoView,
) -> bool {
    &&& t.id == prev.id
    &&& t.title == title
    &&& t.body == body
    &&& t.is_completed == is_completed
    &&& t.created_at == prev.created_at
    &&& prev.updated_at.le(t.updated_at)
    &&& (!prev.updated_at.is_saturated() ==> prev.updated_at.lt(t.updated_at))
}

/// How a completed record relates to the one it replaces: only the flag
/// flips, and the modification timestamp advances as under [`replaces`].
pub open spec fn completes(prev: TodoView, t: TodoView) -> bool {
    replaces(prev, prev.title, prev.body, true, t)
}

/// The record `update` leaves for the clock reading `now`: the given
/// mutable fields, identifier and creation instant untouched, the
/// modification timestamp advanced past its old value.
pub open spec fn replaced_view(
    prev: TodoView,
    title: Seq<char>,
    body: Seq<char>,
    is_completed: bool,
    now: Timestamp,
) -> TodoView {
    TodoView {
        id: prev.id,
        title: title,
        body: body,
        is_completed: is_completed,
        created_at: prev.created_at,
        updated_at: prev.updated_at.advanced_to(now),
    }
}

/// The record `complete` leaves for the clock reading `now`: only the
/// flag and the modification timestamp change.
pub open spec fn completed_view(prev: TodoView, now: Timestamp) -> TodoView {
    TodoView {
        id: prev.id,
        title: prev.title,
        body: prev.body,
        is_completed: true,
        created_at: prev.created_at,
        updated_at: prev.updated_at.advanced_to(now),
    }
}

/// The transitions meet [`replaces`] and keep the record valid.
pub proof fn lemma_replaced_view(
    prev: TodoView,
    title: Seq<char>,
    body: Seq<char>,
    is_completed: bool,
    now: Timestamp,
)
    requires
        prev.valid(),
        now.valid(),
    ensures
        replaces(prev, title, body, is_completed, replaced_view(prev, title, body, is_completed, now)),
        replaced_view(prev, title, body, is_completed, now).valid(),
        completed_view(prev, now) == replaced_view(prev, prev.title, prev.body, true, now),
{
}

/// A row with a witness index is the row the table holds for its id.
pub proof fn lemma_table_at(rows: Seq<TodoView>, i: int)
    requires
        unique_ids(rows),
        0 <= i < rows.len(),
    ensures
        table_of(rows).contains_key(rows[i].id),
        table_of(rows)[rows[i].id] == rows[i],
{
    let id = rows[i].id;
    assert(contains_id(rows, id));
    let j = index_of_id(rows, id);
    assert(0 <= j < rows.len() && rows[j].id == id);
    assert(j == i);
}

/// Appending a row with a fresh identifier keeps the identifiers unique
/// and inserts exactly that row into the table.
pub proof fn lemma_table_push(rows: Seq<TodoView>, t: TodoView)
    requires
        unique_ids(rows),
        !contains_id(rows, t.id),
    ensures
        unique_ids(rows.push(t)),
        table_of(rows.push(t)) =~= table_of(rows).insert(t.id, t),
{
    let grown = rows.push(t);
    assert forall|i: int, j: int|
        0 <= i < grown.len() && 0 <= j < grown.len() && i != j implies (#[trigger] grown[i]).id
        != (#[trigger] grown[j]).id by {
        if i < rows.len() && j < rows.len() {
            assert(rows[i].id != rows[j].id);
        } else if j == rows.len() {
            assert(grown[i] == rows[i]);
            assert(rows[i].id != t.id);
        } else {
            assert(grown[j] == rows[j]);
            assert(rows[j].id != t.id);
        }
    }
    assert(grown[rows.len() as int] == t);
    assert forall|id: Seq<char>| #[trigger]
        table_of(grown).contains_key(id) implies table_of(rows).insert(t.id, t).contains_key(
        id,
    ) by {
        let i = choose|i: int| 0 <= i < grown.len() && (#[trigger] grown[i]).id == id;
        if i < rows.len() {
            assert(rows[i].id == id);
            assert(contains_id(rows, id));
        }
    }
    assert forall|id: Seq<char>| #[trigger]
        table_of(rows).insert(t.id, t).contains_key(id) implies table_of(grown).contains_key(
        id,
    ) by {
        if id == t.id {
            assert(grown[rows.len() as int].id == id);
        } else {
            let i = choose|i: int| 0 <= i < rows.len() && (#[trigger] rows[i]).id == id;
            assert(grown[i].id == id);
        }
    }
    assert forall|id: Seq<char>| #[trigger]
        table_of(grown).contains_key(id) implies table_of(grown)[id] == table_of(rows).insert(
        t.id,
        t,
    )[id] by {
        if id == t.id {
            lemma_table_at(grown, rows.len() as int);
        } else {
            let i = choose|i: int| 0 <= i < rows.len() && (#[trigger] rows[i]).id == id;
            assert(grown[i].id == id);
            lemma_table_at(grown, i);
            lemma_table_at(rows, i);
        }
    }
}

/// Replacing the row at a witness index by one carrying the same
/// identifier keeps the identifiers unique and updates exactly that
/// table entry.
pub proof fn lemma_table_update(rows: Seq<TodoView>, i: int, t: TodoView)
    requires
        unique_ids(rows),
        0 <= i < rows.len(),
        t.id == rows[i].id,
    ensures
        unique_ids(rows.update(i, t)),
        table_of(rows.update(i, t)) =~= table_of(rows).insert(t.id, t),
{
    let swapped = rows.update(i, t);
    assert forall|a: int, b: int|
        0 <= a < swapped.len() && 0 <= b < swapped.len() && a != b implies (
    #[trigger] swapped[a]).id != (#[trigger] swapped[b]).id by {
        assert(rows[a].id != rows[b].id);
    }
    assert forall|id: Seq<char>| #[trigger]
        table_of(swapped).contains_key(id) implies table_of(rows).insert(t.id, t).contains_key(
        id,
    ) by {
        let a = choose|a: int| 0 <= a < swapped.len() && (#[trigger] swapped[a]).id == id;
        if a != i {
            assert(rows[a].id == id);
        }
    }
    assert forall|id: Seq<char>| #[trigger]
        table_of(rows).insert(t.id, t).contains_key(id) implies table_of(swapped).contains_key(
        id,
    ) by {
        if id == t.id {
            assert(swapped[i].id == id);
        } else {
            let a = choose|a: int| 0 <= a < rows.len() && (#[trigger] rows[a]).id == id;
            assert(a != i);
            assert(swapped[a].id == id);
        }
    }
    assert forall|id: Seq<char>| #[trigger]
        table_of(swapped).contains_key(id) implies table_of(swapped)[id] == table_of(rows).insert(
        t.id,
        t,
    )[id] by {
        if id == t.id {
            lemma_table_at(swapped, i);
        } else {
            let a = choose|a: int| 0 <= a < rows.len() && (#[trigger] rows[a]).id == id;
            assert(a != i);
            assert(swapped[a].id == id);
            lemma_table_at(swapped, a);
            lemma_table_at(rows, a);
        }
    }
}

/// Removing the row at a witness index keeps the identifiers unique and
/// removes exactly that table entry.
pub proof fn lemma_table_remove(rows: Seq<TodoView>, i: int)
    requires
        unique_ids(rows),
        0 <= i < rows.len(),
    ensures
        unique_ids(rows.remove(i)),
        table_of(rows.remove(i)) =~= table_of(rows).remove(rows[i].id),
{
    let id = rows[i].id;
    let shrunk = rows.remove(i);
    rows.remove_ensures(i);
    assert forall|a: int, b: int|
        0 <= a < shrunk.len() && 0 <= b < shrunk.len() && a != b implies (
    #[trigger] shrunk[a]).id != (#[trigger] shrunk[b]).id by {
        let ra = if a < i { a } else { a + 1 };
        let rb = if b < i { b } else { b + 1 };
        assert(shrunk[a] == rows[ra]);
        assert(shrunk[b] == rows[rb]);
        assert(rows[ra].id != rows[rb].id);
    }
    assert forall|k: Seq<char>| #[trigger]
        table_of(shrunk).contains_key(k) implies table_of(rows).remove(id).contains_key(k) by {
        let a = choose|a: int| 0 <= a < shrunk.len() && (#[trigger] shrunk[a]).id == k;
        let ra = if a < i { a } else { a + 1 };
        assert(shrunk[a] == rows[ra]);
        assert(rows[ra].id == k);
        assert(ra != i);
        assert(k != id);
    }
    assert forall|k: Seq<char>| #[trigger]
        table_of(rows).remove(id).contains_key(k) implies table_of(shrunk).contains_key(k) by {
        let a = choose|a: int| 0 <= a < rows.len() && (#[trigger] rows[a]).id == k;
        assert(a != i);
        let sa = if a < i { a } else { a - 1 };
        assert(shrunk[sa] == rows[a]);
        assert(shrunk[sa].id == k);
    }
    assert forall|k: Seq<char>| #[trigger]
        table_of(shrunk).contains_key(k) implies table_of(shrunk)[k] == table_of(rows).remove(
        id,
    )[k] by {
        let a = choose|a: int| 0 <= a < shrunk.len() && (#[trigger] shrunk[a]).id == k;
        let ra = if a < i { a } else { a + 1 };
        assert(shrunk[a] == rows[ra]);
        assert(rows[ra].id == k);
        assert(ra != i);
        lemma_table_at(shrunk, a);
        lemma_table_at(rows, ra);
    }
}

/// The table of a sequence of rows is finite.
pub proof fn lemma_table_finite(rows: Seq<TodoView>)
    ensures
        table_of(rows).dom().finite(),
{
    broadcast use vstd::seq_lib::seq_to_set_is_finite;

    let ids = rows.map_values(|t: TodoView| t.id);
    assert forall|id: Seq<char>| #[trigger]
        table_of(rows).dom().contains(id) implies ids.to_set().contains(id) by {
        let i = choose|i: int| 0 <= i < rows.len() && (#[trigger] rows[i]).id == id;
        assert(ids[i] == id);
    }
    assert forall|id: Seq<char>| #[trigger]
        ids.to_set().contains(id) implies table_of(rows).dom().contains(id) by {
        let i = choose|i: int| 0 <= i < ids.len() && ids[i] == id;
        assert(rows[i].id == id);
    }
    assert(table_of(rows).dom() =~= ids.to_set());
}

/// The storage contract. Every backend maintains one logical table of
/// records; the operations are stated against that table. A backend may
/// also report a storage fault (`Error::SQLError`) from any operation; the
/// in-memory backend never does, and its implementation strengthens these
/// contracts accordingly.
pub trait Repository: Sized {
    /// The logical table: each live record's view, keyed by its id.
    spec fn table(&self) -> Map<Seq<char>, TodoView>;

    /// The backend's internal invariant.
    spec fn wf(&self) -> bool;

    /// What well-formedness yields about the table: it is finite, and
    /// every record is valid and keyed by its own identifier.
    proof fn lemma_wf_table(&self)
        requires
            self.wf(),
        ensures
            self.table().dom().finite(),
            forall|id: Seq<char>| #[trigger]
                self.table().dom().contains(id) ==> self.table()[id].id == id
                    && self.table()[id].valid(),
    ;

    /// A full snapshot of the table, in an order the backend does not
    /// promise to callers.
    fn list(&self) -> (r: Result<Todos, Error>)
        requires
            self.wf(),
        ensures
            r matches Ok(v) ==> unique_ids(views_of(v@)) && table_of(views_of(v@))
                == self.table(),
            r matches Err(e) ==> e is SQLError,
    ;

    /// The record carrying `id`, or `NotFound`.
    fn get(&self, id: &String) -> (r: Result<Todo, Error>)
        requires
            self.wf(),
        ensures
            r matches Ok(t) ==> self.table().contains_key(id@) && t@ == self.table()[id@],
            r matches Err(e) ==> e == Error::NotFound || e is SQLError,
            r == Err::<Todo, Error>(Error::NotFound) ==> !self.table().contains_key(id@),
    ;

    /// A new record with a freshly allocated identifier, the given fields,
    /// and both timestamps set to one creation instant. Fails with
    /// `IDGenerationError` when identifier allocation fails; never because
    /// of a duplicate identifier, the generator being relied on not to
    /// repeat itself.
    fn create(&mut self, title: String, body: String) -> (r: Result<Todo, Error>)
        requires
            old(self).wf(),
        ensures
            final(self).wf(),
            r matches Ok(t) ==> {
                &&& !old(self).table().contains_key(t@.id)
                &&& t@ == created_view(t@.id, title@, body@, t@.created_at)
                &&& t@.valid()
                &&& final(self).table() == old(self).table().insert(t@.id, t@)
            },
            r matches Err(e) ==> {
                &&& e == Error::IDGenerationError || e is SQLError
                &&& final(self).table() == old(self).table()
            },
    ;

    /// Full replacement of the mutable fields of the record carrying
    /// `id`, refreshing its modification timestamp; `NotFound` when
    /// absent. Unlike `complete` this may also reset the completion flag
    /// to false.
    fn update(&mut self, id: &String, title: String, body: String, is_completed: bool) -> (r:
        Result<Todo, Error>)
        requires
            old(self).wf(),
        ensures
            final(self).wf(),
            r matches Ok(t) ==> {
                &&& old(self).table().contains_key(id@)
                &&& replaces(old(self).table()[id@], title@, body@, is_completed, t@)
                &&& t@.valid()
                &&& final(self).table() == old(self).table().insert(id@, t@)
            },
            r matches Err(e) ==> {
                &&& e == Error::NotFound || e is SQLError
                &&& final(self).table() == old(self).table()
            },
            r == Err::<Todo, Error>(Error::NotFound) ==> !old(self).table().contains_key(id@),
    ;

    /// Removes the record carrying `id` entirely; `NotFound` when absent,
    /// so a second delete of the same id always fails.
    fn delete(&mut self, id: &String) -> (r: Result<(), Error>)
        requires
            old(self).wf(),
        ensures
            final(self).wf(),
            r is Ok ==> old(self).table().contains_key(id@) && final(self).table() == old(
                self,
            ).table().remove(id@),
            r matches Err(e) ==> {
                &&& e == Error::NotFound || e is SQLError
                &&& final(self).table() == old(self).table()
            },
            r == Err::<(), Error>(Error::NotFound) ==> !old(self).table().contains_key(id@),
    ;

    /// Flips the completion flag of the record carrying `id` from false to
    /// true, refreshing its modification timestamp. `NotFound` when
    /// absent; `AlreadyCompleted` — with the record untouched — when the
    /// flag is already set: completion is one-way and a repeat is
    /// rejected, not silently accepted.
    fn complete(&mut self, id: &String) -> (r: Result<Todo, Error>)
        requires
            old(self).wf(),
        ensures
            final(self).wf(),
            r matches Ok(t) ==> {
                &&& old(self).table().contains_key(id@)
                &&& !old(self).table()[id@].is_completed
                &&& completes(old(self).table()[id@], t@)
                &&& t@.valid()
                &&& final(self).table() == old(self).table().insert(id@, t@)
            },
            r matches Err(e) ==> {
                &&& e == Error::NotFound || e == Error::AlreadyCompleted || e is SQLError
                &&& final(self).table() == old(self).table()
            },
            r == Err::<Todo, Error>(Error::NotFound) ==> !old(self).table().contains_key(id@),
            r == Err::<Todo, Error>(Error::AlreadyCompleted) ==> old(self).table().contains_key(id@)
                && old(self).table()[id@].is_completed,
    ;
}

/// Connection parameters of the durable backend.
#[derive(Debug, Clone)]
pub struct PostgresSettings {
    pub connection_string: String,
    pub migrations_path: String,
}

/// Which backend the process binds at startup.
#[derive(Debug, Clone, PartialEq, Eq, Structural)]
pub enum StorageSettings {
    Postgres,
    HashMap,
}

} // verus!
