//! The todo entity: the one record the service manages.

use vstd::prelude::*;
use crate::timestamp::Timestamp;

verus! {

/// A todo record as the repositories hand it out.
#[derive(Debug, PartialEq)]
pub struct Todo {
    /// Opaque unique identifier, immutable after creation.
    pub id: String,
    /// Free text.
    pub title: String,
    /// Free text.
    pub body: String,
    /// One-way flag: `complete` only ever flips it from false to true.
    pub is_completed: bool,
    /// Set once at creation, immutable afterwards.
    pub created_at: Timestamp,
    /// Set at creation and refreshed by every later mutation.
    pub updated_at: Timestamp,
}

/// The mathematical shape of a [`Todo`]: the same fields with the strings
/// read as character sequences.
pub struct TodoView {
    pub id: Seq<char>,
    pub title: Seq<char>,
    pub body: Seq<char>,
    pub is_completed: bool,
    pub created_at: Timestamp,
    pub updated_at: Timestamp,
}

impl TodoView {
    /// The entity invariant: both timestamps are valid and creation never
    /// lies after the last modification.
    pub open spec fn valid(self) -> bool {
        &&& self.created_at.valid()
        &&& self.updated_at.valid()
        &&& self.created_at.le(self.updated_at)
    }
}

/// A snapshot of records, as `list` returns it.
pub type Todos = Vec<Todo>;

impl View for Todo {
    type V = TodoView;

    open spec fn view(&self) -> TodoView {
        TodoView {
            id: self.id@,
            title: self.title@,
            body: self.body@,
            is_completed: self.is_completed,
            created_at: self.created_at,
            updated_at: self.updated_at,
        }
    }
}

impl Clone for Todo {
    fn clone(&self) -> (r: Self)
        ensures
            r@ == self@,
    {
        Todo {
            id: self.id.clone(),
            title: self.title.clone(),
            body: self.body.clone(),
            is_completed: self.is_completed,
            created_at: self.created_at,
            updated_at: self.updated_at,
        }
    }
}

} // verus!
