//! The lifecycle laws of the table, stated over the same model the
//! repository contracts are stated over: `create`, `update`, `delete` and
//! `complete` leave exactly the tables written here, so each law below,
//! together with those contracts, is a statement about chains of calls.

use vstd::prelude::*;
use crate::model::TodoView;
use crate::repository::{completed_view, created_view, replaced_view};
use crate::timestamp::Timestamp;

verus! {

/// Reading a record straight after creating it gives back exactly the
/// created record, with the same fields, not completed, and with its
/// creation and modification timestamps identical.
pub proof fn lemma_create_then_get(
    m: Map<Seq<char>, TodoView>,
    id: Seq<char>,
    title: Seq<char>,
    body: Seq<char>,
    now: Timestamp,
)
    requires
        !m.contains_key(id),
    ensures
        ({
            let created = created_view(id, title, body, now);
            let grown = m.insert(id, created);
            &&& grown.contains_key(id)
            &&& grown[id] == created
            &&& grown[id].title == title
            &&& grown[id].body == body
            &&& !grown[id].is_completed
            &&& grown[id].created_at == grown[id].updated_at
        }),
{
}

/// A successful creation stores the record under an identifier the table
/// did not hold, so the table grows by exactly one record and every
/// other record is untouched; in particular, creations that all succeed
/// receive pairwise distinct identifiers.
pub proof fn lemma_create_grows(
    m: Map<Seq<char>, TodoView>,
    id: Seq<char>,
    title: Seq<char>,
    body: Seq<char>,
    now: Timestamp,
)
    requires
        m.dom().finite(),
        !m.contains_key(id),
    ensures
        ({
            let grown = m.insert(id, created_view(id, title, body, now));
            &&& grown.dom().finite()
            &&& grown.len() == m.len() + 1
            &&& forall|k: Seq<char>| #[trigger]
                m.contains_key(k) ==> grown.contains_key(k) && grown[k] == m[k]
        }),
{
    broadcast use vstd::set::axiom_set_insert_len;

    let grown = m.insert(id, created_view(id, title, body, now));
    assert(grown.dom() =~= m.dom().insert(id));
}

/// Completion is idempotent in effect but not in result: the first
/// completion leaves the record completed, so a second completion of the
/// same identifier meets a set flag — per the `complete` contract it is
/// rejected with `AlreadyCompleted` and changes nothing, and the flag
/// remains set.
pub proof fn lemma_complete_twice(m: Map<Seq<char>, TodoView>, id: Seq<char>, now: Timestamp)
    requires
        m.contains_key(id),
        !m[id].is_completed,
    ensures
        ({
            let once = m.insert(id, completed_view(m[id], now));
            &&& once.contains_key(id)
            &&& once[id].is_completed
            &&& once[id].created_at == m[id].created_at
        }),
{
}

/// After a deletion the identifier is gone: a read fails `NotFound`, and
/// so does a second deletion of the same identifier; nothing else
/// changes.
pub proof fn lemma_delete_then_get(m: Map<Seq<char>, TodoView>, id: Seq<char>)
    ensures
        !m.remove(id).contains_key(id),
        forall|k: Seq<char>| #[trigger]
            m.contains_key(k) && k != id ==> m.remove(id).contains_key(k) && m.remove(id)[k]
                == m[k],
{
}

/// `update` strictly replaces the three mutable fields, advances the
/// modification timestamp to a value no earlier than the previous one,
/// and leaves the identifier and the creation timestamp unchanged.
pub proof fn lemma_update_replaces(
    m: Map<Seq<char>, TodoView>,
    id: Seq<char>,
    title: Seq<char>,
    body: Seq<char>,
    is_completed: bool,
    now: Timestamp,
)
    requires
        m.contains_key(id),
        m[id].valid(),
        now.valid(),
    ensures
        ({
            let replaced = m.insert(id, replaced_view(m[id], title, body, is_completed, now));
            &&& replaced[id].title == title
            &&& replaced[id].body == body
            &&& replaced[id].is_completed == is_completed
            &&& replaced[id].id == m[id].id
            &&& replaced[id].created_at == m[id].created_at
            &&& m[id].updated_at.le(replaced[id].updated_at)
            &&& replaced[id].valid()
        }),
{
    crate::repository::lemma_replaced_view(m[id], title, body, is_completed, now);
}

} // verus!
