//! The wire representation of a record and its conversions.
//!
//! On the wire a timestamp travels as a pair of seconds and nanoseconds,
//! and both timestamps of a record are optional: an absent one decodes to
//! the explicit epoch sentinel rather than failing. Encoding then decoding
//! a record produced by this system reproduces it field for field.

use vstd::prelude::*;
use crate::model::{Todo, TodoView};
use crate::timestamp::{Timestamp, MAX_NANOS, MAX_SECONDS};

verus! {

/// A timestamp as the wire carries it: whole seconds and a nanosecond
/// component, unchecked.
#[derive(Clone, Copy, PartialEq, Eq, Structural, Debug)]
pub struct WireTimestamp {
    pub seconds: i64,
    pub nanos: i32,
}

/// A record as the wire carries it.
#[derive(Debug, PartialEq)]
pub struct WireTodo {
    pub id: String,
    pub title: String,
    pub body: String,
    pub is_completed: bool,
    pub created_at: Option<WireTimestamp>,
    pub updated_at: Option<WireTimestamp>,
}

/// The mathematical shape of a [`WireTodo`].
pub struct WireTodoView {
    pub id: Seq<char>,
    pub title: Seq<char>,
    pub body: Seq<char>,
    pub is_completed: bool,
    pub created_at: Option<WireTimestamp>,
    pub updated_at: Option<WireTimestamp>,
}

impl View for WireTodo {
    type V = WireTodoView;

    open spec fn view(&self) -> WireTodoView {
        WireTodoView {
            id: self.id@,
            title: self.title@,
            body: self.body@,
            is_completed: self.is_completed,
            created_at: self.created_at,
            updated_at: self.updated_at,
        }
    }
}

impl Clone for WireTodo {
    fn clone(&self) -> (r: Self)
        ensures
            r@ == self@,
    {
        WireTodo {
            id: self.id.clone(),
            title: self.title.clone(),
            body: self.body.clone(),
            is_completed: self.is_completed,
            created_at: self.created_at,
            updated_at: self.updated_at,
        }
    }
}

/// How a timestamp goes out on the wire: the same pair. A valid
/// timestamp's nanosecond component is below one second, so the narrowing
/// to `i32` loses nothing.
pub open spec fn wire_ts(t: Timestamp) -> WireTimestamp {
    WireTimestamp { seconds: t.seconds, nanos: t.nanos as i32 }
}

/// How a record goes out on the wire: both timestamps present.
pub open spec fn wire_of(t: TodoView) -> WireTodoView {
    WireTodoView {
        id: t.id,
        title: t.title,
        body: t.body,
        is_completed: t.is_completed,
        created_at: Some(wire_ts(t.created_at)),
        updated_at: Some(wire_ts(t.updated_at)),
    }
}

/// How an optional wire timestamp decodes: absence becomes the epoch
/// sentinel, and each component is clamped into the valid range, so the
/// result is always a valid timestamp and a pair this system produced
/// comes back unchanged.
pub open spec fn ts_of_wire(w: Option<WireTimestamp>) -> Timestamp {
    match w {
        None => Timestamp { seconds: 0, nanos: 0 },
        Some(p) => Timestamp {
            seconds: if p.seconds < 0 {
                0
            } else if p.seconds > MAX_SECONDS {
                MAX_SECONDS
            } else {
                p.seconds
            },
            nanos: if p.nanos < 0 {
                0
            } else if p.nanos > MAX_NANOS as i32 {
                MAX_NANOS
            } else {
                p.nanos as u32
            },
        },
    }
}

/// How a wire record decodes.
pub open spec fn todo_of_wire(w: WireTodoView) -> TodoView {
    TodoView {
        id: w.id,
        title: w.title,
        body: w.body,
        is_completed: w.is_completed,
        created_at: ts_of_wire(w.created_at),
        updated_at: ts_of_wire(w.updated_at),
    }
}

/// Encoding a valid record and decoding the result reproduces it field
/// for field: the wire format is lossless for everything this system
/// produces.
pub proof fn lemma_wire_round_trip(t: TodoView)
    requires
        t.valid(),
    ensures
        todo_of_wire(wire_of(t)) == t,
{
}

/// Encodes a record for the wire.
pub fn to_wire(t: &Todo) -> (r: WireTodo)
    requires
        t@.valid(),
    ensures
        r@ == wire_of(t@),
{
    WireTodo {
        id: t.id.clone(),
        title: t.title.clone(),
        body: t.body.clone(),
        is_completed: t.is_completed,
        created_at: Some(WireTimestamp { seconds: t.created_at.seconds, nanos: t.created_at.nanos as i32 }),
        updated_at: Some(WireTimestamp { seconds: t.updated_at.seconds, nanos: t.updated_at.nanos as i32 }),
    }
}

/// Decodes one optional wire timestamp.
fn decode_ts(w: &Option<WireTimestamp>) -> (r: Timestamp)
    ensures
        r == ts_of_wire(*w),
{
    match w {
        None => Timestamp { seconds: 0, nanos: 0 },
        Some(p) => Timestamp {
            seconds: if p.seconds < 0 {
                0
            } else if p.seconds > MAX_SECONDS {
                MAX_SECONDS
            } else {
                p.seconds
            },
            nanos: if p.nanos < 0 {
                0
            } else if p.nanos > MAX_NANOS as i32 {
                MAX_NANOS
            } else {
                p.nanos as u32
            },
        },
    }
}

/// Decodes a wire record.
pub fn from_wire(w: WireTodo) -> (r: Todo)
    ensures
        r@ == todo_of_wire(w@),
{
    let created_at = decode_ts(&w.created_at);
    let updated_at = decode_ts(&w.updated_at);
    Todo { id: w.id, title: w.title, body: w.body, is_completed: w.is_completed, created_at, updated_at }
}

/// Encodes a snapshot for the wire, record by record in order.
pub fn to_wire_list(v: &Vec<Todo>) -> (r: Vec<WireTodo>)
    requires
        forall|i: int| 0 <= i < v@.len() ==> (#[trigger] v@[i])@.valid(),
    ensures
        r@.len() == v@.len(),
        forall|i: int| 0 <= i < v@.len() ==> (#[trigger] r@[i])@ == wire_of(v@[i]@),
{
    let mut out: Vec<WireTodo> = Vec::new();
    let mut i: usize = 0;
    while i < v.len()
        invariant
            i <= v@.len(),
            out@.len() == i,
            forall|j: int| 0 <= j < v@.len() ==> (#[trigger] v@[j])@.valid(),
            forall|j: int| 0 <= j < i ==> (#[trigger] out@[j])@ == wire_of(v@[j]@),
        decreases v@.len() - i,
    {
        out.push(to_wire(&v[i]));
        i += 1;
    }
    out
}

/// Decodes a wire snapshot, record by record in order.
pub fn from_wire_list(v: &Vec<WireTodo>) -> (r: Vec<Todo>)
    ensures
        r@.len() == v@.len(),
        forall|i: int| 0 <= i < v@.len() ==> (#[trigger] r@[i])@ == todo_of_wire(v@[i]@),
{
    let mut out: Vec<Todo> = Vec::new();
    let mut i: usize = 0;
    while i < v.len()
        invariant
            i <= v@.len(),
            out@.len() == i,
            forall|j: int| 0 <= j < i ==> (#[trigger] out@[j])@ == todo_of_wire(v@[j]@),
        decreases v@.len() - i,
    {
        out.push(from_wire(v[i].clone()));
        i += 1;
    }
    out
}

} // verus!
