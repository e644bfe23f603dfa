use todo_backend::model::Todo;
use todo_backend::timestamp::{Timestamp, MAX_NANOS, MAX_SECONDS};
use todo_backend::wire::{from_wire, from_wire_list, to_wire, to_wire_list, WireTimestamp, WireTodo};

fn sample() -> Todo {
    Todo {
        id: "id-9".to_owned(),
        title: "title".to_owned(),
        body: "body".to_owned(),
        is_completed: true,
        created_at: Timestamp { seconds: 1_600_000_000, nanos: 123_456_789 },
        updated_at: Timestamp { seconds: 1_600_000_005, nanos: 987_654_321 },
    }
}

#[test]
fn encode_carries_every_field() {
    let w = to_wire(&sample());
    assert_eq!(w.id, "id-9");
    assert_eq!(w.title, "title");
    assert_eq!(w.body, "body");
    assert!(w.is_completed);
    assert_eq!(
        w.created_at,
        Some(WireTimestamp { seconds: 1_600_000_000, nanos: 123_456_789 })
    );
    assert_eq!(
        w.updated_at,
        Some(WireTimestamp { seconds: 1_600_000_005, nanos: 987_654_321 })
    );
}

#[test]
fn round_trip_is_lossless() {
    let t = sample();
    let back = from_wire(to_wire(&t));
    assert_eq!(back, t);
}

#[test]
fn absent_timestamp_decodes_to_epoch_sentinel() {
    let w = WireTodo {
        id: "x".to_owned(),
        title: "t".to_owned(),
        body: "b".to_owned(),
        is_completed: false,
        created_at: None,
        updated_at: None,
    };
    let t = from_wire(w);
    assert_eq!(t.created_at, Timestamp { seconds: 0, nanos: 0 });
    assert_eq!(t.updated_at, Timestamp { seconds: 0, nanos: 0 });
}

#[test]
fn out_of_range_components_are_clamped() {
    let w = WireTodo {
        id: "x".to_owned(),
        title: "t".to_owned(),
        body: "b".to_owned(),
        is_completed: false,
        created_at: Some(WireTimestamp { seconds: -5, nanos: -1 }),
        updated_at: Some(WireTimestamp { seconds: i64::MAX, nanos: i32::MAX }),
    };
    let t = from_wire(w);
    assert_eq!(t.created_at, Timestamp { seconds: 0, nanos: 0 });
    assert_eq!(
        t.updated_at,
        Timestamp { seconds: MAX_SECONDS, nanos: MAX_NANOS }
    );
}

#[test]
fn list_encoding_keeps_order_and_length() {
    let a = sample();
    let mut b = sample();
    b.id = "id-10".to_owned();
    let out = to_wire_list(&vec![a, b]);
    assert_eq!(out.len(), 2);
    assert_eq!(out[0].id, "id-9");
    assert_eq!(out[1].id, "id-10");
}

#[test]
fn list_decoding_keeps_order_and_length() {
    let a = to_wire(&sample());
    let mut b = sample();
    b.id = "id-10".to_owned();
    let b = to_wire(&b);
    let out = from_wire_list(&vec![a, b]);
    assert_eq!(out.len(), 2);
    assert_eq!(out[0], sample());
    assert_eq!(out[1].id, "id-10");
}
