use todo_backend::error::Error;
use todo_backend::memory::MemoryRepository;
use todo_backend::repository::Repository;
use todo_backend::timestamp::Timestamp;

fn ts(seconds: i64, nanos: u32) -> Timestamp {
    Timestamp { seconds, nanos }
}

#[test]
fn empty_list() {
    let repo = MemoryRepository::new();
    let todos = repo.list().unwrap();
    assert_eq!(todos.len(), 0);
}

#[test]
fn create_then_get_returns_created_record() {
    let mut repo = MemoryRepository::new();
    let created = repo.create_with(
        "id-1".to_owned(),
        "title".to_owned(),
        "body".to_owned(),
        ts(100, 25),
    );
    assert_eq!(created.id, "id-1");
    assert_eq!(created.title, "title");
    assert_eq!(created.body, "body");
    assert!(!created.is_completed);
    assert_eq!(created.created_at, ts(100, 25));
    assert_eq!(created.updated_at, ts(100, 25));

    let got = repo.get(&"id-1".to_owned()).unwrap();
    assert_eq!(got.id, created.id);
    assert_eq!(got.title, created.title);
    assert_eq!(got.body, created.body);
    assert_eq!(got.is_completed, created.is_completed);
    assert_eq!(got.created_at, created.created_at);
    assert_eq!(got.updated_at, created.updated_at);
}

#[test]
fn create_through_generator_then_get() {
    let mut repo = MemoryRepository::new();
    let created = repo.create("title".to_owned(), "body".to_owned()).unwrap();
    assert_eq!(created.created_at, created.updated_at);
    let got = repo.get(&created.id).unwrap();
    assert_eq!(got.id, created.id);
    assert_eq!(got.title, "title");
    assert_eq!(got.body, "body");
    assert!(!got.is_completed);
}

#[test]
fn generated_ids_are_opaque_printable_keys() {
    let mut repo = MemoryRepository::new();
    let created = repo.create("t".to_owned(), "b".to_owned()).unwrap();
    assert_eq!(created.id.len(), 20);
    assert!(created
        .id
        .chars()
        .all(|c| c.is_ascii_digit() || ('a'..='v').contains(&c)));
}

#[test]
fn clock_produces_current_time() {
    let mut repo = MemoryRepository::new();
    let created = repo.create("t".to_owned(), "b".to_owned()).unwrap();
    // Any clock reading taken after 2001 has over a billion seconds.
    assert!(created.created_at.seconds > 1_000_000_000);
    assert!(created.created_at.nanos < 1_000_000_000);
}

#[test]
fn get_missing_fails_not_found() {
    let repo = MemoryRepository::new();
    assert_eq!(repo.get(&"absent".to_owned()), Err(Error::NotFound));
}

#[test]
fn complete_flips_flag_once_then_rejects() {
    let mut repo = MemoryRepository::new();
    repo.create_with("a".to_owned(), "t".to_owned(), "b".to_owned(), ts(10, 0));

    let first = repo.complete_with(&"a".to_owned(), ts(20, 0)).unwrap();
    assert!(first.is_completed);
    assert_eq!(first.updated_at, ts(20, 0));
    assert_eq!(first.created_at, ts(10, 0));

    let second = repo.complete_with(&"a".to_owned(), ts(30, 0));
    assert_eq!(second.unwrap_err(), Error::AlreadyCompleted);

    // The failed attempt left the record completed and untouched.
    let after = repo.get(&"a".to_owned()).unwrap();
    assert!(after.is_completed);
    assert_eq!(after.updated_at, ts(20, 0));
}

#[test]
fn complete_missing_fails_not_found() {
    let mut repo = MemoryRepository::new();
    assert_eq!(repo.complete(&"absent".to_owned()), Err(Error::NotFound));
}

#[test]
fn delete_then_get_fails_not_found() {
    let mut repo = MemoryRepository::new();
    repo.create_with("a".to_owned(), "t".to_owned(), "b".to_owned(), ts(10, 0));
    repo.delete(&"a".to_owned()).unwrap();
    assert_eq!(repo.get(&"a".to_owned()), Err(Error::NotFound));
    // A second delete of the same id also fails, never silently succeeds.
    assert_eq!(repo.delete(&"a".to_owned()), Err(Error::NotFound));
}

#[test]
fn update_replaces_fields_and_advances_timestamp() {
    let mut repo = MemoryRepository::new();
    repo.create_with("a".to_owned(), "t".to_owned(), "b".to_owned(), ts(10, 5));

    let updated = repo
        .update_with(
            &"a".to_owned(),
            "t2".to_owned(),
            "b2".to_owned(),
            true,
            ts(40, 0),
        )
        .unwrap();
    assert_eq!(updated.title, "t2");
    assert_eq!(updated.body, "b2");
    assert!(updated.is_completed);
    assert_eq!(updated.created_at, ts(10, 5));
    assert_eq!(updated.updated_at, ts(40, 0));
}

#[test]
fn update_never_moves_timestamp_backwards() {
    let mut repo = MemoryRepository::new();
    repo.create_with("a".to_owned(), "t".to_owned(), "b".to_owned(), ts(50, 0));

    // A clock reading behind the record still advances the timestamp.
    let updated = repo
        .update_with(
            &"a".to_owned(),
            "t2".to_owned(),
            "b2".to_owned(),
            false,
            ts(40, 0),
        )
        .unwrap();
    assert!(updated.updated_at.seconds > 50 || (updated.updated_at.seconds == 50 && updated.updated_at.nanos > 0));
    assert_eq!(updated.updated_at, ts(50, 1));
}

#[test]
fn update_may_reset_completion() {
    // Unlike `complete`, `update` sets the flag directly, including back
    // to false.
    let mut repo = MemoryRepository::new();
    repo.create_with("a".to_owned(), "t".to_owned(), "b".to_owned(), ts(10, 0));
    repo.complete_with(&"a".to_owned(), ts(20, 0)).unwrap();

    let reset = repo
        .update_with(&"a".to_owned(), "t".to_owned(), "b".to_owned(), false, ts(30, 0))
        .unwrap();
    assert!(!reset.is_completed);
    let after = repo.get(&"a".to_owned()).unwrap();
    assert!(!after.is_completed);
}

#[test]
fn update_missing_fails_not_found() {
    let mut repo = MemoryRepository::new();
    let r = repo.update(&"absent".to_owned(), "t".to_owned(), "b".to_owned(), false);
    assert_eq!(r, Err(Error::NotFound));
}

#[test]
fn hundred_creates_get_distinct_ids() {
    let mut repo = MemoryRepository::new();
    let mut ids: Vec<String> = Vec::new();
    for i in 0..100 {
        let created = repo
            .create(format!("title {}", i), format!("body {}", i))
            .unwrap();
        assert!(!ids.contains(&created.id));
        ids.push(created.id);
    }
    let todos = repo.list().unwrap();
    assert_eq!(todos.len(), 100);
}

#[test]
fn lifecycle_scenario() {
    // create("buy milk", "2%"), complete it, complete again, delete, get.
    let mut repo = MemoryRepository::new();
    let record = repo.create("buy milk".to_owned(), "2%".to_owned()).unwrap();
    assert!(!record.is_completed);

    let completed = repo.complete(&record.id).unwrap();
    assert!(completed.is_completed);
    // Strictly later: the repository advances past the old timestamp even
    // if the clock has not moved.
    assert!(record.updated_at.is_le(&completed.updated_at));
    assert_ne!(record.updated_at, completed.updated_at);

    assert_eq!(repo.complete(&record.id), Err(Error::AlreadyCompleted));
    assert_eq!(repo.delete(&record.id), Ok(()));
    assert_eq!(repo.get(&record.id), Err(Error::NotFound));
}

#[test]
fn list_returns_every_record() {
    let mut repo = MemoryRepository::new();
    repo.create_with("a".to_owned(), "ta".to_owned(), "ba".to_owned(), ts(1, 0));
    repo.create_with("b".to_owned(), "tb".to_owned(), "bb".to_owned(), ts(2, 0));
    let todos = repo.list().unwrap();
    assert_eq!(todos.len(), 2);
    let mut ids: Vec<&str> = todos.iter().map(|t| t.id.as_str()).collect();
    ids.sort();
    assert_eq!(ids, vec!["a", "b"]);
}
