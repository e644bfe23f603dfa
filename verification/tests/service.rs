use todo_backend::memory::MemoryRepository;
use todo_backend::service::TodoServiceImpl;
use todo_backend::status::Code;

fn service() -> TodoServiceImpl<MemoryRepository> {
    TodoServiceImpl::new(MemoryRepository::new())
}

#[test]
fn facade_create_and_get() {
    let mut svc = service();
    let created = svc.create("title".to_owned(), "body".to_owned()).unwrap();
    assert_eq!(created.title, "title");
    assert_eq!(created.body, "body");
    assert!(!created.is_completed);
    assert!(created.created_at.is_some());
    assert_eq!(created.created_at, created.updated_at);

    let got = svc.get_by_id(&created.id).unwrap();
    assert_eq!(got, created);
}

#[test]
fn facade_get_missing_maps_to_not_found_status() {
    let svc = service();
    let st = svc.get_by_id(&"absent".to_owned()).unwrap_err();
    assert_eq!(st.code, Code::NotFound);
    assert_eq!(st.message, "todo not found");
}

#[test]
fn facade_list_returns_snapshot() {
    let mut svc = service();
    svc.create("a".to_owned(), "1".to_owned()).unwrap();
    svc.create("b".to_owned(), "2".to_owned()).unwrap();
    let todos = svc.list().unwrap();
    assert_eq!(todos.len(), 2);
    let mut titles: Vec<&str> = todos.iter().map(|t| t.title.as_str()).collect();
    titles.sort();
    assert_eq!(titles, vec!["a", "b"]);
}

#[test]
fn facade_update_replaces() {
    let mut svc = service();
    let created = svc.create("a".to_owned(), "1".to_owned()).unwrap();
    let updated = svc
        .update(&created.id, "a2".to_owned(), "12".to_owned(), true)
        .unwrap();
    assert_eq!(updated.id, created.id);
    assert_eq!(updated.title, "a2");
    assert_eq!(updated.body, "12");
    assert!(updated.is_completed);
    assert_eq!(updated.created_at, created.created_at);
}

#[test]
fn facade_update_missing_maps_to_not_found_status() {
    let mut svc = service();
    let st = svc
        .update(&"absent".to_owned(), "t".to_owned(), "b".to_owned(), false)
        .unwrap_err();
    assert_eq!(st.code, Code::NotFound);
}

#[test]
fn facade_complete_then_repeat_is_invalid_argument() {
    let mut svc = service();
    let created = svc.create("a".to_owned(), "1".to_owned()).unwrap();
    let completed = svc.complete(&created.id).unwrap();
    assert!(completed.is_completed);

    let st = svc.complete(&created.id).unwrap_err();
    assert_eq!(st.code, Code::InvalidArgument);
    assert_eq!(st.message, "todo already completed");
}

#[test]
fn facade_delete_then_get_is_not_found() {
    let mut svc = service();
    let created = svc.create("a".to_owned(), "1".to_owned()).unwrap();
    svc.delete(&created.id).unwrap();
    let st = svc.get_by_id(&created.id).unwrap_err();
    assert_eq!(st.code, Code::NotFound);
    let st = svc.delete(&created.id).unwrap_err();
    assert_eq!(st.code, Code::NotFound);
}
