use record_api::error::StoreError;
use record_api::gateway::{
    interpret, Bind, Payload, Statement, StoreFault, StoreReply, StoreRequest,
};
use record_api::memory::MemoryStore;
use record_api::record::Record;

fn sample(id: i32) -> Record {
    Record::new(id, "2024-01-01", "hello")
}

#[test]
fn statements_bind_in_placeholder_order() {
    assert_eq!(
        StoreRequest::SelectAll.statement(),
        Statement { sql: "SELECT * FROM test".to_string(), binds: vec![] }
    );
    assert_eq!(
        StoreRequest::Insert(sample(3)).statement(),
        Statement {
            sql: "INSERT INTO test (id, date, message) VALUES ($1, $2, $3)".to_string(),
            binds: vec![
                Bind::Integer(3),
                Bind::Text("2024-01-01".to_string()),
                Bind::Text("hello".to_string()),
            ],
        }
    );
    assert_eq!(
        StoreRequest::SelectById(-4).statement(),
        Statement {
            sql: "SELECT * FROM test WHERE id = $1".to_string(),
            binds: vec![Bind::Integer(-4)],
        }
    );
    assert_eq!(
        StoreRequest::UpdateMessage { id: 5, message: "new".to_string() }.statement(),
        Statement {
            sql: "UPDATE test SET message = $2 WHERE id = $1".to_string(),
            binds: vec![Bind::Integer(5), Bind::Text("new".to_string())],
        }
    );
    assert_eq!(
        StoreRequest::DeleteById(6).statement(),
        Statement {
            sql: "DELETE FROM test WHERE id = $1".to_string(),
            binds: vec![Bind::Integer(6)],
        }
    );
}

#[test]
fn reads_and_changes() {
    assert!(StoreRequest::SelectAll.reads());
    assert!(StoreRequest::SelectById(1).reads());
    assert!(!StoreRequest::Insert(sample(1)).reads());
    assert!(!StoreRequest::UpdateMessage { id: 1, message: String::new() }.reads());
    assert!(!StoreRequest::DeleteById(1).reads());
}

#[test]
fn a_search_wants_exactly_one_row() {
    let search = StoreRequest::SelectById(1);
    assert_eq!(interpret(&search, StoreReply::Rows(vec![])), Err(StoreError::NotFound));
    assert_eq!(
        interpret(&search, StoreReply::Rows(vec![sample(1)])),
        Ok(Payload::One(sample(1)))
    );
    assert_eq!(
        interpret(&search, StoreReply::Rows(vec![sample(1), sample(1)])),
        Err(StoreError::AmbiguousResult)
    );
    assert_eq!(
        interpret(&search, StoreReply::Rows(vec![sample(1), sample(2), sample(3)])),
        Err(StoreError::AmbiguousResult)
    );
}

#[test]
fn reading_all_passes_the_rows_on() {
    assert_eq!(
        interpret(&StoreRequest::SelectAll, StoreReply::Rows(vec![])),
        Ok(Payload::All(vec![]))
    );
    assert_eq!(
        interpret(&StoreRequest::SelectAll, StoreReply::Rows(vec![sample(2), sample(1)])),
        Ok(Payload::All(vec![sample(2), sample(1)]))
    );
}

#[test]
fn a_change_that_touched_no_row_is_not_found() {
    let update = StoreRequest::UpdateMessage { id: 1, message: "m".to_string() };
    let delete = StoreRequest::DeleteById(1);
    let insert = StoreRequest::Insert(sample(1));
    assert_eq!(interpret(&update, StoreReply::Affected(0)), Err(StoreError::NotFound));
    assert_eq!(interpret(&update, StoreReply::Affected(1)), Ok(Payload::Updated));
    assert_eq!(interpret(&update, StoreReply::Affected(2)), Ok(Payload::Updated));
    assert_eq!(interpret(&delete, StoreReply::Affected(0)), Err(StoreError::NotFound));
    assert_eq!(interpret(&delete, StoreReply::Affected(1)), Ok(Payload::Deleted));
    assert_eq!(interpret(&delete, StoreReply::Affected(u64::MAX)), Ok(Payload::Deleted));
    assert_eq!(interpret(&insert, StoreReply::Affected(1)), Ok(Payload::Created));
}

#[test]
fn faults_become_errors() {
    let requests = [
        StoreRequest::SelectAll,
        StoreRequest::Insert(sample(1)),
        StoreRequest::SelectById(1),
        StoreRequest::UpdateMessage { id: 1, message: "m".to_string() },
        StoreRequest::DeleteById(1),
    ];
    for request in &requests {
        assert_eq!(
            interpret(request, StoreReply::Fault(StoreFault::UniqueViolation)),
            Err(StoreError::DuplicateKey)
        );
        assert_eq!(
            interpret(request, StoreReply::Fault(StoreFault::Unavailable)),
            Err(StoreError::StoreUnavailable)
        );
        assert_eq!(
            interpret(request, StoreReply::Fault(StoreFault::NoRow)),
            Err(StoreError::NotFound)
        );
    }
}

#[test]
fn an_answer_of_the_wrong_kind_is_reported_as_unavailable() {
    assert_eq!(
        interpret(&StoreRequest::SelectAll, StoreReply::Affected(1)),
        Err(StoreError::StoreUnavailable)
    );
    assert_eq!(
        interpret(&StoreRequest::SelectById(1), StoreReply::Affected(1)),
        Err(StoreError::StoreUnavailable)
    );
    assert_eq!(
        interpret(&StoreRequest::Insert(sample(1)), StoreReply::Rows(vec![])),
        Err(StoreError::StoreUnavailable)
    );
    assert_eq!(
        interpret(&StoreRequest::DeleteById(1), StoreReply::Rows(vec![sample(1)])),
        Err(StoreError::StoreUnavailable)
    );
    assert_eq!(
        interpret(
            &StoreRequest::UpdateMessage { id: 1, message: String::new() },
            StoreReply::Rows(vec![])
        ),
        Err(StoreError::StoreUnavailable)
    );
}

#[test]
fn the_table_in_memory_answers_as_a_store_does() {
    let mut store = MemoryStore::new();
    assert_eq!(store.len(), 0);
    assert_eq!(store.execute(&StoreRequest::SelectAll), StoreReply::Rows(vec![]));
    assert_eq!(store.execute(&StoreRequest::SelectById(1)), StoreReply::Rows(vec![]));
    assert_eq!(store.execute(&StoreRequest::DeleteById(1)), StoreReply::Affected(0));
    assert_eq!(
        store.execute(&StoreRequest::UpdateMessage { id: 1, message: "x".to_string() }),
        StoreReply::Affected(0)
    );
    assert_eq!(store.execute(&StoreRequest::Insert(sample(1))), StoreReply::Affected(1));
    assert_eq!(store.execute(&StoreRequest::Insert(sample(2))), StoreReply::Affected(1));
    assert_eq!(
        store.execute(&StoreRequest::Insert(Record::new(1, "other", "other"))),
        StoreReply::Fault(StoreFault::UniqueViolation)
    );
    assert_eq!(store.len(), 2);
    assert_eq!(
        store.execute(&StoreRequest::UpdateMessage { id: 2, message: "bye".to_string() }),
        StoreReply::Affected(1)
    );
    assert_eq!(
        store.execute(&StoreRequest::SelectById(2)),
        StoreReply::Rows(vec![Record::new(2, "2024-01-01", "bye")])
    );
    assert_eq!(
        store.execute(&StoreRequest::SelectAll),
        StoreReply::Rows(vec![sample(1), Record::new(2, "2024-01-01", "bye")])
    );
    assert_eq!(store.execute(&StoreRequest::DeleteById(1)), StoreReply::Affected(1));
    assert_eq!(
        store.execute(&StoreRequest::SelectAll),
        StoreReply::Rows(vec![Record::new(2, "2024-01-01", "bye")])
    );
    assert_eq!(store.execute(&StoreRequest::Insert(sample(1))), StoreReply::Affected(1));
    assert_eq!(
        store.execute(&StoreRequest::SelectAll),
        StoreReply::Rows(vec![Record::new(2, "2024-01-01", "bye"), sample(1)])
    );
}

#[test]
fn insert_refuses_a_second_record_under_one_id() {
    let mut store = MemoryStore::new();
    assert_eq!(store.insert(sample(1)), Ok(()));
    assert_eq!(store.insert(Record::new(1, "later", "other")), Err(StoreError::DuplicateKey));
    assert_eq!(store.insert(sample(-1)), Ok(()));
    assert_eq!(store.insert(sample(i32::MAX)), Ok(()));
    assert_eq!(store.insert(sample(i32::MIN)), Ok(()));
    assert_eq!(store.len(), 4);
    assert_eq!(store.select_by_id(1), Ok(sample(1)));
    assert_eq!(
        store.select_all(),
        vec![sample(1), sample(-1), sample(i32::MAX), sample(i32::MIN)]
    );
}

#[test]
fn select_by_id_finds_the_record_or_nothing() {
    let mut store = MemoryStore::new();
    assert_eq!(store.select_by_id(1), Err(StoreError::NotFound));
    assert_eq!(store.select_all(), vec![]);
    store.insert(Record::new(1, "a", "b")).unwrap();
    store.insert(Record::new(2, "c", "d")).unwrap();
    assert_eq!(store.select_by_id(2), Ok(Record::new(2, "c", "d")));
    assert_eq!(store.select_by_id(1), Ok(Record::new(1, "a", "b")));
    assert_eq!(store.select_by_id(3), Err(StoreError::NotFound));
}

#[test]
fn update_message_by_id_rewrites_one_message() {
    let mut store = MemoryStore::new();
    assert_eq!(store.update_message_by_id(1, "x"), Err(StoreError::NotFound));
    store.insert(Record::new(1, "a", "b")).unwrap();
    store.insert(Record::new(2, "c", "d")).unwrap();
    assert_eq!(store.update_message_by_id(2, "new"), Ok(1));
    assert_eq!(store.update_message_by_id(3, "new"), Err(StoreError::NotFound));
    assert_eq!(store.select_all(), vec![Record::new(1, "a", "b"), Record::new(2, "c", "new")]);
    assert_eq!(store.update_message_by_id(2, ""), Ok(1));
    assert_eq!(store.select_by_id(2), Ok(Record::new(2, "c", "")));
}

#[test]
fn delete_by_id_removes_one_record() {
    let mut store = MemoryStore::new();
    assert_eq!(store.delete_by_id(1), Err(StoreError::NotFound));
    store.insert(Record::new(1, "a", "b")).unwrap();
    store.insert(Record::new(2, "c", "d")).unwrap();
    store.insert(Record::new(3, "e", "f")).unwrap();
    assert_eq!(store.delete_by_id(2), Ok(1));
    assert_eq!(store.delete_by_id(2), Err(StoreError::NotFound));
    assert_eq!(store.select_by_id(2), Err(StoreError::NotFound));
    assert_eq!(store.select_all(), vec![Record::new(1, "a", "b"), Record::new(3, "e", "f")]);
    assert_eq!(store.insert(Record::new(2, "again", "here")), Ok(()));
    assert_eq!(
        store.select_all(),
        vec![Record::new(1, "a", "b"), Record::new(3, "e", "f"), Record::new(2, "again", "here")]
    );
}
