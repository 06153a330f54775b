use todo_service::{
    decimal_string, delete_response, deleted_message, error_message, fetch_response, index,
    insert_response, inserted_message, startup_decision, Operation, Startup, StatusMessage,
    StoreError, TodoItem, TodoList,
};

#[test]
fn greeting_is_served_at_root() {
    assert!(index().starts_with("Hello, world!"));
    assert!(index().ends_with("(that aren't in .gitignore)"));
}

#[test]
fn decimal_of_small_and_large_numbers() {
    assert_eq!(decimal_string(0), "0");
    assert_eq!(decimal_string(7), "7");
    assert_eq!(decimal_string(10), "10");
    assert_eq!(decimal_string(1203), "1203");
    assert_eq!(decimal_string(u64::MAX), "18446744073709551615");
}

#[test]
fn insert_messages_count_rows() {
    assert_eq!(inserted_message(1), "Inserted 1 rows");
    assert_eq!(inserted_message(0), "Inserted 0 rows");
    assert_eq!(inserted_message(42), "Inserted 42 rows");
}

#[test]
fn delete_messages_count_rows() {
    assert_eq!(deleted_message(1), "1 rows were deleted");
    assert_eq!(deleted_message(15), "15 rows were deleted");
}

#[test]
fn successful_insert_reports_row_count() {
    assert_eq!(
        insert_response(Ok(1)),
        Ok(StatusMessage { message: "Inserted 1 rows".to_string() })
    );
}

#[test]
fn deleting_a_missing_id_is_a_success() {
    assert_eq!(
        delete_response(Ok(0)),
        Ok(StatusMessage { message: "0 rows were deleted".to_string() })
    );
}

#[test]
fn insert_errors_have_their_own_text() {
    assert_eq!(insert_response(Err(StoreError::Connection)), Err("Unable to connect to database".to_string()));
    assert_eq!(insert_response(Err(StoreError::Prepare)), Err("Unable to prepare query".to_string()));
    assert_eq!(insert_response(Err(StoreError::Execution)), Err("Unable to insert todo items".to_string()));
}

#[test]
fn delete_errors_have_their_own_text() {
    assert_eq!(delete_response(Err(StoreError::Connection)), Err("Failed to connect to database".to_string()));
    assert_eq!(delete_response(Err(StoreError::Prepare)), Err("Failed to prepare SQL statement".to_string()));
    assert_eq!(delete_response(Err(StoreError::Execution)), Err("Failed to delete values".to_string()));
}

#[test]
fn fetch_errors_have_their_own_text() {
    assert_eq!(fetch_response(Err(StoreError::Connection)), Err("Failed to connect to database".to_string()));
    assert_eq!(fetch_response(Err(StoreError::Prepare)), Err("Failed to prepare query".to_string()));
    assert_eq!(fetch_response(Err(StoreError::Execution)), Err("Failed to fetch todo items".to_string()));
    assert_eq!(fetch_response(Err(StoreError::RowMapping)), Err("Could not get items".to_string()));
    assert_eq!(error_message(Operation::FetchAll, StoreError::RowMapping), "Could not get items");
}

#[test]
fn empty_fetch_gives_empty_list() {
    assert_eq!(fetch_response(Ok(vec![])), Ok(TodoList { items: vec![] }));
}

#[test]
fn fetch_keeps_items_in_order() {
    let items = vec![
        TodoItem { id: 2, item: "b".to_string() },
        TodoItem { id: 1, item: "a".to_string() },
    ];
    assert_eq!(fetch_response(Ok(items.clone())), Ok(TodoList { items }));
}

#[test]
fn only_an_unopenable_database_stops_startup() {
    assert_eq!(startup_decision(Ok(0)), Startup::Ready);
    assert_eq!(startup_decision(Err(StoreError::Connection)), Startup::Abort);
    assert_eq!(startup_decision(Err(StoreError::Execution)), Startup::SchemaFailed);
}
