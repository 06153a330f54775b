use todo_service::{
    add_todo_item, bootstrap, delete_todo_item, fetch_all_todo_items, Startup, StatusMessage,
    TodoItem,
};

fn fresh_store(name: &str) -> String {
    let path = format!("/tmp/todo_service_test_{}.sqlite", name);
    assert_eq!(bootstrap(&path), Startup::Ready);
    for item in fetch_all_todo_items(&path).unwrap().items {
        delete_todo_item(&path, item.id).unwrap();
    }
    path
}

fn items(path: &str) -> Vec<TodoItem> {
    fetch_all_todo_items(path).unwrap().items
}

#[test]
fn fetch_on_empty_table_lists_nothing() {
    let path = fresh_store("empty");
    assert_eq!(items(&path), vec![]);
}

#[test]
fn inserted_item_appears_with_a_new_positive_id() {
    let path = fresh_store("insert");
    add_todo_item(&path, "first".to_string()).unwrap();
    let before = items(&path);
    let reply = add_todo_item(&path, "buy milk".to_string());
    assert_eq!(reply, Ok(StatusMessage { message: "Inserted 1 rows".to_string() }));
    let after = items(&path);
    let new: Vec<&TodoItem> = after.iter().filter(|i| !before.contains(i)).collect();
    assert_eq!(new.len(), 1);
    assert_eq!(new[0].item, "buy milk");
    assert!(new[0].id > 0);
    assert!(before.iter().all(|i| i.id != new[0].id));
}

#[test]
fn empty_text_is_stored_as_given() {
    let path = fresh_store("empty_text");
    add_todo_item(&path, String::new()).unwrap();
    assert_eq!(items(&path).len(), 1);
    assert_eq!(items(&path)[0].item, "");
}

#[test]
fn delete_after_insert_removes_exactly_that_row() {
    let path = fresh_store("delete");
    add_todo_item(&path, "keep".to_string()).unwrap();
    add_todo_item(&path, "drop".to_string()).unwrap();
    let id = items(&path).iter().find(|i| i.item == "drop").unwrap().id;
    assert_eq!(
        delete_todo_item(&path, id),
        Ok(StatusMessage { message: "1 rows were deleted".to_string() })
    );
    let left = items(&path);
    assert_eq!(left.len(), 1);
    assert_eq!(left[0].item, "keep");
    assert!(left.iter().all(|i| i.id != id));
}

#[test]
fn deleting_an_unknown_id_deletes_zero_rows() {
    let path = fresh_store("unknown");
    assert_eq!(
        delete_todo_item(&path, 987654321),
        Ok(StatusMessage { message: "0 rows were deleted".to_string() })
    );
}

#[test]
fn insert_fetch_delete_round_trip() {
    let path = fresh_store("round_trip");
    add_todo_item(&path, "X".to_string()).unwrap();
    let id = items(&path).iter().find(|i| i.item == "X").unwrap().id;
    delete_todo_item(&path, id).unwrap();
    assert!(items(&path).iter().all(|i| i.item != "X" && i.id != id));
}

#[test]
fn many_inserts_get_distinct_ids_and_all_appear() {
    let path = fresh_store("many");
    let n: usize = 20;
    for k in 0..n {
        add_todo_item(&path, format!("task {}", k)).unwrap();
    }
    let all = items(&path);
    assert_eq!(all.len(), n);
    for k in 0..n {
        assert!(all.iter().any(|i| i.item == format!("task {}", k)));
    }
    let mut ids: Vec<i64> = all.iter().map(|i| i.id).collect();
    ids.sort();
    ids.dedup();
    assert_eq!(ids.len(), n);
}

#[test]
fn unreachable_database_is_reported() {
    let path = "/nonexistent_dir_for_todo_service/data.sqlite";
    assert_eq!(add_todo_item(path, "x".to_string()), Err("Unable to connect to database".to_string()));
    assert_eq!(delete_todo_item(path, 1), Err("Failed to connect to database".to_string()));
    assert_eq!(fetch_all_todo_items(path), Err("Failed to connect to database".to_string()));
    assert_eq!(bootstrap(path), Startup::Abort);
}

#[test]
fn a_row_that_is_not_text_fails_the_whole_listing() {
    let path = "/tmp/todo_service_test_blob_row.sqlite";
    assert_eq!(bootstrap(path), Startup::Ready);
    let conn = rusqlite::Connection::open(path).unwrap();
    conn.execute("DELETE FROM todo_list", ()).unwrap();
    add_todo_item(path, "readable".to_string()).unwrap();
    conn.execute("INSERT INTO todo_list (id, item) VALUES (NULL, X'00FF')", ()).unwrap();
    let listing = fetch_all_todo_items(path);
    conn.execute("DELETE FROM todo_list", ()).unwrap();
    assert_eq!(listing, Err("Could not get items".to_string()));
}
