//! A small todo-list service: a single table of todo items kept in an
//! embedded SQL store, and the request handlers that read and change it.

mod decimal;
mod service;
mod sql;
mod store;
mod todo;

pub use decimal::{append_decimal, decimal_of, decimal_string, digit_char};
pub use todo::{
    deleted_message, deleted_text, delete_reply, delete_response, error_message, error_text,
    fetch_reply, fetch_response, insert_reply, insert_response, inserted_message, inserted_text,
    list_view, outcome_view, status_view, Operation, StatusMessage, StoreError, TodoItem, TodoList,
};
pub use sql::{
    create_table_request, create_table_statement, delete_request, delete_statement, insert_request,
    insert_statement, select_all_request, select_all_statement,
};
pub use store::{
    collect_rows, delete_item, ensure_schema, fetch_all, fetch_outcome, insert_item, items_of_rows,
    read_rows, row_item, row_readable, rows_view, RowRead,
};
pub use service::{
    add_todo_item, bootstrap, delete_todo_item, fetch_all_todo_items, greeting_text, index,
    startup_decision, startup_decision_spec, Startup, DATABASE_PATH,
};
