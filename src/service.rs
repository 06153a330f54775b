use vstd::prelude::*;
use crate::store::{delete_item, ensure_schema, fetch_all, fetch_outcome, insert_item, RowRead};
use crate::todo::{
    delete_reply, delete_response, fetch_reply, fetch_response, insert_reply, insert_response,
    list_view, outcome_view, status_view, StatusMessage, StoreError, TodoItem, TodoList,
};

verus! {

/// The database file that the service uses unless told otherwise.
pub const DATABASE_PATH: &'static str = "data.sqlite";

/// The greeting served at the root route.
pub open spec fn greeting_text() -> Seq<char> {
    "Hello, world!  Because I ran 'cargo watch -x run', it makes it reload when I press save to any of the files on here (that aren't in .gitignore)"@
}

/// The greeting served at the root route.
pub fn index() -> (r: &'static str)
    ensures
        r@ == greeting_text(),
{
    "Hello, world!  Because I ran 'cargo watch -x run', it makes it reload when I press save to any of the files on here (that aren't in .gitignore)"
}

/// Adds `item` to the list kept in the database at `path`. The reply is the
/// one for some outcome of the insert; an insert never fails on row mapping.
pub fn add_todo_item(path: &str, item: String) -> (r: Result<StatusMessage, String>)
    ensures
        exists|o: Result<usize, StoreError>|
            !(o matches Err(StoreError::RowMapping)) && status_view(r) == #[trigger] insert_reply(o),
{
    let outcome = insert_item(path, item.as_str());
    let r = insert_response(outcome);
    assert(status_view(r) == insert_reply(outcome));
    r
}

/// Deletes the item with id `id` from the database at `path`. The reply is
/// the one for some outcome of the delete; a delete never fails on row
/// mapping, and a missing id is a success that deletes zero rows.
pub fn delete_todo_item(path: &str, id: i64) -> (r: Result<StatusMessage, String>)
    ensures
        exists|o: Result<usize, StoreError>|
            !(o matches Err(StoreError::RowMapping)) && status_view(r) == #[trigger] delete_reply(o),
{
    let outcome = delete_item(path, id);
    let r = delete_response(outcome);
    assert(status_view(r) == delete_reply(outcome));
    r
}

/// Lists every item of the database at `path`. Whatever rows the store
/// gave, the reply lists exactly those rows in order, or is the text of
/// the failure.
pub fn fetch_all_todo_items(path: &str) -> (r: Result<TodoList, String>)
    ensures
        exists|o: Result<Seq<RowRead>, StoreError>| list_view(r) == fetch_reply(#[trigger] fetch_outcome(o)),
{
    let outcome = fetch_all(path);
    let ghost o = choose|o: Result<Seq<RowRead>, StoreError>| outcome_view(outcome) == fetch_outcome(o);
    let r = fetch_response(outcome);
    assert(list_view(r) == fetch_reply(fetch_outcome(o)));
    r
}

/// What start-up does once it has tried to create the table.
#[derive(Debug, Clone, Copy, PartialEq, Eq, Structural)]
pub enum Startup {
    /// The table is in place; serve requests.
    Ready,
    /// The database opened but the table could not be created; serve
    /// requests and report the failure.
    SchemaFailed,
    /// The database could not be opened; stop the process.
    Abort,
}

/// Decides how start-up proceeds after creating the table gave `outcome`.
/// Only a database that cannot be opened stops the process.
pub fn startup_decision(outcome: Result<usize, StoreError>) -> (r: Startup)
    ensures
        r == startup_decision_spec(outcome),
{
    match outcome {
        Ok(_) => Startup::Ready,
        Err(StoreError::Connection) => Startup::Abort,
        Err(_) => Startup::SchemaFailed,
    }
}

/// Prepares the database at `path` for serving: creates the table when it
/// is missing and decides whether the process may go on.
pub fn bootstrap(path: &str) -> (r: Startup)
    ensures
        exists|o: Result<usize, StoreError>|
            !(o matches Err(StoreError::Prepare)) && !(o matches Err(StoreError::RowMapping))
                && r == #[trigger] startup_decision_spec(o),
{
    let outcome = ensure_schema(path);
    let r = startup_decision(outcome);
    assert(r == startup_decision_spec(outcome));
    r
}

/// How start-up proceeds after creating the table gave `outcome`.
pub open spec fn startup_decision_spec(outcome: Result<usize, StoreError>) -> Startup {
    match outcome {
        Ok(_) => Startup::Ready,
        Err(StoreError::Connection) => Startup::Abort,
        Err(_) => Startup::SchemaFailed,
    }
}

} // verus!
