use vstd::prelude::*;
use crate::decimal::{decimal_of, decimal_string};

verus! {

/// One row of the todo table.
#[derive(Debug, Clone, PartialEq, Eq)]
pub struct TodoItem {
    pub id: i64,
    pub item: String,
}

/// Every row of the todo table, in the order the store produced them.
#[derive(Debug, Clone, PartialEq, Eq)]
pub struct TodoList {
    pub items: Vec<TodoItem>,
}

/// A human-readable outcome of an operation that changes the table.
#[derive(Debug, Clone, PartialEq, Eq)]
pub struct StatusMessage {
    pub message: String,
}

/// Why an operation on the store failed.
#[derive(Debug, Clone, Copy, PartialEq, Eq, Structural)]
pub enum StoreError {
    /// The database file could not be opened.
    Connection,
    /// The statement could not be compiled against the schema.
    Prepare,
    /// The statement failed while running (a constraint, an I/O fault).
    Execution,
    /// A result row could not be read as an item.
    RowMapping,
}

/// The operations that a request can ask of the store.
#[derive(Debug, Clone, Copy, PartialEq, Eq, Structural)]
pub enum Operation {
    Insert,
    Delete,
    FetchAll,
}

/// The message reported after `n` rows were inserted.
pub open spec fn inserted_text(n: nat) -> Seq<char> {
    "Inserted "@ + decimal_of(n) + " rows"@
}

/// The message reported after `n` rows were deleted.
pub open spec fn deleted_text(n: nat) -> Seq<char> {
    decimal_of(n) + " rows were deleted"@
}

/// The text handed back to a client when `op` fails with `e`.
pub open spec fn error_text(op: Operation, e: StoreError) -> Seq<char> {
    match op {
        Operation::Insert => match e {
            StoreError::Connection => "Unable to connect to database"@,
            StoreError::Prepare => "Unable to prepare query"@,
            _ => "Unable to insert todo items"@,
        },
        Operation::Delete => match e {
            StoreError::Connection => "Failed to connect to database"@,
            StoreError::Prepare => "Failed to prepare SQL statement"@,
            _ => "Failed to delete values"@,
        },
        Operation::FetchAll => match e {
            StoreError::Connection => "Failed to connect to database"@,
            StoreError::Prepare => "Failed to prepare query"@,
            StoreError::Execution => "Failed to fetch todo items"@,
            StoreError::RowMapping => "Could not get items"@,
        },
    }
}

/// The reply, as text, to an insert whose store outcome is `o`.
pub open spec fn insert_reply(o: Result<usize, StoreError>) -> Result<Seq<char>, Seq<char>> {
    match o {
        Ok(n) => Ok(inserted_text(n as nat)),
        Err(e) => Err(error_text(Operation::Insert, e)),
    }
}

/// The reply, as text, to a delete whose store outcome is `o`.
pub open spec fn delete_reply(o: Result<usize, StoreError>) -> Result<Seq<char>, Seq<char>> {
    match o {
        Ok(n) => Ok(deleted_text(n as nat)),
        Err(e) => Err(error_text(Operation::Delete, e)),
    }
}

/// The reply to a fetch of every item whose store outcome is `o`.
pub open spec fn fetch_reply(o: Result<Seq<TodoItem>, StoreError>) -> Result<Seq<TodoItem>, Seq<char>> {
    match o {
        Ok(items) => Ok(items),
        Err(e) => Err(error_text(Operation::FetchAll, e)),
    }
}

/// A status reply seen as text.
pub open spec fn status_view(r: Result<StatusMessage, String>) -> Result<Seq<char>, Seq<char>> {
    match r {
        Ok(m) => Ok(m.message@),
        Err(s) => Err(s@),
    }
}

/// A list reply seen as its items.
pub open spec fn list_view(r: Result<TodoList, String>) -> Result<Seq<TodoItem>, Seq<char>> {
    match r {
        Ok(l) => Ok(l.items@),
        Err(s) => Err(s@),
    }
}

/// A store outcome seen through the view of its items.
pub open spec fn outcome_view(o: Result<Vec<TodoItem>, StoreError>) -> Result<Seq<TodoItem>, StoreError> {
    match o {
        Ok(v) => Ok(v@),
        Err(e) => Err(e),
    }
}

/// The text handed back to a client when `op` fails with `e`.
pub fn error_message(op: Operation, e: StoreError) -> (r: String)
    ensures
        r@ == error_text(op, e),
{
    match op {
        Operation::Insert => match e {
            StoreError::Connection => String::from_str("Unable to connect to database"),
            StoreError::Prepare => String::from_str("Unable to prepare query"),
            _ => String::from_str("Unable to insert todo items"),
        },
        Operation::Delete => match e {
            StoreError::Connection => String::from_str("Failed to connect to database"),
            StoreError::Prepare => String::from_str("Failed to prepare SQL statement"),
            _ => String::from_str("Failed to delete values"),
        },
        Operation::FetchAll => match e {
            StoreError::Connection => String::from_str("Failed to connect to database"),
            StoreError::Prepare => String::from_str("Failed to prepare query"),
            StoreError::Execution => String::from_str("Failed to fetch todo items"),
            StoreError::RowMapping => String::from_str("Could not get items"),
        },
    }
}

/// The message reported after `n` rows were inserted.
pub fn inserted_message(n: usize) -> (r: String)
    ensures
        r@ == inserted_text(n as nat),
{
    let mut s = String::from_str("Inserted ");
    let d = decimal_string(n as u64);
    s.append(d.as_str());
    s.append(" rows");
    s
}

/// The message reported after `n` rows were deleted.
pub fn deleted_message(n: usize) -> (r: String)
    ensures
        r@ == deleted_text(n as nat),
{
    let mut s = decimal_string(n as u64);
    s.append(" rows were deleted");
    s
}

/// Turns the store's outcome of an insert into the reply to the client:
/// the number of inserted rows, or the text of the failure.
pub fn insert_response(outcome: Result<usize, StoreError>) -> (r: Result<StatusMessage, String>)
    ensures
        status_view(r) == insert_reply(outcome),
{
    match outcome {
        Ok(n) => Ok(StatusMessage { message: inserted_message(n) }),
        Err(e) => Err(error_message(Operation::Insert, e)),
    }
}

/// Turns the store's outcome of a delete into the reply to the client. A
/// delete that matched no row is a success that reports zero rows.
pub fn delete_response(outcome: Result<usize, StoreError>) -> (r: Result<StatusMessage, String>)
    ensures
        status_view(r) == delete_reply(outcome),
{
    match outcome {
        Ok(n) => Ok(StatusMessage { message: deleted_message(n) }),
        Err(e) => Err(error_message(Operation::Delete, e)),
    }
}

/// Turns the store's outcome of a fetch of every item into the reply to the
/// client: the items in the order given, or the text of the failure.
pub fn fetch_response(outcome: Result<Vec<TodoItem>, StoreError>) -> (r: Result<TodoList, String>)
    ensures
        list_view(r) == fetch_reply(outcome_view(outcome)),
{
    match outcome {
        Ok(items) => Ok(TodoList { items }),
        Err(e) => Err(error_message(Operation::FetchAll, e)),
    }
}

} // verus!
