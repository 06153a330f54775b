use vstd::prelude::*;
use rusqlite::{Connection, Row, Rows, Statement};
use crate::sql::{
    create_table_request, create_table_statement, delete_request, delete_statement, insert_request,
    insert_statement, select_all_request, select_all_statement,
};
use crate::todo::{outcome_view, StoreError, TodoItem};

verus! {

/// An open rusqlite connection, carried through opaquely.
#[verifier::external_type_specification]
#[verifier::external_body]
pub struct ExConnection(rusqlite::Connection);

/// A prepared rusqlite statement, carried through opaquely.
#[verifier::external_type_specification]
#[verifier::external_body]
pub struct ExStatement<'conn>(rusqlite::Statement<'conn>);

/// The rows of a running rusqlite query, carried through opaquely.
#[verifier::external_type_specification]
#[verifier::external_body]
pub struct ExRows<'stmt>(rusqlite::Rows<'stmt>);

/// One result row of a rusqlite query, carried through opaquely.
#[verifier::external_type_specification]
#[verifier::external_body]
pub struct ExRow<'stmt>(rusqlite::Row<'stmt>);

/// A rusqlite error; only whether one occurred is looked at.
#[verifier::external_type_specification]
#[verifier::external_body]
pub struct ExSqlError(rusqlite::Error);

/// Relies on rusqlite::Connection::open: opens the database file at `path`,
/// creating it when absent. Whether it succeeds depends on the file system.
#[verifier::external_body]
fn open_connection(path: &str) -> (r: Result<Connection, rusqlite::Error>) {
    Connection::open(path)
}

/// Relies on rusqlite::Connection::execute: runs one statement without
/// parameters and gives the number of rows it changed.
#[verifier::external_body]
fn execute_sql(conn: &Connection, sql: &str) -> (r: Result<usize, rusqlite::Error>) {
    conn.execute(sql, ())
}

/// Relies on rusqlite::Connection::prepare: compiles one statement.
#[verifier::external_body]
fn prepare_statement<'c>(conn: &'c Connection, sql: &str) -> (r: Result<Statement<'c>, rusqlite::Error>) {
    conn.prepare(sql)
}

/// Relies on rusqlite::Statement::execute: binds a text as the first
/// parameter, runs the statement and gives the number of rows it changed.
#[verifier::external_body]
fn execute_with_text(stmt: &mut Statement<'_>, text: &str) -> (r: Result<usize, rusqlite::Error>) {
    stmt.execute((text,))
}

/// Relies on rusqlite::Statement::execute: binds an integer as the first
/// parameter, runs the statement and gives the number of rows it changed.
#[verifier::external_body]
fn execute_with_integer(stmt: &mut Statement<'_>, value: i64) -> (r: Result<usize, rusqlite::Error>) {
    stmt.execute((value,))
}

/// Relies on rusqlite::Statement::query: starts a query without parameters.
#[verifier::external_body]
fn start_query<'s>(stmt: &'s mut Statement<'_>) -> (r: Result<Rows<'s>, rusqlite::Error>) {
    stmt.query(())
}

/// Relies on rusqlite::Rows::next: steps to the next result row, `None`
/// once every row has been produced.
#[verifier::external_body]
fn next_row<'r, 's>(rows: &'r mut Rows<'s>) -> (r: Result<Option<&'r Row<'s>>, rusqlite::Error>) {
    rows.next()
}

/// Relies on rusqlite::Row::get: reads column `idx` of a row as an integer.
#[verifier::external_body]
fn column_integer(row: &Row<'_>, idx: usize) -> (r: Result<i64, rusqlite::Error>) {
    row.get(idx)
}

/// Relies on rusqlite::Row::get: reads column `idx` of a row as text.
#[verifier::external_body]
fn column_text(row: &Row<'_>, idx: usize) -> (r: Result<String, rusqlite::Error>) {
    row.get(idx)
}

/// What one result row held: its id and its text, each `None` when that
/// column could not be read as the expected type.
pub type RowRead = (Option<i64>, Option<String>);

/// Whether both columns of a row were read.
pub open spec fn row_readable(row: RowRead) -> bool {
    row.0 is Some && row.1 is Some
}

/// The item that a readable row stands for.
pub open spec fn row_item(row: RowRead) -> TodoItem {
    TodoItem { id: row.0->Some_0, item: row.1->Some_0 }
}

/// The items that the rows `rows` stand for, in the same order, when every
/// row was readable; a row failure otherwise. No partial list is given.
pub open spec fn items_of_rows(rows: Seq<RowRead>) -> Result<Seq<TodoItem>, StoreError> {
    if forall|i: int| 0 <= i < rows.len() ==> row_readable(#[trigger] rows[i]) {
        Ok(rows.map_values(|row: RowRead| row_item(row)))
    } else {
        Err(StoreError::RowMapping)
    }
}

/// The outcome of a fetch whose reading of the rows gave `o`.
pub open spec fn fetch_outcome(o: Result<Seq<RowRead>, StoreError>) -> Result<Seq<TodoItem>, StoreError> {
    match o {
        Ok(rows) => items_of_rows(rows),
        Err(e) => Err(e),
    }
}

/// The rows as read, seen as a sequence.
pub open spec fn rows_view(o: Result<Vec<RowRead>, StoreError>) -> Result<Seq<RowRead>, StoreError> {
    match o {
        Ok(v) => Ok(v@),
        Err(e) => Err(e),
    }
}

/// Turns the rows read by a fetch into items: all of them, in order, when
/// every row was readable; a row failure otherwise.
pub fn collect_rows(rows: Vec<RowRead>) -> (r: Result<Vec<TodoItem>, StoreError>)
    ensures
        outcome_view(r) == items_of_rows(rows@),
{
    let mut items: Vec<TodoItem> = Vec::new();
    let mut i: usize = 0;
    while i < rows.len()
        invariant
            i <= rows@.len(),
            forall|j: int| 0 <= j < i ==> row_readable(#[trigger] rows@[j]),
            items@ == rows@.subrange(0, i as int).map_values(|row: RowRead| row_item(row)),
        decreases rows@.len() - i,
    {
        match &rows[i] {
            (Some(id), Some(text)) => {
                items.push(TodoItem { id: *id, item: text.clone() });
            },
            _ => {
                assert(!row_readable(rows@[i as int]));
                return Err(StoreError::RowMapping);
            },
        }
        proof {
            assert(rows@.subrange(0, i + 1) =~= rows@.subrange(0, i as int).push(rows@[i as int]));
        }
        i = i + 1;
    }
    assert(rows@.subrange(0, rows@.len() as int) =~= rows@);
    assert(items@ =~= rows@.map_values(|row: RowRead| row_item(row)));
    Ok(items)
}

/// Runs the table creation on `conn`.
fn run_create_table(conn: &Connection, sql: &str) -> (r: Result<usize, rusqlite::Error>)
    requires
        sql@ == create_table_statement(),
{
    execute_sql(conn, sql)
}

/// Prepares the insert statement on `conn`.
fn prepare_insert<'c>(conn: &'c Connection, sql: &str) -> (r: Result<Statement<'c>, rusqlite::Error>)
    requires
        sql@ == insert_statement(),
{
    prepare_statement(conn, sql)
}

/// Prepares the delete statement on `conn`.
fn prepare_delete<'c>(conn: &'c Connection, sql: &str) -> (r: Result<Statement<'c>, rusqlite::Error>)
    requires
        sql@ == delete_statement(),
{
    prepare_statement(conn, sql)
}

/// Prepares the select of every item on `conn`.
fn prepare_select<'c>(conn: &'c Connection, sql: &str) -> (r: Result<Statement<'c>, rusqlite::Error>)
    requires
        sql@ == select_all_statement(),
{
    prepare_statement(conn, sql)
}

/// Creates the todo table in the database at `path` unless it is there
/// already. Gives the number of rows the statement changed.
pub fn ensure_schema(path: &str) -> (r: Result<usize, StoreError>)
    ensures
        r matches Err(e) ==> (e == StoreError::Connection || e == StoreError::Execution),
{
    let conn = match open_connection(path) {
        Ok(c) => c,
        Err(_) => return Err(StoreError::Connection),
    };
    match run_create_table(&conn, create_table_request()) {
        Ok(n) => Ok(n),
        Err(_) => Err(StoreError::Execution),
    }
}

/// Inserts `text` as a new item into the database at `path`; the store
/// assigns its id. Gives the number of rows inserted.
pub fn insert_item(path: &str, text: &str) -> (r: Result<usize, StoreError>)
    ensures
        r matches Err(e) ==> e != StoreError::RowMapping,
{
    let (sql, param) = insert_request(text);
    let conn = match open_connection(path) {
        Ok(c) => c,
        Err(_) => return Err(StoreError::Connection),
    };
    let mut stmt = match prepare_insert(&conn, sql) {
        Ok(s) => s,
        Err(_) => return Err(StoreError::Prepare),
    };
    match execute_with_text(&mut stmt, param.as_str()) {
        Ok(n) => Ok(n),
        Err(_) => Err(StoreError::Execution),
    }
}

/// Deletes the item with id `id` from the database at `path`. Gives the
/// number of rows deleted, zero when no item had that id.
pub fn delete_item(path: &str, id: i64) -> (r: Result<usize, StoreError>)
    ensures
        r matches Err(e) ==> e != StoreError::RowMapping,
{
    let (sql, param) = delete_request(id);
    let conn = match open_connection(path) {
        Ok(c) => c,
        Err(_) => return Err(StoreError::Connection),
    };
    let mut stmt = match prepare_delete(&conn, sql) {
        Ok(s) => s,
        Err(_) => return Err(StoreError::Prepare),
    };
    match execute_with_integer(&mut stmt, param) {
        Ok(n) => Ok(n),
        Err(_) => Err(StoreError::Execution),
    }
}

/// Reads every row of the todo table in the database at `path`, in the
/// store's scan order, as the columns could be read. A failure to step to
/// the next row, or a result too large to hold in memory, is a row failure.
pub fn read_rows(path: &str) -> (r: Result<Vec<RowRead>, StoreError>) {
    let conn = match open_connection(path) {
        Ok(c) => c,
        Err(_) => return Err(StoreError::Connection),
    };
    let mut stmt = match prepare_select(&conn, select_all_request()) {
        Ok(s) => s,
        Err(_) => return Err(StoreError::Prepare),
    };
    let mut rows = match start_query(&mut stmt) {
        Ok(rs) => rs,
        Err(_) => return Err(StoreError::Execution),
    };
    let mut read: Vec<RowRead> = Vec::new();
    while read.len() < usize::MAX
        decreases usize::MAX - read.len(),
    {
        let row = match next_row(&mut rows) {
            Ok(Some(row)) => row,
            Ok(None) => return Ok(read),
            Err(_) => return Err(StoreError::RowMapping),
        };
        let id = match column_integer(row, 0) {
            Ok(id) => Some(id),
            Err(_) => None,
        };
        let item = match column_text(row, 1) {
            Ok(item) => Some(item),
            Err(_) => None,
        };
        read.push((id, item));
    }
    Err(StoreError::RowMapping)
}

/// Reads every item of the database at `path`, in the store's scan order:
/// whatever rows were read, the items are exactly those rows, all or
/// nothing.
pub fn fetch_all(path: &str) -> (r: Result<Vec<TodoItem>, StoreError>)
    ensures
        exists|o: Result<Seq<RowRead>, StoreError>| outcome_view(r) == #[trigger] fetch_outcome(o),
{
    let read = read_rows(path);
    let ghost o = rows_view(read);
    let r = match read {
        Ok(rows) => collect_rows(rows),
        Err(e) => Err(e),
    };
    assert(outcome_view(r) == fetch_outcome(o));
    r
}

} // verus!
