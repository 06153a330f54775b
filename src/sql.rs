use vstd::prelude::*;

verus! {

/// The statement that creates the todo table when it is missing.
pub open spec fn create_table_statement() -> Seq<char> {
    "CREATE TABLE IF NOT EXISTS todo_list(id INTEGER PRIMARY KEY, item VARCHAR(64) NOT NULL)"@
}

/// The statement that inserts one item; a null id lets the store assign
/// the next key, and the item text is its one parameter.
pub open spec fn insert_statement() -> Seq<char> {
    "INSERT INTO todo_list (id, item) VALUES (NULL, ?1)"@
}

/// The statement that deletes the item whose id is its one parameter.
pub open spec fn delete_statement() -> Seq<char> {
    "DELETE FROM todo_list WHERE id = ?1"@
}

/// The statement that selects the id and text of every item.
pub open spec fn select_all_statement() -> Seq<char> {
    "SELECT id, item FROM todo_list"@
}

/// What start-up sends to the store: the table creation, without parameters.
pub fn create_table_request() -> (r: &'static str)
    ensures
        r@ == create_table_statement(),
{
    "CREATE TABLE IF NOT EXISTS todo_list(id INTEGER PRIMARY KEY, item VARCHAR(64) NOT NULL)"
}

/// What an insert of `text` sends to the store: the insert statement, and
/// the text itself as its parameter.
pub fn insert_request(text: &str) -> (r: (&'static str, String))
    ensures
        r.0@ == insert_statement(),
        r.1@ == text@,
{
    ("INSERT INTO todo_list (id, item) VALUES (NULL, ?1)", String::from_str(text))
}

/// What a delete of `id` sends to the store: the delete statement, and the
/// id itself as its parameter.
pub fn delete_request(id: i64) -> (r: (&'static str, i64))
    ensures
        r.0@ == delete_statement(),
        r.1 == id,
{
    ("DELETE FROM todo_list WHERE id = ?1", id)
}

/// What a fetch of every item sends to the store: the select, without
/// parameters.
pub fn select_all_request() -> (r: &'static str)
    ensures
        r@ == select_all_statement(),
{
    "SELECT id, item FROM todo_list"
}

} // verus!
