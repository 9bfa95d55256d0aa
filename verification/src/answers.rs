//! The answers the handlers and the command-line tool give once the
//! database has done its part: what is said when a deletion, an update or a
//! drop touched nothing.
use vstd::prelude::*;
use vstd::string::*;
use crate::errors::SqlxError;

verus! {

fn joined(prefix: &str, middle: &str, suffix: &str) -> (res: String)
    ensures
        res@ == prefix@ + middle@ + suffix@,
{
    let mut s = String::from_str(prefix);
    s.append(middle);
    s.append(suffix);
    s
}

/// The answer to deleting todo `id`, given how many documents went
/// (`Err` when the database failed): exactly one is a success; otherwise
/// the id was not found.
pub open spec fn delete_todo_answer_of(deleted: Result<u64, ()>, id: Seq<char>) -> (u16, Seq<char>) {
    match deleted {
        Ok(n) => if n == 1 {
            (200, "successfully deleted!"@)
        } else {
            (404, "Item with specified ID "@ + id + " not found!"@)
        },
        Err(_) => (404, "item with specified ID "@ + id + " not found!"@),
    }
}

pub fn delete_todo_answer(deleted: Result<u64, ()>, id: &str) -> (res: (u16, String))
    ensures
        res.0 == delete_todo_answer_of(deleted, id@).0,
        res.1@ == delete_todo_answer_of(deleted, id@).1,
{
    match deleted {
        Ok(n) => if n == 1 {
            (200, String::from_str("successfully deleted!"))
        } else {
            (404, joined("Item with specified ID ", id, " not found!"))
        },
        Err(_) => (404, joined("item with specified ID ", id, " not found!")),
    }
}

/// The answer to deleting book `id`: exactly one document gone is a
/// success; anything else, a failure included, is not found.
pub open spec fn delete_book_answer_of(deleted: Result<u64, ()>, id: Seq<char>) -> (u16, Seq<char>) {
    if deleted == Ok::<u64, ()>(1) {
        (200, "successfully deleted!"@)
    } else {
        (404, "item with specified ID "@ + id + " not found!"@)
    }
}

pub fn delete_book_answer(deleted: Result<u64, ()>, id: &str) -> (res: (u16, String))
    ensures
        res.0 == delete_book_answer_of(deleted, id@).0,
        res.1@ == delete_book_answer_of(deleted, id@).1,
{
    match deleted {
        Ok(n) => if n == 1 {
            (200, String::from_str("successfully deleted!"))
        } else {
            (404, joined("item with specified ID ", id, " not found!"))
        },
        Err(_) => (404, joined("item with specified ID ", id, " not found!")),
    }
}

/// A book deletion succeeds exactly when one document went: then it answers
/// 200 "successfully deleted!"; in every other case, a failed call included,
/// it answers 404 naming the id.
pub proof fn lemma_delete_book_answer(deleted: Result<u64, ()>, id: Seq<char>)
    ensures
        (delete_book_answer_of(deleted, id).0 == 200) <==> (deleted == Ok::<u64, ()>(1)),
        deleted == Ok::<u64, ()>(1) ==> delete_book_answer_of(deleted, id).1 == "successfully deleted!"@,
        deleted != Ok::<u64, ()>(1) ==> delete_book_answer_of(deleted, id) == (
            404u16,
            "item with specified ID "@ + id + " not found!"@,
        ),
{
}

/// A todo deletion succeeds exactly when one document went; otherwise it
/// answers 404 naming the id. It answers as a book deletion does, but for
/// the capital letter of its not-found message when the call itself worked.
pub proof fn lemma_delete_todo_answer(deleted: Result<u64, ()>, id: Seq<char>)
    ensures
        (delete_todo_answer_of(deleted, id).0 == 200) <==> (deleted == Ok::<u64, ()>(1)),
        deleted == Ok::<u64, ()>(1) ==> delete_todo_answer_of(deleted, id).1 == "successfully deleted!"@,
        deleted is Err ==> delete_todo_answer_of(deleted, id) == (
            404u16,
            "item with specified ID "@ + id + " not found!"@,
        ),
        deleted matches Ok(n) && n != 1 ==> delete_todo_answer_of(deleted, id) == (
            404u16,
            "Item with specified ID "@ + id + " not found!"@,
        ),
        deleted == Ok::<u64, ()>(1) || deleted is Err ==> delete_todo_answer_of(deleted, id)
            == delete_book_answer_of(deleted, id),
{
}

/// The answer to updating a document that is not there.
pub fn update_missing_answer(id: &str) -> (res: (u16, String))
    ensures
        res.0 == 404,
        res.1@ == "not found item with ID "@ + id@,
{
    let mut s = String::from_str("not found item with ID ");
    s.append(id);
    (404, s)
}

/// The answer to a failed update of a relational book: a missing column is
/// the caller's mistake and is named; anything else is the database's and
/// is answered with its text.
pub fn sql_update_error_answer(error: &SqlxError, text: String) -> (res: (u16, String))
    ensures
        match *error {
            SqlxError::ColumnNotFound(column) => res.0 == 400 && res.1@ == column@,
            _ => res.0 == 500 && res.1@ == text@,
        },
{
    match error {
        SqlxError::ColumnNotFound(column) => (400, column.clone()),
        _ => (500, text),
    }
}

/// What the command-line tool reports after dropping all tasks.
pub fn drop_report(rows_affected: u64) -> (res: &'static str)
    ensures
        res@ == (if rows_affected > 0 { "Deleted all items"@ } else { "No items found"@ }),
{
    if rows_affected > 0 {
        "Deleted all items"
    } else {
        "No items found"
    }
}

/// What the command-line tool reports after deleting task `id`.
pub fn delete_report(rows_affected: u64, id: &str) -> (res: String)
    ensures
        res@ == (if rows_affected > 0 {
            "Deleted item with ID: "@ + id@
        } else {
            "Item with ID: "@ + id@ + " not found"@
        }),
{
    if rows_affected > 0 {
        let mut s = String::from_str("Deleted item with ID: ");
        s.append(id);
        s
    } else {
        joined("Item with ID: ", id, " not found")
    }
}

} // verus!
