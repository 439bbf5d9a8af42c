//! The `books` resource: its entity and its five statements.
use vstd::prelude::*;
use crate::filter::{Filters, opt_text};
use crate::sql::{
    BoundQuery, Param, SqlValue, text_param, text_value, delete_by_id, delete_sql,
    insert_returning_id, insert_sql, list_params, list_sql, names, params_of, select_by_id,
    select_by_id_sql, select_list, set_columns, set_values, fields_view, update_by_id, update_sql,
};

verus! {

pub const BOOKS_TABLE: &'static str = "books";

/// A row of `books`; `id` is absent before the store assigns it. `author` is
/// free text, independent of the `authors` table.
#[derive(Clone, Debug, PartialEq, Eq)]
pub struct Book {
    pub id: Option<i64>,
    pub title: Option<String>,
    pub author: Option<String>,
}

/// The settable columns of a book, in declaration order, with their values.
pub open spec fn book_fields(b: Book) -> Seq<(Seq<char>, Option<Seq<char>>)> {
    seq![("title"@, opt_text(b.title)), ("author"@, opt_text(b.author))]
}

/// The values an insert binds for a book, one per non-id column.
pub open spec fn book_params(b: Book) -> Seq<Param> {
    seq![text_param(opt_text(b.title)), text_param(opt_text(b.author))]
}

/// The non-id columns of `books`, in declaration order.
pub open spec fn book_columns() -> Seq<Seq<char>> {
    seq!["title"@, "author"@]
}

/// Lists books whose `author` equals `filter.author` when it is present, at
/// most `filter.limit` of them when it is present.
pub fn get_books_query(filter: Filters) -> (r: BoundQuery)
    ensures
        r.sql@ == list_sql(
            BOOKS_TABLE@,
            if filter.author is Some {
                Some("author"@)
            } else {
                None
            },
            filter.limit is Some,
        ),
        params_of(r) == list_params(opt_text(filter.author), filter.limit),
{
    let eq = match filter.author {
        Some(a) => Some(("author", a)),
        None => None,
    };
    select_list(BOOKS_TABLE, eq, filter.limit)
}

/// Fetches one book; the id is bound by the caller.
pub fn get_book_query() -> (r: String)
    ensures
        r@ == select_by_id_sql(BOOKS_TABLE@),
{
    select_by_id(BOOKS_TABLE)
}

/// Inserts a book, binding every non-id column in order; its `id` is ignored.
pub fn create_book_query(book: Book) -> (r: BoundQuery)
    ensures
        r.sql@ == insert_sql(BOOKS_TABLE@, book_columns()),
        params_of(r) == book_params(book),
{
    let ghost b = book;
    let cols: Vec<&str> = vec!["title", "author"];
    assert(names(cols@) =~= book_columns());
    let sql = insert_returning_id(BOOKS_TABLE, &cols);
    let mut params: Vec<SqlValue> = Vec::new();
    params.push(text_value(book.title));
    params.push(text_value(book.author));
    let r = BoundQuery { sql, params };
    assert(params_of(r) =~= book_params(b));
    r
}

/// Updates book `id`, setting only the fields that carry a value, title
/// before author; `None` when there is nothing to set.
pub fn update_book_query(book: Book, id: i64) -> (r: Option<BoundQuery>)
    ensures
        r is None <==> book.title is None && book.author is None,
        r matches Some(q) ==> q.sql@ == update_sql(BOOKS_TABLE@, set_columns(book_fields(book)))
            && params_of(q) == set_values(book_fields(book)).push(Param::Int(id as int)),
{
    let ghost b = book;
    let fields: Vec<(&str, Option<String>)> = vec![("title", book.title), ("author", book.author)];
    assert(fields_view(fields@) =~= book_fields(b));
    proof {
        reveal_with_fuel(set_columns, 3);
    }
    update_by_id(BOOKS_TABLE, &fields, id)
}

/// Deletes one book; the id is bound by the caller.
pub fn delete_book_query() -> (r: String)
    ensures
        r@ == delete_sql(BOOKS_TABLE@),
{
    delete_by_id(BOOKS_TABLE)
}

} // verus!
