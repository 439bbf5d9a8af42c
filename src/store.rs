//! What the statements built by this library do to a table, and the laws that
//! follow for the two resources.
//!
//! A stored row maps column names to values; a table maps ids to rows. Each
//! statement is given its meaning over the columns and bound values that the
//! builders produce.
use vstd::prelude::*;
use crate::filter::opt_text;
use crate::sql::{Param, set_columns, set_values, text_param};
use crate::authors::{Author, author_columns, author_fields, author_params};
use crate::books::{Book, book_columns, book_fields, book_params};
use crate::responses::{ErrorKind, kind_status};

verus! {

/// A stored row: column name to value.
pub type Row = Map<Seq<char>, Param>;

/// A table: id to row.
pub type Table = Map<int, Row>;

/// `row` with `cols[i]` set to `vals[i]` for each `i`, in order.
pub open spec fn assign(row: Row, cols: Seq<Seq<char>>, vals: Seq<Param>) -> Row
    decreases cols.len(),
{
    if cols.len() == 0 || vals.len() == 0 {
        row
    } else {
        assign(row, cols.drop_last(), vals.drop_last()).insert(cols.last(), vals.last())
    }
}

/// An insert stores a new row under the id that the store assigns.
pub open spec fn run_insert(t: Table, id: int, cols: Seq<Seq<char>>, vals: Seq<Param>) -> Table {
    t.insert(id, assign(Map::empty(), cols, vals))
}

/// A fetch by id finds the row of that id, if there is one.
pub open spec fn run_get(t: Table, id: int) -> Option<Row> {
    if t.contains_key(id) {
        Some(t[id])
    } else {
        None
    }
}

/// An update by id sets the given columns of that row, if there is one.
pub open spec fn run_update(t: Table, id: int, cols: Seq<Seq<char>>, vals: Seq<Param>) -> Table {
    if t.contains_key(id) {
        t.insert(id, assign(t[id], cols, vals))
    } else {
        t
    }
}

/// A delete by id removes that row, if there is one.
pub open spec fn run_delete(t: Table, id: int) -> Table {
    t.remove(id)
}

/// Whether a row passes the optional equality filter on column `col`.
pub open spec fn passes(r: Row, col: Seq<char>, eq: Option<Seq<char>>) -> bool {
    match eq {
        Some(v) => r.contains_key(col) && r[col] == Param::Text(v),
        None => true,
    }
}

/// The rows, in store order, that pass the filter.
pub open spec fn matching(rows: Seq<Row>, col: Seq<char>, eq: Option<Seq<char>>) -> Seq<Row> {
    rows.filter(|r: Row| passes(r, col, eq))
}

/// What `list_sql(table, Some(col), ..)` returns with `list_params(eq, limit)`
/// bound: the matching rows, the first `limit` of them when a limit is bound.
pub open spec fn run_list(rows: Seq<Row>, col: Seq<char>, eq: Option<Seq<char>>, limit: Option<u32>) -> Seq<Row> {
    let m = matching(rows, col, eq);
    match limit {
        Some(n) => if n < m.len() {
            m.take(n as int)
        } else {
            m
        },
        None => m,
    }
}

/// The stored form of an author's non-id fields.
pub open spec fn author_row(a: Author) -> Row {
    Map::empty().insert("name"@, text_param(opt_text(a.name)))
}

/// The stored form of a book's non-id fields.
pub open spec fn book_row(b: Book) -> Row {
    Map::empty().insert("title"@, text_param(opt_text(b.title))).insert(
        "author"@,
        text_param(opt_text(b.author)),
    )
}

/// `stored` with each field that `patch` carries replaced by the patch's value.
pub open spec fn merge_author(stored: Author, patch: Author) -> Author {
    Author { id: stored.id, name: if patch.name is Some { patch.name } else { stored.name } }
}

/// `stored` with each field that `patch` carries replaced by the patch's value.
pub open spec fn merge_book(stored: Book, patch: Book) -> Book {
    Book {
        id: stored.id,
        title: if patch.title is Some { patch.title } else { stored.title },
        author: if patch.author is Some { patch.author } else { stored.author },
    }
}

/// A list never returns more rows than its limit, and without a limit it
/// returns every matching row.
pub proof fn lemma_list_limit(rows: Seq<Row>, col: Seq<char>, eq: Option<Seq<char>>, limit: Option<u32>)
    ensures
        limit matches Some(n) ==> run_list(rows, col, eq, limit).len() <= n,
        limit is None ==> run_list(rows, col, eq, limit) == matching(rows, col, eq),
        forall|i: int| 0 <= i < run_list(rows, col, eq, limit).len() ==> passes(
            #[trigger] run_list(rows, col, eq, limit)[i],
            col,
            eq,
        ),
{
    let m = matching(rows, col, eq);
    assert forall|i: int| 0 <= i < m.len() implies passes(#[trigger] m[i], col, eq) by {
        rows.lemma_filter_pred(|r: Row| passes(r, col, eq), i);
    }
}

/// A created author can be fetched at once under the id the store assigned,
/// with the fields that were submitted.
pub proof fn lemma_created_author_is_fetched(t: Table, id: int, a: Author)
    requires
        !t.contains_key(id),
    ensures
        run_get(run_insert(t, id, author_columns(), author_params(a)), id) == Some(author_row(a)),
{
    reveal_with_fuel(assign, 2);
    assert(assign(Map::empty(), author_columns(), author_params(a)) =~= author_row(a));
}

/// A created book can be fetched at once under the id the store assigned,
/// with the fields that were submitted.
pub proof fn lemma_created_book_is_fetched(t: Table, id: int, b: Book)
    requires
        !t.contains_key(id),
    ensures
        run_get(run_insert(t, id, book_columns(), book_params(b)), id) == Some(book_row(b)),
{
    reveal_with_fuel(assign, 3);
    assert(seq!["title"@, "author"@].drop_last() =~= seq!["title"@]);
    assert(book_params(b).drop_last() =~= seq![text_param(opt_text(b.title))]);
    assert(assign(Map::empty(), book_columns(), book_params(b)) =~= book_row(b));
}

/// An update that carries only some fields of an author leaves the others as
/// they were.
pub proof fn lemma_partial_author_update(t: Table, id: int, stored: Author, patch: Author)
    requires
        t.contains_key(id),
        t[id] == author_row(stored),
    ensures
        run_get(
            run_update(t, id, set_columns(author_fields(patch)), set_values(author_fields(patch))),
            id,
        ) == Some(author_row(merge_author(stored, patch))),
{
    reveal_with_fuel(assign, 2);
    reveal_with_fuel(set_columns, 2);
    reveal_with_fuel(set_values, 2);
    let f = author_fields(patch);
    assert(f.drop_last() =~= Seq::<(Seq<char>, Option<Seq<char>>)>::empty());
    assert(assign(author_row(stored), set_columns(f), set_values(f)) =~= author_row(
        merge_author(stored, patch),
    ));
}

/// An update that carries only some fields of a book leaves the others as
/// they were.
pub proof fn lemma_partial_book_update(t: Table, id: int, stored: Book, patch: Book)
    requires
        t.contains_key(id),
        t[id] == book_row(stored),
    ensures
        run_get(
            run_update(t, id, set_columns(book_fields(patch)), set_values(book_fields(patch))),
            id,
        ) == Some(book_row(merge_book(stored, patch))),
{
    reveal_with_fuel(assign, 3);
    reveal_with_fuel(set_columns, 3);
    reveal_with_fuel(set_values, 3);
    let f = book_fields(patch);
    assert(f.drop_last() =~= seq![("title"@, opt_text(patch.title))]);
    assert(f.drop_last().drop_last() =~= Seq::<(Seq<char>, Option<Seq<char>>)>::empty());
    let cols = set_columns(f);
    let vals = set_values(f);
    let row = book_row(stored);
    reveal_strlit("title");
    reveal_strlit("author");
    assert("title"@.len() != "author"@.len());
    match (patch.title, patch.author) {
        (Some(x), Some(y)) => {
            assert(cols =~= seq!["title"@, "author"@]);
            assert(vals =~= seq![Param::Text(x@), Param::Text(y@)]);
            assert(cols.drop_last() =~= seq!["title"@]);
            assert(vals.drop_last() =~= seq![Param::Text(x@)]);
            assert(assign(row, cols, vals) =~= book_row(merge_book(stored, patch)));
        },
        (Some(x), None) => {
            assert(cols =~= seq!["title"@]);
            assert(vals =~= seq![Param::Text(x@)]);
            assert(cols.drop_last() =~= Seq::<Seq<char>>::empty());
            assert(assign(row, cols.drop_last(), vals.drop_last()) == row);
            assert(assign(row, cols, vals) =~= book_row(merge_book(stored, patch)));
        },
        (None, Some(y)) => {
            assert(cols =~= seq!["author"@]);
            assert(vals =~= seq![Param::Text(y@)]);
            assert(cols.drop_last() =~= Seq::<Seq<char>>::empty());
            assert(assign(row, cols.drop_last(), vals.drop_last()) == row);
            assert(assign(row, cols, vals) =~= book_row(merge_book(stored, patch)));
        },
        (None, None) => {
            assert(cols =~= Seq::<Seq<char>>::empty());
            assert(assign(row, cols, vals) =~= book_row(merge_book(stored, patch)));
        },
    }
}

/// Deleting an id that no row carries succeeds and leaves the table as it was.
pub proof fn lemma_delete_absent(t: Table, id: int)
    requires
        !t.contains_key(id),
    ensures
        run_delete(t, id) == t,
{
    assert(run_delete(t, id) =~= t);
}

/// Fetching an id that no row carries finds nothing, which the handler
/// answers with `NotFound`, status 404.
pub proof fn lemma_get_absent(t: Table, id: int)
    requires
        !t.contains_key(id),
    ensures
        run_get(t, id) is None,
        kind_status(ErrorKind::NotFound) == 404,
{
}

} // verus!
