//! The `authors` resource: its entity and its five statements.
use vstd::prelude::*;
use crate::filter::{Filters, opt_text};
use crate::sql::{
    BoundQuery, Param, SqlValue, text_param, text_value, delete_by_id, delete_sql, insert_returning_id, insert_sql,
    list_params, list_sql, names, params_of, select_by_id, select_by_id_sql, select_list,
    set_columns, set_values, fields_view, update_by_id, update_sql,
};

verus! {

pub const AUTHORS_TABLE: &'static str = "authors";

/// A row of `authors`; `id` is absent before the store assigns it.
#[derive(Clone, Debug, PartialEq, Eq)]
pub struct Author {
    pub id: Option<i64>,
    pub name: Option<String>,
}

/// The settable columns of an author, in declaration order, with their values.
pub open spec fn author_fields(a: Author) -> Seq<(Seq<char>, Option<Seq<char>>)> {
    seq![("name"@, opt_text(a.name))]
}

/// The values an insert binds for an author, one per non-id column.
pub open spec fn author_params(a: Author) -> Seq<Param> {
    seq![text_param(opt_text(a.name))]
}

/// The non-id columns of `authors`, in declaration order.
pub open spec fn author_columns() -> Seq<Seq<char>> {
    seq!["name"@]
}

/// Lists authors, at most `filter.limit` of them when it is present; the
/// `author` filter does not apply to this table.
pub fn get_authors_query(filter: Filters) -> (r: BoundQuery)
    ensures
        r.sql@ == list_sql(AUTHORS_TABLE@, None, filter.limit is Some),
        params_of(r) == list_params(None, filter.limit),
{
    select_list(AUTHORS_TABLE, None, filter.limit)
}

/// Fetches one author; the id is bound by the caller.
pub fn get_author_query() -> (r: String)
    ensures
        r@ == select_by_id_sql(AUTHORS_TABLE@),
{
    select_by_id(AUTHORS_TABLE)
}

/// Inserts an author, binding every non-id column in order; its `id` is ignored.
pub fn create_author_query(author: Author) -> (r: BoundQuery)
    ensures
        r.sql@ == insert_sql(AUTHORS_TABLE@, author_columns()),
        params_of(r) == author_params(author),
{
    let cols: Vec<&str> = vec!["name"];
    assert(names(cols@) =~= author_columns());
    let sql = insert_returning_id(AUTHORS_TABLE, &cols);
    let mut params: Vec<SqlValue> = Vec::new();
    params.push(text_value(author.name));
    let r = BoundQuery { sql, params };
    assert(params_of(r) =~= author_params(author));
    r
}

/// Updates author `id`, setting only the fields that carry a value; `None`
/// when there is nothing to set.
pub fn update_author_query(author: Author, id: i64) -> (r: Option<BoundQuery>)
    ensures
        r is None <==> author.name is None,
        r matches Some(q) ==> q.sql@ == update_sql(AUTHORS_TABLE@, set_columns(author_fields(author)))
            && params_of(q) == set_values(author_fields(author)).push(Param::Int(id as int)),
{
    let ghost a = author;
    let fields: Vec<(&str, Option<String>)> = vec![("name", author.name)];
    assert(fields_view(fields@) =~= author_fields(a));
    proof {
        reveal_with_fuel(set_columns, 2);
    }
    update_by_id(AUTHORS_TABLE, &fields, id)
}

/// Deletes one author; the id is bound by the caller.
pub fn delete_author_query() -> (r: String)
    ensures
        r@ == delete_sql(AUTHORS_TABLE@),
{
    delete_by_id(AUTHORS_TABLE)
}

} // verus!
