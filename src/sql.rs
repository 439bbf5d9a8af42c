//! Generic, parameter-bound SQL assembly for one table.
//!
//! Table and column names are fixed by the caller's schema and are the only
//! text placed into a statement; every value supplied by a user is carried
//! separately as a bound parameter, in placeholder order.
use vstd::prelude::*;
use vstd::string::*;
use crate::filter::opt_text;

verus! {

/// A value bound to one `?` placeholder.
#[derive(Clone, Debug, PartialEq, Eq)]
pub enum SqlValue {
    Int(i64),
    Text(String),
    Null,
}

/// Mathematical form of a bound value.
pub enum Param {
    Int(int),
    Text(Seq<char>),
    Null,
}

impl View for SqlValue {
    type V = Param;

    open spec fn view(&self) -> Param {
        match self {
            SqlValue::Int(i) => Param::Int(*i as int),
            SqlValue::Text(s) => Param::Text(s@),
            SqlValue::Null => Param::Null,
        }
    }
}

/// A bound value for an optional text column: the text, or SQL `NULL`.
pub open spec fn text_param(o: Option<Seq<char>>) -> Param {
    match o {
        Some(s) => Param::Text(s),
        None => Param::Null,
    }
}

/// The bound value of an optional text column.
pub fn text_value(o: Option<String>) -> (r: SqlValue)
    ensures
        r@ == text_param(opt_text(o)),
{
    match o {
        Some(s) => SqlValue::Text(s),
        None => SqlValue::Null,
    }
}

/// SQL text with `?` placeholders, and the values bound to them in order.
#[derive(Clone, Debug, PartialEq, Eq)]
pub struct BoundQuery {
    pub sql: String,
    pub params: Vec<SqlValue>,
}

/// The bound values of a query, as parameters.
pub open spec fn params_of(q: BoundQuery) -> Seq<Param> {
    q.params@.map_values(|v: SqlValue| v@)
}

pub open spec fn select_by_id_sql(table: Seq<char>) -> Seq<char> {
    "SELECT * FROM "@ + table + " WHERE id = ?"@
}

pub open spec fn delete_sql(table: Seq<char>) -> Seq<char> {
    "DELETE FROM "@ + table + " WHERE id = ?"@
}

/// `SELECT * FROM <table> WHERE id = ?`; the caller binds the id.
pub fn select_by_id(table: &str) -> (r: String)
    ensures
        r@ == select_by_id_sql(table@),
{
    let mut s = String::from_str("SELECT * FROM ");
    s.append(table);
    s.append(" WHERE id = ?");
    s
}

/// `DELETE FROM <table> WHERE id = ?`; the caller binds the id.
pub fn delete_by_id(table: &str) -> (r: String)
    ensures
        r@ == delete_sql(table@),
{
    let mut s = String::from_str("DELETE FROM ");
    s.append(table);
    s.append(" WHERE id = ?");
    s
}


/// The text of each column name.
pub open spec fn names(cols: Seq<&str>) -> Seq<Seq<char>> {
    cols.map_values(|c: &str| c@)
}

/// Items separated by `", "`.
pub open spec fn joined(items: Seq<Seq<char>>) -> Seq<char>
    decreases items.len(),
{
    if items.len() == 0 {
        Seq::empty()
    } else if items.len() == 1 {
        items[0]
    } else {
        joined(items.drop_last()) + ", "@ + items.last()
    }
}

/// `n` placeholders.
pub open spec fn placeholders(n: nat) -> Seq<Seq<char>> {
    Seq::new(n, |i: int| "?"@)
}

pub open spec fn insert_sql(table: Seq<char>, cols: Seq<Seq<char>>) -> Seq<char> {
    "INSERT INTO "@ + table + " ("@ + joined(cols) + ") VALUES ("@ + joined(
        placeholders(cols.len()),
    ) + ") RETURNING id"@
}

proof fn lemma_joined_push(items: Seq<Seq<char>>, x: Seq<char>)
    ensures
        joined(items.push(x)) == if items.len() == 0 {
            x
        } else {
            joined(items) + ", "@ + x
        },
{
    assert(items.push(x).drop_last() =~= items);
}

/// Appends the given names to `s`, separated by `", "`.
fn push_joined(s: &mut String, items: &Vec<&str>)
    ensures
        final(s)@ == old(s)@ + joined(names(items@)),
{
    let ghost start = s@;
    let mut i: usize = 0;
    while i < items.len()
        invariant
            i <= items.len(),
            s@ == start + joined(names(items@.subrange(0, i as int))),
        decreases items.len() - i,
    {
        let ghost prev = names(items@.subrange(0, i as int));
        proof {
            assert(names(items@.subrange(0, i + 1)) =~= prev.push(items@[i as int]@));
            lemma_joined_push(prev, items@[i as int]@);
        }
        if i > 0 {
            s.append(", ");
        }
        s.append(items[i]);
        assert(s@ =~= start + joined(names(items@.subrange(0, i + 1))));
        i = i + 1;
    }
    assert(items@.subrange(0, items@.len() as int) =~= items@);
}

/// Appends `n` placeholders to `s`, separated by `", "`.
fn push_placeholders(s: &mut String, n: usize)
    ensures
        final(s)@ == old(s)@ + joined(placeholders(n as nat)),
{
    let ghost start = s@;
    let mut i: usize = 0;
    while i < n
        invariant
            i <= n,
            s@ == start + joined(placeholders(i as nat)),
        decreases n - i,
    {
        proof {
            assert(placeholders((i + 1) as nat) =~= placeholders(i as nat).push("?"@));
            lemma_joined_push(placeholders(i as nat), "?"@);
        }
        if i > 0 {
            s.append(", ");
        }
        s.append("?");
        assert(s@ =~= start + joined(placeholders((i + 1) as nat)));
        i = i + 1;
    }
}

/// `INSERT INTO <table> (<cols>) VALUES (<one ? per column>) RETURNING id`;
/// the caller binds one value per column, in column order.
pub fn insert_returning_id(table: &str, cols: &Vec<&str>) -> (r: String)
    ensures
        r@ == insert_sql(table@, names(cols@)),
{
    let mut s = String::from_str("INSERT INTO ");
    s.append(table);
    s.append(" (");
    push_joined(&mut s, cols);
    s.append(") VALUES (");
    push_placeholders(&mut s, cols.len());
    s.append(") RETURNING id");
    s
}


/// `SELECT * FROM <table>`, then `WHERE <col> = ?` when an equality filter is
/// given, then `LIMIT ?` when a limit is given.
pub open spec fn list_sql(table: Seq<char>, eq_col: Option<Seq<char>>, limited: bool) -> Seq<char> {
    let filter_clause = match eq_col {
        Some(c) => " WHERE "@ + c + " = ?"@,
        None => Seq::empty(),
    };
    let limit_clause = if limited {
        " LIMIT ?"@
    } else {
        Seq::empty()
    };
    "SELECT * FROM "@ + table + filter_clause + limit_clause
}

/// The values bound to a list query: the filter value, then the limit.
pub open spec fn list_params(eq_value: Option<Seq<char>>, limit: Option<u32>) -> Seq<Param> {
    let filter_params = match eq_value {
        Some(v) => seq![Param::Text(v)],
        None => Seq::empty(),
    };
    let limit_params = match limit {
        Some(n) => seq![Param::Int(n as int)],
        None => Seq::empty(),
    };
    filter_params + limit_params
}

/// The list query of a table, with an optional equality filter on one column
/// and an optional limit, both bound as parameters.
pub fn select_list(table: &str, eq: Option<(&str, String)>, limit: Option<u32>) -> (r: BoundQuery)
    ensures
        r.sql@ == list_sql(
            table@,
            match eq {
                Some(p) => Some(p.0@),
                None => None,
            },
            limit is Some,
        ),
        params_of(r) == list_params(
            match eq {
                Some(p) => Some(p.1@),
                None => None,
            },
            limit,
        ),
{
    let mut sql = String::from_str("SELECT * FROM ");
    sql.append(table);
    let mut params: Vec<SqlValue> = Vec::new();
    let ghost after_table = sql@;
    match eq {
        Some(p) => {
            sql.append(" WHERE ");
            sql.append(p.0);
            sql.append(" = ?");
            params.push(SqlValue::Text(p.1));
        },
        None => {},
    }
    let ghost after_where = sql@;
    let ghost where_params = params@.map_values(|v: SqlValue| v@);
    match limit {
        Some(n) => {
            sql.append(" LIMIT ?");
            params.push(SqlValue::Int(n as i64));
        },
        None => {},
    }
    let r = BoundQuery { sql, params };
    assert(params_of(r) =~= list_params(
        match eq {
            Some(p) => Some(p.1@),
            None => None,
        },
        limit,
    ));
    r
}

/// A column with the value it is to be set to, if any.
pub open spec fn field_view(f: (&str, Option<String>)) -> (Seq<char>, Option<Seq<char>>) {
    (
        f.0@,
        match f.1 {
            Some(v) => Some(v@),
            None => None,
        },
    )
}

pub open spec fn fields_view(fields: Seq<(&str, Option<String>)>) -> Seq<(Seq<char>, Option<Seq<char>>)> {
    fields.map_values(|f: (&str, Option<String>)| field_view(f))
}

/// The columns among `fields` that carry a value, in order.
pub open spec fn set_columns(fields: Seq<(Seq<char>, Option<Seq<char>>)>) -> Seq<Seq<char>>
    decreases fields.len(),
{
    if fields.len() == 0 {
        Seq::empty()
    } else {
        let rest = set_columns(fields.drop_last());
        match fields.last().1 {
            Some(_) => rest.push(fields.last().0),
            None => rest,
        }
    }
}

/// The values carried by `fields`, in order.
pub open spec fn set_values(fields: Seq<(Seq<char>, Option<Seq<char>>)>) -> Seq<Param>
    decreases fields.len(),
{
    if fields.len() == 0 {
        Seq::empty()
    } else {
        let rest = set_values(fields.drop_last());
        match fields.last().1 {
            Some(v) => rest.push(Param::Text(v)),
            None => rest,
        }
    }
}

/// `<col> = ?` for each column.
pub open spec fn assignments(cols: Seq<Seq<char>>) -> Seq<Seq<char>> {
    cols.map_values(|c: Seq<char>| c + " = ?"@)
}

pub open spec fn update_sql(table: Seq<char>, cols: Seq<Seq<char>>) -> Seq<char> {
    "UPDATE "@ + table + " SET "@ + joined(assignments(cols)) + " WHERE id = ?"@
}

/// The update of row `id` that sets exactly the fields that carry a value,
/// in the given order, bound as parameters with `id` bound last; `None` when
/// no field carries a value, for which nothing is to be executed.
pub fn update_by_id(table: &str, fields: &Vec<(&str, Option<String>)>, id: i64) -> (r: Option<
    BoundQuery,
>)
    ensures
        r is None <==> set_columns(fields_view(fields@)).len() == 0,
        r matches Some(q) ==> q.sql@ == update_sql(table@, set_columns(fields_view(fields@)))
            && params_of(q) == set_values(fields_view(fields@)).push(Param::Int(id as int)),
{
    let mut sql = String::from_str("UPDATE ");
    sql.append(table);
    sql.append(" SET ");
    let ghost start = sql@;
    let mut params: Vec<SqlValue> = Vec::new();
    let mut i: usize = 0;
    while i < fields.len()
        invariant
            i <= fields.len(),
            sql@ == start + joined(assignments(set_columns(fields_view(fields@.subrange(0, i as int))))),
            params@.map_values(|v: SqlValue| v@) == set_values(fields_view(fields@.subrange(0, i as int))),
            params@.len() == set_columns(fields_view(fields@.subrange(0, i as int))).len(),
        decreases fields.len() - i,
    {
        let ghost pre = fields_view(fields@.subrange(0, i as int));
        let ghost cur = fields_view(fields@.subrange(0, i + 1));
        assert(cur.drop_last() =~= pre);
        assert(cur.last() == field_view(fields@[i as int]));
        match &fields[i].1 {
            Some(v) => {
                proof {
                    assert(assignments(set_columns(cur)) =~= assignments(set_columns(pre)).push(
                        fields@[i as int].0@ + " = ?"@,
                    ));
                    lemma_joined_push(assignments(set_columns(pre)), fields@[i as int].0@ + " = ?"@);
                }
                if params.len() > 0 {
                    sql.append(", ");
                }
                sql.append(fields[i].0);
                sql.append(" = ?");
                params.push(SqlValue::Text(v.clone()));
                assert(sql@ =~= start + joined(assignments(set_columns(cur))));
                assert(params@.map_values(|v: SqlValue| v@) =~= set_values(cur));
            },
            None => {},
        }
        i = i + 1;
    }
    assert(fields@.subrange(0, fields@.len() as int) =~= fields@);
    if params.len() == 0 {
        return None;
    }
    sql.append(" WHERE id = ?");
    params.push(SqlValue::Int(id));
    let r = BoundQuery { sql, params };
    assert(params_of(r) =~= set_values(fields_view(fields@)).push(Param::Int(id as int)));
    Some(r)
}

} // verus!
