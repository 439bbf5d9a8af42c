//! The decisions of a request handler: reading the path id, and turning a
//! store outcome into a status.
use vstd::prelude::*;
use vstd::string::*;
use crate::responses::{ApiError, ErrorKind};

verus! {

pub open spec fn is_digit(c: char) -> bool {
    '0' <= c && c <= '9'
}

/// The value of a run of decimal digits.
pub open spec fn digits_value(s: Seq<char>) -> int
    decreases s.len(),
{
    if s.len() == 0 {
        0
    } else {
        digits_value(s.drop_last()) * 10 + (s.last() as int - '0' as int)
    }
}

/// The sign of an id's text: `true` for a leading `-`.
pub open spec fn is_negative(s: Seq<char>) -> bool {
    s.len() > 0 && s[0] == '-'
}

/// The digits of an id's text, after an optional leading `+` or `-`.
pub open spec fn digits_part(s: Seq<char>) -> Seq<char> {
    if s.len() > 0 && (s[0] == '-' || s[0] == '+') {
        s.drop_first()
    } else {
        s
    }
}

/// The integer written by `s` in decimal, with an optional sign, when that
/// text is well formed and its value fits in an `i64`.
pub open spec fn id_value(s: Seq<char>) -> Option<int> {
    let d = digits_part(s);
    let v = if is_negative(s) {
        -digits_value(d)
    } else {
        digits_value(d)
    };
    if d.len() > 0 && (forall|i: int| 0 <= i < d.len() ==> is_digit(#[trigger] d[i])) && i64::MIN
        <= v <= i64::MAX {
        Some(v)
    } else {
        None
    }
}

proof fn lemma_digits_grow(d: Seq<char>, k: int, j: int)
    requires
        0 <= k <= j <= d.len(),
        forall|i: int| 0 <= i < d.len() ==> is_digit(#[trigger] d[i]),
    ensures
        digits_value(d.subrange(0, k)) <= digits_value(d.subrange(0, j)),
    decreases j - k,
{
    if k < j {
        lemma_digits_grow(d, k, j - 1);
        assert(d.subrange(0, j).drop_last() =~= d.subrange(0, j - 1));
        assert(is_digit(d[j - 1]));
        assert(digits_value(d.subrange(0, j - 1)) >= 0) by {
            lemma_digits_nonneg(d.subrange(0, j - 1));
        }
    }
}

proof fn lemma_digits_nonneg(d: Seq<char>)
    requires
        forall|i: int| 0 <= i < d.len() ==> is_digit(#[trigger] d[i]),
    ensures
        digits_value(d) >= 0,
    decreases d.len(),
{
    if d.len() > 0 {
        lemma_digits_nonneg(d.drop_last());
        assert(is_digit(d[d.len() - 1]));
    }
}

/// Reads the `id` segment of a path. Text that is not a decimal integer in the
/// range of `i64` is a validation error, answered with 400.
pub fn parse_id(s: &str) -> (r: Result<i64, ApiError>)
    ensures
        id_value(s@) matches Some(v) ==> (r matches Ok(n) && n as int == v),
        id_value(s@) is None ==> (r matches Err(e) && e.kind == ErrorKind::Validation),
{
    let len = s.unicode_len();
    let neg = len > 0 && s.get_char(0) == '-';
    let start: usize = if len > 0 && (s.get_char(0) == '-' || s.get_char(0) == '+') {
        1
    } else {
        0
    };
    let ghost d = digits_part(s@);
    assert(d =~= s@.subrange(start as int, len as int));
    if start == len {
        return Err(ApiError::validation(String::from_str("id is not an integer")));
    }
    let limit: u128 = if neg {
        9223372036854775808
    } else {
        9223372036854775807
    };
    let mut acc: u128 = 0;
    let mut i: usize = start;
    while i < len
        invariant
            start <= i <= len,
            len == s@.len(),
            d =~= s@.subrange(start as int, len as int),
            d == digits_part(s@),
            forall|k: int| 0 <= k < i - start ==> is_digit(#[trigger] d[k]),
            acc as int == digits_value(d.subrange(0, i - start)),
            acc <= limit,
            limit == (if neg {
                9223372036854775808u128
            } else {
                9223372036854775807u128
            }),
            neg == is_negative(s@),
        decreases len - i,
    {
        let c = s.get_char(i);
        assert(c == d[i - start]);
        if !('0' <= c && c <= '9') {
            assert(!is_digit(d[i - start]));
            return Err(ApiError::validation(String::from_str("id is not an integer")));
        }
        let digit = (c as u32 - '0' as u32) as u128;
        assert(d.subrange(0, i + 1 - start).drop_last() =~= d.subrange(0, i - start));
        if acc * 10 + digit > limit {
            proof {
                if forall|k: int| 0 <= k < d.len() ==> is_digit(#[trigger] d[k]) {
                    lemma_digits_grow(d, i + 1 - start, d.len() as int);
                    assert(d.subrange(0, d.len() as int) =~= d);
                }
            }
            return Err(ApiError::validation(String::from_str("id is out of range")));
        }
        acc = acc * 10 + digit;
        i = i + 1;
    }
    assert(d.subrange(0, d.len() as int) =~= d);
    if neg {
        Ok((0 - (acc as i128)) as i64)
    } else {
        Ok(acc as i64)
    }
}


/// The five operations of a resource.
#[derive(PartialEq, Eq, Structural, Clone, Copy, Debug)]
pub enum Operation {
    List,
    Get,
    Create,
    Update,
    Delete,
}

/// The HTTP status of a successful operation.
pub open spec fn success_status_of(op: Operation) -> u16 {
    match op {
        Operation::Create => 201,
        _ => 200,
    }
}

/// The HTTP status answered when `op` succeeds: 201 for a create, 200 otherwise.
pub fn success_status(op: Operation) -> (r: u16)
    ensures
        r == success_status_of(op),
{
    match op {
        Operation::Create => 201,
        _ => 200,
    }
}

/// The plain status message of a successful update or delete; the other
/// operations answer with data instead.
pub fn success_message(op: Operation) -> (r: Option<&'static str>)
    ensures
        op == Operation::Update ==> (r matches Some(m) && m@ == "Updated"@),
        op == Operation::Delete ==> (r matches Some(m) && m@ == "Deleted"@),
        op != Operation::Update && op != Operation::Delete ==> r is None,
{
    match op {
        Operation::Update => Some("Updated"),
        Operation::Delete => Some("Deleted"),
        _ => None,
    }
}

/// The outcome of fetching one row by id: the row, or `NotFound` when the
/// store returned none.
pub fn fetch_outcome<T>(row: Option<T>) -> (r: Result<T, ApiError>)
    ensures
        row matches Some(v) ==> r == Ok::<T, ApiError>(v),
        row is None ==> (r matches Err(e) && e.kind == ErrorKind::NotFound),
{
    match row {
        Some(v) => Ok(v),
        None => Err(ApiError::from_store(true, String::from_str("no row carries the requested id"))),
    }
}

} // verus!
