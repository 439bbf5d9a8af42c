use book_api::books::{
    create_book_query, delete_book_query, get_book_query, get_books_query, update_book_query, Book,
};
use book_api::filter::Filters;
use book_api::handler::{fetch_outcome, parse_id, success_message, success_status, Operation};
use book_api::responses::{ApiError, ErrorKind};
use book_api::sql::SqlValue;

fn book(title: Option<&str>, author: Option<&str>) -> Book {
    Book { id: Some(1), title: title.map(|t| t.to_string()), author: author.map(|a| a.to_string()) }
}

fn text(s: &str) -> SqlValue {
    SqlValue::Text(s.to_string())
}

#[test]
fn test_get_books() {
    let q = get_books_query(Filters { limit: None, author: None });
    assert_eq!(q.sql, "SELECT * FROM books");
    assert!(q.params.is_empty());
}

#[test]
fn test_get_books_limit() {
    let q = get_books_query(Filters { limit: Some(2), author: None });
    assert_eq!(q.sql, "SELECT * FROM books LIMIT ?");
    assert_eq!(q.params, vec![SqlValue::Int(2)]);
}

#[test]
fn test_get_books_author() {
    let q = get_books_query(Filters { limit: None, author: Some("saeb".to_string()) });
    assert_eq!(q.sql, "SELECT * FROM books WHERE author = ?");
    assert_eq!(q.params, vec![text("saeb")]);
}

#[test]
fn test_get_books_limit_author() {
    let q = get_books_query(Filters { limit: Some(1), author: Some("saeb".to_string()) });
    assert_eq!(q.sql, "SELECT * FROM books WHERE author = ? LIMIT ?");
    assert_eq!(q.params, vec![text("saeb"), SqlValue::Int(1)]);
}

#[test]
fn filter_value_is_bound_not_spliced() {
    let hostile = "x' OR '1'='1";
    let q = get_books_query(Filters { limit: None, author: Some(hostile.to_string()) });
    assert_eq!(q.sql, "SELECT * FROM books WHERE author = ?");
    assert_eq!(q.params, vec![text(hostile)]);
    let u = update_book_query(book(Some(hostile), None), 3).unwrap();
    assert_eq!(u.sql, "UPDATE books SET title = ? WHERE id = ?");
}

#[test]
fn largest_limit_is_bound_exactly() {
    let q = get_books_query(Filters { limit: Some(u32::MAX), author: None });
    assert_eq!(q.params, vec![SqlValue::Int(4294967295)]);
}

#[test]
fn test_get_book() {
    assert_eq!(get_book_query(), "SELECT * FROM books WHERE id = ?");
    assert_eq!(parse_id("1"), Ok(1));
    let b = book(Some("test1"), Some("test1"));
    assert_eq!(fetch_outcome(Some(b.clone())), Ok(b));
}

#[test]
fn test_get_book_not_found() {
    let e = fetch_outcome::<Book>(None).unwrap_err();
    assert_eq!(e.kind, ErrorKind::NotFound);
    assert_eq!(e.status(), 404);
}

#[test]
fn test_create_book() {
    let q = create_book_query(book(Some("test1"), Some("test1")));
    assert_eq!(q.sql, "INSERT INTO books (title, author) VALUES (?, ?) RETURNING id");
    assert_eq!(q.params, vec![text("test1"), text("test1")]);
}

#[test]
fn create_book_binds_null_for_absent_field() {
    let q = create_book_query(book(None, Some("B")));
    assert_eq!(q.params, vec![SqlValue::Null, text("B")]);
}

#[test]
fn test_create_book_bad_request() {
    let e = ApiError::validation("body is not a book".to_string());
    assert_eq!(e.status(), 400);
}

#[test]
fn test_update_book() {
    let q = update_book_query(book(Some("test1"), Some("test1")), 1).unwrap();
    assert_eq!(q.sql, "UPDATE books SET title = ?, author = ? WHERE id = ?");
    assert_eq!(q.params, vec![text("test1"), text("test1"), SqlValue::Int(1)]);
}

#[test]
fn update_book_sets_only_present_fields() {
    let q = update_book_query(book(None, Some("C")), 5).unwrap();
    assert_eq!(q.sql, "UPDATE books SET author = ? WHERE id = ?");
    assert_eq!(q.params, vec![text("C"), SqlValue::Int(5)]);
    let q = update_book_query(book(Some("A"), None), 5).unwrap();
    assert_eq!(q.sql, "UPDATE books SET title = ? WHERE id = ?");
    assert_eq!(q.params, vec![text("A"), SqlValue::Int(5)]);
}

#[test]
fn update_book_without_fields_is_no_op() {
    assert_eq!(update_book_query(book(None, None), 5), None);
}

#[test]
fn test_update_book_bad_request() {
    assert_eq!(parse_id("").unwrap_err().status(), 400);
    assert_eq!(parse_id("1.5").unwrap_err().status(), 400);
}

#[test]
fn test_delete_book() {
    assert_eq!(delete_book_query(), "DELETE FROM books WHERE id = ?");
    assert_eq!(parse_id("2"), Ok(2));
    assert_eq!(success_message(Operation::Delete), Some("Deleted"));
    assert_eq!(success_message(Operation::Get), None);
}
