use book_api::books::{create_book_query, get_books_query, update_book_query, Book};
use book_api::filter::Filters;
use book_api::sql::SqlValue;

// Create a book, then patch only its author: the update binds the author
// alone, so the title stays "A".
#[test]
fn partial_update_keeps_unset_title() {
    let created = create_book_query(Book {
        id: None,
        title: Some("A".to_string()),
        author: Some("B".to_string()),
    });
    assert_eq!(created.params, vec![SqlValue::Text("A".to_string()), SqlValue::Text("B".to_string())]);
    let q = update_book_query(Book { id: None, title: None, author: Some("C".to_string()) }, 1).unwrap();
    assert!(!q.sql.contains("title"));
    assert_eq!(q.params, vec![SqlValue::Text("C".to_string()), SqlValue::Int(1)]);
}

// POST /books then GET /books?author=Saeb&limit=1.
#[test]
fn book_filter_scenario() {
    let created = create_book_query(Book {
        id: None,
        title: Some("T".to_string()),
        author: Some("Saeb".to_string()),
    });
    assert_eq!(created.params[1], SqlValue::Text("Saeb".to_string()));
    let q = get_books_query(Filters { limit: Some(1), author: Some("Saeb".to_string()) });
    assert_eq!(q.sql, "SELECT * FROM books WHERE author = ? LIMIT ?");
    assert_eq!(q.params, vec![SqlValue::Text("Saeb".to_string()), SqlValue::Int(1)]);
}
