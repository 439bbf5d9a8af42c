//! Parameter-bound query building, request decisions and row semantics for a
//! small REST service over two tables, `authors` and `books`.

pub mod sql;
pub mod filter;
pub mod authors;
pub mod books;
pub mod responses;
pub mod handler;
pub mod store;
