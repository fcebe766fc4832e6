//! Pagination for SQL queries in one round trip.
//!
//! A query is wrapped so that the statement sent to the database selects one
//! page of its rows and, beside every row, the number of rows the unwrapped
//! query has: `SELECT *, COUNT(*) OVER () FROM (..) t LIMIT .. OFFSET ..`.
//! PostgreSQL and MySQL both take the statement in this form.
//!
//! The crate holds the rules of that wrapping and nothing of the database:
//! which fragments the statement is made of and in what order, which value
//! each bind parameter carries, and how the rows that come back are parted
//! into the page and the total. Sending the statement is left to the caller,
//! who hands the fragments to a query builder and the loaded rows back.

pub mod fragment;
pub mod pagination;

pub use crate::fragment::{to_bigint, Fragment, FragmentView, LIMIT, OFFSET, SELECT_COUNTED};
pub use crate::pagination::{Paginate, PaginatedQuery, PaginatedQueryView};
