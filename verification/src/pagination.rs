//! A query wrapped for pagination, and what the wrapping emits and returns.

use std::marker::PhantomData;
use vstd::prelude::*;
use crate::fragment::{paginated, to_bigint, Fragment, LIMIT, OFFSET, SELECT_COUNTED};

verus! {

/// Wraps any query for pagination.
///
/// `DB` names the connection the wrapped query is meant for; it only marks
/// the type and holds no value.
pub trait Paginate<DB>: Sized {
    /// Wraps `self` so that it yields the `limit` rows after the first
    /// `offset` ones. Neither number is checked or changed.
    fn paginate(self, offset: usize, limit: usize) -> (wrapped: PaginatedQuery<Self, DB>)
        ensures
            wrapped@ == (PaginatedQueryView {
                query: self,
                offset: offset as nat,
                limit: limit as nat,
            }),
    {
        PaginatedQuery { query: self, offset, limit, _marker: PhantomData }
    }
}

impl<T, DB> Paginate<DB> for T {
}

/// A query together with the page that is asked of it.
#[derive(Debug)]
pub struct PaginatedQuery<T, Conn> {
    query: T,
    offset: usize,
    limit: usize,
    _marker: PhantomData<Conn>,
}

/// What a [`PaginatedQuery`] stands for.
pub struct PaginatedQueryView<T> {
    /// The wrapped query, as it was handed in.
    pub query: T,
    /// The number of rows that the page passes over.
    pub offset: nat,
    /// The number of rows that the page holds at most.
    pub limit: nat,
}

impl<T, Conn> View for PaginatedQuery<T, Conn> {
    type V = PaginatedQueryView<T>;

    closed spec fn view(&self) -> PaginatedQueryView<T> {
        PaginatedQueryView {
            query: self.query,
            offset: self.offset as nat,
            limit: self.limit as nat,
        }
    }
}

impl<T, Conn> PaginatedQuery<T, Conn> {
    /// The wrapped query.
    pub fn query(&self) -> (query: &T)
        ensures
            *query == self@.query,
    {
        &self.query
    }

    /// The number of rows that the page passes over.
    pub fn offset(&self) -> (offset: usize)
        ensures
            offset == self@.offset,
    {
        self.offset
    }

    /// The number of rows that the page holds at most.
    pub fn limit(&self) -> (limit: usize)
        ensures
            limit == self@.limit,
    {
        self.limit
    }

    /// The fragments of the paginated statement, in the order in which they
    /// are emitted: the counted select, the wrapped query in its place, then
    /// limit and offset, each as a bind parameter.
    pub fn walk_ast(&self) -> (fragments: Vec<Fragment>)
        ensures
            fragments@.map_values(|fragment: Fragment| fragment@) == paginated(
                self@.offset,
                self@.limit,
            ),
    {
        let mut fragments: Vec<Fragment> = Vec::new();
        fragments.push(Fragment::Sql(SELECT_COUNTED));
        fragments.push(Fragment::Query);
        fragments.push(Fragment::Sql(LIMIT));
        fragments.push(Fragment::Bind(to_bigint(self.limit)));
        fragments.push(Fragment::Sql(OFFSET));
        fragments.push(Fragment::Bind(to_bigint(self.offset)));
        fragments
    }

    /// Parts what the round trip of this query gave into the page and the
    /// total: the rows without their count, in the order in which they came,
    /// and the count that the first row carries, or 0 where no row came. A
    /// failed round trip is handed on as it is.
    pub fn load_and_total<U, E>(self, loaded: Result<Vec<(U, i64)>, E>) -> (page: Result<
        (Vec<U>, i64),
        E,
    >)
        ensures
            match loaded {
                Ok(rows) => page matches Ok(parted) && parted.0@ == records(rows@) && parted.1
                    == total(rows@),
                Err(error) => page == Err::<(Vec<U>, i64), E>(error),
            },
    {
        match loaded {
            Ok(rows) => {
                let total: i64 = if rows.len() > 0 {
                    rows[0].1
                } else {
                    0
                };
                let ghost all = rows@;
                let mut records: Vec<U> = Vec::new();
                for row in it: rows
                    invariant
                        it.seq() == all,
                        records@ == self::records(all.take(it.index() as int)),
                {
                    records.push(row.0);
                }
                Ok((records, total))
            },
            Err(error) => Err(error),
        }
    }
}

/// The rows of a page without the count that each of them carries.
pub open spec fn records<U>(rows: Seq<(U, i64)>) -> Seq<U> {
    rows.map_values(|row: (U, i64)| row.0)
}

/// The number of rows that the unwrapped query has, as the rows of a page
/// tell it: every row carries it, so the first is asked, and a page without
/// rows tells of none.
pub open spec fn total<U>(rows: Seq<(U, i64)>) -> int {
    if rows.len() == 0 {
        0
    } else {
        rows[0].1 as int
    }
}

} // verus!
