//! The fragments a paginated statement is made of.

use vstd::prelude::*;

verus! {

/// The text that opens the statement, up to the wrapped query.
pub const SELECT_COUNTED: &'static str = "SELECT *, COUNT(*) OVER () FROM (";

/// The text that closes the wrapped query, names it and opens the limit.
pub const LIMIT: &'static str = ") t LIMIT ";

/// The text that opens the offset.
pub const OFFSET: &'static str = " OFFSET ";

/// One piece of a statement. A statement is its pieces in the order in which
/// they are emitted.
#[derive(Clone, Copy, Debug, PartialEq, Eq)]
pub enum Fragment {
    /// SQL text, written to the statement as it stands.
    Sql(&'static str),
    /// The place of the wrapped query, which emits its own fragments there.
    Query,
    /// A `BIGINT` value that is sent apart from the text; the statement holds
    /// a placeholder for it.
    Bind(i64),
}

/// What a [`Fragment`] stands for: its text as a sequence of characters, its
/// bound value as an integer.
pub enum FragmentView {
    Sql(Seq<char>),
    Query,
    Bind(int),
}

impl View for Fragment {
    type V = FragmentView;

    open spec fn view(&self) -> FragmentView {
        match *self {
            Fragment::Sql(text) => FragmentView::Sql(text@),
            Fragment::Query => FragmentView::Query,
            Fragment::Bind(value) => FragmentView::Bind(value as int),
        }
    }
}

/// The number a `BIGINT` bind parameter carries for the unsigned magnitude
/// `n`: `n` itself where a signed 64-bit integer holds it, and otherwise the
/// number with the same 64 bits in two's complement.
pub open spec fn bigint(n: nat) -> int {
    if n <= i64::MAX {
        n as int
    } else {
        n - 0x1_0000_0000_0000_0000
    }
}

/// The statement that selects `limit` rows of the wrapped query after the
/// first `offset`, each row followed by the count of all rows:
/// `SELECT *, COUNT(*) OVER () FROM (` query `) t LIMIT ` limit ` OFFSET ` offset.
pub open spec fn paginated(offset: nat, limit: nat) -> Seq<FragmentView> {
    seq![
        FragmentView::Sql(SELECT_COUNTED@),
        FragmentView::Query,
        FragmentView::Sql(LIMIT@),
        FragmentView::Bind(bigint(limit)),
        FragmentView::Sql(OFFSET@),
        FragmentView::Bind(bigint(offset)),
    ]
}

/// Reads an unsigned magnitude as the signed 64-bit integer that is bound in
/// its place. No magnitude is refused: one above `i64::MAX` wraps around.
pub fn to_bigint(n: usize) -> (value: i64)
    ensures
        value == bigint(n as nat),
{
    let wide: u64 = n as u64;
    assert(wide as i64 == if wide <= 0x7fff_ffff_ffff_ffffu64 {
        wide as int
    } else {
        wide - 0x1_0000_0000_0000_0000
    }) by (bit_vector);
    #[verifier::truncate]
    (wide as i64)
}

} // verus!
