//! The window of rows that a list request asks for.

use vstd::prelude::*;

verus! {

/// How many rows a list request passes over and how many it returns at
/// most, each only if the request says so.
#[derive(Clone, Copy, Debug)]
pub struct Pagination {
    pub skip: Option<u64>,
    pub limit: Option<u64>,
}

/// A count as the signed 64-bit number that a database takes: itself up to
/// the largest signed value, and that largest value for every count above
/// it. It is never negative.
pub open spec fn as_signed(count: u64) -> int {
    if count <= i64::MAX {
        count as int
    } else {
        i64::MAX as int
    }
}

/// A count as the signed 64-bit number that a database takes; a count
/// above the largest signed value is carried as that value.
pub fn to_signed(count: u64) -> (signed: i64)
    ensures
        signed == as_signed(count),
        0 <= signed,
{
    if count <= 0x7fff_ffff_ffff_ffff {
        count as i64
    } else {
        i64::MAX
    }
}

/// The offset and the limit that a query for a page of rows carries, as
/// the signed numbers that a database takes.
#[derive(Clone, Copy, Debug, PartialEq, Eq, Structural)]
pub enum RowWindow {
    /// Every row.
    All,
    /// At most `limit` rows from the start.
    Limit { limit: i64 },
    /// Every row after the first `offset`.
    Offset { offset: i64 },
    /// At most `limit` rows after the first `offset`.
    LimitOffset { limit: i64, offset: i64 },
}

impl RowWindow {
    /// The limit that the query carries, if any.
    pub open spec fn spec_limit(self) -> Option<i64> {
        match self {
            RowWindow::All => None,
            RowWindow::Limit { limit } => Some(limit),
            RowWindow::Offset { offset } => None,
            RowWindow::LimitOffset { limit, offset } => Some(limit),
        }
    }

    /// The offset that the query carries, if any.
    pub open spec fn spec_offset(self) -> Option<i64> {
        match self {
            RowWindow::All => None,
            RowWindow::Limit { limit } => None,
            RowWindow::Offset { offset } => Some(offset),
            RowWindow::LimitOffset { limit, offset } => Some(offset),
        }
    }

    /// The limit that the query carries, if any.
    #[verifier::when_used_as_spec(spec_limit)]
    pub fn limit(self) -> (limit: Option<i64>)
        ensures
            limit == self.spec_limit(),
    {
        match self {
            RowWindow::All => None,
            RowWindow::Limit { limit } => Some(limit),
            RowWindow::Offset { offset: _ } => None,
            RowWindow::LimitOffset { limit, offset: _ } => Some(limit),
        }
    }

    /// The offset that the query carries, if any.
    #[verifier::when_used_as_spec(spec_offset)]
    pub fn offset(self) -> (offset: Option<i64>)
        ensures
            offset == self.spec_offset(),
    {
        match self {
            RowWindow::All => None,
            RowWindow::Limit { limit: _ } => None,
            RowWindow::Offset { offset } => Some(offset),
            RowWindow::LimitOffset { limit: _, offset } => Some(offset),
        }
    }
}

impl Pagination {
    /// The query window that stands for this pagination.
    pub open spec fn spec_row_window(self) -> RowWindow {
        match (self.limit, self.skip) {
            (Some(limit), Some(skip)) => RowWindow::LimitOffset {
                limit: as_signed(limit) as i64,
                offset: as_signed(skip) as i64,
            },
            (Some(limit), None) => RowWindow::Limit { limit: as_signed(limit) as i64 },
            (None, Some(skip)) => RowWindow::Offset { offset: as_signed(skip) as i64 },
            (None, None) => RowWindow::All,
        }
    }

    /// A pagination that passes over `skip` rows and returns at most
    /// `limit`, each only if given.
    pub fn new(skip: Option<u64>, limit: Option<u64>) -> (pagination: Self)
        ensures
            pagination.skip == skip,
            pagination.limit == limit,
    {
        Pagination { skip, limit }
    }

    /// The query window that stands for this pagination: a limit where
    /// there is a limit, an offset where rows are passed over. Neither is
    /// ever negative: a count above the largest signed value is carried as
    /// that value.
    #[verifier::when_used_as_spec(spec_row_window)]
    pub fn row_window(self) -> (window: RowWindow)
        ensures
            window == self.spec_row_window(),
    {
        match (self.limit, self.skip) {
            (Some(limit), Some(skip)) => RowWindow::LimitOffset {
                limit: to_signed(limit),
                offset: to_signed(skip),
            },
            (Some(limit), None) => RowWindow::Limit { limit: to_signed(limit) },
            (None, Some(skip)) => RowWindow::Offset { offset: to_signed(skip) },
            (None, None) => RowWindow::All,
        }
    }
}

/// The rows of `rows` after the first `skip`, and of those the first
/// `limit`; all of them where a count is not given, and as many as there
/// are where a count asks for more.
pub open spec fn page<T>(rows: Seq<T>, skip: Option<int>, limit: Option<int>) -> Seq<T> {
    let from = match skip {
        Some(skip) => if skip <= rows.len() {
            skip
        } else {
            rows.len() as int
        },
        None => 0,
    };
    let rest = rows.subrange(from, rows.len() as int);
    match limit {
        Some(limit) => if limit <= rest.len() {
            rest.subrange(0, limit)
        } else {
            rest
        },
        None => rest,
    }
}

/// The page that a pagination asks for.
pub open spec fn page_asked<T>(rows: Seq<T>, pagination: Pagination) -> Seq<T> {
    page(
        rows,
        match pagination.skip {
            Some(skip) => Some(skip as int),
            None => None,
        },
        match pagination.limit {
            Some(limit) => Some(limit as int),
            None => None,
        },
    )
}

/// The page that a query window selects.
pub open spec fn page_selected<T>(rows: Seq<T>, window: RowWindow) -> Seq<T> {
    page(
        rows,
        match window.spec_offset() {
            Some(offset) => Some(offset as int),
            None => None,
        },
        match window.spec_limit() {
            Some(limit) => Some(limit as int),
            None => None,
        },
    )
}

/// The window of a pagination selects the page that the pagination asks
/// for, whatever the counts, from any rows that a signed number can count:
/// to carry a larger count as the largest signed value loses nothing.
pub proof fn lemma_row_window_selects_the_page<T>(rows: Seq<T>, pagination: Pagination)
    requires
        rows.len() <= i64::MAX,
    ensures
        page_selected(rows, pagination.spec_row_window()) == page_asked(rows, pagination),
{
}

/// A window carries a limit exactly if the pagination has one, and an
/// offset exactly if the pagination passes rows over. What it carries is
/// the count, or the largest signed value if the count is above it, and so
/// is never negative.
pub proof fn lemma_row_window_keeps_counts(pagination: Pagination)
    ensures
        pagination.spec_row_window().spec_limit() is Some <==> pagination.limit is Some,
        pagination.spec_row_window().spec_offset() is Some <==> pagination.skip is Some,
        pagination.limit is Some ==> pagination.spec_row_window().spec_limit()->0 == as_signed(
            pagination.limit->0,
        ),
        pagination.skip is Some ==> pagination.spec_row_window().spec_offset()->0 == as_signed(
            pagination.skip->0,
        ),
        pagination.limit is Some ==> 0 <= pagination.spec_row_window().spec_limit()->0,
        pagination.skip is Some ==> 0 <= pagination.spec_row_window().spec_offset()->0,
        pagination.limit is Some && pagination.limit->0 <= i64::MAX
            ==> pagination.spec_row_window().spec_limit()->0 == pagination.limit->0,
        pagination.skip is Some && pagination.skip->0 <= i64::MAX
            ==> pagination.spec_row_window().spec_offset()->0 == pagination.skip->0,
{
}

} // verus!
