//! The streaming query executor.
//!
//! A `Relation` (target type, projection, conjunctive equality filters)
//! compiles to one `SELECT` statement with bound parameters.  The rows
//! come back as a lazy, forward-only, single-consumption sequence driven
//! by the embedding application: it fetches rows from the store and feeds
//! them as events into a `QueryStream`, whose verified step function
//! decodes each row into a structured value and enforces the stream's
//! state machine — once failed or exhausted, no further item is ever
//! produced.
//!
//! The query text is handed to the application as one owned `String`
//! inside the statement; the application shares it with the store's
//! cursor by ownership (for example through a reference-counted
//! allocation), never by address, so no self-referential pinning is
//! needed.

use vstd::prelude::*;

use crate::codec::{
    row_aligned, row_to_structured_value, tag_strict, value_tag_strict, Column, ColumnV,
    SqlStatement,
};
use crate::error::{QueryError, QueryErrorV};
use crate::types::{ObjectType, ObjectTypeV};
use crate::value::{Entry, EntryV, StructuredValue, Value};

verus! {

/// The mathematical view of a `Relation`.
pub struct RelationV {
    pub target: ObjectTypeV,
    pub columns: Seq<ColumnV>,
    pub filters: Seq<EntryV>,
}

/// A logical, store-agnostic description of a read query: the target
/// type, the projected columns, and a conjunction of equality filters.
/// Immutable, consumed once per execution.
#[derive(Debug)]
pub struct Relation {
    pub target: ObjectType,
    pub columns: Vec<Column>,
    pub filters: Vec<Entry>,
}

impl View for Relation {
    type V = RelationV;

    open spec fn view(&self) -> RelationV {
        RelationV {
            target: self.target@,
            columns: self.columns.deep_view(),
            filters: self.filters.deep_view(),
        }
    }
}

/// The first `n` projected column names, comma-separated.
pub open spec fn projection_text(cols: Seq<ColumnV>, n: int) -> Seq<char>
    decreases n,
{
    if n <= 0 {
        Seq::empty()
    } else if n == 1 {
        cols[0].name
    } else {
        projection_text(cols, n - 1) + ","@ + cols[n - 1].name
    }
}

/// The first `n` equality conditions, joined by `AND`.
pub open spec fn conditions_text(fs: Seq<EntryV>, n: int) -> Seq<char>
    decreases n,
{
    if n <= 0 {
        Seq::empty()
    } else if n == 1 {
        fs[0].name + " = ?"@
    } else {
        conditions_text(fs, n - 1) + " AND "@ + fs[n - 1].name + " = ?"@
    }
}

/// The complete `SELECT` statement for a relation.
pub open spec fn select_text(r: RelationV) -> Seq<char> {
    "SELECT "@ + projection_text(r.columns, r.columns.len() as int) + " FROM "@
        + r.target.backing_table + if r.filters.len() == 0 {
        Seq::<char>::empty()
    } else {
        " WHERE "@ + conditions_text(r.filters, r.filters.len() as int)
    }
}

/// Compiles a relation to its `SELECT` statement; the filter values
/// become the bound parameters, in filter order.
pub fn compile_relation(rel: &Relation) -> (r: SqlStatement)
    ensures
        r@.sql == select_text(rel@),
        r@.params.len() == rel@.filters.len(),
        forall|i: int|
            0 <= i < rel@.filters.len() ==> #[trigger] r@.params[i] == rel@.filters[i].value,
{
    let n_cols = rel.columns.len();
    let mut proj = String::new();
    let mut i: usize = 0;
    while i < n_cols
        invariant
            i <= n_cols,
            n_cols == rel.columns.len(),
            proj@ == projection_text(rel@.columns, i as int),
        decreases n_cols - i,
    {
        if i > 0 {
            proj.append(",");
        }
        proj.append(rel.columns[i].name.as_str());
        i += 1;
    }
    let n_filters = rel.filters.len();
    let mut conds = String::new();
    let mut params: Vec<Value> = Vec::new();
    let mut k: usize = 0;
    while k < n_filters
        invariant
            k <= n_filters,
            n_filters == rel.filters.len(),
            conds@ == conditions_text(rel@.filters, k as int),
            params.deep_view().len() == k,
            forall|j: int|
                0 <= j < k ==> #[trigger] params.deep_view()[j] == rel@.filters[j].value,
        decreases n_filters - k,
    {
        if k > 0 {
            conds.append(" AND ");
        }
        conds.append(rel.filters[k].name.as_str());
        conds.append(" = ?");
        let ghost prev = params.deep_view();
        let p = rel.filters[k].value.duplicate();
        let ghost pv = p@;
        params.push(p);
        proof {
            assert(params.deep_view() =~= prev.push(pv));
        }
        k += 1;
    }
    let mut sql = String::from_str("SELECT ");
    sql.append(proj.as_str());
    sql.append(" FROM ");
    sql.append(rel.target.backing_table.as_str());
    if n_filters > 0 {
        sql.append(" WHERE ");
        sql.append(conds.as_str());
    }
    SqlStatement { sql, params }
}

/// Tests whether a fetched row is aligned with the declared columns.
/// The embedding application calls this before feeding a row event, so
/// that a malformed row becomes a failure event instead.
pub fn check_row_aligned(columns: &Vec<Column>, row: &Vec<Entry>) -> (r: bool)
    ensures
        r == row_aligned(columns.deep_view(), row.deep_view()),
{
    if columns.len() != row.len() {
        return false;
    }
    let n = columns.len();
    let mut i: usize = 0;
    while i < n
        invariant
            i <= n,
            n == columns.len(),
            n == row.len(),
            forall|j: int|
                0 <= j < i ==> !((#[trigger] columns.deep_view()[j].ty) is Object) && tag_strict(
                    columns.deep_view()[j].ty,
                    row.deep_view()[j].value,
                ),
        decreases n - i,
    {
        let ok = value_tag_strict(&columns[i].ctype, &row[i].value);
        if !ok {
            proof {
                assert(columns.deep_view()[i as int] == columns[i as int]@);
                assert(row.deep_view()[i as int] == row[i as int]@);
                assert(!tag_strict(
                    columns.deep_view()[i as int].ty,
                    row.deep_view()[i as int].value,
                ));
                assert(!row_aligned(columns.deep_view(), row.deep_view()));
            }
            return false;
        }
        proof {
            assert(columns.deep_view()[i as int] == columns[i as int]@);
            assert(row.deep_view()[i as int] == row[i as int]@);
        }
        i += 1;
    }
    true
}

/// The life of one query stream.  A stream is bound to its cursor at
/// construction; it yields rows while bound, and ends either exhausted
/// (the result set ran out) or failed (the store reported an error, which
/// is delivered as the terminal item).
#[derive(Clone, Copy, PartialEq, Eq, Structural, Debug)]
pub enum StreamState {
    Bound,
    Exhausted,
    Failed,
}

/// One event observed by the embedding application while it drives the
/// cursor.
#[derive(Debug)]
pub enum StreamEvent {
    /// The store produced a row.
    Row(Vec<Entry>),
    /// The store reported an error; carries its message.
    Failure(String),
    /// The result set is finished.
    End,
}

/// The verified state machine of one streaming read.  The embedding
/// application owns the store cursor and feeds each observation through
/// `step`; everything the consumer sees comes out of `step`'s result.
#[derive(Debug)]
pub struct QueryStream {
    pub state: StreamState,
    pub columns: Vec<Column>,
}

impl QueryStream {
    /// Binds a stream to the columns its rows are expected to carry.
    pub fn new(columns: Vec<Column>) -> (r: QueryStream)
        ensures
            r.state is Bound,
            r.columns.deep_view() == columns.deep_view(),
    {
        QueryStream { state: StreamState::Bound, columns }
    }

    /// Advances the stream by one observed event.  `None` means the
    /// sequence has ended; after a failure or the end of the result set
    /// no further item is ever produced, whatever else is fed in.
    pub fn step(&mut self, event: StreamEvent) -> (r: Option<Result<StructuredValue, QueryError>>)
        requires
            old(self).state is Bound ==> (event matches StreamEvent::Row(row) ==> row_aligned(
                old(self).columns.deep_view(),
                row.deep_view(),
            )),
        ensures
            final(self).columns.deep_view() == old(self).columns.deep_view(),
            !(old(self).state is Bound) ==> r is None && final(self).state == old(self).state,
            old(self).state is Bound ==> match event {
                StreamEvent::Row(row) => final(self).state is Bound && match r {
                    Option::Some(Result::Ok(sv)) => sv@ == row.deep_view(),
                    _ => false,
                },
                StreamEvent::Failure(msg) => final(self).state is Failed && match r {
                    Option::Some(Result::Err(e)) => e@ == QueryErrorV::ExecuteFailed(msg@),
                    _ => false,
                },
                StreamEvent::End => final(self).state is Exhausted && r is None,
            },
    {
        match self.state {
            StreamState::Bound => match event {
                StreamEvent::Row(row) => {
                    let sv = row_to_structured_value(&self.columns, &row);
                    Option::Some(Result::Ok(sv))
                },
                StreamEvent::Failure(msg) => {
                    self.state = StreamState::Failed;
                    Option::Some(Result::Err(QueryError::ExecuteFailed(msg)))
                },
                StreamEvent::End => {
                    self.state = StreamState::Exhausted;
                    Option::None
                },
            },
            StreamState::Exhausted => Option::None,
            StreamState::Failed => Option::None,
        }
    }
}

} // verus!
