//! The query engine: one facade over the migrator, the row codec and the
//! streaming executor, bound to the active dialect.
//!
//! The engine plans; the embedding application executes.  Connection
//! bootstrap, transaction acquisition and commits are store interactions
//! and live with the application: it runs `create_table`, `drop_table`
//! and `alter_table` statements inside a transaction it owns (so several
//! schema operations can be grouped atomically), runs each `add_row`
//! statement inside a dedicated transaction it opens and commits itself,
//! and drives a `QueryStream` against the pool.

use vstd::prelude::*;

use crate::codec::{all_params_ok, insert_row_sql, insert_text, SqlStatement};
use crate::error::{spec_object_not_implemented, QueryError};
use crate::migrate::{
    alter_supported, alter_table_sql, alter_table_text, create_table_sql, create_table_text,
    drop_table_sql, drop_table_text, has_object_field, spec_alter_not_supported,
};
use crate::stream::{compile_relation, select_text, QueryStream, Relation};
use crate::types::{Kind, ObjectDelta, ObjectType};
use crate::value::StructuredValue;

verus! {

/// The persistence core's engine: plans every statement against the
/// active dialect.
#[derive(Clone, Copy, PartialEq, Eq, Structural, Debug)]
pub struct QueryEngine {
    pub kind: Kind,
}

impl QueryEngine {
    pub fn new(kind: Kind) -> (r: QueryEngine)
        ensures
            r.kind == kind,
    {
        QueryEngine { kind }
    }

    /// Plans the `CREATE TABLE IF NOT EXISTS` statement for `ty`.
    pub fn create_table(&self, ty: &ObjectType) -> (r: Result<String, QueryError>)
        ensures
            r is Ok <==> !has_object_field(ty@.fields),
            r is Ok ==> r->Ok_0@ == create_table_text(ty@),
            r is Err ==> r->Err_0@ == spec_object_not_implemented(),
    {
        create_table_sql(ty)
    }

    /// Plans the `DROP TABLE` statement for `ty`.
    pub fn drop_table(&self, ty: &ObjectType) -> (r: String)
        ensures
            r@ == drop_table_text(ty@),
    {
        drop_table_sql(ty)
    }

    /// Plans the `ALTER TABLE` statement for a delta, or `None` for an
    /// empty delta (success with no statement to run).
    pub fn alter_table(&self, old_ty: &ObjectType, delta: &ObjectDelta) -> (r: Result<
        Option<String>,
        QueryError,
    >)
        ensures
            r is Ok <==> (delta@.added.len() == 0 && delta@.removed.len() == 0) || (
            alter_supported(self.kind, delta@) && !has_object_field(delta@.added)),
            r is Ok ==> ((r->Ok_0 is None) <==> (delta@.added.len() == 0 && delta@.removed.len()
                == 0)),
            r is Ok && r->Ok_0 is Some ==> r->Ok_0->Some_0@ == alter_table_text(old_ty@, delta@),
            r is Err ==> (if !alter_supported(self.kind, delta@) {
                r->Err_0@ == spec_alter_not_supported()
            } else {
                r->Err_0@ == spec_object_not_implemented()
            }),
    {
        alter_table_sql(self.kind, old_ty, delta)
    }

    /// Plans the `INSERT` statement for one structured value.
    pub fn add_row(&self, ty: &ObjectType, ty_value: &StructuredValue) -> (r: Result<
        SqlStatement,
        QueryError,
    >)
        ensures
            r is Ok <==> all_params_ok(ty@, ty_value@),
            r is Ok ==> r->Ok_0@.sql == insert_text(ty@),
            r is Ok ==> r->Ok_0@.params.len() == ty@.fields.len(),
            r is Ok ==> forall|i: int|
                0 <= i < ty@.fields.len() ==> Option::Some(#[trigger] r->Ok_0@.params[i])
                    == crate::codec::field_param(ty@.fields[i], ty_value@),
            r is Err ==> exists|i: int|
                #![auto]
                0 <= i < ty@.fields.len() && crate::codec::field_param(ty@.fields[i], ty_value@)
                    is None && (forall|j: int|
                    0 <= j < i ==> crate::codec::field_param(ty@.fields[j], ty_value@) is Some)
                    && r->Err_0@ == crate::codec::field_bind_err(
                    ty@.fields[i],
                    ty_value@,
                    ty@.name,
                ),
    {
        insert_row_sql(ty, ty_value)
    }

    /// Compiles a relation and binds a fresh stream to its projection.
    /// The relation is consumed: one execution per relation.
    pub fn query_relation(&self, rel: Relation) -> (r: (SqlStatement, QueryStream))
        ensures
            r.0@.sql == select_text(rel@),
            r.0@.params.len() == rel@.filters.len(),
            forall|i: int|
                0 <= i < rel@.filters.len() ==> #[trigger] r.0@.params[i]
                    == rel@.filters[i].value,
            r.1.state is Bound,
            r.1.columns.deep_view() == rel@.columns,
    {
        let stmt = compile_relation(&rel);
        let stream = QueryStream::new(rel.columns);
        (stmt, stream)
    }
}

} // verus!
