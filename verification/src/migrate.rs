//! The schema migrator: turns an object type or a delta into DDL text.
//!
//! Statement execution belongs to the caller: the embedding application
//! runs the returned text inside a transaction it owns, so several schema
//! operations can be grouped atomically.  Object-valued fields fail with
//! `NotImplemented` before any statement is built, and the dialect's
//! capability table is consulted before an alteration is generated.

use vstd::prelude::*;

use crate::error::{object_not_implemented, spec_object_not_implemented, QueryError, QueryErrorV};
use crate::types::{
    spec_supports_add_column, spec_supports_drop_column, supports_add_column,
    supports_drop_column, Field, FieldType, FieldTypeV, FieldV, Kind, ObjectDelta, ObjectDeltaV, ObjectType,
    ObjectTypeV,
};

verus! {

/// The column type rendered for a field type.  The primary-key field is
/// text with its unique and primary-key constraints attached.
pub open spec fn type_sql(t: FieldTypeV) -> Seq<char> {
    match t {
        FieldTypeV::Str => "text"@,
        FieldTypeV::Int => "integer"@,
        FieldTypeV::Float => "double"@,
        FieldTypeV::Boolean => "boolean"@,
        FieldTypeV::Id => "text UNIQUE PRIMARY KEY"@,
        FieldTypeV::Object => ""@,
    }
}

/// One column definition: the field name, a space, the column type.
pub open spec fn col_sql(f: FieldV) -> Seq<char> {
    f.name + " "@ + type_sql(f.ty)
}

/// The first `n` column definitions, comma-separated.
pub open spec fn cols_text(fs: Seq<FieldV>, n: int) -> Seq<char>
    decreases n,
{
    if n <= 0 {
        Seq::empty()
    } else if n == 1 {
        col_sql(fs[0])
    } else {
        cols_text(fs, n - 1) + ", "@ + col_sql(fs[n - 1])
    }
}

/// The complete `CREATE TABLE` statement for an object type.
pub open spec fn create_table_text(t: ObjectTypeV) -> Seq<char> {
    "CREATE TABLE IF NOT EXISTS "@ + t.backing_table + " ("@ + cols_text(
        t.fields,
        t.fields.len() as int,
    ) + ")"@
}

/// The complete `DROP TABLE` statement for an object type.
pub open spec fn drop_table_text(t: ObjectTypeV) -> Seq<char> {
    "DROP TABLE "@ + t.backing_table
}

pub open spec fn has_object_field(fs: Seq<FieldV>) -> bool {
    exists|i: int| 0 <= i < fs.len() && (#[trigger] fs[i].ty) is Object
}

/// The first `n` `ADD COLUMN` clauses, comma-separated.
pub open spec fn add_clauses_text(fs: Seq<FieldV>, n: int) -> Seq<char>
    decreases n,
{
    if n <= 0 {
        Seq::empty()
    } else if n == 1 {
        "ADD COLUMN "@ + col_sql(fs[0])
    } else {
        add_clauses_text(fs, n - 1) + ", "@ + "ADD COLUMN "@ + col_sql(fs[n - 1])
    }
}

/// The first `n` `DROP COLUMN` clauses, comma-separated.
pub open spec fn drop_clauses_text(fs: Seq<FieldV>, n: int) -> Seq<char>
    decreases n,
{
    if n <= 0 {
        Seq::empty()
    } else if n == 1 {
        "DROP COLUMN "@ + fs[0].name
    } else {
        drop_clauses_text(fs, n - 1) + ", "@ + "DROP COLUMN "@ + fs[n - 1].name
    }
}

/// All alteration clauses of a delta: additions first, then removals.
pub open spec fn alter_clauses_text(d: ObjectDeltaV) -> Seq<char> {
    if d.added.len() == 0 {
        drop_clauses_text(d.removed, d.removed.len() as int)
    } else if d.removed.len() == 0 {
        add_clauses_text(d.added, d.added.len() as int)
    } else {
        add_clauses_text(d.added, d.added.len() as int) + ", "@ + drop_clauses_text(
            d.removed,
            d.removed.len() as int,
        )
    }
}

/// The complete `ALTER TABLE` statement for a non-empty delta.
pub open spec fn alter_table_text(t: ObjectTypeV, d: ObjectDeltaV) -> Seq<char> {
    "ALTER TABLE "@ + t.backing_table + " "@ + alter_clauses_text(d)
}

/// Whether the dialect's capability table allows every operation the
/// delta asks for.
pub open spec fn alter_supported(k: Kind, d: ObjectDeltaV) -> bool {
    (d.added.len() > 0 ==> spec_supports_add_column(k)) && (d.removed.len() > 0
        ==> spec_supports_drop_column(k))
}

/// The error reported when the active dialect cannot express the
/// requested alteration.
pub open spec fn spec_alter_not_supported() -> QueryErrorV {
    QueryErrorV::NotImplemented("table alteration on this dialect"@)
}

pub fn alter_not_supported() -> (r: QueryError)
    ensures
        r@ == spec_alter_not_supported(),
{
    QueryError::NotImplemented(String::from_str("table alteration on this dialect"))
}

/// Renders one column definition.  An object-valued field is rejected
/// before any text is built.
pub fn column_sql(field: &Field) -> (r: Result<String, QueryError>)
    ensures
        r is Ok <==> !(field@.ty is Object),
        r is Ok ==> r->Ok_0@ == col_sql(field@),
        r is Err ==> r->Err_0@ == spec_object_not_implemented(),
{
    let type_text: &str = match &field.type_ {
        FieldType::Str => "text",
        FieldType::Int => "integer",
        FieldType::Float => "double",
        FieldType::Boolean => "boolean",
        FieldType::Id => "text UNIQUE PRIMARY KEY",
        FieldType::Object(_) => {
            return Result::Err(object_not_implemented());
        },
    };
    let mut s = field.name.clone();
    s.append(" ");
    s.append(type_text);
    Result::Ok(s)
}

/// Emits the `CREATE TABLE IF NOT EXISTS` statement for `ty`, one column
/// per field in declaration order.  Fails with `NotImplemented` if any
/// field is object-valued, before any statement text exists.
pub fn create_table_sql(ty: &ObjectType) -> (r: Result<String, QueryError>)
    ensures
        r is Ok <==> !has_object_field(ty@.fields),
        r is Ok ==> r->Ok_0@ == create_table_text(ty@),
        r is Err ==> r->Err_0@ == spec_object_not_implemented(),
{
    let n = ty.fields.len();
    let mut cols = String::new();
    let mut i: usize = 0;
    while i < n
        invariant
            i <= n,
            n == ty.fields.len(),
            forall|j: int| 0 <= j < i ==> !((#[trigger] ty@.fields[j].ty) is Object),
            cols@ == cols_text(ty@.fields, i as int),
        decreases n - i,
    {
        match column_sql(&ty.fields[i]) {
            Result::Err(e) => {
                assert(ty@.fields[i as int].ty is Object);
                return Result::Err(e);
            },
            Result::Ok(c) => {
                if i > 0 {
                    cols.append(", ");
                }
                cols.append(c.as_str());
            },
        }
        i += 1;
    }
    let mut sql = String::from_str("CREATE TABLE IF NOT EXISTS ");
    sql.append(ty.backing_table.as_str());
    sql.append(" (");
    sql.append(cols.as_str());
    sql.append(")");
    Result::Ok(sql)
}

/// Emits the `DROP TABLE` statement for `ty`.
pub fn drop_table_sql(ty: &ObjectType) -> (r: String)
    ensures
        r@ == drop_table_text(ty@),
{
    let mut sql = String::from_str("DROP TABLE ");
    sql.append(ty.backing_table.as_str());
    sql
}

/// Emits the `ALTER TABLE` statement for a delta against `old_ty`, or
/// `None` when the delta adds and removes nothing: modifications alone
/// need no DDL, so an empty alteration succeeds without a statement.
/// The dialect's capability table is consulted before any text is built,
/// and object-valued added fields are rejected with `NotImplemented`.
pub fn alter_table_sql(kind: Kind, old_ty: &ObjectType, delta: &ObjectDelta) -> (r: Result<
    Option<String>,
    QueryError,
>)
    ensures
        r is Ok <==> (delta@.added.len() == 0 && delta@.removed.len() == 0) || (alter_supported(
            kind,
            delta@,
        ) && !has_object_field(delta@.added)),
        r is Ok ==> ((r->Ok_0 is None) <==> (delta@.added.len() == 0 && delta@.removed.len()
            == 0)),
        r is Ok && r->Ok_0 is Some ==> r->Ok_0->Some_0@ == alter_table_text(old_ty@, delta@),
        r is Err ==> (if !alter_supported(kind, delta@) {
            r->Err_0@ == spec_alter_not_supported()
        } else {
            r->Err_0@ == spec_object_not_implemented()
        }),
{
    let n_add = delta.added_fields.len();
    let n_rem = delta.removed_fields.len();
    if n_add == 0 && n_rem == 0 {
        return Result::Ok(Option::None);
    }
    if n_add > 0 && !supports_add_column(kind) {
        return Result::Err(alter_not_supported());
    }
    if n_rem > 0 && !supports_drop_column(kind) {
        return Result::Err(alter_not_supported());
    }
    let mut adds = String::new();
    let mut i: usize = 0;
    while i < n_add
        invariant
            i <= n_add,
            n_add == delta.added_fields.len(),
            forall|j: int| 0 <= j < i ==> !((#[trigger] delta@.added[j].ty) is Object),
            adds@ == add_clauses_text(delta@.added, i as int),
        decreases n_add - i,
    {
        match column_sql(&delta.added_fields[i]) {
            Result::Err(e) => {
                assert(delta@.added[i as int].ty is Object);
                return Result::Err(e);
            },
            Result::Ok(c) => {
                if i > 0 {
                    adds.append(", ");
                }
                adds.append("ADD COLUMN ");
                adds.append(c.as_str());
            },
        }
        i += 1;
    }
    let mut drops = String::new();
    let mut k: usize = 0;
    while k < n_rem
        invariant
            k <= n_rem,
            n_rem == delta.removed_fields.len(),
            drops@ == drop_clauses_text(delta@.removed, k as int),
        decreases n_rem - k,
    {
        if k > 0 {
            drops.append(", ");
        }
        drops.append("DROP COLUMN ");
        drops.append(delta.removed_fields[k].name.as_str());
        k += 1;
    }
    let mut sql = String::from_str("ALTER TABLE ");
    sql.append(old_ty.backing_table.as_str());
    sql.append(" ");
    if n_add > 0 {
        sql.append(adds.as_str());
    }
    if n_add > 0 && n_rem > 0 {
        sql.append(", ");
    }
    if n_rem > 0 {
        sql.append(drops.as_str());
    }
    Result::Ok(Option::Some(sql))
}

} // verus!
