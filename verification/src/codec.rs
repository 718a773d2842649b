//! The row codec.
//!
//! The write path turns a structured input value into one `INSERT`
//! statement with bound parameters: one parameter per declared field, in
//! declaration order, taken from the input when present (after a type
//! check) and generated from the field's default text when absent.  The
//! read path turns a result row back into a structured value keyed by the
//! result columns' names.
//!
//! Defaults are applied at write time only: a row written before an
//! additive schema change reads back without the new field, it is not
//! retroactively materialized.

use vstd::prelude::*;

use crate::error::{object_not_implemented, spec_object_not_implemented, QueryError, QueryErrorV};
use crate::text::{
    bool_text_value, check_float_text, int_text_value, is_float_text, is_int_text, parse_bool_text,
    parse_int_text,
};
use crate::types::{Field, FieldType, FieldTypeV, FieldV, ObjectType, ObjectTypeV};
use crate::value::{lookup, Entry, EntryV, StructuredValue, Value, ValueV};

verus! {

/// Whether a stored value is exactly of a field type's native
/// representation.
pub open spec fn tag_strict(t: FieldTypeV, v: ValueV) -> bool {
    match t {
        FieldTypeV::Str => v is Str,
        FieldTypeV::Id => v is Str,
        FieldTypeV::Int => v is Int,
        FieldTypeV::Float => v is Float,
        FieldTypeV::Boolean => v is Bool,
        FieldTypeV::Object => false,
    }
}

/// Whether an input value is acceptable for a field type.  A whole
/// number is acceptable where a float is declared, as any whole JSON
/// number reads as a double.
pub open spec fn tag_matches(t: FieldTypeV, v: ValueV) -> bool {
    tag_strict(t, v) || (t is Float && v is Int)
}

/// Tests whether a stored value is exactly of a field type's native
/// representation.
pub fn value_tag_strict(t: &FieldType, v: &Value) -> (r: bool)
    ensures
        r == tag_strict(t@, v@),
{
    match (t, v) {
        (FieldType::Str, Value::Str(_)) => true,
        (FieldType::Id, Value::Str(_)) => true,
        (FieldType::Int, Value::Int(_)) => true,
        (FieldType::Float, Value::Float(_)) => true,
        (FieldType::Boolean, Value::Bool(_)) => true,
        _ => false,
    }
}

/// The parameter generated from a field's default text, if the text
/// reads as the field's native type.
pub open spec fn default_param(t: FieldTypeV, text: Seq<char>) -> Option<ValueV> {
    match t {
        FieldTypeV::Str => Option::Some(ValueV::Str(text)),
        FieldTypeV::Id => Option::Some(ValueV::Str(text)),
        FieldTypeV::Int => if is_int_text(text) {
            Option::Some(ValueV::Int(int_text_value(text)))
        } else {
            Option::None
        },
        FieldTypeV::Float => if is_float_text(text) {
            Option::Some(ValueV::Float(text))
        } else {
            Option::None
        },
        FieldTypeV::Boolean => match bool_text_value(text) {
            Option::Some(b) => Option::Some(ValueV::Bool(b)),
            Option::None => Option::None,
        },
        FieldTypeV::Object => Option::None,
    }
}

/// The bound parameter for one field of the input value: the input's own
/// value when present and type-correct, the generated default when
/// absent, and nothing when the field cannot be bound.
pub open spec fn field_param(f: FieldV, v: Seq<EntryV>) -> Option<ValueV> {
    if f.ty is Object {
        Option::None
    } else {
        match lookup(v, f.name) {
            Option::Some(val) => if tag_matches(f.ty, val) {
                Option::Some(val)
            } else {
                Option::None
            },
            Option::None => match f.default_value {
                Option::Some(text) => default_param(f.ty, text),
                Option::None => Option::None,
            },
        }
    }
}

/// The error reported when one field cannot be bound: `NotImplemented`
/// for an object-valued field, otherwise `IncompatibleData` naming the
/// field and either the owning type (type mismatch, or no default to
/// generate) or the default text that failed to read.
pub open spec fn field_bind_err(f: FieldV, v: Seq<EntryV>, ty_name: Seq<char>) -> QueryErrorV {
    if f.ty is Object {
        spec_object_not_implemented()
    } else {
        match lookup(v, f.name) {
            Option::Some(_) => QueryErrorV::IncompatibleData(f.name, ty_name),
            Option::None => match f.default_value {
                Option::Some(text) => QueryErrorV::IncompatibleData(f.name, text),
                Option::None => QueryErrorV::IncompatibleData(f.name, ty_name),
            },
        }
    }
}

/// Whether every field of the type can be bound from the input value.
pub open spec fn all_params_ok(t: ObjectTypeV, v: Seq<EntryV>) -> bool {
    forall|i: int| 0 <= i < t.fields.len() ==> (#[trigger] field_param(t.fields[i], v)) is Some
}

/// The first `n` field names, comma-separated.
pub open spec fn names_text(fs: Seq<FieldV>, n: int) -> Seq<char>
    decreases n,
{
    if n <= 0 {
        Seq::empty()
    } else if n == 1 {
        fs[0].name
    } else {
        names_text(fs, n - 1) + ","@ + fs[n - 1].name
    }
}

/// `n` positional placeholders, comma-separated.
pub open spec fn binds_text(n: int) -> Seq<char>
    decreases n,
{
    if n <= 0 {
        Seq::empty()
    } else if n == 1 {
        "?"@
    } else {
        binds_text(n - 1) + ",?"@
    }
}

/// The complete `INSERT` statement for an object type.
pub open spec fn insert_text(t: ObjectTypeV) -> Seq<char> {
    "INSERT INTO "@ + t.backing_table + " ("@ + names_text(t.fields, t.fields.len() as int)
        + ") VALUES ("@ + binds_text(t.fields.len() as int) + ")"@
}

/// The mathematical view of a `SqlStatement`.
pub struct SqlStatementV {
    pub sql: Seq<char>,
    pub params: Seq<ValueV>,
}

/// One finished statement: its text and its bound parameters in
/// positional order.  The embedding application executes it.
#[derive(Clone, PartialEq, Debug)]
pub struct SqlStatement {
    pub sql: String,
    pub params: Vec<Value>,
}

impl View for SqlStatement {
    type V = SqlStatementV;

    open spec fn view(&self) -> SqlStatementV {
        SqlStatementV { sql: self.sql@, params: self.params.deep_view() }
    }
}

/// Binds one field from the input value, or reports why it cannot be
/// bound.
pub fn bind_field(field: &Field, value: &StructuredValue, ty_name: &String) -> (r: Result<
    Value,
    QueryError,
>)
    ensures
        r is Ok <==> field_param(field@, value@) is Some,
        r is Ok ==> Option::Some(r->Ok_0@) == field_param(field@, value@),
        r is Err ==> r->Err_0@ == field_bind_err(field@, value@, ty_name@),
{
    match &field.type_ {
        FieldType::Object(_) => {
            return Result::Err(object_not_implemented());
        },
        _ => {},
    }
    match value.get(&field.name) {
        Option::Some(val) => {
            let ok = match (&field.type_, val) {
                (FieldType::Str, Value::Str(_)) => true,
                (FieldType::Id, Value::Str(_)) => true,
                (FieldType::Int, Value::Int(_)) => true,
                (FieldType::Float, Value::Float(_)) => true,
                (FieldType::Float, Value::Int(_)) => true,
                (FieldType::Boolean, Value::Bool(_)) => true,
                _ => false,
            };
            if ok {
                Result::Ok(val.duplicate())
            } else {
                Result::Err(
                    QueryError::IncompatibleData(field.name.clone(), ty_name.clone()),
                )
            }
        },
        Option::None => {
            match &field.default_value {
                Option::None => Result::Err(
                    QueryError::IncompatibleData(field.name.clone(), ty_name.clone()),
                ),
                Option::Some(text) => {
                    match &field.type_ {
                        FieldType::Str => Result::Ok(Value::Str(text.clone())),
                        FieldType::Id => Result::Ok(Value::Str(text.clone())),
                        FieldType::Int => {
                            match parse_int_text(text.as_str()) {
                                Option::Some(nv) => Result::Ok(Value::Int(nv)),
                                Option::None => Result::Err(
                                    QueryError::IncompatibleData(
                                        field.name.clone(),
                                        text.clone(),
                                    ),
                                ),
                            }
                        },
                        FieldType::Float => {
                            if check_float_text(text.as_str()) {
                                Result::Ok(Value::Float(text.clone()))
                            } else {
                                Result::Err(
                                    QueryError::IncompatibleData(
                                        field.name.clone(),
                                        text.clone(),
                                    ),
                                )
                            }
                        },
                        FieldType::Boolean => {
                            match parse_bool_text(text.as_str()) {
                                Option::Some(b) => Result::Ok(Value::Bool(b)),
                                Option::None => Result::Err(
                                    QueryError::IncompatibleData(
                                        field.name.clone(),
                                        text.clone(),
                                    ),
                                ),
                            }
                        },
                        FieldType::Object(_) => {
                            proof {
                                assert(false);
                            }
                            Result::Err(object_not_implemented())
                        },
                    }
                },
            }
        },
    }
}

/// Builds the `INSERT` statement for one structured value: one bound
/// parameter per field in declaration order.  Fails with the first
/// field's binding error; no statement exists on failure, so nothing can
/// reach the store.
pub fn insert_row_sql(ty: &ObjectType, value: &StructuredValue) -> (r: Result<
    SqlStatement,
    QueryError,
>)
    ensures
        r is Ok <==> all_params_ok(ty@, value@),
        r is Ok ==> r->Ok_0@.sql == insert_text(ty@),
        r is Ok ==> r->Ok_0@.params.len() == ty@.fields.len(),
        r is Ok ==> forall|i: int|
            0 <= i < ty@.fields.len() ==> Option::Some(#[trigger] r->Ok_0@.params[i])
                == field_param(ty@.fields[i], value@),
        r is Err ==> exists|i: int|
            #![auto]
            0 <= i < ty@.fields.len() && field_param(ty@.fields[i], value@) is None && (forall|
                j: int,
            |
                0 <= j < i ==> field_param(ty@.fields[j], value@) is Some) && r->Err_0@
                == field_bind_err(ty@.fields[i], value@, ty@.name),
{
    let n = ty.fields.len();
    let mut params: Vec<Value> = Vec::new();
    let mut i: usize = 0;
    while i < n
        invariant
            i <= n,
            n == ty.fields.len(),
            params.deep_view().len() == i,
            forall|j: int|
                0 <= j < i ==> Option::Some(#[trigger] params.deep_view()[j]) == field_param(
                    ty@.fields[j],
                    value@,
                ),
        decreases n - i,
    {
        match bind_field(&ty.fields[i], value, &ty.name) {
            Result::Ok(p) => {
                let ghost prev = params.deep_view();
                let ghost pv = p@;
                params.push(p);
                proof {
                    assert(params.deep_view() =~= prev.push(pv));
                }
            },
            Result::Err(e) => {
                proof {
                    assert(field_param(ty@.fields[i as int], value@) is None);
                    assert forall|j: int| 0 <= j < i implies (#[trigger] field_param(
                        ty@.fields[j],
                        value@,
                    )) is Some by {
                        assert(Option::Some(params.deep_view()[j]) == field_param(
                            ty@.fields[j],
                            value@,
                        ));
                    }
                    assert(!all_params_ok(ty@, value@));
                }
                return Result::Err(e);
            },
        }
        i += 1;
    }
    proof {
        assert forall|j: int| 0 <= j < ty@.fields.len() implies (#[trigger] field_param(
            ty@.fields[j],
            value@,
        )) is Some by {
            assert(Option::Some(params.deep_view()[j]) == field_param(ty@.fields[j], value@));
        }
        assert(all_params_ok(ty@, value@));
    }
    let mut names = String::new();
    let mut k: usize = 0;
    while k < n
        invariant
            k <= n,
            n == ty.fields.len(),
            names@ == names_text(ty@.fields, k as int),
        decreases n - k,
    {
        if k > 0 {
            names.append(",");
        }
        names.append(ty.fields[k].name.as_str());
        k += 1;
    }
    let mut binds = String::new();
    let mut m: usize = 0;
    while m < n
        invariant
            m <= n,
            binds@ == binds_text(m as int),
        decreases n - m,
    {
        if m > 0 {
            binds.append(",?");
        } else {
            binds.append("?");
        }
        proof {
            assert(binds@ =~= binds_text(m as int + 1));
        }
        m += 1;
    }
    let mut sql = String::from_str("INSERT INTO ");
    sql.append(ty.backing_table.as_str());
    sql.append(" (");
    sql.append(names.as_str());
    sql.append(") VALUES (");
    sql.append(binds.as_str());
    sql.append(")");
    Result::Ok(SqlStatement { sql, params })
}

/// The mathematical view of a `Column`.
pub struct ColumnV {
    pub name: Seq<char>,
    pub ty: FieldTypeV,
}

/// One expected result column: its name and its declared type.
#[derive(Debug)]
pub struct Column {
    pub name: String,
    pub ctype: FieldType,
}

impl View for Column {
    type V = ColumnV;

    open spec fn view(&self) -> ColumnV {
        ColumnV { name: self.name@, ty: self.ctype@ }
    }
}

impl DeepView for Column {
    type V = ColumnV;

    open spec fn deep_view(&self) -> ColumnV {
        self.view()
    }
}

/// The expected columns of a full projection of an object type.
pub open spec fn columns_of(t: ObjectTypeV) -> Seq<ColumnV> {
    Seq::new(t.fields.len(), |i: int| ColumnV { name: t.fields[i].name, ty: t.fields[i].ty })
}

/// Whether a result row is aligned with the declared columns: same
/// length, no object-valued column (the column list must never contain
/// one), and each stored value in the declared type's native
/// representation.
pub open spec fn row_aligned(cols: Seq<ColumnV>, row: Seq<EntryV>) -> bool {
    cols.len() == row.len() && forall|i: int|
        0 <= i < cols.len() ==> !((#[trigger] cols[i].ty) is Object) && tag_strict(
            cols[i].ty,
            row[i].value,
        )
}

/// The read path: turns a result row into a structured value, keyed by
/// the result columns' names, each value coerced to the declared
/// column's native representation.  The declared columns and the row are
/// expected to be aligned positionally; an object-valued declared column
/// would be a logic defect in the caller, not a runtime condition, so
/// alignment is demanded up front.
pub fn row_to_structured_value(columns: &Vec<Column>, row: &Vec<Entry>) -> (r: StructuredValue)
    requires
        row_aligned(columns.deep_view(), row.deep_view()),
    ensures
        r@ == row.deep_view(),
{
    let mut out = StructuredValue::new();
    let n = row.len();
    let mut i: usize = 0;
    while i < n
        invariant
            i <= n,
            n == row.len(),
            out@ == row.deep_view().subrange(0, i as int),
        decreases n - i,
    {
        out.insert(row[i].name.clone(), row[i].value.duplicate());
        proof {
            let pre = row.deep_view().subrange(0, i as int);
            let post = row.deep_view().subrange(0, i as int + 1);
            assert(post =~= pre.push(row.deep_view()[i as int]));
            assert(row.deep_view()[i as int] == EntryV {
                name: row[i as int].name@,
                value: row[i as int].value@,
            });
        }
        i += 1;
    }
    proof {
        assert(row.deep_view().subrange(0, n as int) =~= row.deep_view());
    }
    out
}

} // verus!
