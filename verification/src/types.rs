//! The schema-as-data model: dialects, field types, fields, object types
//! and deltas between two versions of an object type.
//!
//! These values are produced by an external type compiler and consumed
//! read-only here.  An `ObjectType` is immutable once constructed; schema
//! evolution supersedes it with a new `ObjectType` plus an `ObjectDelta`.

use vstd::prelude::*;

verus! {

/// The active backing-store dialect.  It decides which structural
/// alterations may be expressed against the store.
#[derive(Clone, Copy, PartialEq, Eq, Structural, Debug)]
pub enum Kind {
    /// An embedded file store with a restricted `ALTER TABLE` grammar.
    Sqlite,
    /// A client-server store with the full `ALTER TABLE` grammar.
    Postgres,
}

/// Capability table: whether the dialect can add a column to an existing
/// table.  Both supported dialects can.
pub open spec fn spec_supports_add_column(k: Kind) -> bool {
    match k {
        Kind::Sqlite => true,
        Kind::Postgres => true,
    }
}

/// Capability table: whether the dialect can drop a column that is not
/// part of a key or relation constraint.  Both supported dialects can;
/// the embedded store documents exactly this subset as safe.
pub open spec fn spec_supports_drop_column(k: Kind) -> bool {
    match k {
        Kind::Sqlite => true,
        Kind::Postgres => true,
    }
}

/// Capability table: whether the dialect can change the type or the
/// constraints of an existing column in place.  The embedded store
/// cannot, and the migrator never asks either dialect to.
pub open spec fn spec_supports_modify_column(k: Kind) -> bool {
    match k {
        Kind::Sqlite => false,
        Kind::Postgres => true,
    }
}

pub fn supports_add_column(k: Kind) -> (r: bool)
    ensures
        r == spec_supports_add_column(k),
{
    match k {
        Kind::Sqlite => true,
        Kind::Postgres => true,
    }
}

pub fn supports_drop_column(k: Kind) -> (r: bool)
    ensures
        r == spec_supports_drop_column(k),
{
    match k {
        Kind::Sqlite => true,
        Kind::Postgres => true,
    }
}

pub fn supports_modify_column(k: Kind) -> (r: bool)
    ensures
        r == spec_supports_modify_column(k),
{
    match k {
        Kind::Sqlite => false,
        Kind::Postgres => true,
    }
}

/// The type of a field.  `Object` declares a nested object-valued field;
/// the persistence layer rejects it before building any statement, so its
/// mathematical view keeps only the tag and drops the nested type.
#[derive(Debug)]
pub enum FieldType {
    Str,
    Int,
    Float,
    Boolean,
    Id,
    Object(Box<ObjectType>),
}

/// The mathematical view of a `FieldType`: the tag alone.
#[derive(PartialEq, Eq, Structural)]
pub enum FieldTypeV {
    Str,
    Int,
    Float,
    Boolean,
    Id,
    Object,
}

impl View for FieldType {
    type V = FieldTypeV;

    open spec fn view(&self) -> FieldTypeV {
        match self {
            FieldType::Str => FieldTypeV::Str,
            FieldType::Int => FieldTypeV::Int,
            FieldType::Float => FieldTypeV::Float,
            FieldType::Boolean => FieldTypeV::Boolean,
            FieldType::Id => FieldTypeV::Id,
            FieldType::Object(_) => FieldTypeV::Object,
        }
    }
}

/// One declared field of an object type.  `default_value` is the field's
/// value generator, expressed as text; it is consulted only at the write
/// path boundary when the input omits the field.
#[derive(Debug)]
pub struct Field {
    pub name: String,
    pub type_: FieldType,
    pub is_unique: bool,
    pub is_optional: bool,
    pub labels: Vec<String>,
    pub default_value: Option<String>,
}

/// The mathematical view of a `Field`.
pub struct FieldV {
    pub name: Seq<char>,
    pub ty: FieldTypeV,
    pub is_unique: bool,
    pub is_optional: bool,
    pub labels: Seq<Seq<char>>,
    pub default_value: Option<Seq<char>>,
}

impl View for Field {
    type V = FieldV;

    open spec fn view(&self) -> FieldV {
        FieldV {
            name: self.name@,
            ty: self.type_@,
            is_unique: self.is_unique,
            is_optional: self.is_optional,
            labels: self.labels.deep_view(),
            default_value: match self.default_value {
                Option::Some(s) => Option::Some(s@),
                Option::None => Option::None,
            },
        }
    }
}

impl DeepView for Field {
    type V = FieldV;

    open spec fn deep_view(&self) -> FieldV {
        self.view()
    }
}

/// The mathematical view of an `ObjectType`.
pub struct ObjectTypeV {
    pub name: Seq<char>,
    pub backing_table: Seq<char>,
    pub fields: Seq<FieldV>,
}

impl ObjectTypeV {
    /// Well-formedness: field names are pairwise distinct.
    pub open spec fn wf(self) -> bool {
        forall|i: int, j: int|
            0 <= i < j < self.fields.len() ==> self.fields[i].name != self.fields[j].name
    }
}

/// The deterministic derivation of a backing-table name from a type name.
pub open spec fn spec_backing_table_name(name: Seq<char>) -> Seq<char> {
    "ty_"@ + name
}

/// A named entity with an ordered, name-unique set of fields and a
/// derived backing-table name.
#[derive(Debug)]
pub struct ObjectType {
    pub name: String,
    pub backing_table: String,
    pub fields: Vec<Field>,
}

impl View for ObjectType {
    type V = ObjectTypeV;

    open spec fn view(&self) -> ObjectTypeV {
        ObjectTypeV {
            name: self.name@,
            backing_table: self.backing_table@,
            fields: self.fields.deep_view(),
        }
    }
}

impl ObjectType {
    /// Constructs an object type from its name and its ordered fields.
    /// The backing-table name is derived from the type's identity.
    pub fn new(name: String, fields: Vec<Field>) -> (r: ObjectType)
        requires
            forall|i: int, j: int|
                0 <= i < j < fields.deep_view().len()
                    ==> fields.deep_view()[i].name != fields.deep_view()[j].name,
        ensures
            r@.name == name@,
            r@.fields == fields.deep_view(),
            r@.backing_table == spec_backing_table_name(name@),
            r@.wf(),
    {
        let mut table = String::from_str("ty_");
        table.append(name.as_str());
        ObjectType { name, backing_table: table, fields }
    }

    pub fn name(&self) -> (r: &String)
        ensures
            r@ == self@.name,
    {
        &self.name
    }

    pub fn backing_table(&self) -> (r: &String)
        ensures
            r@ == self@.backing_table,
    {
        &self.backing_table
    }

    pub fn all_fields(&self) -> (r: &Vec<Field>)
        ensures
            r.deep_view() == self@.fields,
    {
        &self.fields
    }
}

/// The mathematical view of an `ObjectDelta`.
pub struct ObjectDeltaV {
    pub added: Seq<FieldV>,
    pub removed: Seq<FieldV>,
    pub modified: Seq<FieldV>,
}

/// The field-level difference between two versions of an object type,
/// computed by an external diff.  Modified fields never require DDL here:
/// the supported modifications (such as a changed default) are applied at
/// the layer above the store.
#[derive(Debug)]
pub struct ObjectDelta {
    pub added_fields: Vec<Field>,
    pub removed_fields: Vec<Field>,
    pub modified_fields: Vec<Field>,
}

impl View for ObjectDelta {
    type V = ObjectDeltaV;

    open spec fn view(&self) -> ObjectDeltaV {
        ObjectDeltaV {
            added: self.added_fields.deep_view(),
            removed: self.removed_fields.deep_view(),
            modified: self.modified_fields.deep_view(),
        }
    }
}

} // verus!
